//! What holds of every window, whatever comes in.

use vstd::prelude::*;
use crate::context::{Buffer, ContextCommand};
use crate::event::{F32Bits, WindowEvent};
use crate::frame::{Collaborators, Extent, FrameCommand, Target};
use crate::model::{
    after_dispatch, after_events, after_frame, camera_commands, clear_commands, dispatch_commands,
    draw_commands, effect_commands, event_commands, events_commands, focus_at, frame_commands,
    overlay_commands, render_commands, scene_target, swallowed, WindowModel,
};
use crate::ui::UiFocus;
use crate::window::{RenderMode, ONE_BITS};

verus! {

/// Events touch nothing but the close flag and the two sizes: the mode, the
/// light, the background, the ceiling on the frame rate and the events that
/// wait are the same after any number of events. And where the viewport
/// and the offscreen target had one size before, they have one size after.
pub proof fn lemma_events_leave_the_rest(w: WindowModel, events: Seq<WindowEvent>, n: nat)
    requires
        n <= events.len(),
    ensures
        after_events(w, events, n) == (WindowModel {
            should_close: after_events(w, events, n).should_close,
            viewport: after_events(w, events, n).viewport,
            post_process_render_target: after_events(w, events, n).post_process_render_target,
            ..w
        }),
        w.viewport == w.post_process_render_target ==> after_events(w, events, n).viewport
            == after_events(w, events, n).post_process_render_target,
    decreases n,
{
    if n > 0 {
        lemma_events_leave_the_rest(w, events, (n - 1) as nat);
    }
}

/// After any events, the viewport and the offscreen target have the size
/// that the last resize event among them gave: here event `k` is a resize
/// event and none follows it among the first `n`.
pub proof fn lemma_sizes_follow_the_last_resize(
    w: WindowModel,
    events: Seq<WindowEvent>,
    n: nat,
    k: int,
    width: u32,
    height: u32,
)
    requires
        n <= events.len(),
        0 <= k < n,
        events[k] == WindowEvent::FramebufferSize(width, height),
        forall|j: int| k < j < n ==> !(#[trigger] events[j] is FramebufferSize),
    ensures
        after_events(w, events, n).viewport == (Extent { width, height }),
        after_events(w, events, n).post_process_render_target == (Extent { width, height }),
    decreases n,
{
    if k < n - 1 {
        lemma_sizes_follow_the_last_resize(w, events, (n - 1) as nat, k, width, height);
    }
}

/// Where no resize event is among the events, both sizes stay as they were.
pub proof fn lemma_sizes_stay_without_resize(w: WindowModel, events: Seq<WindowEvent>, n: nat)
    requires
        n <= events.len(),
        forall|j: int| 0 <= j < n ==> !(#[trigger] events[j] is FramebufferSize),
    ensures
        after_events(w, events, n).viewport == w.viewport,
        after_events(w, events, n).post_process_render_target == w.post_process_render_target,
    decreases n,
{
    if n > 0 {
        lemma_sizes_stay_without_resize(w, events, (n - 1) as nat);
    }
}

/// After a dispatch pass, the viewport and the offscreen target have the size
/// of the last resize event that was pending.
pub proof fn lemma_dispatch_applies_the_last_resize(w: WindowModel, k: int, width: u32, height: u32)
    requires
        0 <= k < w.pending().len(),
        w.pending()[k] == WindowEvent::FramebufferSize(width, height),
        forall|j: int| k < j < w.pending().len() ==> !(#[trigger] w.pending()[j] is FramebufferSize),
    ensures
        after_dispatch(w).viewport == (Extent { width, height }),
        after_dispatch(w).post_process_render_target == (Extent { width, height }),
{
    lemma_sizes_follow_the_last_resize(w, w.pending(), w.pending().len(), k, width, height);
}

/// Whether one of the first `n` of `events` asks the window to close.
pub open spec fn asks_to_close(events: Seq<WindowEvent>, n: nat) -> bool {
    exists|k: int| 0 <= k < n && (#[trigger] events[k]).spec_is_close_request()
}

/// The close flag is set after some events exactly if it was set before or
/// one of the events asked for it. Once set it stays set.
pub proof fn lemma_close_flag(w: WindowModel, events: Seq<WindowEvent>, n: nat)
    requires
        n <= events.len(),
    ensures
        after_events(w, events, n).should_close <==> w.should_close || asks_to_close(events, n),
    decreases n,
{
    if n > 0 {
        lemma_close_flag(w, events, (n - 1) as nat);
        if asks_to_close(events, (n - 1) as nat) {
            let k = choose|k: int| 0 <= k < n - 1 && (#[trigger] events[k]).spec_is_close_request();
            assert(events[k].spec_is_close_request());
        }
        if asks_to_close(events, n) && !events[n - 1].spec_is_close_request() {
            let k = choose|k: int| 0 <= k < n && (#[trigger] events[k]).spec_is_close_request();
            assert(events[k].spec_is_close_request() && k < n - 1);
        }
    }
}

/// A pending request to close, be it a close event or the release of the
/// Escape key, makes the turn that dispatches it the last one: the window is
/// closed after it, and a closed window gives no command in any later turn,
/// so nothing is drawn any more, and stays as it is.
pub proof fn lemma_close_request_ends_the_cycle(
    w: WindowModel,
    k: int,
    slots: Collaborators,
    width: u32,
    height: u32,
    dt: F32Bits,
    focus: Seq<UiFocus>,
)
    requires
        0 <= k < w.pending().len(),
        w.pending()[k].spec_is_close_request(),
    ensures
        after_frame(w).should_close,
        frame_commands(after_frame(w), slots, width, height, dt, focus) == Seq::<
            FrameCommand,
        >::empty(),
        after_frame(after_frame(w)) == after_frame(w),
{
    lemma_close_flag(w, w.pending(), w.pending().len());
}

/// An open window is open after a turn exactly if no pending event asked it
/// to close.
pub proof fn lemma_open_window_closes_on_request_only(w: WindowModel)
    requires
        !w.should_close,
    ensures
        after_frame(w).should_close <==> asks_to_close(w.pending(), w.pending().len()),
{
    lemma_close_flag(w, w.pending(), w.pending().len());
}

/// The commands of a pass grow event by event: those of the first `n`
/// events are the beginning of those of the first `m`, for `n` up to `m`.
pub proof fn lemma_commands_grow(
    w: WindowModel,
    slots: Collaborators,
    events: Seq<WindowEvent>,
    focus: Seq<UiFocus>,
    n: nat,
    m: nat,
)
    requires
        n <= m <= events.len(),
    ensures
        events_commands(w, slots, events, focus, n).is_prefix_of(
            events_commands(w, slots, events, focus, m),
        ),
    decreases m,
{
    if n < m {
        lemma_commands_grow(w, slots, events, focus, n, (m - 1) as nat);
    }
}

/// The commands of a pass stand in the order of the events: those of event
/// `i` follow those of all earlier events, without a gap, and are what the
/// event gives rise to in the window that the earlier events left.
pub proof fn lemma_commands_are_in_event_order(
    w: WindowModel,
    slots: Collaborators,
    events: Seq<WindowEvent>,
    focus: Seq<UiFocus>,
    n: nat,
    i: nat,
)
    requires
        i < n <= events.len(),
    ensures
        ({
            let all = events_commands(w, slots, events, focus, n);
            let from = events_commands(w, slots, events, focus, i).len() as int;
            let to = events_commands(w, slots, events, focus, i + 1).len() as int;
            &&& from <= to <= all.len()
            &&& all.subrange(from, to) == event_commands(
                after_events(w, events, i),
                slots,
                events[i as int],
                focus_at(focus, i as int),
            )
        }),
{
    lemma_commands_grow(w, slots, events, focus, i + 1, n);
    let all = events_commands(w, slots, events, focus, n);
    let before = events_commands(w, slots, events, focus, i);
    let upto = events_commands(w, slots, events, focus, i + 1);
    let own = event_commands(
        after_events(w, events, i),
        slots,
        events[i as int],
        focus_at(focus, i as int),
    );
    assert forall|k: int| 0 <= k < own.len() implies all.subrange(
        before.len() as int,
        upto.len() as int,
    )[k] == own[k] by {
        assert(all.subrange(0, upto.len() as int)[before.len() + k] == upto[before.len() + k]);
    }
}

/// An event that was put off is dispatched strictly before any fresh event
/// of the same pass: among the pending events it stands first, and all its
/// commands stand before all commands of the fresh event.
pub proof fn lemma_deferred_events_come_first(
    w: WindowModel,
    slots: Collaborators,
    focus: Seq<UiFocus>,
    i: nat,
    j: nat,
)
    requires
        i < w.unhandled_events.len(),
        j < w.events.len(),
    ensures
        w.pending()[i as int] == w.unhandled_events[i as int],
        w.pending()[(w.unhandled_events.len() + j) as int] == w.events[j as int],
        events_commands(w, slots, w.pending(), focus, i + 1).len() <= events_commands(
            w,
            slots,
            w.pending(),
            focus,
            w.unhandled_events.len() + j,
        ).len(),
{
    lemma_commands_grow(w, slots, w.pending(), focus, i + 1, w.unhandled_events.len() + j);
}

/// Events go to the camera of the current mode only: while the 2D scene is
/// shown no event reaches the 3D camera, and the other way round. The camera
/// that is addressed gets the event as it came.
pub proof fn lemma_event_goes_to_the_current_camera(
    w: WindowModel,
    slots: Collaborators,
    event: WindowEvent,
    focus: Option<UiFocus>,
    i: int,
)
    requires
        0 <= i < event_commands(w, slots, event, focus).len(),
    ensures
        ({
            let command = event_commands(w, slots, event, focus)[i];
            &&& command is CameraEvent ==> w.rendering_mode == RenderMode::ThreeD && command
                == FrameCommand::CameraEvent(event)
            &&& command is PlanarCameraEvent ==> w.rendering_mode == RenderMode::TwoD && command
                == FrameCommand::PlanarCameraEvent(event)
        }),
{
}

/// An event that neither asks to close nor is kept by the interface reaches
/// the camera of the current mode, where the caller brought that camera.
pub proof fn lemma_event_reaches_the_current_camera(
    w: WindowModel,
    slots: Collaborators,
    event: WindowEvent,
    focus: Option<UiFocus>,
)
    requires
        !event.spec_is_close_request(),
        !swallowed(event, focus),
    ensures
        w.rendering_mode == RenderMode::ThreeD && slots.camera ==> event_commands(
            w,
            slots,
            event,
            focus,
        ).last() == FrameCommand::CameraEvent(event),
        w.rendering_mode == RenderMode::TwoD && slots.planar_camera ==> event_commands(
            w,
            slots,
            event,
            focus,
        ).last() == FrameCommand::PlanarCameraEvent(event),
{
}

/// A whole dispatch pass addresses the camera of the current mode only.
pub proof fn lemma_dispatch_addresses_the_current_camera(
    w: WindowModel,
    slots: Collaborators,
    events: Seq<WindowEvent>,
    focus: Seq<UiFocus>,
    n: nat,
    i: int,
)
    requires
        n <= events.len(),
        0 <= i < events_commands(w, slots, events, focus, n).len(),
    ensures
        ({
            let command = events_commands(w, slots, events, focus, n)[i];
            &&& command is CameraEvent ==> w.rendering_mode == RenderMode::ThreeD
            &&& command is PlanarCameraEvent ==> w.rendering_mode == RenderMode::TwoD
        }),
    decreases n,
{
    if n > 0 {
        let before = events_commands(w, slots, events, focus, (n - 1) as nat);
        lemma_events_leave_the_rest(w, events, (n - 1) as nat);
        if i < before.len() {
            lemma_dispatch_addresses_the_current_camera(w, slots, events, focus, (n - 1) as nat, i);
        } else {
            lemma_event_goes_to_the_current_camera(
                after_events(w, events, (n - 1) as nat),
                slots,
                events[n - 1],
                focus_at(focus, n - 1),
                i - before.len(),
            );
        }
    }
}

/// How many cameras the caller brought.
pub open spec fn cameras(slots: Collaborators) -> int {
    (if slots.planar_camera {
        1int
    } else {
        0int
    }) + (if slots.camera {
        1int
    } else {
        0int
    })
}

/// Where the commands for the cameras end in a frame, and the rest of the
/// frame begins: each camera that is there has two commands.
pub open spec fn after_cameras(slots: Collaborators) -> int {
    2 * cameras(slots)
}

/// Every frame that is rendered clears the target to the background colour
/// of the window, then clears the depth buffer, and in the end presents the
/// frame, whatever the caller brought.
pub proof fn lemma_every_frame_clears_and_presents(
    w: WindowModel,
    slots: Collaborators,
    width: u32,
    height: u32,
    dt: F32Bits,
)
    ensures
        ({
            let commands = render_commands(w, slots, width, height, dt);
            let rest = after_cameras(slots);
            &&& camera_commands(slots, width, height).len() == rest
            &&& commands.len() >= rest + 8
            &&& commands[rest] == FrameCommand::SelectTarget(scene_target(slots))
            &&& commands[rest + 1] == FrameCommand::Context(ContextCommand::ActiveTexture(0))
            &&& commands[rest + 2] == FrameCommand::Context(
                ContextCommand::ClearColor(
                    w.background.r,
                    w.background.g,
                    w.background.b,
                    F32Bits { bits: ONE_BITS },
                ),
            )
            &&& commands[rest + 3] == FrameCommand::Context(ContextCommand::Clear(Buffer::Color))
            &&& commands[rest + 4] == FrameCommand::Context(ContextCommand::Clear(Buffer::Depth))
            &&& commands[commands.len() - 2] == FrameCommand::SwapBuffers
            &&& commands[commands.len() - 1] == FrameCommand::Throttle
        }),
{
}

/// In a frame at most one renderer draws: the one of the current mode, if
/// the caller brought it, right after the target is cleared. Where the
/// caller did not bring it, nothing is drawn.
pub proof fn lemma_only_the_current_renderer_draws(
    w: WindowModel,
    slots: Collaborators,
    width: u32,
    height: u32,
    dt: F32Bits,
    i: int,
)
    requires
        0 <= i < render_commands(w, slots, width, height, dt).len(),
    ensures
        ({
            let command = render_commands(w, slots, width, height, dt)[i];
            let place = after_cameras(slots) + 5;
            &&& command is Render ==> w.rendering_mode == RenderMode::ThreeD && slots.renderer && i
                == place && command == (FrameCommand::Render { pass: 1 })
            &&& command is RenderPlanar ==> w.rendering_mode == RenderMode::TwoD
                && slots.planar_renderer && i == place
            &&& w.rendering_mode == RenderMode::ThreeD && slots.renderer && i == place ==> command
                is Render
            &&& w.rendering_mode == RenderMode::TwoD && slots.planar_renderer && i == place
                ==> command is RenderPlanar
        }),
{
}

/// In a frame each camera that the caller brought updates itself exactly
/// once, whatever the mode, and a camera that is missing is not addressed:
/// the 2D camera updates at one place of the frame, the 3D camera right
/// after, and neither anywhere else.
pub proof fn lemma_each_camera_updates_once(
    w: WindowModel,
    slots: Collaborators,
    width: u32,
    height: u32,
    dt: F32Bits,
    i: int,
)
    requires
        0 <= i < render_commands(w, slots, width, height, dt).len(),
    ensures
        ({
            let command = render_commands(w, slots, width, height, dt)[i];
            let planar_place = cameras(slots);
            let place = cameras(slots) + (if slots.planar_camera {
                1int
            } else {
                0int
            });
            &&& command == FrameCommand::UpdatePlanarCamera <==> slots.planar_camera && i
                == planar_place
            &&& command == FrameCommand::UpdateCamera <==> slots.camera && i == place
            &&& slots.planar_camera ==> planar_place < render_commands(
                w,
                slots,
                width,
                height,
                dt,
            ).len()
            &&& slots.camera ==> place < render_commands(w, slots, width, height, dt).len()
            &&& command is PlanarCameraEvent ==> slots.planar_camera
            &&& command is CameraEvent ==> slots.camera
        }),
{
    let refresh = camera_commands(slots, width, height);
    lemma_frame_begins_with_the_cameras(w, slots, width, height, dt);
    if i < refresh.len() {
        lemma_cameras_are_refreshed(slots, width, height, i);
    } else {
        lemma_scene_addresses_no_camera(w, slots, width, height, dt, i - refresh.len());
    }
    if slots.planar_camera {
        lemma_cameras_are_refreshed(slots, width, height, cameras(slots));
    }
    if slots.camera {
        lemma_cameras_are_refreshed(slots, width, height, after_cameras(slots) - 1);
    }
}

/// What follows the commands for the cameras in a frame.
pub open spec fn scene_commands(
    w: WindowModel,
    slots: Collaborators,
    width: u32,
    height: u32,
    dt: F32Bits,
) -> Seq<FrameCommand> {
    seq![FrameCommand::SelectTarget(scene_target(slots))] + clear_commands(w.background)
        + draw_commands(w.rendering_mode, slots) + effect_commands(slots, width, height, dt)
        + overlay_commands(slots, width, height) + seq![
        FrameCommand::SwapBuffers,
        FrameCommand::Throttle,
    ]
}

/// A frame begins with the commands for the cameras, and the rest follows.
pub proof fn lemma_frame_begins_with_the_cameras(
    w: WindowModel,
    slots: Collaborators,
    width: u32,
    height: u32,
    dt: F32Bits,
)
    ensures
        render_commands(w, slots, width, height, dt) == camera_commands(slots, width, height)
            + scene_commands(w, slots, width, height, dt),
{
    lemma_first_part_splits_off(
        camera_commands(slots, width, height),
        seq![FrameCommand::SelectTarget(scene_target(slots))],
        clear_commands(w.background),
        draw_commands(w.rendering_mode, slots),
        effect_commands(slots, width, height, dt),
        overlay_commands(slots, width, height),
        seq![FrameCommand::SwapBuffers, FrameCommand::Throttle],
    );
}

/// Seven lists in a row are the first of them followed by the other six in
/// a row.
proof fn lemma_first_part_splits_off(
    a: Seq<FrameCommand>,
    b: Seq<FrameCommand>,
    c: Seq<FrameCommand>,
    d: Seq<FrameCommand>,
    e: Seq<FrameCommand>,
    f: Seq<FrameCommand>,
    g: Seq<FrameCommand>,
)
    ensures
        a + b + c + d + e + f + g == a + (b + c + d + e + f + g),
{
    assert(a + b + c + d + e + f + g =~= a + (b + c + d + e + f + g));
}

/// The commands for the cameras: each camera that is there learns the size
/// of the window once and updates itself once, and a camera that is missing
/// is not addressed.
pub proof fn lemma_cameras_are_refreshed(slots: Collaborators, width: u32, height: u32, i: int)
    requires
        0 <= i < camera_commands(slots, width, height).len(),
    ensures
        ({
            let command = camera_commands(slots, width, height)[i];
            let place = cameras(slots) + (if slots.planar_camera {
                1int
            } else {
                0int
            });
            &&& camera_commands(slots, width, height).len() == after_cameras(slots)
            &&& command == FrameCommand::UpdatePlanarCamera <==> slots.planar_camera && i
                == cameras(slots)
            &&& command == FrameCommand::UpdateCamera <==> slots.camera && i == place
            &&& command is PlanarCameraEvent ==> slots.planar_camera && i == 0 && command
                == FrameCommand::PlanarCameraEvent(WindowEvent::FramebufferSize(width, height))
            &&& command is CameraEvent ==> slots.camera && i == place - cameras(slots) && command
                == FrameCommand::CameraEvent(WindowEvent::FramebufferSize(width, height))
        }),
{
}

/// What follows the commands for the cameras addresses no camera.
pub proof fn lemma_scene_addresses_no_camera(
    w: WindowModel,
    slots: Collaborators,
    width: u32,
    height: u32,
    dt: F32Bits,
    i: int,
)
    requires
        0 <= i < scene_commands(w, slots, width, height, dt).len(),
    ensures
        ({
            let command = scene_commands(w, slots, width, height, dt)[i];
            &&& command != FrameCommand::UpdatePlanarCamera
            &&& command != FrameCommand::UpdateCamera
            &&& !(command is PlanarCameraEvent)
            &&& !(command is CameraEvent)
        }),
{
}

/// Where there is an effect, it is updated once and then draws once, after
/// the scene is drawn and before the text: the screen is the target again,
/// the effect is told the time that has passed since the frame before, as
/// the caller measured it, and the size of the window, and then it draws.
/// Where there is none, neither happens.
pub proof fn lemma_effect_is_told_the_elapsed_time(
    w: WindowModel,
    slots: Collaborators,
    width: u32,
    height: u32,
    dt: F32Bits,
    i: int,
)
    requires
        0 <= i < render_commands(w, slots, width, height, dt).len(),
    ensures
        ({
            let commands = render_commands(w, slots, width, height, dt);
            let place = commands.len() - render_tail(slots) - 2;
            &&& commands[i] is UpdateEffect ==> slots.post_processing && i == place
                && commands[i] == (FrameCommand::UpdateEffect { dt, width, height })
            &&& commands[i] is DrawEffect ==> slots.post_processing && i == place + 1
            &&& slots.post_processing ==> {
                &&& after_cameras(slots) + 5 <= place - 1
                &&& commands[place - 1] == FrameCommand::SelectTarget(Target::Screen)
                &&& commands[place] == (FrameCommand::UpdateEffect { dt, width, height })
                &&& commands[place + 1] == FrameCommand::DrawEffect
                &&& commands[place + 2] == (FrameCommand::RenderText { width, height })
            }
        }),
{
    let refresh = camera_commands(slots, width, height);
    lemma_frame_begins_with_the_cameras(w, slots, width, height, dt);
    lemma_scene_has_one_effect(w, slots, width, height, dt, 0);
    if i < refresh.len() {
        lemma_cameras_are_refreshed(slots, width, height, i);
    } else {
        lemma_scene_has_one_effect(w, slots, width, height, dt, i - refresh.len());
    }
    if refresh.len() > 0 {
        lemma_cameras_are_refreshed(slots, width, height, 0);
    }
}

/// The effect within what follows the commands for the cameras.
pub proof fn lemma_scene_has_one_effect(
    w: WindowModel,
    slots: Collaborators,
    width: u32,
    height: u32,
    dt: F32Bits,
    i: int,
)
    requires
        0 <= i < scene_commands(w, slots, width, height, dt).len(),
    ensures
        ({
            let commands = scene_commands(w, slots, width, height, dt);
            let place = commands.len() - render_tail(slots) - 2;
            &&& commands[i] is UpdateEffect ==> slots.post_processing && i == place
                && commands[i] == (FrameCommand::UpdateEffect { dt, width, height })
            &&& commands[i] is DrawEffect ==> slots.post_processing && i == place + 1
            &&& slots.post_processing ==> {
                &&& 5 <= place - 1
                &&& commands[place - 1] == FrameCommand::SelectTarget(Target::Screen)
                &&& commands[place] == (FrameCommand::UpdateEffect { dt, width, height })
                &&& commands[place + 1] == FrameCommand::DrawEffect
                &&& commands[place + 2] == (FrameCommand::RenderText { width, height })
            }
        }),
{
}

/// How many commands of a frame follow the effect: those of the overlays,
/// the presentation and the pacer.
pub open spec fn render_tail(slots: Collaborators) -> int {
    if slots.ui {
        4
    } else {
        3
    }
}

/// Whether a command is one that the dispatch of an event can give: an event
/// for a camera, or a new size for the context or a target.
pub open spec fn is_of_dispatch(command: FrameCommand) -> bool {
    command is CameraEvent || command is PlanarCameraEvent || command is ResizeTarget
        || command matches FrameCommand::Context(ContextCommand::Scissor(_, _, _, _))
}

/// The dispatch of events gives commands of dispatch only: it neither
/// updates a camera, nor clears, draws or presents anything.
pub proof fn lemma_dispatch_only_dispatches(
    w: WindowModel,
    slots: Collaborators,
    events: Seq<WindowEvent>,
    focus: Seq<UiFocus>,
    n: nat,
    i: int,
)
    requires
        n <= events.len(),
        0 <= i < events_commands(w, slots, events, focus, n).len(),
    ensures
        is_of_dispatch(events_commands(w, slots, events, focus, n)[i]),
    decreases n,
{
    if n > 0 {
        let before = events_commands(w, slots, events, focus, (n - 1) as nat);
        if i < before.len() {
            lemma_dispatch_only_dispatches(w, slots, events, focus, (n - 1) as nat, i);
        }
    }
}

/// A turn of an open window is a dispatch pass followed by a frame: first
/// come the commands of dispatch, closed by the poll for new events, then
/// the commands that render the frame, for the window as the dispatch left
/// it. The mode and the background are those from before the turn.
pub proof fn lemma_turn_dispatches_then_renders(
    w: WindowModel,
    slots: Collaborators,
    width: u32,
    height: u32,
    dt: F32Bits,
    focus: Seq<UiFocus>,
    i: int,
)
    requires
        !w.should_close,
        0 <= i < frame_commands(w, slots, width, height, dt, focus).len(),
    ensures
        ({
            let commands = frame_commands(w, slots, width, height, dt, focus);
            let polled = dispatch_commands(w, slots, focus).len() - 1;
            let rendered = render_commands(after_dispatch(w), slots, width, height, dt);
            &&& polled >= 0
            &&& commands.len() == polled + 1 + rendered.len()
            &&& i < polled ==> is_of_dispatch(commands[i])
            &&& i == polled ==> commands[i] == FrameCommand::PollEvents
            &&& i > polled ==> commands[i] == rendered[i - polled - 1]
            &&& rendered == render_commands(w, slots, width, height, dt)
        }),
{
    let pending = w.pending();
    lemma_events_leave_the_rest(w, pending, pending.len());
    if i < dispatch_commands(w, slots, focus).len() - 1 {
        lemma_dispatch_only_dispatches(w, slots, pending, focus, pending.len(), i);
    }
}

/// In a turn of an open window each camera that the caller brought updates
/// itself exactly once, whatever the mode and whatever events were pending,
/// and a camera that is missing never does.
pub proof fn lemma_each_camera_updates_once_a_turn(
    w: WindowModel,
    slots: Collaborators,
    width: u32,
    height: u32,
    dt: F32Bits,
    focus: Seq<UiFocus>,
    i: int,
)
    requires
        !w.should_close,
        0 <= i < frame_commands(w, slots, width, height, dt, focus).len(),
    ensures
        ({
            let commands = frame_commands(w, slots, width, height, dt, focus);
            let rendering = dispatch_commands(w, slots, focus).len() as int;
            let planar_place = rendering + cameras(slots);
            let place = planar_place + (if slots.planar_camera {
                1int
            } else {
                0int
            });
            &&& commands[i] == FrameCommand::UpdatePlanarCamera <==> slots.planar_camera && i
                == planar_place
            &&& commands[i] == FrameCommand::UpdateCamera <==> slots.camera && i == place
            &&& slots.planar_camera ==> planar_place < commands.len()
            &&& slots.camera ==> place < commands.len()
        }),
{
    lemma_turn_dispatches_then_renders(w, slots, width, height, dt, focus, i);
    let rendering = dispatch_commands(w, slots, focus).len() as int;
    if i >= rendering {
        lemma_each_camera_updates_once(w, slots, width, height, dt, i - rendering);
    }
    lemma_each_camera_updates_once(w, slots, width, height, dt, 0);
}

/// A turn of an open window that shows the 3D scene without a 3D renderer,
/// or the 2D scene without a 2D renderer, still clears the target to the
/// background colour and presents the frame, and draws nothing.
pub proof fn lemma_turn_without_renderer_draws_nothing(
    w: WindowModel,
    slots: Collaborators,
    width: u32,
    height: u32,
    dt: F32Bits,
    focus: Seq<UiFocus>,
    i: int,
)
    requires
        !w.should_close,
        w.rendering_mode == RenderMode::ThreeD ==> !slots.renderer,
        w.rendering_mode == RenderMode::TwoD ==> !slots.planar_renderer,
        0 <= i < frame_commands(w, slots, width, height, dt, focus).len(),
    ensures
        ({
            let commands = frame_commands(w, slots, width, height, dt, focus);
            let rest = dispatch_commands(w, slots, focus).len() + after_cameras(slots);
            &&& !(commands[i] is Render) && !(commands[i] is RenderPlanar)
            &&& commands[rest + 2] == FrameCommand::Context(
                ContextCommand::ClearColor(
                    w.background.r,
                    w.background.g,
                    w.background.b,
                    F32Bits { bits: ONE_BITS },
                ),
            )
            &&& commands[rest + 3] == FrameCommand::Context(ContextCommand::Clear(Buffer::Color))
            &&& commands[commands.len() - 2] == FrameCommand::SwapBuffers
        }),
{
    let rendering = dispatch_commands(w, slots, focus).len() as int;
    let rest = rendering + after_cameras(slots);
    let commands = frame_commands(w, slots, width, height, dt, focus);
    lemma_turn_dispatches_then_renders(w, slots, width, height, dt, focus, i);
    lemma_every_frame_clears_and_presents(w, slots, width, height, dt);
    if i >= rendering {
        lemma_only_the_current_renderer_draws(w, slots, width, height, dt, i - rendering);
    }
    lemma_turn_dispatches_then_renders(w, slots, width, height, dt, focus, rest + 2);
    lemma_turn_dispatches_then_renders(w, slots, width, height, dt, focus, rest + 3);
    lemma_turn_dispatches_then_renders(w, slots, width, height, dt, focus, commands.len() - 2);
}

/// A turn of an open window that shows the scene of one camera renders with
/// that camera alone: the camera that is missing gets no event, no size and
/// no update, and the frame is still dispatched, cleared and presented.
pub proof fn lemma_missing_camera_is_left_alone(
    w: WindowModel,
    slots: Collaborators,
    width: u32,
    height: u32,
    dt: F32Bits,
    focus: Seq<UiFocus>,
    i: int,
)
    requires
        !w.should_close,
        0 <= i < frame_commands(w, slots, width, height, dt, focus).len(),
    ensures
        ({
            let command = frame_commands(w, slots, width, height, dt, focus)[i];
            &&& !slots.camera ==> !(command is CameraEvent) && command
                != FrameCommand::UpdateCamera
            &&& !slots.planar_camera ==> !(command is PlanarCameraEvent) && command
                != FrameCommand::UpdatePlanarCamera
        }),
{
    lemma_turn_dispatches_then_renders(w, slots, width, height, dt, focus, i);
    let rendering = dispatch_commands(w, slots, focus).len() as int;
    if i >= rendering {
        lemma_each_camera_updates_once(w, slots, width, height, dt, i - rendering);
    } else if i < rendering - 1 {
        lemma_dispatch_respects_missing_cameras(w, slots, w.pending(), focus, w.pending().len(), i);
    }
}

/// The dispatch of events addresses no camera that is missing.
pub proof fn lemma_dispatch_respects_missing_cameras(
    w: WindowModel,
    slots: Collaborators,
    events: Seq<WindowEvent>,
    focus: Seq<UiFocus>,
    n: nat,
    i: int,
)
    requires
        n <= events.len(),
        0 <= i < events_commands(w, slots, events, focus, n).len(),
    ensures
        events_commands(w, slots, events, focus, n)[i] is CameraEvent ==> slots.camera,
        events_commands(w, slots, events, focus, n)[i] is PlanarCameraEvent ==> slots.planar_camera,
    decreases n,
{
    if n > 0 {
        let before = events_commands(w, slots, events, focus, (n - 1) as nat);
        if i < before.len() {
            lemma_dispatch_respects_missing_cameras(w, slots, events, focus, (n - 1) as nat, i);
        }
    }
}

/// A dispatch pass leaves no event pending, so no event is dispatched a
/// second time: a pass right after gives the poll and nothing else.
pub proof fn lemma_dispatch_drains(w: WindowModel, slots: Collaborators, focus: Seq<UiFocus>)
    ensures
        after_dispatch(w).pending().len() == 0,
        dispatch_commands(after_dispatch(w), slots, focus) == seq![FrameCommand::PollEvents],
{
}

} // verus!
