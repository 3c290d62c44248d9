//! The window as a mathematical state machine.
//!
//! The functions here say, for a state of the window and what comes in, which
//! state follows and which commands go out. The executable window is proved
//! to compute exactly these.

use vstd::prelude::*;
use instant::Instant;
use crate::context::{Buffer, ContextCommand};
use crate::event::{F32Bits, WindowEvent};
use crate::frame::{Collaborators, Extent, FrameCommand, Target};
use crate::ui::{spec_interface_input, UiFocus, UiInput};
use crate::window::{Color, Light, RenderMode, ONE_BITS, RENDER_PASS};

verus! {

/// The state of a window.
pub struct WindowModel {
    /// Whether the window has been asked to close.
    pub should_close: bool,
    /// Which of the two scenes is shown and gets the events.
    pub rendering_mode: RenderMode,
    /// Where the light is.
    pub light_mode: Light,
    /// The colour that the frame is cleared to.
    pub background: Color,
    /// The size of the screen target.
    pub viewport: Extent,
    /// The size of the offscreen target.
    pub post_process_render_target: Extent,
    /// The shortest time that a frame may last, in milliseconds, if any.
    pub max_dur_per_frame: Option<u64>,
    /// The moment that the wait after a frame is measured from: when the
    /// last frame was presented and waited for.
    pub last_frame: Instant,
    /// The events put off in the frame before, oldest first.
    pub unhandled_events: Seq<WindowEvent>,
    /// The events that came in since, oldest first.
    pub events: Seq<WindowEvent>,
}

impl WindowModel {
    /// The events that wait for dispatch, in the order of their dispatch:
    /// those put off in the frame before come first, then the fresh ones,
    /// each group in the order in which it came.
    pub open spec fn pending(self) -> Seq<WindowEvent> {
        self.unhandled_events + self.events
    }

    /// The same window with no event waiting.
    pub open spec fn drained(self) -> WindowModel {
        WindowModel { unhandled_events: Seq::empty(), events: Seq::empty(), ..self }
    }
}

/// What the interface is offered in a turn, event by event in the order of
/// dispatch: every pending event in the interface's vocabulary, where it has
/// a word for it and the window does not keep the event to itself. A closed
/// window dispatches nothing and so offers nothing.
pub open spec fn interface_inputs(w: WindowModel) -> Seq<Option<UiInput>> {
    if w.should_close {
        Seq::empty()
    } else {
        Seq::new(w.pending().len(), |i: int| spec_interface_input(w.pending()[i]))
    }
}

/// What the interface reports after event number `i` of a dispatch pass, if
/// it reports anything: `focus` lists the reports by event. An event without
/// a report is dispatched as in a window without an interface.
pub open spec fn focus_at(focus: Seq<UiFocus>, i: int) -> Option<UiFocus> {
    if 0 <= i < focus.len() {
        Some(focus[i])
    } else {
        None
    }
}

/// Whether the interface, reporting `focus` after it saw the event, keeps the
/// event to itself.
pub open spec fn swallowed(event: WindowEvent, focus: Option<UiFocus>) -> bool {
    focus matches Some(f) && f.spec_swallows(&event)
}

/// The commands that bring the context and both targets to a new size.
pub open spec fn viewport_commands(width: u32, height: u32) -> Seq<FrameCommand> {
    seq![
        FrameCommand::Context(ContextCommand::Scissor(0, 0, width, height)),
        FrameCommand::ResizeTarget(Target::Screen, width, height),
        FrameCommand::ResizeTarget(Target::Offscreen, width, height),
    ]
}

/// The command that hands an event to the camera of the current mode, where
/// the caller brought that camera. Without it the event is dropped.
pub open spec fn forward_commands(
    mode: RenderMode,
    slots: Collaborators,
    event: WindowEvent,
) -> Seq<FrameCommand> {
    match mode {
        RenderMode::ThreeD => if slots.camera {
            seq![FrameCommand::CameraEvent(event)]
        } else {
            Seq::empty()
        },
        RenderMode::TwoD => if slots.planar_camera {
            seq![FrameCommand::PlanarCameraEvent(event)]
        } else {
            Seq::empty()
        },
    }
}

/// The window after one event.
///
/// A request to close sets the close flag. A new framebuffer size becomes the
/// size of the viewport and of the offscreen target. Nothing else changes
/// the window.
pub open spec fn after_event(w: WindowModel, event: WindowEvent) -> WindowModel {
    if event.spec_is_close_request() {
        WindowModel { should_close: true, ..w }
    } else {
        match event {
            WindowEvent::FramebufferSize(width, height) => WindowModel {
                viewport: Extent { width, height },
                post_process_render_target: Extent { width, height },
                ..w
            },
            _ => w,
        }
    }
}

/// The commands that one event gives rise to.
///
/// A request to close gives none: the window keeps it to itself. A new
/// framebuffer size is applied first. Then the event goes to the camera of
/// the current mode, unless the interface keeps it.
pub open spec fn event_commands(
    w: WindowModel,
    slots: Collaborators,
    event: WindowEvent,
    focus: Option<UiFocus>,
) -> Seq<FrameCommand> {
    if event.spec_is_close_request() {
        Seq::empty()
    } else {
        (match event {
            WindowEvent::FramebufferSize(width, height) => viewport_commands(width, height),
            _ => Seq::empty(),
        }) + (if swallowed(event, focus) {
            Seq::empty()
        } else {
            forward_commands(w.rendering_mode, slots, event)
        })
    }
}

/// The window after the first `n` of `events`, taken in order.
pub open spec fn after_events(w: WindowModel, events: Seq<WindowEvent>, n: nat) -> WindowModel
    decreases n,
{
    if n == 0 {
        w
    } else {
        after_event(after_events(w, events, (n - 1) as nat), events[n - 1])
    }
}

/// The commands that the first `n` of `events` give rise to, event by event.
pub open spec fn events_commands(
    w: WindowModel,
    slots: Collaborators,
    events: Seq<WindowEvent>,
    focus: Seq<UiFocus>,
    n: nat,
) -> Seq<FrameCommand>
    decreases n,
{
    if n == 0 {
        Seq::empty()
    } else {
        events_commands(w, slots, events, focus, (n - 1) as nat) + event_commands(
            after_events(w, events, (n - 1) as nat),
            slots,
            events[n - 1],
            focus_at(focus, n - 1),
        )
    }
}

/// The commands of a whole dispatch pass: those of every pending event, then
/// the poll for the events of the next pass.
pub open spec fn dispatch_commands(w: WindowModel, slots: Collaborators, focus: Seq<UiFocus>) -> Seq<
    FrameCommand,
> {
    events_commands(w, slots, w.pending(), focus, w.pending().len()).push(FrameCommand::PollEvents)
}

/// The window after a whole dispatch pass: every pending event has had its
/// effect, and none is pending any more.
pub open spec fn after_dispatch(w: WindowModel) -> WindowModel {
    after_events(w, w.pending(), w.pending().len()).drained()
}

/// Whether a frame can be rendered with what the caller brought: the scene
/// that is shown needs its camera, and an effect needs the 3D camera, whose
/// clip planes it is told. The camera of the scene that is not shown may be
/// missing.
pub open spec fn can_render(mode: RenderMode, slots: Collaborators) -> bool {
    &&& mode == RenderMode::ThreeD ==> slots.camera
    &&& mode == RenderMode::TwoD ==> slots.planar_camera
    &&& slots.post_processing ==> slots.camera
}

/// The command for the 2D camera, where the caller brought that camera.
pub open spec fn for_planar_camera(slots: Collaborators, command: FrameCommand) -> Seq<
    FrameCommand,
> {
    if slots.planar_camera {
        seq![command]
    } else {
        Seq::empty()
    }
}

/// The command for the 3D camera, where the caller brought that camera.
pub open spec fn for_camera(slots: Collaborators, command: FrameCommand) -> Seq<FrameCommand> {
    if slots.camera {
        seq![command]
    } else {
        Seq::empty()
    }
}

/// Every camera that the caller brought learns the size of the window and
/// then updates itself, whatever the mode: a camera that is not in use now
/// is not stale later. The 2D camera comes before the 3D camera each time.
pub open spec fn camera_commands(slots: Collaborators, width: u32, height: u32) -> Seq<
    FrameCommand,
> {
    for_planar_camera(
        slots,
        FrameCommand::PlanarCameraEvent(WindowEvent::FramebufferSize(width, height)),
    ) + for_camera(slots, FrameCommand::CameraEvent(WindowEvent::FramebufferSize(width, height)))
        + for_planar_camera(slots, FrameCommand::UpdatePlanarCamera) + for_camera(
        slots,
        FrameCommand::UpdateCamera,
    )
}

/// The target that the scene is drawn to: the offscreen one where an effect
/// will work on it, else the screen.
pub open spec fn scene_target(slots: Collaborators) -> Target {
    if slots.post_processing {
        Target::Offscreen
    } else {
        Target::Screen
    }
}

/// Texture unit zero becomes the active one, then the colour buffer is
/// cleared to the opaque background colour and the depth buffer is cleared.
pub open spec fn clear_commands(background: Color) -> Seq<FrameCommand> {
    seq![
        FrameCommand::Context(ContextCommand::ActiveTexture(0)),
        FrameCommand::Context(
            ContextCommand::ClearColor(
                background.r,
                background.g,
                background.b,
                F32Bits { bits: ONE_BITS },
            ),
        ),
        FrameCommand::Context(ContextCommand::Clear(Buffer::Color)),
        FrameCommand::Context(ContextCommand::Clear(Buffer::Depth)),
    ]
}

/// The renderer of the current mode draws, where the caller brought it.
pub open spec fn draw_commands(mode: RenderMode, slots: Collaborators) -> Seq<FrameCommand> {
    match mode {
        RenderMode::ThreeD => if slots.renderer {
            seq![FrameCommand::Render { pass: RENDER_PASS }]
        } else {
            Seq::empty()
        },
        RenderMode::TwoD => if slots.planar_renderer {
            seq![FrameCommand::RenderPlanar]
        } else {
            Seq::empty()
        },
    }
}

/// Where there is an effect, the screen becomes the target again, and the
/// effect is updated and draws. The effect is told `dt`, the time that has
/// passed since the frame before, as the caller measured it.
pub open spec fn effect_commands(
    slots: Collaborators,
    width: u32,
    height: u32,
    dt: F32Bits,
) -> Seq<FrameCommand> {
    if slots.post_processing {
        seq![
            FrameCommand::SelectTarget(Target::Screen),
            FrameCommand::UpdateEffect { dt, width, height },
            FrameCommand::DrawEffect,
        ]
    } else {
        Seq::empty()
    }
}

/// The text is drawn over the scene, and over the text the interface, where
/// there is one.
pub open spec fn overlay_commands(slots: Collaborators, width: u32, height: u32) -> Seq<
    FrameCommand,
> {
    if slots.ui {
        seq![FrameCommand::RenderText { width, height }, FrameCommand::RenderUi { width, height }]
    } else {
        seq![FrameCommand::RenderText { width, height }]
    }
}

/// The commands that render and present one frame of a window whose surface
/// is `width` by `height` pixels, `dt` seconds after the frame before.
pub open spec fn render_commands(
    w: WindowModel,
    slots: Collaborators,
    width: u32,
    height: u32,
    dt: F32Bits,
) -> Seq<FrameCommand> {
    camera_commands(slots, width, height) + seq![FrameCommand::SelectTarget(scene_target(slots))]
        + clear_commands(w.background) + draw_commands(w.rendering_mode, slots) + effect_commands(
        slots,
        width,
        height,
        dt,
    ) + overlay_commands(slots, width, height) + seq![
        FrameCommand::SwapBuffers,
        FrameCommand::Throttle,
    ]
}

/// The window after one turn of its cycle. A closed window stays as it is.
pub open spec fn after_frame(w: WindowModel) -> WindowModel {
    if w.should_close {
        w
    } else {
        after_dispatch(w)
    }
}

/// The commands of one turn of the cycle. A closed window gives none. An
/// open one dispatches what is pending and then renders a frame, also where
/// an event of this turn asked it to close.
pub open spec fn frame_commands(
    w: WindowModel,
    slots: Collaborators,
    width: u32,
    height: u32,
    dt: F32Bits,
    focus: Seq<UiFocus>,
) -> Seq<FrameCommand> {
    if w.should_close {
        Seq::empty()
    } else {
        dispatch_commands(w, slots, focus) + render_commands(
            after_dispatch(w),
            slots,
            width,
            height,
            dt,
        )
    }
}

} // verus!
