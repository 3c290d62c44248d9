//! The window: the owner of the frame cycle.

use vstd::prelude::*;
use instant::Instant;
use crate::context::{Buffer, ContextCommand};
use crate::event::{F32Bits, WindowEvent};
use crate::frame::{Collaborators, Extent, Frame, FrameCommand, Target};
use crate::laws::lemma_events_leave_the_rest;
use crate::model::{
    after_dispatch, after_event, after_events, after_frame, camera_commands, can_render,
    clear_commands,
    dispatch_commands, draw_commands, effect_commands, event_commands, events_commands,
    frame_commands, interface_inputs, overlay_commands, render_commands, scene_target,
    viewport_commands, WindowModel,
};
use crate::pacer::{frame_budget, FramePacer, NANOS_PER_MILLI};
use crate::ui::{interface_input, UiFocus, UiInput};

verus! {

/// The width of a window that is opened without a size.
pub const DEFAULT_WIDTH: u32 = 800;

/// The height of a window that is opened without a size.
pub const DEFAULT_HEIGHT: u32 = 600;

/// The pass that the 3D renderer is asked for.
pub const RENDER_PASS: usize = 1;

/// The single-precision number one.
pub const ONE_BITS: u32 = 0x3F80_0000;

/// The single-precision number ten.
pub const TEN_BITS: u32 = 0x4120_0000;

/// Which of the two scenes is shown and gets the events.
#[derive(Clone, Copy, PartialEq, Eq, Debug)]
pub enum RenderMode {
    ThreeD,
    TwoD,
}

impl RenderMode {
    /// The other mode.
    pub open spec fn other(self) -> RenderMode {
        match self {
            RenderMode::ThreeD => RenderMode::TwoD,
            RenderMode::TwoD => RenderMode::ThreeD,
        }
    }
}

/// Where the light of the scene is.
#[derive(Clone, Copy, PartialEq, Eq, Debug)]
pub enum Light {
    /// At a fixed point of the scene.
    Absolute(F32Bits, F32Bits, F32Bits),
    /// Where the camera is.
    StickToCamera,
}

/// A colour: red, green and blue.
#[derive(Clone, Copy, PartialEq, Eq, Debug)]
pub struct Color {
    pub r: F32Bits,
    pub g: F32Bits,
    pub b: F32Bits,
}

/// The state of a window that has just been opened, at the moment `now`, with
/// a framebuffer of the given size: open, showing the 3D scene, black, lit
/// from ten units above the origin, with no ceiling on the frame rate and no
/// event waiting.
pub open spec fn opened(width: u32, height: u32, now: Instant) -> WindowModel {
    WindowModel {
        should_close: false,
        rendering_mode: RenderMode::ThreeD,
        light_mode: Light::Absolute(
            F32Bits { bits: 0 },
            F32Bits { bits: TEN_BITS },
            F32Bits { bits: 0 },
        ),
        background: Color { r: F32Bits { bits: 0 }, g: F32Bits { bits: 0 }, b: F32Bits { bits: 0 } },
        viewport: Extent { width, height },
        post_process_render_target: Extent { width, height },
        max_dur_per_frame: None,
        last_frame: now,
        unhandled_events: Seq::empty(),
        events: Seq::empty(),
    }
}

/// A window and its scenes.
pub struct CustomWindow {
    events: Vec<WindowEvent>,
    unhandled_events: Vec<WindowEvent>,
    pacer: FramePacer,
    light_mode: Light,
    background: Color,
    viewport: Extent,
    post_process_render_target: Extent,
    should_close: bool,
    rendering_mode: RenderMode,
}

impl View for CustomWindow {
    type V = WindowModel;

    closed spec fn view(&self) -> WindowModel {
        WindowModel {
            should_close: self.should_close,
            rendering_mode: self.rendering_mode,
            light_mode: self.light_mode,
            background: self.background,
            viewport: self.viewport,
            post_process_render_target: self.post_process_render_target,
            max_dur_per_frame: self.pacer.limit(),
            last_frame: self.pacer.last_frame(),
            unhandled_events: self.unhandled_events@,
            events: self.events@,
        }
    }
}

impl CustomWindow {
    /// Opens a window of the default size. Its clock starts at the moment
    /// that the clock then shows.
    pub fn new() -> (window: CustomWindow)
        ensures
            window@ == opened(DEFAULT_WIDTH, DEFAULT_HEIGHT, window@.last_frame),
    {
        CustomWindow::do_new(DEFAULT_WIDTH, DEFAULT_HEIGHT)
    }

    /// Opens a window of the given size. Its clock starts at the moment that
    /// the clock then shows.
    pub fn new_with_size(width: u32, height: u32) -> (window: CustomWindow)
        ensures
            window@ == opened(width, height, window@.last_frame),
    {
        CustomWindow::do_new(width, height)
    }

    fn do_new(width: u32, height: u32) -> (window: CustomWindow)
        ensures
            window@ == opened(width, height, window@.last_frame),
    {
        CustomWindow {
            should_close: false,
            pacer: FramePacer::new(),
            events: Vec::new(),
            unhandled_events: Vec::new(),
            light_mode: Light::Absolute(
                F32Bits { bits: 0 },
                F32Bits { bits: TEN_BITS },
                F32Bits { bits: 0 },
            ),
            background: Color {
                r: F32Bits { bits: 0 },
                g: F32Bits { bits: 0 },
                b: F32Bits { bits: 0 },
            },
            viewport: Extent { width, height },
            post_process_render_target: Extent { width, height },
            rendering_mode: RenderMode::ThreeD,
        }
    }

    /// Whether the window has been asked to close.
    pub fn should_close(&self) -> (b: bool)
        ensures
            b == self@.should_close,
    {
        self.should_close
    }

    /// Whether the window is closed: whether it has been asked to close.
    pub fn is_closed(&self) -> (b: bool)
        ensures
            b == self@.should_close,
    {
        self.should_close
    }

    /// Asks the window to close.
    pub fn close(&mut self)
        ensures
            final(self)@ == (WindowModel { should_close: true, ..old(self)@ }),
    {
        self.should_close = true;
    }

    /// Sets where the light is.
    pub fn set_light(&mut self, pos: Light)
        ensures
            final(self)@ == (WindowModel { light_mode: pos, ..old(self)@ }),
    {
        self.light_mode = pos;
    }

    /// Which of the two scenes is shown and gets the events.
    pub fn rendering_mode(&self) -> (mode: RenderMode)
        ensures
            mode == self@.rendering_mode,
    {
        self.rendering_mode
    }

    /// Switches to the other scene.
    pub fn switch_rendering_mode(&mut self)
        ensures
            final(self)@ == (WindowModel {
                rendering_mode: old(self)@.rendering_mode.other(),
                ..old(self)@
            }),
    {
        self.rendering_mode = match self.rendering_mode {
            RenderMode::ThreeD => RenderMode::TwoD,
            RenderMode::TwoD => RenderMode::ThreeD,
        };
    }

    /// Sets the greatest number of frames per second. `None` lifts the
    /// ceiling. A rate of zero is no rate: the caller has to rule it out.
    pub fn set_framerate_limit(&mut self, fps: Option<u64>)
        requires
            fps != Some(0u64),
        ensures
            final(self)@ == (WindowModel { max_dur_per_frame: frame_budget(fps), ..old(self)@ }),
    {
        self.pacer.set_framerate_limit(fps);
    }

    /// The shortest time that a frame may last, in milliseconds, if any.
    pub fn max_dur_per_frame(&self) -> (limit: Option<u64>)
        ensures
            limit == self@.max_dur_per_frame,
    {
        self.pacer.max_dur_per_frame()
    }

    /// Sets the colour that the frame is cleared to.
    pub fn set_background_color(&mut self, r: F32Bits, g: F32Bits, b: F32Bits)
        ensures
            final(self)@ == (WindowModel { background: Color { r, g, b }, ..old(self)@ }),
    {
        self.background.r = r;
        self.background.g = g;
        self.background.b = b;
    }

    /// The colour that the frame is cleared to.
    pub fn background(&self) -> (color: Color)
        ensures
            color == self@.background,
    {
        self.background
    }

    /// Where the light is.
    pub fn light(&self) -> (light: Light)
        ensures
            light == self@.light_mode,
    {
        self.light_mode
    }

    /// The size of the screen target.
    pub fn viewport(&self) -> (size: Extent)
        ensures
            size == self@.viewport,
    {
        self.viewport
    }

    /// The size of the offscreen target.
    pub fn post_process_render_target(&self) -> (size: Extent)
        ensures
            size == self@.post_process_render_target,
    {
        self.post_process_render_target
    }

    /// Whether the mouse is busy with a widget of the interface, going by
    /// what the interface reports.
    pub fn is_conrod_ui_capturing_mouse(&self, focus: &UiFocus) -> (b: bool)
        ensures
            b == focus.spec_capturing_mouse(),
    {
        focus.capturing_mouse()
    }

    /// Whether the keyboard is busy with a widget of the interface, going by
    /// what the interface reports.
    pub fn is_conrod_ui_capturing_keyboard(&self, focus: &UiFocus) -> (b: bool)
        ensures
            b == focus.spec_capturing_keyboard(),
    {
        focus.capturing_keyboard()
    }

    /// Reads the clock and says how long the caller has to wait before the
    /// next frame, in nanoseconds. Without a ceiling on the frame rate there
    /// is never a wait. With one, a wait is more than nothing and at most the
    /// whole time of a frame.
    pub fn throttle(&self) -> (wait: Option<u64>)
        ensures
            self@.max_dur_per_frame is None ==> wait is None,
            wait matches Some(nanos) ==> self@.max_dur_per_frame matches Some(millis) && 0
                < nanos <= millis * NANOS_PER_MILLI,
    {
        self.pacer.throttle()
    }

    /// Restarts the pacer's clock, once the frame is presented and waited
    /// for. Nothing but the moment that the next wait is measured from
    /// changes.
    pub fn restart_clock(&mut self)
        ensures
            final(self)@ == (WindowModel { last_frame: final(self)@.last_frame, ..old(self)@ }),
    {
        self.pacer.restart();
    }

    /// Whether a frame can be rendered with what the caller brought: the
    /// scene that is shown needs its camera, and an effect needs the 3D
    /// camera.
    pub fn can_render(&self, slots: &Collaborators) -> (b: bool)
        ensures
            b == can_render(self@.rendering_mode, *slots),
    {
        let shown = match self.rendering_mode {
            RenderMode::ThreeD => slots.camera,
            RenderMode::TwoD => slots.planar_camera,
        };
        shown && (!slots.post_processing || slots.camera)
    }

    /// Puts an event that the platform has produced at the end of the queue.
    pub fn enqueue_event(&mut self, event: WindowEvent)
        ensures
            final(self)@ == (WindowModel { events: old(self)@.events.push(event), ..old(self)@ }),
    {
        self.events.push(event);
    }

    /// Puts an event off: it is dispatched in the next pass, before any event
    /// of the queue.
    pub fn defer_event(&mut self, event: WindowEvent)
        ensures
            final(self)@ == (WindowModel {
                unhandled_events: old(self)@.unhandled_events.push(event),
                ..old(self)@
            }),
    {
        self.unhandled_events.push(event);
    }

    /// The events that wait for dispatch, in the order of their dispatch.
    pub fn pending_events(&self) -> (pending: Vec<WindowEvent>)
        ensures
            pending@ == self@.pending(),
    {
        let mut pending: Vec<WindowEvent> = Vec::new();
        let mut i: usize = 0;
        while i < self.unhandled_events.len()
            invariant
                i <= self.unhandled_events.len(),
                pending@ == self.unhandled_events@.take(i as int),
            decreases self.unhandled_events.len() - i,
        {
            pending.push(self.unhandled_events[i]);
            i += 1;
        }
        let mut j: usize = 0;
        while j < self.events.len()
            invariant
                j <= self.events.len(),
                pending@ == self.unhandled_events@ + self.events@.take(j as int),
            decreases self.events.len() - j,
        {
            pending.push(self.events[j]);
            j += 1;
        }
        pending
    }

    /// What the interface has to be offered before the next turn, event by
    /// event in the order of dispatch. After each entry, also after an empty
    /// one, the caller notes what the interface reports: these reports, in
    /// this order, are the `focus` of the turn.
    pub fn interface_inputs(&self) -> (inputs: Vec<Option<UiInput>>)
        ensures
            inputs@ == interface_inputs(self@),
    {
        let mut inputs: Vec<Option<UiInput>> = Vec::new();
        if self.should_close {
            return inputs;
        }
        let pending: Vec<WindowEvent> = self.pending_events();
        let mut i: usize = 0;
        while i < pending.len()
            invariant
                i <= pending.len(),
                pending@ == self@.pending(),
                !self@.should_close,
                inputs@ == interface_inputs(self@).take(i as int),
            decreases pending.len() - i,
        {
            inputs.push(interface_input(pending[i]));
            i += 1;
        }
        inputs
    }

    /// Dispatches every pending event, those put off before first, and then
    /// asks the platform for the events of the next pass.
    ///
    /// `focus` lists, event by event in the order of dispatch, what the
    /// interface reports after it was offered the event. An event for which
    /// the list has no entry is dispatched as in a window without an
    /// interface, so a window without one passes an empty list.
    pub fn handle_events(&mut self, slots: &Collaborators, focus: &Vec<UiFocus>) -> (commands: Vec<
        FrameCommand,
    >)
        ensures
            final(self)@ == after_dispatch(old(self)@),
            commands@ == dispatch_commands(old(self)@, *slots, focus@),
    {
        let ghost start = self@;
        let mut batch: Vec<WindowEvent> = Vec::new();
        batch.append(&mut self.unhandled_events);
        batch.append(&mut self.events);

        let mut commands: Vec<FrameCommand> = Vec::new();
        let mut i: usize = 0;
        while i < batch.len()
            invariant
                i <= batch.len(),
                batch@ == start.pending(),
                self@ == after_events(start, batch@, i as nat).drained(),
                commands@ == events_commands(start, *slots, batch@, focus@, i as nat),
            decreases batch.len() - i,
        {
            let report: Option<UiFocus> = if i < focus.len() {
                Some(focus[i])
            } else {
                None
            };
            let mut raised: Vec<FrameCommand> = self.handle_event(slots, &batch[i], report);
            commands.append(&mut raised);
            i += 1;
        }
        commands.push(FrameCommand::PollEvents);
        commands
    }

    /// One turn of the window's cycle on a surface of `width` by `height`
    /// pixels, `dt` seconds after the frame before: dispatch what is pending,
    /// then render and present a frame.
    ///
    /// A window that was asked to close before the turn does nothing and
    /// answers that the caller should stop. A window that an event of this
    /// turn asks to close still renders this frame, and then answers the
    /// same. A window that renders needs the camera of the scene that it
    /// shows, and for an effect the 3D camera; the other camera may be
    /// missing.
    pub fn do_render_with(
        &mut self,
        slots: &Collaborators,
        width: u32,
        height: u32,
        dt: F32Bits,
        focus: &Vec<UiFocus>,
    ) -> (frame: Frame)
        requires
            !old(self)@.should_close ==> can_render(old(self)@.rendering_mode, *slots),
        ensures
            final(self)@ == after_frame(old(self)@),
            frame.commands@ == frame_commands(old(self)@, *slots, width, height, dt, focus@),
            frame.should_continue == !final(self)@.should_close,
    {
        if self.should_close {
            return Frame { commands: Vec::new(), should_continue: false };
        }
        let ghost start = self@;
        let mut commands: Vec<FrameCommand> = self.handle_events(slots, focus);
        proof {
            lemma_events_leave_the_rest(start, start.pending(), start.pending().len());
        }
        let mut rendered: Frame = self.render_single_frame(slots, width, height, dt);
        commands.append(&mut rendered.commands);
        Frame { commands, should_continue: rendered.should_continue }
    }

    /// Takes one event.
    ///
    /// `focus` is what the interface reports after it was offered the event;
    /// `None` stands for a window without an interface. The window first
    /// keeps what is its own: a request to close sets the close flag and goes
    /// no further, and a new framebuffer size is applied. Then the event goes
    /// to the camera of the current mode, unless the interface keeps it.
    pub fn handle_event(
        &mut self,
        slots: &Collaborators,
        event: &WindowEvent,
        focus: Option<UiFocus>,
    ) -> (commands: Vec<FrameCommand>)
        ensures
            final(self)@ == after_event(old(self)@, *event),
            commands@ == event_commands(old(self)@, *slots, *event, focus),
    {
        if event.is_close_request() {
            self.close();
            return Vec::new();
        }
        let mut commands: Vec<FrameCommand> = match *event {
            WindowEvent::FramebufferSize(width, height) => self.update_viewport(width, height),
            _ => Vec::new(),
        };
        let kept = match focus {
            Some(f) => f.swallows(event),
            None => false,
        };
        if !kept {
            match self.rendering_mode {
                RenderMode::ThreeD => {
                    if slots.camera {
                        commands.push(FrameCommand::CameraEvent(*event));
                    }
                },
                RenderMode::TwoD => {
                    if slots.planar_camera {
                        commands.push(FrameCommand::PlanarCameraEvent(*event));
                    }
                },
            }
        }
        commands
    }

    /// Gives the viewport and the offscreen target a new size.
    fn update_viewport(&mut self, width: u32, height: u32) -> (commands: Vec<FrameCommand>)
        ensures
            final(self)@ == (WindowModel {
                viewport: Extent { width, height },
                post_process_render_target: Extent { width, height },
                ..old(self)@
            }),
            commands@ == viewport_commands(width, height),
    {
        self.viewport = Extent { width, height };
        self.post_process_render_target = Extent { width, height };
        let mut commands: Vec<FrameCommand> = Vec::new();
        commands.push(FrameCommand::Context(ContextCommand::Scissor(0, 0, width, height)));
        commands.push(FrameCommand::ResizeTarget(Target::Screen, width, height));
        commands.push(FrameCommand::ResizeTarget(Target::Offscreen, width, height));
        commands
    }

    /// Renders and presents one frame on a surface of `width` by `height`
    /// pixels, `dt` seconds after the frame before, and says whether the
    /// caller should go on.
    ///
    /// Every camera that is there is refreshed, whatever the mode. The scene
    /// is drawn to the offscreen target where an effect will work on it, else
    /// to the screen. The target is cleared in any case; then the renderer of
    /// the current mode draws, if there is one. The overlays come last. The
    /// frame is presented, and the pacer gets its turn. The scene that is
    /// shown needs its camera, and an effect needs the 3D camera; the other
    /// camera may be missing.
    pub fn render_single_frame(
        &mut self,
        slots: &Collaborators,
        width: u32,
        height: u32,
        dt: F32Bits,
    ) -> (frame: Frame)
        requires
            can_render(old(self)@.rendering_mode, *slots),
        ensures
            final(self)@ == old(self)@,
            frame.commands@ == render_commands(old(self)@, *slots, width, height, dt),
            frame.should_continue == !old(self)@.should_close,
    {
        let mut commands: Vec<FrameCommand> = refresh_cameras(slots, width, height);

        match self.light_mode {
            Light::StickToCamera => self.set_light(Light::StickToCamera),
            _ => {},
        }

        let mut stage: Vec<FrameCommand> = select_scene_target(slots);
        commands.append(&mut stage);
        stage = self.clear_screen();
        commands.append(&mut stage);
        stage = draw_scene(self.rendering_mode, slots);
        commands.append(&mut stage);
        stage = post_process(slots, width, height, dt);
        commands.append(&mut stage);
        stage = draw_overlays(slots, width, height);
        commands.append(&mut stage);
        stage = present();
        commands.append(&mut stage);

        Frame { commands, should_continue: !self.should_close() }
    }

    /// Clears the target that is drawn to.
    fn clear_screen(&self) -> (commands: Vec<FrameCommand>)
        ensures
            commands@ == clear_commands(self@.background),
    {
        let mut commands: Vec<FrameCommand> = Vec::new();
        commands.push(FrameCommand::Context(ContextCommand::ActiveTexture(0)));
        commands.push(
            FrameCommand::Context(
                ContextCommand::ClearColor(
                    self.background.r,
                    self.background.g,
                    self.background.b,
                    F32Bits { bits: ONE_BITS },
                ),
            ),
        );
        commands.push(FrameCommand::Context(ContextCommand::Clear(Buffer::Color)));
        commands.push(FrameCommand::Context(ContextCommand::Clear(Buffer::Depth)));
        commands
    }
}

/// Every camera that is there learns the size of the window and updates
/// itself.
fn refresh_cameras(slots: &Collaborators, width: u32, height: u32) -> (commands: Vec<FrameCommand>)
    ensures
        commands@ == camera_commands(*slots, width, height),
{
    let mut commands: Vec<FrameCommand> = Vec::new();
    if slots.planar_camera {
        commands.push(FrameCommand::PlanarCameraEvent(WindowEvent::FramebufferSize(width, height)));
    }
    if slots.camera {
        commands.push(FrameCommand::CameraEvent(WindowEvent::FramebufferSize(width, height)));
    }
    if slots.planar_camera {
        commands.push(FrameCommand::UpdatePlanarCamera);
    }
    if slots.camera {
        commands.push(FrameCommand::UpdateCamera);
    }
    assert(commands@ =~= camera_commands(*slots, width, height));
    commands
}

/// The scene goes to the offscreen target where an effect will work on it.
fn select_scene_target(slots: &Collaborators) -> (commands: Vec<FrameCommand>)
    ensures
        commands@ == seq![FrameCommand::SelectTarget(scene_target(*slots))],
{
    let mut commands: Vec<FrameCommand> = Vec::new();
    if slots.post_processing {
        commands.push(FrameCommand::SelectTarget(Target::Offscreen));
    } else {
        commands.push(FrameCommand::SelectTarget(Target::Screen));
    }
    commands
}

/// The renderer of the current mode draws, where there is one.
fn draw_scene(mode: RenderMode, slots: &Collaborators) -> (commands: Vec<FrameCommand>)
    ensures
        commands@ == draw_commands(mode, *slots),
{
    let mut commands: Vec<FrameCommand> = Vec::new();
    match mode {
        RenderMode::ThreeD => {
            if slots.renderer {
                commands.push(FrameCommand::Render { pass: RENDER_PASS });
            }
        },
        RenderMode::TwoD => {
            if slots.planar_renderer {
                commands.push(FrameCommand::RenderPlanar);
            }
        },
    }
    commands
}

/// The effect, where there is one, turns the offscreen scene into the
/// picture on the screen.
fn post_process(slots: &Collaborators, width: u32, height: u32, dt: F32Bits) -> (commands: Vec<
    FrameCommand,
>)
    ensures
        commands@ == effect_commands(*slots, width, height, dt),
{
    let mut commands: Vec<FrameCommand> = Vec::new();
    if slots.post_processing {
        commands.push(FrameCommand::SelectTarget(Target::Screen));
        commands.push(FrameCommand::UpdateEffect { dt, width, height });
        commands.push(FrameCommand::DrawEffect);
    }
    commands
}

/// The text goes over the scene, and the interface over the text.
fn draw_overlays(slots: &Collaborators, width: u32, height: u32) -> (commands: Vec<FrameCommand>)
    ensures
        commands@ == overlay_commands(*slots, width, height),
{
    let mut commands: Vec<FrameCommand> = Vec::new();
    commands.push(FrameCommand::RenderText { width, height });
    if slots.ui {
        commands.push(FrameCommand::RenderUi { width, height });
    }
    commands
}

/// The frame is presented, and the pacer gets its turn.
fn present() -> (commands: Vec<FrameCommand>)
    ensures
        commands@ == seq![FrameCommand::SwapBuffers, FrameCommand::Throttle],
{
    let mut commands: Vec<FrameCommand> = Vec::new();
    commands.push(FrameCommand::SwapBuffers);
    commands.push(FrameCommand::Throttle);
    commands
}

} // verus!
