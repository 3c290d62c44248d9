use window_core::context::{Buffer, ContextCommand};
use window_core::event::{Action, F32Bits, Key, Modifiers, WindowEvent};
use window_core::frame::{Collaborators, FrameCommand, Target};
use window_core::window::{CustomWindow, Light, RenderMode};

fn bits(x: f32) -> F32Bits {
    F32Bits { bits: x.to_bits() }
}

fn no_modifiers() -> Modifiers {
    Modifiers { shift: false, control: false, alt: false, logo: false }
}

fn step() -> F32Bits {
    bits(0.25)
}

fn cameras_only() -> Collaborators {
    Collaborators {
        camera: true,
        planar_camera: true,
        renderer: false,
        planar_renderer: false,
        post_processing: false,
        ui: false,
    }
}

fn everything() -> Collaborators {
    Collaborators {
        camera: true,
        planar_camera: true,
        renderer: true,
        planar_renderer: true,
        post_processing: true,
        ui: true,
    }
}

fn count(commands: &[FrameCommand], wanted: FrameCommand) -> usize {
    commands.iter().filter(|command| **command == wanted).count()
}

fn clear(r: f32, g: f32, b: f32) -> Vec<FrameCommand> {
    vec![
        FrameCommand::Context(ContextCommand::ActiveTexture(0)),
        FrameCommand::Context(ContextCommand::ClearColor(bits(r), bits(g), bits(b), bits(1.0))),
        FrameCommand::Context(ContextCommand::Clear(Buffer::Color)),
        FrameCommand::Context(ContextCommand::Clear(Buffer::Depth)),
    ]
}

fn nothing() -> Collaborators {
    Collaborators {
        camera: false,
        planar_camera: false,
        renderer: false,
        planar_renderer: false,
        post_processing: false,
        ui: false,
    }
}

fn refresh(width: u32, height: u32) -> Vec<FrameCommand> {
    vec![
        FrameCommand::PlanarCameraEvent(WindowEvent::FramebufferSize(width, height)),
        FrameCommand::CameraEvent(WindowEvent::FramebufferSize(width, height)),
        FrameCommand::UpdatePlanarCamera,
        FrameCommand::UpdateCamera,
    ]
}

#[test]
fn frame_without_renderer_clears_and_presents() {
    let mut window = CustomWindow::new();
    window.set_background_color(bits(0.0), bits(0.0), bits(1.0));
    let frame = window.do_render_with(&cameras_only(), 800, 600, step(), &Vec::new());
    assert!(frame.should_continue);
    let mut expected = vec![FrameCommand::PollEvents];
    expected.extend(refresh(800, 600));
    expected.push(FrameCommand::SelectTarget(Target::Screen));
    expected.extend(clear(0.0, 0.0, 1.0));
    expected.push(FrameCommand::RenderText { width: 800, height: 600 });
    expected.push(FrameCommand::SwapBuffers);
    expected.push(FrameCommand::Throttle);
    assert_eq!(frame.commands, expected);
}

#[test]
fn frame_in_3d_calls_the_3d_renderer_once_with_pass_one() {
    let mut window = CustomWindow::new();
    let mut slots = cameras_only();
    slots.renderer = true;
    slots.planar_renderer = true;
    let frame = window.render_single_frame(&slots, 640, 480, step());
    let mut expected = refresh(640, 480);
    expected.push(FrameCommand::SelectTarget(Target::Screen));
    expected.extend(clear(0.0, 0.0, 0.0));
    expected.push(FrameCommand::Render { pass: 1 });
    expected.push(FrameCommand::RenderText { width: 640, height: 480 });
    expected.push(FrameCommand::SwapBuffers);
    expected.push(FrameCommand::Throttle);
    assert_eq!(frame.commands, expected);
    assert!(frame.should_continue);
}

#[test]
fn frame_in_2d_calls_the_2d_renderer_once() {
    let mut window = CustomWindow::new();
    window.switch_rendering_mode();
    let mut slots = cameras_only();
    slots.renderer = true;
    slots.planar_renderer = true;
    let frame = window.render_single_frame(&slots, 640, 480, step());
    assert_eq!(count(&frame.commands, FrameCommand::RenderPlanar), 1);
    assert_eq!(count(&frame.commands, FrameCommand::Render { pass: 1 }), 0);
    assert_eq!(frame.commands[9], FrameCommand::RenderPlanar);
}

#[test]
fn frame_in_2d_without_2d_renderer_draws_nothing() {
    let mut window = CustomWindow::new();
    window.switch_rendering_mode();
    let mut slots = cameras_only();
    slots.renderer = true;
    let frame = window.render_single_frame(&slots, 640, 480, step());
    assert!(frame.commands.iter().all(|command| !matches!(
        command,
        FrameCommand::Render { .. } | FrameCommand::RenderPlanar
    )));
    assert_eq!(count(&frame.commands, FrameCommand::SwapBuffers), 1);
}

#[test]
fn both_cameras_update_once_in_either_mode() {
    for switch in [false, true] {
        for slots in [cameras_only(), everything()] {
            let mut window = CustomWindow::new();
            if switch {
                window.switch_rendering_mode();
            }
            window.enqueue_event(WindowEvent::Key(Key::A, Action::Press, no_modifiers()));
            window.enqueue_event(WindowEvent::FramebufferSize(30, 40));
            let frame = window.do_render_with(&slots, 30, 40, step(), &Vec::new());
            assert_eq!(count(&frame.commands, FrameCommand::UpdateCamera), 1);
            assert_eq!(count(&frame.commands, FrameCommand::UpdatePlanarCamera), 1);
        }
    }
}

#[test]
fn both_cameras_learn_the_size_of_the_window_every_frame() {
    let mut window = CustomWindow::new();
    window.switch_rendering_mode();
    let frame = window.render_single_frame(&cameras_only(), 111, 222, step());
    assert_eq!(frame.commands[..4], refresh(111, 222)[..]);
}

#[test]
fn frame_with_effect_draws_offscreen_and_processes_to_the_screen() {
    let mut window = CustomWindow::new();
    let mut slots = cameras_only();
    slots.renderer = true;
    slots.post_processing = true;
    let frame = window.render_single_frame(&slots, 800, 600, step());
    let mut expected = refresh(800, 600);
    expected.push(FrameCommand::SelectTarget(Target::Offscreen));
    expected.extend(clear(0.0, 0.0, 0.0));
    expected.push(FrameCommand::Render { pass: 1 });
    expected.push(FrameCommand::SelectTarget(Target::Screen));
    expected.push(FrameCommand::UpdateEffect { dt: step(), width: 800, height: 600 });
    expected.push(FrameCommand::DrawEffect);
    expected.push(FrameCommand::RenderText { width: 800, height: 600 });
    expected.push(FrameCommand::SwapBuffers);
    expected.push(FrameCommand::Throttle);
    assert_eq!(frame.commands, expected);
}

#[test]
fn effect_is_looked_for_anew_in_every_frame() {
    let mut window = CustomWindow::new();
    let mut slots = cameras_only();
    slots.post_processing = true;
    let with = window.render_single_frame(&slots, 8, 8, step());
    assert_eq!(with.commands[4], FrameCommand::SelectTarget(Target::Offscreen));
    slots.post_processing = false;
    let without = window.render_single_frame(&slots, 8, 8, step());
    assert_eq!(without.commands[4], FrameCommand::SelectTarget(Target::Screen));
    assert_eq!(count(&without.commands, FrameCommand::DrawEffect), 0);
}

#[test]
fn interface_is_drawn_last_over_the_text() {
    let mut window = CustomWindow::new();
    let frame = window.render_single_frame(&everything(), 800, 600, step());
    let n = frame.commands.len();
    assert_eq!(
        frame.commands[n - 4..],
        [
            FrameCommand::RenderText { width: 800, height: 600 },
            FrameCommand::RenderUi { width: 800, height: 600 },
            FrameCommand::SwapBuffers,
            FrameCommand::Throttle,
        ]
    );
}

#[test]
fn frame_leaves_the_window_as_it_was() {
    let mut window = CustomWindow::new();
    window.set_light(Light::StickToCamera);
    window.set_background_color(bits(0.25), bits(0.5), bits(0.75));
    window.render_single_frame(&everything(), 800, 600, step());
    assert_eq!(window.light(), Light::StickToCamera);
    assert_eq!(window.rendering_mode(), RenderMode::ThreeD);
    assert_eq!(window.background().r, bits(0.25));
    assert_eq!(window.background().g, bits(0.5));
    assert_eq!(window.background().b, bits(0.75));
    assert!(!window.should_close());
}

#[test]
fn close_event_ends_the_cycle_after_its_frame() {
    let mut window = CustomWindow::new();
    window.enqueue_event(WindowEvent::Close);
    let frame = window.do_render_with(&cameras_only(), 800, 600, step(), &Vec::new());
    assert!(!frame.should_continue);
    assert_eq!(count(&frame.commands, FrameCommand::SwapBuffers), 1);
    assert!(window.should_close());
    let next = window.do_render_with(&everything(), 800, 600, step(), &Vec::new());
    assert!(!next.should_continue);
    assert_eq!(next.commands, vec![]);
}

#[test]
fn escape_release_ends_the_cycle_after_its_frame() {
    let mut window = CustomWindow::new();
    window.defer_event(WindowEvent::Key(Key::Escape, Action::Release, no_modifiers()));
    let mut slots = cameras_only();
    slots.renderer = true;
    let frame = window.do_render_with(&slots, 800, 600, step(), &Vec::new());
    assert!(!frame.should_continue);
    assert_eq!(count(&frame.commands, FrameCommand::Render { pass: 1 }), 1);
    let next = window.do_render_with(&slots, 800, 600, step(), &Vec::new());
    assert!(!next.should_continue);
    assert_eq!(count(&next.commands, FrameCommand::Render { pass: 1 }), 0);
}

#[test]
fn closed_window_keeps_its_events_and_does_nothing() {
    let mut window = CustomWindow::new();
    window.close();
    let event = WindowEvent::FramebufferSize(1, 2);
    window.enqueue_event(event);
    let frame = window.do_render_with(&cameras_only(), 800, 600, step(), &Vec::new());
    assert!(!frame.should_continue);
    assert_eq!(frame.commands, vec![]);
    assert_eq!(window.pending_events(), vec![event]);
    assert_eq!(window.viewport().width, 800);
}

#[test]
fn render_single_frame_reports_a_close_from_before() {
    let mut window = CustomWindow::new();
    window.close();
    let frame = window.render_single_frame(&cameras_only(), 800, 600, step());
    assert!(!frame.should_continue);
    assert_eq!(count(&frame.commands, FrameCommand::SwapBuffers), 1);
}

#[test]
fn resize_of_this_turn_is_applied_before_the_draw() {
    let mut window = CustomWindow::new();
    let mut slots = cameras_only();
    slots.renderer = true;
    window.enqueue_event(WindowEvent::FramebufferSize(1920, 1080));
    let frame = window.do_render_with(&slots, 1920, 1080, step(), &Vec::new());
    let resized = frame
        .commands
        .iter()
        .position(|c| *c == FrameCommand::ResizeTarget(Target::Offscreen, 1920, 1080))
        .unwrap();
    let drawn =
        frame.commands.iter().position(|c| *c == FrameCommand::Render { pass: 1 }).unwrap();
    assert!(resized < drawn);
    assert_eq!(window.viewport().width, 1920);
    assert_eq!(window.post_process_render_target().height, 1080);
}

#[test]
fn effect_is_told_the_time_that_the_caller_measured() {
    let mut window = CustomWindow::new();
    let mut slots = cameras_only();
    slots.post_processing = true;
    for seconds in [0.0f32, 0.004, 0.016, 1.5] {
        let frame = window.render_single_frame(&slots, 320, 200, bits(seconds));
        let told: Vec<&FrameCommand> = frame
            .commands
            .iter()
            .filter(|command| matches!(command, FrameCommand::UpdateEffect { .. }))
            .collect();
        assert_eq!(
            told,
            vec![&FrameCommand::UpdateEffect { dt: bits(seconds), width: 320, height: 200 }]
        );
        assert_eq!(count(&frame.commands, FrameCommand::DrawEffect), 1);
    }
    slots.post_processing = false;
    let frame = window.render_single_frame(&slots, 320, 200, bits(0.5));
    assert!(frame
        .commands
        .iter()
        .all(|command| !matches!(command, FrameCommand::UpdateEffect { .. })));
}

#[test]
fn frame_in_3d_needs_the_3d_camera_only() {
    let mut window = CustomWindow::new();
    let mut slots = nothing();
    slots.camera = true;
    slots.renderer = true;
    assert!(window.can_render(&slots));
    let key = WindowEvent::Key(Key::A, Action::Press, no_modifiers());
    window.enqueue_event(key);
    let frame = window.do_render_with(&slots, 640, 480, step(), &Vec::new());
    let mut expected = vec![
        FrameCommand::CameraEvent(key),
        FrameCommand::PollEvents,
        FrameCommand::CameraEvent(WindowEvent::FramebufferSize(640, 480)),
        FrameCommand::UpdateCamera,
        FrameCommand::SelectTarget(Target::Screen),
    ];
    expected.extend(clear(0.0, 0.0, 0.0));
    expected.push(FrameCommand::Render { pass: 1 });
    expected.push(FrameCommand::RenderText { width: 640, height: 480 });
    expected.push(FrameCommand::SwapBuffers);
    expected.push(FrameCommand::Throttle);
    assert_eq!(frame.commands, expected);
    assert!(frame.should_continue);
}

#[test]
fn frame_in_2d_needs_the_2d_camera_only() {
    let mut window = CustomWindow::new();
    window.switch_rendering_mode();
    let mut slots = nothing();
    slots.planar_camera = true;
    slots.planar_renderer = true;
    assert!(window.can_render(&slots));
    let frame = window.render_single_frame(&slots, 64, 48, step());
    let mut expected = vec![
        FrameCommand::PlanarCameraEvent(WindowEvent::FramebufferSize(64, 48)),
        FrameCommand::UpdatePlanarCamera,
        FrameCommand::SelectTarget(Target::Screen),
    ];
    expected.extend(clear(0.0, 0.0, 0.0));
    expected.push(FrameCommand::RenderPlanar);
    expected.push(FrameCommand::RenderText { width: 64, height: 48 });
    expected.push(FrameCommand::SwapBuffers);
    expected.push(FrameCommand::Throttle);
    assert_eq!(frame.commands, expected);
}

#[test]
fn frame_needs_the_camera_of_the_scene_that_is_shown() {
    let mut window = CustomWindow::new();
    let mut slots = nothing();
    assert!(!window.can_render(&slots));
    slots.planar_camera = true;
    assert!(!window.can_render(&slots));
    slots.camera = true;
    assert!(window.can_render(&slots));
    slots.planar_camera = false;
    assert!(window.can_render(&slots));
    window.switch_rendering_mode();
    assert!(!window.can_render(&slots));
    slots.planar_camera = true;
    slots.camera = false;
    assert!(window.can_render(&slots));
}

#[test]
fn effect_needs_the_3d_camera_for_its_clip_planes() {
    let mut window = CustomWindow::new();
    window.switch_rendering_mode();
    let mut slots = nothing();
    slots.planar_camera = true;
    slots.post_processing = true;
    assert!(!window.can_render(&slots));
    slots.camera = true;
    assert!(window.can_render(&slots));
}

#[test]
fn closed_window_needs_no_camera() {
    let mut window = CustomWindow::new();
    window.close();
    let frame = window.do_render_with(&nothing(), 800, 600, step(), &Vec::new());
    assert!(!frame.should_continue);
    assert_eq!(frame.commands, vec![]);
}
