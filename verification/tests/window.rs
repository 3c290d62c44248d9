use window_core::context::{
    check_context, init_gl, Buffer, Capability, ContextCommand, ContextFault, DepthTest, Face,
    Winding,
};
use window_core::event::F32Bits;
use window_core::frame::Extent;
use window_core::window::{
    Color, CustomWindow, Light, RenderMode, DEFAULT_HEIGHT, DEFAULT_WIDTH, ONE_BITS, RENDER_PASS,
    TEN_BITS,
};

fn bits(x: f32) -> F32Bits {
    F32Bits { bits: x.to_bits() }
}

#[test]
fn new_window_has_the_default_state() {
    let window = CustomWindow::new();
    assert!(!window.should_close());
    assert!(!window.is_closed());
    assert_eq!(window.rendering_mode(), RenderMode::ThreeD);
    assert_eq!(window.light(), Light::Absolute(bits(0.0), bits(10.0), bits(0.0)));
    assert_eq!(window.background(), Color { r: bits(0.0), g: bits(0.0), b: bits(0.0) });
    assert_eq!(window.viewport(), Extent { width: 800, height: 600 });
    assert_eq!(window.post_process_render_target(), Extent { width: 800, height: 600 });
    assert_eq!(window.max_dur_per_frame(), None);
    assert_eq!(window.pending_events(), vec![]);
}

#[test]
fn new_window_with_size_sizes_both_targets() {
    let window = CustomWindow::new_with_size(1280, 720);
    assert_eq!(window.viewport(), Extent { width: 1280, height: 720 });
    assert_eq!(window.post_process_render_target(), Extent { width: 1280, height: 720 });
    assert_eq!(window.rendering_mode(), RenderMode::ThreeD);
}

#[test]
fn constants_are_the_numbers_they_stand_for() {
    assert_eq!(DEFAULT_WIDTH, 800);
    assert_eq!(DEFAULT_HEIGHT, 600);
    assert_eq!(RENDER_PASS, 1);
    assert_eq!(f32::from_bits(ONE_BITS), 1.0);
    assert_eq!(f32::from_bits(TEN_BITS), 10.0);
}

#[test]
fn switching_the_mode_twice_comes_back() {
    let mut window = CustomWindow::new();
    window.switch_rendering_mode();
    assert_eq!(window.rendering_mode(), RenderMode::TwoD);
    window.switch_rendering_mode();
    assert_eq!(window.rendering_mode(), RenderMode::ThreeD);
}

#[test]
fn close_is_seen_by_both_queries() {
    let mut window = CustomWindow::new();
    window.close();
    assert!(window.should_close());
    assert!(window.is_closed());
    window.close();
    assert!(window.should_close());
}

#[test]
fn setters_change_one_thing() {
    let mut window = CustomWindow::new();
    window.set_background_color(bits(0.1), bits(0.2), bits(0.3));
    assert_eq!(window.background(), Color { r: bits(0.1), g: bits(0.2), b: bits(0.3) });
    assert_eq!(window.light(), Light::Absolute(bits(0.0), bits(10.0), bits(0.0)));
    window.set_light(Light::StickToCamera);
    assert_eq!(window.light(), Light::StickToCamera);
    assert_eq!(window.background(), Color { r: bits(0.1), g: bits(0.2), b: bits(0.3) });
    window.set_light(Light::Absolute(bits(1.0), bits(2.0), bits(3.0)));
    assert_eq!(window.light(), Light::Absolute(bits(1.0), bits(2.0), bits(3.0)));
    assert_eq!(window.rendering_mode(), RenderMode::ThreeD);
    assert!(!window.should_close());
}

#[test]
fn fresh_context_is_configured_in_order() {
    assert_eq!(
        init_gl(),
        vec![
            ContextCommand::FrontFace(Winding::CounterClockwise),
            ContextCommand::Enable(Capability::DepthTest),
            ContextCommand::Enable(Capability::ScissorTest),
            ContextCommand::Enable(Capability::ProgramPointSize),
            ContextCommand::DepthFunc(DepthTest::LessOrEqual),
            ContextCommand::FrontFace(Winding::CounterClockwise),
            ContextCommand::Enable(Capability::CullFace),
            ContextCommand::CullFace(Face::Back),
        ]
    );
}

#[test]
fn context_error_is_a_fault_of_the_command() {
    let command = ContextCommand::Clear(Buffer::Depth);
    assert_eq!(check_context(command, 0), Ok(()));
    assert_eq!(check_context(command, 1282), Err(ContextFault { command, error: 1282 }));
    assert_eq!(check_context(command, u32::MAX), Err(ContextFault { command, error: u32::MAX }));
}
