//! The commands of a frame.
//!
//! A frame is a list of commands to the subsystems around the window: the
//! cameras, the graphics context, the render targets, the scene renderers,
//! the post-processing effect, the overlays and the platform window. The
//! window decides the list; the caller performs it, first to last.

use vstd::prelude::*;
use crate::context::ContextCommand;
use crate::event::{F32Bits, WindowEvent};

verus! {

/// A width and a height, in pixels.
#[derive(Clone, Copy, PartialEq, Eq, Debug)]
pub struct Extent {
    pub width: u32,
    pub height: u32,
}

/// A destination for what is drawn.
#[derive(Clone, Copy, PartialEq, Eq, Debug)]
pub enum Target {
    /// The visible surface. It has no storage of its own; its size is the
    /// viewport.
    Screen,
    /// The buffer that a post-processing effect reads from.
    Offscreen,
}

/// What the caller brings to a frame. Each part is there or not.
#[derive(Clone, Copy, PartialEq, Eq, Debug)]
pub struct Collaborators {
    /// The camera of the 3D scene.
    pub camera: bool,
    /// The camera of the 2D scene.
    pub planar_camera: bool,
    /// The renderer of the 3D scene.
    pub renderer: bool,
    /// The renderer of the 2D scene.
    pub planar_renderer: bool,
    /// The effect applied to the finished scene.
    pub post_processing: bool,
    /// The embedded user interface.
    pub ui: bool,
}

/// One command of a frame.
#[derive(Clone, Copy, PartialEq, Eq, Debug)]
pub enum FrameCommand {
    /// Hand an event to the 3D camera.
    CameraEvent(WindowEvent),
    /// Hand an event to the 2D camera.
    PlanarCameraEvent(WindowEvent),
    /// Ask the platform for the events that it has buffered since the last
    /// such command, and put them into the queue.
    PollEvents,
    /// Let the 3D camera update itself.
    UpdateCamera,
    /// Let the 2D camera update itself.
    UpdatePlanarCamera,
    /// Give a command to the graphics context.
    Context(ContextCommand),
    /// Give a target a new width and height.
    ResizeTarget(Target, u32, u32),
    /// Make a target the one that is drawn to.
    SelectTarget(Target),
    /// Let the 3D renderer draw the scene, seen by the 3D camera.
    Render { pass: usize },
    /// Let the 2D renderer draw the scene, seen by the 2D camera.
    RenderPlanar,
    /// Tell the effect the time in seconds that has passed since the frame
    /// before, the width and height of the window, and the near and far clip
    /// planes of the 3D camera.
    UpdateEffect { dt: F32Bits, width: u32, height: u32 },
    /// Let the effect read the offscreen target and draw to the active one.
    DrawEffect,
    /// Draw the text that was queued, over a window of this width and height.
    RenderText { width: u32, height: u32 },
    /// Draw the user interface, scaled by the pixel density of the display.
    RenderUi { width: u32, height: u32 },
    /// Present the frame.
    SwapBuffers,
    /// Wait for as long as the frame pacer says, then restart its clock.
    Throttle,
}

/// What one turn of the window's cycle comes to.
#[derive(PartialEq, Eq, Debug)]
pub struct Frame {
    /// What the caller has to perform, first to last.
    pub commands: Vec<FrameCommand>,
    /// Whether the caller should go on to another frame.
    pub should_continue: bool,
}

} // verus!
