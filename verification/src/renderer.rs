//! What a scene renderer has to offer.
//!
//! A renderer belongs to the caller. The window never holds one: a frame
//! says when a renderer has to draw, with `FrameCommand::Render` or
//! `FrameCommand::RenderPlanar`, and the caller, who performs the frame, makes
//! the call. The camera is whatever the caller uses for one.

use vstd::prelude::*;

verus! {

/// A renderer of the 3D scene.
pub trait Renderer<C: ?Sized> {
    /// Draws the scene as `camera` sees it. `pass` tells the passes of a
    /// renderer apart that needs several.
    fn render(&mut self, pass: usize, camera: &mut C);
}

/// A renderer of the 2D scene.
pub trait PlanarRenderer<C: ?Sized> {
    /// Draws the scene as `camera` sees it.
    fn render(&mut self, camera: &mut C);
}

} // verus!
