//! The per-frame core of an interactive 3D/2D rendering window.
//!
//! The window is a state machine. In every turn of its cycle it takes the
//! input events that have come in, decides what each subsystem around it has
//! to do, and returns that as a list of commands. The caller performs the
//! commands on the platform window, the graphics context, the cameras, the
//! renderers and the overlays, and reports back what only it can know: the
//! size of the surface, the time that has passed since the frame before, and
//! which widgets of the user interface hold the input devices.
//!
//! - `event`: the events of the window and of the input devices.
//! - `ui`: the events in the vocabulary of the embedded user interface.
//! - `context`: the commands to the graphics context.
//! - `frame`: the commands of a frame.
//! - `model`: the state machine, as mathematics.
//! - `window`: the state machine, as code.
//! - `laws`: what holds of every window.
//! - `pacer`: the ceiling on the frame rate.
//! - `capture`: reading the screen back.
//! - `renderer`: what a scene renderer has to offer.

pub mod capture;
pub mod context;
pub mod event;
pub mod frame;
pub mod laws;
pub mod model;
pub mod pacer;
pub mod renderer;
pub mod ui;
pub mod window;
