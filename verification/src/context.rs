//! The commands that the window gives to the graphics context.
//!
//! The context is an immediate-mode command interface. Whoever performs a
//! command asks the context for its error state right after, and treats an
//! error as fatal: a context in a wrong state is not something a frame can
//! recover from.

use vstd::prelude::*;
use crate::event::F32Bits;

verus! {

/// The order of the vertices of a front-facing triangle.
#[derive(Clone, Copy, PartialEq, Eq, Debug)]
pub enum Winding {
    Clockwise,
    CounterClockwise,
}

/// A switchable stage of the pipeline.
#[derive(Clone, Copy, PartialEq, Eq, Debug)]
pub enum Capability {
    DepthTest,
    ScissorTest,
    ProgramPointSize,
    CullFace,
}

/// When a fragment passes the depth test, compared with what is stored.
#[derive(Clone, Copy, PartialEq, Eq, Debug)]
pub enum DepthTest {
    Less,
    LessOrEqual,
}

/// A side of a triangle.
#[derive(Clone, Copy, PartialEq, Eq, Debug)]
pub enum Face {
    Front,
    Back,
}

/// A buffer of the active render target.
#[derive(Clone, Copy, PartialEq, Eq, Debug)]
pub enum Buffer {
    Color,
    Depth,
}

/// One command to the graphics context.
#[derive(Clone, Copy, PartialEq, Eq, Debug)]
pub enum ContextCommand {
    /// Say which winding faces the viewer.
    FrontFace(Winding),
    /// Switch a stage on.
    Enable(Capability),
    /// Set the depth test.
    DepthFunc(DepthTest),
    /// Say which side of a triangle is not drawn.
    CullFace(Face),
    /// Make the texture unit with this index the active one.
    ActiveTexture(u32),
    /// Set the colour that clears the colour buffer: red, green, blue, alpha.
    ClearColor(F32Bits, F32Bits, F32Bits, F32Bits),
    /// Clear a buffer.
    Clear(Buffer),
    /// Restrict drawing to a rectangle: left, bottom, width, height.
    Scissor(u32, u32, u32, u32),
}

/// The configuration that a fresh context gets, in order.
pub open spec fn init_gl_commands() -> Seq<ContextCommand> {
    seq![
        ContextCommand::FrontFace(Winding::CounterClockwise),
        ContextCommand::Enable(Capability::DepthTest),
        ContextCommand::Enable(Capability::ScissorTest),
        ContextCommand::Enable(Capability::ProgramPointSize),
        ContextCommand::DepthFunc(DepthTest::LessOrEqual),
        ContextCommand::FrontFace(Winding::CounterClockwise),
        ContextCommand::Enable(Capability::CullFace),
        ContextCommand::CullFace(Face::Back),
    ]
}

/// Configures a fresh context: counter-clockwise front faces, depth test with
/// "less or equal", scissor test, point sizes set by the program, and culling
/// of back faces.
pub fn init_gl() -> (commands: Vec<ContextCommand>)
    ensures
        commands@ == init_gl_commands(),
{
    let mut commands: Vec<ContextCommand> = Vec::new();
    commands.push(ContextCommand::FrontFace(Winding::CounterClockwise));
    commands.push(ContextCommand::Enable(Capability::DepthTest));
    commands.push(ContextCommand::Enable(Capability::ScissorTest));
    commands.push(ContextCommand::Enable(Capability::ProgramPointSize));
    commands.push(ContextCommand::DepthFunc(DepthTest::LessOrEqual));
    commands.push(ContextCommand::FrontFace(Winding::CounterClockwise));
    commands.push(ContextCommand::Enable(Capability::CullFace));
    commands.push(ContextCommand::CullFace(Face::Back));
    commands
}

/// A command that left the context in an error state, and the code of the
/// error as the context reports it.
#[derive(Clone, Copy, PartialEq, Eq, Debug)]
pub struct ContextFault {
    pub command: ContextCommand,
    pub error: u32,
}

/// Judges the error state that the context reports after a command: zero is
/// no error, and anything else is a fault of that command.
pub fn check_context(command: ContextCommand, error: u32) -> (outcome: Result<(), ContextFault>)
    ensures
        error == 0 ==> outcome == Ok::<(), ContextFault>(()),
        error != 0 ==> outcome == Err::<(), ContextFault>(ContextFault { command, error }),
{
    if error == 0 {
        Ok(())
    } else {
        Err(ContextFault { command, error })
    }
}

} // verus!
