//! What can go wrong when the device creates a resource.
use vstd::prelude::*;

verus! {

/// The two programmable stages a program is linked from.
#[derive(Clone, Copy, Debug, PartialEq, Eq, Structural)]
pub enum ShaderStage {
    Vertex,
    Fragment,
}

/// A failure to create a buffer, shader or program.
#[derive(Debug, PartialEq, Eq)]
pub enum GraphicsError {
    /// The driver could not create the object; its message.
    Allocation { message: String },
    /// A stage did not compile; the compiler's diagnostic text.
    Compile { stage: ShaderStage, log: String },
    /// The program did not link; the linker's diagnostic text.
    Link { log: String },
}

} // verus!
