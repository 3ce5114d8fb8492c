//! A minimal graphics device over OpenGL: buffer, program and draw operations
//! recorded as a stream of commands, with a bind cache that elides redundant
//! bind calls and a model of the GPU state that the stream produces.
pub mod command;
pub mod context;
pub mod error;
pub mod frame;
pub mod gl;
pub mod shader;
pub mod shader_string;
pub mod window;

pub use self::shader_string::{FRAGMENT_SHADER, VERTEX_SHADER};
