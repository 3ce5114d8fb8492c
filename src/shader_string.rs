//! The sources of a pass-through program: the vertex stage places each vertex
//! at its position, the fragment stage paints every pixel orange.
use vstd::prelude::*;

verus! {

/// Vertex stage: attribute 0 is the position, passed through unchanged.
pub const VERTEX_SHADER: &'static str = "#version 330 core
layout (location = 0) in vec3 aPos;

void main()
{
    gl_Position = vec4(aPos.x, aPos.y, aPos.z, 1.0);
}
";

/// Fragment stage: a constant orange.
pub const FRAGMENT_SHADER: &'static str = "#version 330 core
out vec4 FragColor;

void main()
{
    FragColor = vec4(1.0, 0.5, 0.2, 1.0);
}
";

} // verus!
