//! Building a shader program: compile the vertex stage, compile the fragment
//! stage, link, release the stage objects. The driver does each piece of work;
//! this state machine decides what comes next from what the driver reported.
use vstd::prelude::*;

use crate::command::use_program_commands;
use crate::error::{GraphicsError, ShaderStage};
use crate::gl::GraphicsDevice;

verus! {

/// A linked shader program.
#[derive(Debug)]
pub struct RawProgram {
    id: u32,
}

impl RawProgram {
    /// The program's id.
    #[verifier::when_used_as_spec(spec_id)]
    pub fn id(&self) -> (r: u32)
        ensures
            r == self.spec_id(),
    {
        self.id
    }

    pub closed spec fn spec_id(&self) -> u32 {
        self.id
    }

    /// Makes the program current through `device`, whose bind cache leaves
    /// out the call when it is current already.
    pub fn bind(&self, device: &mut GraphicsDevice)
        requires
            old(device).wf(),
        ensures
            final(device).wf(),
            final(device).issued(
                old(device),
                use_program_commands(old(device).cached_program(), Some(self.spec_id())),
            ),
            final(device).cached_program() == Some(self.spec_id()),
            final(device).cached_vertex_buffer() == old(device).cached_vertex_buffer(),
            final(device).cached_index_buffer() == old(device).cached_index_buffer(),
            final(device).vertex_array() == old(device).vertex_array(),
    {
        device.bind_program(Some(self));
    }
}

/// Where a build stands.
#[derive(Debug)]
pub enum BuildState {
    /// The vertex stage is to be compiled.
    CompileVertex,
    /// The vertex stage compiled; the fragment stage is to be compiled.
    CompileFragment { vertex: u32 },
    /// Both stages compiled; the program is to be linked.
    Link { vertex: u32, fragment: u32 },
    /// The program linked; the stage objects are to be deleted.
    ReleaseShaders { program: u32, vertex: u32, fragment: u32 },
    /// The build failed for good.
    Failed { error: GraphicsError },
    /// The program is ready.
    Built { program: u32 },
}

/// What the driver reported for the work last requested.
#[derive(Debug)]
pub enum BuildEvent {
    /// The shader object could not be created.
    ShaderCreateFailed { message: String },
    /// Shader object `id` was created and compiled; its status and log.
    ShaderCompiled { id: u32, compiled: bool, log: String },
    /// The program object could not be created.
    ProgramCreateFailed { message: String },
    /// Program `id` was created, both stages attached and linked; its status
    /// and log.
    ProgramLinked { id: u32, linked: bool, log: String },
    /// Both stage objects were deleted.
    ShadersDeleted,
}

/// The work the driver is to do next.
#[derive(Debug, PartialEq, Eq)]
pub enum BuildRequest {
    /// Create a shader object of this stage, give it the source, compile it,
    /// and report with `ShaderCompiled`.
    CompileShader { stage: ShaderStage, source: String },
    /// Create a program, attach both stages, link it, and report with
    /// `ProgramLinked`.
    LinkProgram { vertex: u32, fragment: u32 },
    /// Delete both stage objects and report with `ShadersDeleted`.
    DeleteShaders { vertex: u32, fragment: u32 },
    /// Nothing is left to do: take the result with `finish`.
    Finished,
}

/// The state a build moves to on an event. An event that does not answer the
/// work requested in a state leaves it unchanged.
pub open spec fn next_state(state: BuildState, event: BuildEvent) -> BuildState {
    match (state, event) {
        (BuildState::CompileVertex, BuildEvent::ShaderCreateFailed { message }) =>
            BuildState::Failed { error: GraphicsError::Allocation { message } },
        (BuildState::CompileVertex, BuildEvent::ShaderCompiled { id, compiled, log }) =>
            if compiled {
                BuildState::CompileFragment { vertex: id }
            } else {
                BuildState::Failed { error: GraphicsError::Compile { stage: ShaderStage::Vertex, log } }
            },
        (BuildState::CompileFragment { .. }, BuildEvent::ShaderCreateFailed { message }) =>
            BuildState::Failed { error: GraphicsError::Allocation { message } },
        (BuildState::CompileFragment { vertex }, BuildEvent::ShaderCompiled { id, compiled, log }) =>
            if compiled {
                BuildState::Link { vertex, fragment: id }
            } else {
                BuildState::Failed { error: GraphicsError::Compile { stage: ShaderStage::Fragment, log } }
            },
        (BuildState::Link { .. }, BuildEvent::ProgramCreateFailed { message }) =>
            BuildState::Failed { error: GraphicsError::Allocation { message } },
        (BuildState::Link { vertex, fragment }, BuildEvent::ProgramLinked { id, linked, log }) =>
            if linked {
                BuildState::ReleaseShaders { program: id, vertex, fragment }
            } else {
                BuildState::Failed { error: GraphicsError::Link { log } }
            },
        (BuildState::ReleaseShaders { program, .. }, BuildEvent::ShadersDeleted) =>
            BuildState::Built { program },
        (s, _) => s,
    }
}

/// A vertex stage that does not compile fails the build, and the error
/// carries the compiler's log word for word; no later report changes that.
pub proof fn lemma_vertex_failure_reports_log(id: u32, log: String, later: BuildEvent)
    ensures
        next_state(BuildState::CompileVertex, BuildEvent::ShaderCompiled { id, compiled: false, log })
            == (BuildState::Failed {
            error: GraphicsError::Compile { stage: ShaderStage::Vertex, log },
        }),
        next_state(
            BuildState::Failed { error: GraphicsError::Compile { stage: ShaderStage::Vertex, log } },
            later,
        ) == (BuildState::Failed {
            error: GraphicsError::Compile { stage: ShaderStage::Vertex, log },
        }),
{
}

/// A program being built from a vertex and a fragment source.
#[derive(Debug)]
pub struct ProgramBuild {
    vertex_code: String,
    fragment_code: String,
    state: BuildState,
}

impl ProgramBuild {
    pub closed spec fn vertex_code(&self) -> Seq<char> {
        self.vertex_code@
    }

    pub closed spec fn fragment_code(&self) -> Seq<char> {
        self.fragment_code@
    }

    pub closed spec fn state(&self) -> BuildState {
        self.state
    }

    /// The work that `state` asks of the driver.
    pub open spec fn requests(&self, r: BuildRequest) -> bool {
        match self.state() {
            BuildState::CompileVertex => r matches BuildRequest::CompileShader { stage, source }
                && stage == ShaderStage::Vertex && source@ == self.vertex_code(),
            BuildState::CompileFragment { .. } => r matches BuildRequest::CompileShader {
                stage,
                source,
            } && stage == ShaderStage::Fragment && source@ == self.fragment_code(),
            BuildState::Link { vertex, fragment } => r == (BuildRequest::LinkProgram {
                vertex,
                fragment,
            }),
            BuildState::ReleaseShaders { vertex, fragment, .. } => r == (
            BuildRequest::DeleteShaders { vertex, fragment }),
            BuildState::Failed { .. } => r == BuildRequest::Finished,
            BuildState::Built { .. } => r == BuildRequest::Finished,
        }
    }

    /// A build that starts by compiling the vertex stage.
    pub fn new(vertex_code: &str, fragment_code: &str) -> (r: ProgramBuild)
        ensures
            r.vertex_code() == vertex_code@,
            r.fragment_code() == fragment_code@,
            r.state() == BuildState::CompileVertex,
    {
        ProgramBuild {
            vertex_code: vertex_code.to_owned(),
            fragment_code: fragment_code.to_owned(),
            state: BuildState::CompileVertex,
        }
    }

    /// The work the driver is to do next.
    pub fn request(&self) -> (r: BuildRequest)
        ensures
            self.requests(r),
    {
        match &self.state {
            BuildState::CompileVertex => BuildRequest::CompileShader {
                stage: ShaderStage::Vertex,
                source: self.vertex_code.clone(),
            },
            BuildState::CompileFragment { .. } => BuildRequest::CompileShader {
                stage: ShaderStage::Fragment,
                source: self.fragment_code.clone(),
            },
            BuildState::Link { vertex, fragment } => BuildRequest::LinkProgram {
                vertex: *vertex,
                fragment: *fragment,
            },
            BuildState::ReleaseShaders { vertex, fragment, .. } => BuildRequest::DeleteShaders {
                vertex: *vertex,
                fragment: *fragment,
            },
            BuildState::Failed { .. } => BuildRequest::Finished,
            BuildState::Built { .. } => BuildRequest::Finished,
        }
    }

    /// Takes in what the driver reported for the work last requested.
    pub fn advance(&mut self, event: BuildEvent)
        ensures
            final(self).state() == next_state(old(self).state(), event),
            final(self).vertex_code() == old(self).vertex_code(),
            final(self).fragment_code() == old(self).fragment_code(),
    {
        match (&self.state, event) {
            (BuildState::CompileVertex, BuildEvent::ShaderCreateFailed { message }) => {
                self.state = BuildState::Failed { error: GraphicsError::Allocation { message } };
            },
            (BuildState::CompileVertex, BuildEvent::ShaderCompiled { id, compiled, log }) => {
                self.state = if compiled {
                    BuildState::CompileFragment { vertex: id }
                } else {
                    BuildState::Failed {
                        error: GraphicsError::Compile { stage: ShaderStage::Vertex, log },
                    }
                };
            },
            (BuildState::CompileFragment { .. }, BuildEvent::ShaderCreateFailed { message }) => {
                self.state = BuildState::Failed { error: GraphicsError::Allocation { message } };
            },
            (
                BuildState::CompileFragment { vertex },
                BuildEvent::ShaderCompiled { id, compiled, log },
            ) => {
                self.state = if compiled {
                    BuildState::Link { vertex: *vertex, fragment: id }
                } else {
                    BuildState::Failed {
                        error: GraphicsError::Compile { stage: ShaderStage::Fragment, log },
                    }
                };
            },
            (BuildState::Link { .. }, BuildEvent::ProgramCreateFailed { message }) => {
                self.state = BuildState::Failed { error: GraphicsError::Allocation { message } };
            },
            (BuildState::Link { vertex, fragment }, BuildEvent::ProgramLinked { id, linked, log }) => {
                self.state = if linked {
                    BuildState::ReleaseShaders { program: id, vertex: *vertex, fragment: *fragment }
                } else {
                    BuildState::Failed { error: GraphicsError::Link { log } }
                };
            },
            (BuildState::ReleaseShaders { program, .. }, BuildEvent::ShadersDeleted) => {
                self.state = BuildState::Built { program: *program };
            },
            _ => {},
        }
    }

    /// The outcome of a build that has finished, or `None` while work remains.
    pub fn finish(self) -> (r: Option<Result<RawProgram, GraphicsError>>)
        ensures
            match self.state() {
                BuildState::Built { program } => r matches Some(Ok(p)) && p.id() == program,
                BuildState::Failed { error } => r == Some(Err::<RawProgram, GraphicsError>(error)),
                _ => r is None,
            },
    {
        match self.state {
            BuildState::Built { program } => Some(Ok(RawProgram { id: program })),
            BuildState::Failed { error } => Some(Err(error)),
            _ => None,
        }
    }
}

/// Starts building a program from a vertex and a fragment source.
pub fn new_program(vertex_code: &str, fragment_code: &str) -> (r: ProgramBuild)
    ensures
        r.vertex_code() == vertex_code@,
        r.fragment_code() == fragment_code@,
        r.state() == BuildState::CompileVertex,
{
    ProgramBuild::new(vertex_code, fragment_code)
}

} // verus!
