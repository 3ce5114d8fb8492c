//! The calls into OpenGL that the device issues, and a model of the GPU state
//! those calls produce.
use vstd::prelude::*;

use crate::gl::BufferUsage;

verus! {

/// The binding point a buffer command acts on.
#[derive(Clone, Copy, Debug, PartialEq, Eq, Structural)]
pub enum BufferTarget {
    /// `GL_ARRAY_BUFFER`: vertex data.
    Array,
    /// `GL_ELEMENT_ARRAY_BUFFER`: index data.
    ElementArray,
}

/// One call into the OpenGL API. Sizes and offsets are in bytes; primitives
/// are always triangle lists and indices always 32-bit unsigned integers.
#[derive(Debug, PartialEq, Eq)]
#[allow(inconsistent_fields)]
pub enum GlCommand {
    BindVertexArray { id: u32 },
    BindBuffer { target: BufferTarget, id: Option<u32> },
    BufferDataSize { target: BufferTarget, size: i32, usage: BufferUsage },
    BufferSubData { target: BufferTarget, offset: i32, data: Vec<u8> },
    VertexAttribPointer { index: u32, size: i32, stride: i32, offset: i32 },
    EnableVertexAttribArray { index: u32 },
    UseProgram { id: Option<u32> },
    DrawArrays { first: i32, count: i32 },
    DrawElements { count: i32, offset: i32 },
    DeleteBuffer { id: u32 },
    DeleteProgram { id: u32 },
}

/// A call into the OpenGL API as contracts speak of it: a `GlCommand` with
/// its bytes as a sequence.
#[allow(inconsistent_fields)]
pub enum GlCall {
    BindVertexArray { id: u32 },
    BindBuffer { target: BufferTarget, id: Option<u32> },
    BufferDataSize { target: BufferTarget, size: i32, usage: BufferUsage },
    BufferSubData { target: BufferTarget, offset: i32, data: Seq<u8> },
    VertexAttribPointer { index: u32, size: i32, stride: i32, offset: i32 },
    EnableVertexAttribArray { index: u32 },
    UseProgram { id: Option<u32> },
    DrawArrays { first: i32, count: i32 },
    DrawElements { count: i32, offset: i32 },
    DeleteBuffer { id: u32 },
    DeleteProgram { id: u32 },
}

impl View for GlCommand {
    type V = GlCall;

    open spec fn view(&self) -> GlCall {
        match *self {
            GlCommand::BindVertexArray { id } => GlCall::BindVertexArray { id },
            GlCommand::BindBuffer { target, id } => GlCall::BindBuffer { target, id },
            GlCommand::BufferDataSize { target, size, usage } => GlCall::BufferDataSize {
                target,
                size,
                usage,
            },
            GlCommand::BufferSubData { target, offset, data } => GlCall::BufferSubData {
                target,
                offset,
                data: data@,
            },
            GlCommand::VertexAttribPointer { index, size, stride, offset } =>
                GlCall::VertexAttribPointer { index, size, stride, offset },
            GlCommand::EnableVertexAttribArray { index } => GlCall::EnableVertexAttribArray {
                index,
            },
            GlCommand::UseProgram { id } => GlCall::UseProgram { id },
            GlCommand::DrawArrays { first, count } => GlCall::DrawArrays { first, count },
            GlCommand::DrawElements { count, offset } => GlCall::DrawElements { count, offset },
            GlCommand::DeleteBuffer { id } => GlCall::DeleteBuffer { id },
            GlCommand::DeleteProgram { id } => GlCall::DeleteProgram { id },
        }
    }
}

/// The calls that a list of commands stands for.
pub open spec fn calls_of(cs: Seq<GlCommand>) -> Seq<GlCall> {
    cs.map_values(|c: GlCommand| c@)
}

/// How a vertex attribute slot reads its data.
pub struct VertexAttrib {
    /// The array buffer that was bound when the layout was declared.
    pub buffer: Option<u32>,
    pub size: i32,
    pub stride: i32,
    pub offset: i32,
}

/// The part of the OpenGL state that the device's commands touch.
pub struct GpuState {
    pub vertex_array: Option<u32>,
    pub array_buffer: Option<u32>,
    pub element_buffer: Option<u32>,
    pub program: Option<u32>,
    /// The storage of each buffer object that has been allocated and not
    /// deleted; `None` marks a byte whose value is undefined.
    pub buffers: Map<u32, Seq<Option<u8>>>,
    pub attributes: Map<u32, VertexAttrib>,
    pub enabled: Set<u32>,
}

/// The state of a fresh context: nothing bound, nothing allocated.
pub open spec fn initial_gpu() -> GpuState {
    GpuState {
        vertex_array: None,
        array_buffer: None,
        element_buffer: None,
        program: None,
        buffers: Map::empty(),
        attributes: Map::empty(),
        enabled: Set::empty(),
    }
}

/// Storage of `size` bytes just allocated, with undefined contents.
pub open spec fn fresh_storage(size: int) -> Seq<Option<u8>> {
    Seq::new(size as nat, |i: int| None)
}

/// `contents` with `data` written at byte `offset`.
pub open spec fn write_bytes(contents: Seq<Option<u8>>, offset: int, data: Seq<u8>) -> Seq<Option<u8>> {
    Seq::new(
        contents.len(),
        |i: int|
            if offset <= i < offset + data.len() {
                Some(data[i - offset])
            } else {
                contents[i]
            },
    )
}

/// `data` as defined bytes.
pub open spec fn defined(data: Seq<u8>) -> Seq<Option<u8>> {
    data.map_values(|b: u8| Some(b))
}

pub open spec fn bound_buffer(s: GpuState, target: BufferTarget) -> Option<u32> {
    match target {
        BufferTarget::Array => s.array_buffer,
        BufferTarget::ElementArray => s.element_buffer,
    }
}

pub open spec fn with_bound_buffer(s: GpuState, target: BufferTarget, id: Option<u32>) -> GpuState {
    match target {
        BufferTarget::Array => GpuState { array_buffer: id, ..s },
        BufferTarget::ElementArray => GpuState { element_buffer: id, ..s },
    }
}

/// A binding that drops to nothing when the buffer it names is deleted.
pub open spec fn unbind_deleted(binding: Option<u32>, id: u32) -> Option<u32> {
    if binding == Some(id) {
        None
    } else {
        binding
    }
}

/// The state after one command. A command that OpenGL rejects (nothing bound,
/// a negative size, a write past the end of the storage) changes nothing.
pub open spec fn apply(s: GpuState, c: GlCall) -> GpuState {
    match c {
        GlCall::BindVertexArray { id } => GpuState { vertex_array: Some(id), ..s },
        GlCall::BindBuffer { target, id } => with_bound_buffer(s, target, id),
        GlCall::BufferDataSize { target, size, usage } => match bound_buffer(s, target) {
            Some(b) => if size >= 0 {
                GpuState { buffers: s.buffers.insert(b, fresh_storage(size as int)), ..s }
            } else {
                s
            },
            None => s,
        },
        GlCall::BufferSubData { target, offset, data } => match bound_buffer(s, target) {
            Some(b) => if s.buffers.contains_key(b) && 0 <= offset && offset + data.len()
                <= s.buffers[b].len() {
                GpuState {
                    buffers: s.buffers.insert(b, write_bytes(s.buffers[b], offset as int, data)),
                    ..s
                }
            } else {
                s
            },
            None => s,
        },
        GlCall::VertexAttribPointer { index, size, stride, offset } => GpuState {
            attributes: s.attributes.insert(
                index,
                VertexAttrib { buffer: s.array_buffer, size, stride, offset },
            ),
            ..s
        },
        GlCall::EnableVertexAttribArray { index } => GpuState {
            enabled: s.enabled.insert(index),
            ..s
        },
        GlCall::UseProgram { id } => GpuState { program: id, ..s },
        GlCall::DrawArrays { .. } => s,
        GlCall::DrawElements { .. } => s,
        GlCall::DeleteBuffer { id } => GpuState {
            array_buffer: unbind_deleted(s.array_buffer, id),
            element_buffer: unbind_deleted(s.element_buffer, id),
            buffers: s.buffers.remove(id),
            ..s
        },
        GlCall::DeleteProgram { .. } => s,
    }
}

/// The state after `cs`, issued in order, starting from `s`.
pub open spec fn apply_all(s: GpuState, cs: Seq<GlCall>) -> GpuState
    decreases cs.len(),
{
    if cs.len() == 0 {
        s
    } else {
        apply(apply_all(s, cs.drop_last()), cs.last())
    }
}

/// Whether a command draws.
pub open spec fn is_draw(c: GlCall) -> bool {
    match c {
        GlCall::DrawArrays { .. } => true,
        GlCall::DrawElements { .. } => true,
        _ => false,
    }
}

/// The commands that bind buffer `id` to `target` when `cached` is what is
/// bound there now: nothing when it already is.
pub open spec fn bind_buffer_commands(cached: Option<u32>, target: BufferTarget, id: Option<u32>) -> Seq<GlCall> {
    if cached == id {
        seq![]
    } else {
        seq![GlCall::BindBuffer { target, id }]
    }
}

/// The commands that make program `id` current when `cached` is current now.
pub open spec fn use_program_commands(cached: Option<u32>, id: Option<u32>) -> Seq<GlCall> {
    if cached == id {
        seq![]
    } else {
        seq![GlCall::UseProgram { id }]
    }
}

/// The draw calls among `cs`, in order.
pub open spec fn draws(cs: Seq<GlCall>) -> Seq<GlCall> {
    cs.filter(|c: GlCall| is_draw(c))
}

/// A bind cache issues a bind call exactly when the buffer asked for differs
/// from the one it has bound, and then the one call that binds it; it never
/// issues a draw.
pub proof fn lemma_bind_issued_iff_changed(cached: Option<u32>, target: BufferTarget, id: Option<u32>)
    ensures
        bind_buffer_commands(cached, target, id).len() > 0 <==> cached != id,
        cached != id ==> bind_buffer_commands(cached, target, id) == seq![
            GlCall::BindBuffer { target, id },
        ],
        draws(bind_buffer_commands(cached, target, id)) == Seq::<GlCall>::empty(),
{
    reveal_with_fuel(Seq::filter, 2);
    assert(draws(bind_buffer_commands(cached, target, id)) =~= Seq::<GlCall>::empty());
}

/// Issuing one more command steps the state by that command.
pub proof fn lemma_apply_all_push(s: GpuState, cs: Seq<GlCall>, c: GlCall)
    ensures
        apply_all(s, cs.push(c)) == apply(apply_all(s, cs), c),
{
    assert(cs.push(c).drop_last() =~= cs);
}

} // verus!
