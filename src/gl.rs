use vstd::prelude::*;

use crate::command::{
    apply, apply_all, bind_buffer_commands, calls_of, defined, draws, fresh_storage, initial_gpu, is_draw,
    lemma_apply_all_push, unbind_deleted, use_program_commands, with_bound_buffer, write_bytes,
    BufferTarget, GlCall, GlCommand, GpuState, VertexAttrib,
};
use crate::error::GraphicsError;
use crate::shader::{self, BuildState, ProgramBuild, RawProgram};

verus! {

/// OpenGL enumerant of the `GL_STATIC_DRAW` usage hint.
pub const STATIC_DRAW: u32 = 0x88E4;

/// OpenGL enumerant of the `GL_DYNAMIC_DRAW` usage hint.
pub const DYNAMIC_DRAW: u32 = 0x88E8;

/// How often the contents of a buffer are expected to change.
#[derive(Clone, Copy, Debug, PartialEq, Eq, Structural)]
pub enum BufferUsage {
    StaticDraw,
    DynamicDraw,
}

/// The OpenGL enumerant for a usage hint.
pub open spec fn usage_enum(usage: BufferUsage) -> u32 {
    match usage {
        BufferUsage::StaticDraw => STATIC_DRAW,
        BufferUsage::DynamicDraw => DYNAMIC_DRAW,
    }
}

impl From<BufferUsage> for u32 {
    fn from(buffer_usage: BufferUsage) -> (r: u32)
        ensures
            r == usage_enum(buffer_usage),
    {
        match buffer_usage {
            BufferUsage::StaticDraw => STATIC_DRAW,
            BufferUsage::DynamicDraw => DYNAMIC_DRAW,
        }
    }
}

impl vstd::std_specs::convert::FromSpecImpl<BufferUsage> for u32 {
    open spec fn obeys_from_spec() -> bool {
        true
    }

    open spec fn from_spec(v: BufferUsage) -> u32 {
        usage_enum(v)
    }
}


/// A vertex buffer: `count` bytes of storage holding vertices of `stride`
/// floats each.
#[derive(Debug)]
pub struct RawVertexBuffer {
    id: u32,
    count: usize,
    stride: usize,
}

impl RawVertexBuffer {
    #[verifier::type_invariant]
    spec fn fits(&self) -> bool {
        &&& self.count <= i32::MAX
        &&& self.stride <= i32::MAX / 4
    }

    pub closed spec fn spec_id(&self) -> u32 {
        self.id
    }

    pub closed spec fn spec_count(&self) -> usize {
        self.count
    }

    pub closed spec fn spec_stride(&self) -> usize {
        self.stride
    }

    /// The buffer's id.
    #[verifier::when_used_as_spec(spec_id)]
    pub fn id(&self) -> (r: u32)
        ensures
            r == self.spec_id(),
    {
        self.id
    }

    /// The buffer's capacity in bytes.
    #[verifier::when_used_as_spec(spec_count)]
    pub fn count(&self) -> (r: usize)
        ensures
            r == self.spec_count(),
    {
        self.count
    }

    /// The number of floats in one vertex.
    #[verifier::when_used_as_spec(spec_stride)]
    pub fn stride(&self) -> (r: usize)
        ensures
            r == self.spec_stride(),
    {
        self.stride
    }
}

/// Two vertex buffers are the same when their ids are.
impl PartialEq for RawVertexBuffer {
    fn eq(&self, other: &RawVertexBuffer) -> (r: bool)
        ensures
            r == (self.spec_id() == other.spec_id()),
    {
        self.id == other.id
    }
}

impl vstd::std_specs::cmp::PartialEqSpecImpl for RawVertexBuffer {
    open spec fn obeys_eq_spec() -> bool {
        true
    }

    open spec fn eq_spec(&self, other: &RawVertexBuffer) -> bool {
        self.spec_id() == other.spec_id()
    }
}

/// An index buffer: storage for `count` 32-bit indices.
#[derive(Debug)]
pub struct RawIndexBuffer {
    id: u32,
    count: usize,
}

impl RawIndexBuffer {
    #[verifier::type_invariant]
    spec fn fits(&self) -> bool {
        self.count <= i32::MAX / 4
    }

    pub closed spec fn spec_id(&self) -> u32 {
        self.id
    }

    pub closed spec fn spec_count(&self) -> usize {
        self.count
    }

    /// The buffer's id.
    #[verifier::when_used_as_spec(spec_id)]
    pub fn id(&self) -> (r: u32)
        ensures
            r == self.spec_id(),
    {
        self.id
    }

    /// The number of indices the buffer holds.
    #[verifier::when_used_as_spec(spec_count)]
    pub fn count(&self) -> (r: usize)
        ensures
            r == self.spec_count(),
    {
        self.count
    }
}

/// Two index buffers are the same when their ids are.
impl PartialEq for RawIndexBuffer {
    fn eq(&self, other: &RawIndexBuffer) -> (r: bool)
        ensures
            r == (self.spec_id() == other.spec_id()),
    {
        self.id == other.id
    }
}

impl vstd::std_specs::cmp::PartialEqSpecImpl for RawIndexBuffer {
    open spec fn obeys_eq_spec() -> bool {
        true
    }

    open spec fn eq_spec(&self, other: &RawIndexBuffer) -> bool {
        self.spec_id() == other.spec_id()
    }
}

/// The id a vertex buffer argument names, if any.
pub open spec fn vertex_buffer_id(buffer: Option<&RawVertexBuffer>) -> Option<u32> {
    match buffer {
        Some(b) => Some(b.spec_id()),
        None => None,
    }
}

/// The id an index buffer argument names, if any.
pub open spec fn index_buffer_id(buffer: Option<&RawIndexBuffer>) -> Option<u32> {
    match buffer {
        Some(b) => Some(b.spec_id()),
        None => None,
    }
}

/// The id a program argument names, if any.
pub open spec fn program_id(program: Option<&RawProgram>) -> Option<u32> {
    match program {
        Some(p) => Some(p.spec_id()),
        None => None,
    }
}

/// The graphics device: the one way to the GPU. Every operation appends the
/// OpenGL calls it needs to a list of pending commands, which the caller
/// drains with `take_commands` and hands to the driver in order. The device
/// remembers which buffers and program are bound, and leaves out a bind call
/// that would bind what is bound already.
pub struct GraphicsDevice {
    current_vertex_buffer: Option<u32>,
    current_index_buffer: Option<u32>,
    current_program: Option<u32>,
    current_vertex_array: u32,
    commands: Vec<GlCommand>,
    history: Ghost<Seq<GlCall>>,
}

impl GraphicsDevice {
    /// The vertex buffer the device believes bound.
    pub closed spec fn cached_vertex_buffer(&self) -> Option<u32> {
        self.current_vertex_buffer
    }

    /// The index buffer the device believes bound.
    pub closed spec fn cached_index_buffer(&self) -> Option<u32> {
        self.current_index_buffer
    }

    /// The program the device believes current.
    pub closed spec fn cached_program(&self) -> Option<u32> {
        self.current_program
    }

    /// The device's one vertex array object.
    pub closed spec fn vertex_array(&self) -> u32 {
        self.current_vertex_array
    }

    /// The calls issued and not yet taken.
    pub closed spec fn pending(&self) -> Seq<GlCall> {
        calls_of(self.commands@)
    }

    /// Every call issued since the device was made, in order.
    pub closed spec fn history(&self) -> Seq<GlCall> {
        self.history@
    }

    /// The state of the GPU once every call issued so far has run.
    pub open spec fn gpu(&self) -> GpuState {
        apply_all(initial_gpu(), self.history())
    }

    /// The pending calls are the last ones issued.
    pub open spec fn pending_is_tail(&self) -> bool {
        &&& self.pending().len() <= self.history().len()
        &&& self.pending() == self.history().skip(self.history().len() - self.pending().len())
    }

    /// What the device believes bound is what the GPU has bound.
    pub open spec fn wf(&self) -> bool {
        &&& self.pending_is_tail()
        &&& self.cached_vertex_buffer() == self.gpu().array_buffer
        &&& self.cached_index_buffer() == self.gpu().element_buffer
        &&& self.cached_program() == self.gpu().program
        &&& self.gpu().vertex_array == Some(self.vertex_array())
    }

    /// `self` is `before` with the calls `cs` issued after what it had.
    pub open spec fn issued(&self, before: &GraphicsDevice, cs: Seq<GlCall>) -> bool {
        &&& self.history() == before.history() + cs
        &&& self.pending() == before.pending() + cs
    }

    /// The device's bind cache is as in `before`.
    pub open spec fn same_cache(&self, before: &GraphicsDevice) -> bool {
        &&& self.cached_vertex_buffer() == before.cached_vertex_buffer()
        &&& self.cached_index_buffer() == before.cached_index_buffer()
        &&& self.cached_program() == before.cached_program()
        &&& self.vertex_array() == before.vertex_array()
    }

    fn issue(&mut self, c: GlCommand)
        requires
            old(self).pending_is_tail(),
        ensures
            final(self).pending_is_tail(),
            final(self).history() == old(self).history().push(c@),
            final(self).pending() == old(self).pending().push(c@),
            final(self).gpu() == apply(old(self).gpu(), c@),
            final(self).same_cache(old(self)),
    {
        let ghost h = self.history@;
        let ghost k = (self.history@.len() - self.pending().len()) as int;
        proof {
            lemma_apply_all_push(initial_gpu(), h, c@);
        }
        self.history = Ghost(self.history@.push(c@));
        self.commands.push(c);
        assert(self.pending() =~= old(self).pending().push(c@));
        assert(h.push(c@).skip(k) =~= h.skip(k).push(c@));
    }

    /// A device whose vertex array object the driver created as
    /// `vertex_array`; the driver's error when it could not.
    pub fn new(vertex_array: Result<u32, String>) -> (r: Result<GraphicsDevice, GraphicsError>)
        ensures
            match vertex_array {
                Ok(id) => r matches Ok(d) && d.wf() && d.history() == seq![
                    GlCall::BindVertexArray { id },
                ] && d.pending() == d.history() && d.vertex_array() == id
                    && d.cached_vertex_buffer() is None && d.cached_index_buffer() is None
                    && d.cached_program() is None,
                Err(message) => r == Err::<GraphicsDevice, GraphicsError>(
                    GraphicsError::Allocation { message },
                ),
            },
    {
        match vertex_array {
            Ok(id) => {
                let mut device = GraphicsDevice {
                    current_vertex_buffer: None,
                    current_index_buffer: None,
                    current_program: None,
                    current_vertex_array: id,
                    commands: Vec::new(),
                    history: Ghost(Seq::empty()),
                };
                assert(device.pending() =~= Seq::<GlCall>::empty());
                assert(device.history().skip(0) =~= device.pending());
                device.issue(GlCommand::BindVertexArray { id });
                assert(device.history() =~= seq![GlCall::BindVertexArray { id }]);
                Ok(device)
            },
            Err(message) => Err(GraphicsError::Allocation { message }),
        }
    }

    /// Hands over the pending calls, oldest first, and forgets them.
    pub fn take_commands(&mut self) -> (r: Vec<GlCommand>)
        requires
            old(self).wf(),
        ensures
            final(self).wf(),
            calls_of(r@) == old(self).pending(),
            final(self).pending() == Seq::<GlCall>::empty(),
            final(self).history() == old(self).history(),
            final(self).same_cache(old(self)),
    {
        let mut r: Vec<GlCommand> = Vec::new();
        std::mem::swap(&mut r, &mut self.commands);
        assert(self.pending() =~= Seq::<GlCall>::empty());
        assert(self.history@.skip(self.history@.len() as int) =~= Seq::<GlCall>::empty());
        r
    }

    /// The buffer the device believes bound to `target`.
    pub open spec fn cached_buffer(&self, target: BufferTarget) -> Option<u32> {
        match target {
            BufferTarget::Array => self.cached_vertex_buffer(),
            BufferTarget::ElementArray => self.cached_index_buffer(),
        }
    }

    /// The upload of `data` at byte `offset` into the storage of buffer `id`,
    /// as the GPU takes it: a write that does not fit changes nothing.
    pub open spec fn stored_after_upload(&self, id: u32, offset: int, data: Seq<u8>) -> Map<u32, Seq<Option<u8>>> {
        let buffers = self.gpu().buffers;
        if buffers.contains_key(id) && offset + data.len() <= buffers[id].len() {
            buffers.insert(id, write_bytes(buffers[id], offset, data))
        } else {
            buffers
        }
    }

    fn bind_buffer_cached(&mut self, target: BufferTarget, id: Option<u32>)
        requires
            old(self).wf(),
        ensures
            final(self).wf(),
            final(self).issued(
                old(self),
                bind_buffer_commands(old(self).cached_buffer(target), target, id),
            ),
            final(self).cached_buffer(target) == id,
            target == BufferTarget::Array ==> final(self).cached_index_buffer()
                == old(self).cached_index_buffer(),
            target == BufferTarget::ElementArray ==> final(self).cached_vertex_buffer()
                == old(self).cached_vertex_buffer(),
            final(self).cached_program() == old(self).cached_program(),
            final(self).vertex_array() == old(self).vertex_array(),
            final(self).gpu() == with_bound_buffer(old(self).gpu(), target, id),
    {
        let current = match target {
            BufferTarget::Array => self.current_vertex_buffer,
            BufferTarget::ElementArray => self.current_index_buffer,
        };
        if current != id {
            self.issue(GlCommand::BindBuffer { target, id });
            match target {
                BufferTarget::Array => self.current_vertex_buffer = id,
                BufferTarget::ElementArray => self.current_index_buffer = id,
            }
            assert(self.history() =~= old(self).history() + seq![GlCall::BindBuffer { target, id }]);
            assert(self.pending() =~= old(self).pending() + seq![GlCall::BindBuffer { target, id }]);
        } else {
            assert(self.history() =~= old(self).history() + Seq::<GlCall>::empty());
            assert(self.pending() =~= old(self).pending() + Seq::<GlCall>::empty());
        }
    }

    /// Binds `buffer` as the vertex buffer; issues the bind call only when
    /// the cached vertex buffer differs.
    pub fn bind_vertex_buffer(&mut self, buffer: Option<&RawVertexBuffer>)
        requires
            old(self).wf(),
        ensures
            final(self).wf(),
            final(self).issued(
                old(self),
                bind_buffer_commands(
                    old(self).cached_vertex_buffer(),
                    BufferTarget::Array,
                    vertex_buffer_id(buffer),
                ),
            ),
            final(self).cached_vertex_buffer() == vertex_buffer_id(buffer),
            final(self).cached_index_buffer() == old(self).cached_index_buffer(),
            final(self).cached_program() == old(self).cached_program(),
            final(self).vertex_array() == old(self).vertex_array(),
            final(self).gpu().buffers == old(self).gpu().buffers,
    {
        let id = match buffer {
            Some(b) => Some(b.id()),
            None => None,
        };
        self.bind_buffer_cached(BufferTarget::Array, id);
    }

    /// Binds `buffer` as the index buffer; issues the bind call only when
    /// the cached index buffer differs.
    pub fn bind_index_buffer(&mut self, buffer: Option<&RawIndexBuffer>)
        requires
            old(self).wf(),
        ensures
            final(self).wf(),
            final(self).issued(
                old(self),
                bind_buffer_commands(
                    old(self).cached_index_buffer(),
                    BufferTarget::ElementArray,
                    index_buffer_id(buffer),
                ),
            ),
            final(self).cached_index_buffer() == index_buffer_id(buffer),
            final(self).cached_vertex_buffer() == old(self).cached_vertex_buffer(),
            final(self).cached_program() == old(self).cached_program(),
            final(self).vertex_array() == old(self).vertex_array(),
            final(self).gpu().buffers == old(self).gpu().buffers,
    {
        let id = match buffer {
            Some(b) => Some(b.id()),
            None => None,
        };
        self.bind_buffer_cached(BufferTarget::ElementArray, id);
    }

    /// Makes `program` current; issues the call only when the cached program
    /// differs.
    pub fn bind_program(&mut self, program: Option<&RawProgram>)
        requires
            old(self).wf(),
        ensures
            final(self).wf(),
            final(self).issued(
                old(self),
                use_program_commands(old(self).cached_program(), program_id(program)),
            ),
            final(self).cached_program() == program_id(program),
            final(self).cached_vertex_buffer() == old(self).cached_vertex_buffer(),
            final(self).cached_index_buffer() == old(self).cached_index_buffer(),
            final(self).vertex_array() == old(self).vertex_array(),
            final(self).gpu().buffers == old(self).gpu().buffers,
    {
        let id = match program {
            Some(p) => Some(p.id()),
            None => None,
        };
        if self.current_program != id {
            self.issue(GlCommand::UseProgram { id });
            self.current_program = id;
            assert(self.history() =~= old(self).history() + seq![GlCall::UseProgram { id }]);
            assert(self.pending() =~= old(self).pending() + seq![GlCall::UseProgram { id }]);
        } else {
            assert(self.history() =~= old(self).history() + Seq::<GlCall>::empty());
            assert(self.pending() =~= old(self).pending() + Seq::<GlCall>::empty());
        }
    }

    /// Makes a vertex buffer of `count` bytes for vertices of `stride`
    /// floats, from the buffer object the driver created as `created`; the
    /// driver's error when it could not.
    pub fn new_vertex_buffer(
        &mut self,
        created: Result<u32, String>,
        count: usize,
        stride: usize,
        usage: BufferUsage,
    ) -> (r: Result<RawVertexBuffer, GraphicsError>)
        requires
            old(self).wf(),
            count <= i32::MAX,
            stride <= i32::MAX / 4,
        ensures
            final(self).wf(),
            match created {
                Ok(id) => r matches Ok(b) && b.id() == id && b.count() == count && b.stride()
                    == stride && final(self).issued(
                    old(self),
                    bind_buffer_commands(
                        old(self).cached_vertex_buffer(),
                        BufferTarget::Array,
                        Some(id),
                    ).push(
                        GlCall::BufferDataSize {
                            target: BufferTarget::Array,
                            size: count as i32,
                            usage,
                        },
                    ),
                ) && final(self).cached_vertex_buffer() == Some(id) && final(self).gpu().buffers
                    == old(self).gpu().buffers.insert(id, fresh_storage(count as int)),
                Err(message) => r == Err::<RawVertexBuffer, GraphicsError>(
                    GraphicsError::Allocation { message },
                ) && *final(self) == *old(self),
            },
            final(self).cached_index_buffer() == old(self).cached_index_buffer(),
            final(self).cached_program() == old(self).cached_program(),
            final(self).vertex_array() == old(self).vertex_array(),
    {
        match created {
            Ok(id) => {
                let ghost before = *self;
                let buffer = RawVertexBuffer { id, count, stride };
                self.bind_buffer_cached(BufferTarget::Array, Some(id));
                let ghost bind = bind_buffer_commands(
                    before.cached_vertex_buffer(),
                    BufferTarget::Array,
                    Some(id),
                );
                self.issue(
                    GlCommand::BufferDataSize {
                        target: BufferTarget::Array,
                        size: count as i32,
                        usage,
                    },
                );
                let ghost c = GlCall::BufferDataSize {
                    target: BufferTarget::Array,
                    size: count as i32,
                    usage,
                };
                assert(self.history() =~= before.history() + bind.push(c));
                assert(self.pending() =~= before.pending() + bind.push(c));
                Ok(buffer)
            },
            Err(message) => Err(GraphicsError::Allocation { message }),
        }
    }

    /// Copies `data`, the bytes of the floats to store, into `buffer`
    /// starting `offset` floats in.
    pub fn set_vertex_buffer_data(&mut self, buffer: &RawVertexBuffer, data: &[u8], offset: usize)
        requires
            old(self).wf(),
            offset * 4 + data@.len() <= buffer.count(),
        ensures
            final(self).wf(),
            final(self).issued(
                old(self),
                bind_buffer_commands(
                    old(self).cached_vertex_buffer(),
                    BufferTarget::Array,
                    Some(buffer.id()),
                ).push(
                    GlCall::BufferSubData {
                        target: BufferTarget::Array,
                        offset: (offset * 4) as i32,
                        data: data@,
                    },
                ),
            ),
            final(self).gpu().buffers == old(self).stored_after_upload(
                buffer.id(),
                offset * 4,
                data@,
            ),
            final(self).cached_vertex_buffer() == Some(buffer.id()),
            final(self).cached_index_buffer() == old(self).cached_index_buffer(),
            final(self).cached_program() == old(self).cached_program(),
            final(self).vertex_array() == old(self).vertex_array(),
    {
        proof {
            use_type_invariant(buffer);
        }
        let ghost before = *self;
        self.bind_buffer_cached(BufferTarget::Array, Some(buffer.id));
        let ghost bind = bind_buffer_commands(
            before.cached_vertex_buffer(),
            BufferTarget::Array,
            Some(buffer.id()),
        );
        let bytes = vstd::slice::slice_to_vec(data);
        let byte_offset = offset * 4;
        self.issue(
            GlCommand::BufferSubData {
                target: BufferTarget::Array,
                offset: byte_offset as i32,
                data: bytes,
            },
        );
        let ghost c = GlCall::BufferSubData {
            target: BufferTarget::Array,
            offset: byte_offset as i32,
            data: data@,
        };
        assert(self.history() =~= before.history() + bind.push(c));
        assert(self.pending() =~= before.pending() + bind.push(c));
    }

    /// Declares attribute slot `index` as `size` floats read from `buffer`,
    /// `offset` floats into each vertex, a vertex every `buffer.stride()`
    /// floats, and enables the slot.
    pub fn set_vertex_buffer_attribute(
        &mut self,
        buffer: &RawVertexBuffer,
        index: u32,
        size: i32,
        offset: usize,
    )
        requires
            old(self).wf(),
            offset <= i32::MAX / 4,
        ensures
            final(self).wf(),
            final(self).issued(
                old(self),
                bind_buffer_commands(
                    old(self).cached_vertex_buffer(),
                    BufferTarget::Array,
                    Some(buffer.id()),
                ) + seq![
                    GlCall::VertexAttribPointer {
                        index,
                        size,
                        stride: (buffer.stride() * 4) as i32,
                        offset: (offset * 4) as i32,
                    },
                    GlCall::EnableVertexAttribArray { index },
                ],
            ),
            final(self).gpu().attributes == old(self).gpu().attributes.insert(
                index,
                VertexAttrib {
                    buffer: Some(buffer.id()),
                    size,
                    stride: (buffer.stride() * 4) as i32,
                    offset: (offset * 4) as i32,
                },
            ),
            final(self).gpu().enabled == old(self).gpu().enabled.insert(index),
            final(self).gpu().buffers == old(self).gpu().buffers,
            final(self).cached_vertex_buffer() == Some(buffer.id()),
            final(self).cached_index_buffer() == old(self).cached_index_buffer(),
            final(self).cached_program() == old(self).cached_program(),
            final(self).vertex_array() == old(self).vertex_array(),
    {
        proof {
            use_type_invariant(buffer);
        }
        let ghost before = *self;
        self.bind_buffer_cached(BufferTarget::Array, Some(buffer.id));
        let ghost bind = bind_buffer_commands(
            before.cached_vertex_buffer(),
            BufferTarget::Array,
            Some(buffer.id()),
        );
        let stride = (buffer.stride * 4) as i32;
        let byte_offset = (offset * 4) as i32;
        self.issue(GlCommand::VertexAttribPointer { index, size, stride, offset: byte_offset });
        self.issue(GlCommand::EnableVertexAttribArray { index });
        let ghost cs = seq![
            GlCall::VertexAttribPointer { index, size, stride, offset: byte_offset },
            GlCall::EnableVertexAttribArray { index },
        ];
        assert(self.history() =~= before.history() + (bind + cs));
        assert(self.pending() =~= before.pending() + (bind + cs));
    }

    /// Makes an index buffer for `count` indices, from the buffer object the
    /// driver created as `created`; the driver's error when it could not.
    pub fn new_index_buffer(
        &mut self,
        created: Result<u32, String>,
        count: usize,
        usage: BufferUsage,
    ) -> (r: Result<RawIndexBuffer, GraphicsError>)
        requires
            old(self).wf(),
            count <= i32::MAX / 4,
        ensures
            final(self).wf(),
            match created {
                Ok(id) => r matches Ok(b) && b.id() == id && b.count() == count
                    && final(self).issued(
                    old(self),
                    bind_buffer_commands(
                        old(self).cached_index_buffer(),
                        BufferTarget::ElementArray,
                        Some(id),
                    ).push(
                        GlCall::BufferDataSize {
                            target: BufferTarget::ElementArray,
                            size: (count * 4) as i32,
                            usage,
                        },
                    ),
                ) && final(self).cached_index_buffer() == Some(id) && final(self).gpu().buffers
                    == old(self).gpu().buffers.insert(id, fresh_storage(count * 4)),
                Err(message) => r == Err::<RawIndexBuffer, GraphicsError>(
                    GraphicsError::Allocation { message },
                ) && *final(self) == *old(self),
            },
            final(self).cached_vertex_buffer() == old(self).cached_vertex_buffer(),
            final(self).cached_program() == old(self).cached_program(),
            final(self).vertex_array() == old(self).vertex_array(),
    {
        match created {
            Ok(id) => {
                let ghost before = *self;
                let buffer = RawIndexBuffer { id, count };
                self.bind_buffer_cached(BufferTarget::ElementArray, Some(id));
                let ghost bind = bind_buffer_commands(
                    before.cached_index_buffer(),
                    BufferTarget::ElementArray,
                    Some(id),
                );
                let size = (count * 4) as i32;
                self.issue(
                    GlCommand::BufferDataSize { target: BufferTarget::ElementArray, size, usage },
                );
                let ghost c = GlCall::BufferDataSize {
                    target: BufferTarget::ElementArray,
                    size,
                    usage,
                };
                assert(self.history() =~= before.history() + bind.push(c));
                assert(self.pending() =~= before.pending() + bind.push(c));
                Ok(buffer)
            },
            Err(message) => Err(GraphicsError::Allocation { message }),
        }
    }

    /// Copies the indices `data` into `buffer` starting `offset` indices in.
    /// The bytes go in the machine's byte order, so only one of the two
    /// layouts is ever issued.
    pub fn set_index_buffer_data(&mut self, buffer: &RawIndexBuffer, data: &[u32], offset: usize)
        requires
            old(self).wf(),
            offset + data@.len() <= buffer.count(),
        ensures
            final(self).wf(),
            exists|little_endian: bool|
                #![trigger index_bytes(data@, little_endian)]
                final(self).issued(
                    old(self),
                    bind_buffer_commands(
                        old(self).cached_index_buffer(),
                        BufferTarget::ElementArray,
                        Some(buffer.id()),
                    ).push(
                        GlCall::BufferSubData {
                            target: BufferTarget::ElementArray,
                            offset: (offset * 4) as i32,
                            data: index_bytes(data@, little_endian),
                        },
                    ),
                ) && final(self).gpu().buffers == old(self).stored_after_upload(
                    buffer.id(),
                    offset * 4,
                    index_bytes(data@, little_endian),
                ),
            final(self).cached_index_buffer() == Some(buffer.id()),
            final(self).cached_vertex_buffer() == old(self).cached_vertex_buffer(),
            final(self).cached_program() == old(self).cached_program(),
            final(self).vertex_array() == old(self).vertex_array(),
    {
        proof {
            use_type_invariant(buffer);
        }
        let ghost before = *self;
        self.bind_buffer_cached(BufferTarget::ElementArray, Some(buffer.id));
        let ghost bind = bind_buffer_commands(
            before.cached_index_buffer(),
            BufferTarget::ElementArray,
            Some(buffer.id()),
        );
        let bytes = cast_indices(data);
        let ghost little_endian = bytes@ == index_bytes(data@, true);
        let ghost data_bytes = bytes@;
        let byte_offset = (offset * 4) as i32;
        self.issue(
            GlCommand::BufferSubData {
                target: BufferTarget::ElementArray,
                offset: byte_offset,
                data: bytes,
            },
        );
        let ghost c = GlCall::BufferSubData {
            target: BufferTarget::ElementArray,
            offset: byte_offset,
            data: data_bytes,
        };
        assert(data_bytes == index_bytes(data@, little_endian));
        assert(self.history() =~= before.history() + bind.push(c));
        assert(self.pending() =~= before.pending() + bind.push(c));
        assert(self.issued(&before, bind.push(c)));
    }

    /// The calls `draw` issues from this state.
    pub open spec fn draw_calls(
        &self,
        vertex_buffer: u32,
        index_buffer: Option<u32>,
        program: u32,
        count: i32,
    ) -> Seq<GlCall> {
        seq![GlCall::BindVertexArray { id: self.vertex_array() }] + bind_buffer_commands(
            self.cached_vertex_buffer(),
            BufferTarget::Array,
            Some(vertex_buffer),
        ) + match index_buffer {
            Some(ib) => bind_buffer_commands(
                self.cached_index_buffer(),
                BufferTarget::ElementArray,
                Some(ib),
            ),
            None => Seq::<GlCall>::empty(),
        } + use_program_commands(self.cached_program(), Some(program)) + seq![
            match index_buffer {
                Some(_) => GlCall::DrawElements { count, offset: 0 },
                None => GlCall::DrawArrays { first: 0, count },
            },
        ]
    }

    /// Draws `count` vertices of `vertex_buffer` as a triangle list with
    /// `program`: through `index_buffer` when there is one, in order when not.
    pub fn draw(
        &mut self,
        vertex_buffer: &RawVertexBuffer,
        index_buffer: Option<&RawIndexBuffer>,
        program: &RawProgram,
        count: i32,
    )
        requires
            old(self).wf(),
        ensures
            final(self).wf(),
            final(self).issued(
                old(self),
                old(self).draw_calls(
                    vertex_buffer.id(),
                    index_buffer_id(index_buffer),
                    program.id(),
                    count,
                ),
            ),
            final(self).cached_vertex_buffer() == Some(vertex_buffer.id()),
            final(self).cached_index_buffer() == match index_buffer {
                Some(ib) => Some(ib.id()),
                None => old(self).cached_index_buffer(),
            },
            final(self).cached_program() == Some(program.id()),
            final(self).vertex_array() == old(self).vertex_array(),
            final(self).gpu().buffers == old(self).gpu().buffers,
    {
        let ghost before = *self;
        let vertex_array = self.current_vertex_array;
        self.issue(GlCommand::BindVertexArray { id: vertex_array });
        self.bind_vertex_buffer(Some(vertex_buffer));
        let ghost s2 = *self;
        match index_buffer {
            Some(ib) => self.bind_index_buffer(Some(ib)),
            None => {},
        }
        let ghost s3 = *self;
        self.bind_program(Some(program));
        match index_buffer {
            Some(_) => self.issue(GlCommand::DrawElements { count, offset: 0 }),
            None => self.issue(GlCommand::DrawArrays { first: 0, count }),
        }
        let ghost ib_calls = match index_buffer {
            Some(ib) => bind_buffer_commands(
                before.cached_index_buffer(),
                BufferTarget::ElementArray,
                Some(ib.id()),
            ),
            None => Seq::<GlCall>::empty(),
        };
        if index_buffer.is_none() {
            assert(s3.history() =~= s2.history() + ib_calls);
            assert(s3.pending() =~= s2.pending() + ib_calls);
        }
        let ghost all = before.draw_calls(
            vertex_buffer.id(),
            index_buffer_id(index_buffer),
            program.id(),
            count,
        );
        assert(self.history() =~= before.history() + all);
        assert(self.pending() =~= before.pending() + all);
    }

    /// Releases `buffer`'s storage. Taking the handle by value means each
    /// buffer is released once: no handle is left to release it again.
    pub fn delete_vertex_buffer(&mut self, buffer: RawVertexBuffer)
        requires
            old(self).wf(),
        ensures
            final(self).wf(),
            final(self).issued(old(self), seq![GlCall::DeleteBuffer { id: buffer.id() }]),
            final(self).gpu().buffers == old(self).gpu().buffers.remove(buffer.id()),
            final(self).cached_vertex_buffer() == unbind_deleted(
                old(self).cached_vertex_buffer(),
                buffer.id(),
            ),
            final(self).cached_index_buffer() == unbind_deleted(
                old(self).cached_index_buffer(),
                buffer.id(),
            ),
            final(self).cached_program() == old(self).cached_program(),
            final(self).vertex_array() == old(self).vertex_array(),
    {
        self.release_buffer(buffer.id);
    }

    /// Releases `buffer`'s storage; once, as for vertex buffers.
    pub fn delete_index_buffer(&mut self, buffer: RawIndexBuffer)
        requires
            old(self).wf(),
        ensures
            final(self).wf(),
            final(self).issued(old(self), seq![GlCall::DeleteBuffer { id: buffer.id() }]),
            final(self).gpu().buffers == old(self).gpu().buffers.remove(buffer.id()),
            final(self).cached_vertex_buffer() == unbind_deleted(
                old(self).cached_vertex_buffer(),
                buffer.id(),
            ),
            final(self).cached_index_buffer() == unbind_deleted(
                old(self).cached_index_buffer(),
                buffer.id(),
            ),
            final(self).cached_program() == old(self).cached_program(),
            final(self).vertex_array() == old(self).vertex_array(),
    {
        self.release_buffer(buffer.id);
    }

    fn release_buffer(&mut self, id: u32)
        requires
            old(self).wf(),
        ensures
            final(self).wf(),
            final(self).issued(old(self), seq![GlCall::DeleteBuffer { id }]),
            final(self).gpu().buffers == old(self).gpu().buffers.remove(id),
            final(self).cached_vertex_buffer() == unbind_deleted(
                old(self).cached_vertex_buffer(),
                id,
            ),
            final(self).cached_index_buffer() == unbind_deleted(
                old(self).cached_index_buffer(),
                id,
            ),
            final(self).cached_program() == old(self).cached_program(),
            final(self).vertex_array() == old(self).vertex_array(),
    {
        self.issue(GlCommand::DeleteBuffer { id });
        if self.current_vertex_buffer == Some(id) {
            self.current_vertex_buffer = None;
        }
        if self.current_index_buffer == Some(id) {
            self.current_index_buffer = None;
        }
        assert(self.history() =~= old(self).history() + seq![GlCall::DeleteBuffer { id }]);
        assert(self.pending() =~= old(self).pending() + seq![GlCall::DeleteBuffer { id }]);
    }

    /// Releases `program`. A program that is current stays in use until
    /// another is made current, so the bind cache keeps it.
    pub fn delete_program(&mut self, program: RawProgram)
        requires
            old(self).wf(),
        ensures
            final(self).wf(),
            final(self).issued(old(self), seq![GlCall::DeleteProgram { id: program.id() }]),
            final(self).gpu() == old(self).gpu(),
            final(self).same_cache(old(self)),
    {
        let id = program.id();
        self.issue(GlCommand::DeleteProgram { id });
        assert(self.history() =~= old(self).history() + seq![GlCall::DeleteProgram { id }]);
        assert(self.pending() =~= old(self).pending() + seq![GlCall::DeleteProgram { id }]);
    }

    /// Starts building a program from a vertex and a fragment source.
    pub fn new_program(&self, vertex_code: &str, fragment_code: &str) -> (r: ProgramBuild)
        ensures
            r.vertex_code() == vertex_code@,
            r.fragment_code() == fragment_code@,
            r.state() == BuildState::CompileVertex,
    {
        shader::new_program(vertex_code, fragment_code)
    }
}

/// A draw issues exactly one draw call: with an index buffer an indexed draw
/// of `count` indices, without one a draw of `count` vertices from the first.
pub proof fn lemma_draw_issues_one_draw(
    device: GraphicsDevice,
    vertex_buffer: u32,
    index_buffer: Option<u32>,
    program: u32,
    count: i32,
)
    ensures
        draws(device.draw_calls(vertex_buffer, index_buffer, program, count)) == seq![
            match index_buffer {
                Some(_) => GlCall::DrawElements { count, offset: 0 },
                None => GlCall::DrawArrays { first: 0, count },
            },
        ],
{
    let pred = |c: GlCall| is_draw(c);
    let a = seq![GlCall::BindVertexArray { id: device.vertex_array() }];
    let b = bind_buffer_commands(device.cached_vertex_buffer(), BufferTarget::Array, Some(vertex_buffer));
    let c = match index_buffer {
        Some(ib) => bind_buffer_commands(
            device.cached_index_buffer(),
            BufferTarget::ElementArray,
            Some(ib),
        ),
        None => Seq::<GlCall>::empty(),
    };
    let d = use_program_commands(device.cached_program(), Some(program));
    let e = seq![
        match index_buffer {
            Some(_) => GlCall::DrawElements { count, offset: 0 },
            None => GlCall::DrawArrays { first: 0, count },
        },
    ];
    reveal_with_fuel(Seq::filter, 2);
    Seq::filter_distributes_over_add(a, b, pred);
    Seq::filter_distributes_over_add(a + b, c, pred);
    Seq::filter_distributes_over_add(a + b + c, d, pred);
    Seq::filter_distributes_over_add(a + b + c + d, e, pred);
    assert(a.filter(pred) =~= Seq::<GlCall>::empty());
    assert(b.filter(pred) =~= Seq::<GlCall>::empty());
    assert(c.filter(pred) =~= Seq::<GlCall>::empty());
    assert(d.filter(pred) =~= Seq::<GlCall>::empty());
    assert(e.filter(pred) =~= e);
    assert(device.draw_calls(vertex_buffer, index_buffer, program, count) == a + b + c + d + e);
    assert(draws(a + b + c + d + e) =~= e);
}

/// Bytes uploaded into a buffer's storage read back as uploaded, and every
/// other byte of the storage is kept. A vertex buffer made with a capacity of
/// `count` bytes has storage of that length to upload into.
pub proof fn lemma_upload_round_trip(device: GraphicsDevice, id: u32, offset: int, data: Seq<u8>)
    requires
        device.gpu().buffers.contains_key(id),
        0 <= offset,
        offset + data.len() <= device.gpu().buffers[id].len(),
    ensures
        device.stored_after_upload(id, offset, data)[id].subrange(offset, offset + data.len())
            == defined(data),
        device.stored_after_upload(id, offset, data)[id].len() == device.gpu().buffers[id].len(),
        forall|i: int|
            0 <= i < device.gpu().buffers[id].len() && !(offset <= i < offset + data.len()) ==> (
            #[trigger] device.stored_after_upload(id, offset, data)[id][i])
                == device.gpu().buffers[id][i],
{
    let after = device.stored_after_upload(id, offset, data)[id];
    assert(after.subrange(offset, offset + data.len()) =~= defined(data));
}

/// The four bytes of `x`, least significant first.
pub open spec fn le_bytes(x: u32) -> Seq<u8> {
    seq![
        (x % 0x100) as u8,
        (x / 0x100 % 0x100) as u8,
        (x / 0x10000 % 0x100) as u8,
        (x / 0x1000000) as u8,
    ]
}

/// The four bytes of `x`, most significant first.
pub open spec fn be_bytes(x: u32) -> Seq<u8> {
    seq![
        (x / 0x1000000) as u8,
        (x / 0x10000 % 0x100) as u8,
        (x / 0x100 % 0x100) as u8,
        (x % 0x100) as u8,
    ]
}

/// Indices as they lie in memory: four bytes each, least significant first
/// when `little_endian`, most significant first when not.
pub open spec fn index_bytes(data: Seq<u32>, little_endian: bool) -> Seq<u8> {
    Seq::new(
        4 * data.len(),
        |i: int|
            if little_endian {
                le_bytes(data[i / 4])[i % 4]
            } else {
                be_bytes(data[i / 4])[i % 4]
            },
    )
}

/// Relies on bytemuck::cast_slice from `u32` to `u8`: it views the indices'
/// memory as bytes, four to an index in the machine's byte order, and cannot
/// fail since `u8` has no alignment to meet.
#[verifier::external_body]
fn cast_indices(data: &[u32]) -> (r: Vec<u8>)
    ensures
        r@ == index_bytes(data@, true) || r@ == index_bytes(data@, false),
{
    bytemuck::cast_slice::<u32, u8>(data).to_vec()
}

} // verus!
