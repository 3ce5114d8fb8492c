use std::collections::HashMap;

use ckrl::command::{BufferTarget, GlCommand};
use ckrl::error::GraphicsError;
use ckrl::gl::{BufferUsage, GraphicsDevice, RawVertexBuffer};
use ckrl::shader::{BuildEvent, RawProgram};

/// Runs commands the way the driver would, keeping what tests look at.
#[derive(Default)]
struct FakeGl {
    array_buffer: Option<u32>,
    element_buffer: Option<u32>,
    storage: HashMap<u32, Vec<u8>>,
    binds: usize,
    deletes: HashMap<u32, usize>,
    draws: Vec<(bool, i32)>,
}

impl FakeGl {
    fn bound(&self, target: BufferTarget) -> Option<u32> {
        match target {
            BufferTarget::Array => self.array_buffer,
            BufferTarget::ElementArray => self.element_buffer,
        }
    }

    fn run(&mut self, commands: Vec<GlCommand>) {
        for c in commands {
            match c {
                GlCommand::BindBuffer { target, id } => {
                    self.binds += 1;
                    match target {
                        BufferTarget::Array => self.array_buffer = id,
                        BufferTarget::ElementArray => self.element_buffer = id,
                    }
                }
                GlCommand::BufferDataSize { target, size, .. } => {
                    let id = self.bound(target).expect("no buffer bound");
                    self.storage.insert(id, vec![0; size as usize]);
                }
                GlCommand::BufferSubData { target, offset, data } => {
                    let id = self.bound(target).expect("no buffer bound");
                    let s = self.storage.get_mut(&id).expect("no storage");
                    let o = offset as usize;
                    assert!(o + data.len() <= s.len(), "write past the end");
                    s[o..o + data.len()].copy_from_slice(&data);
                }
                GlCommand::DeleteBuffer { id } => {
                    *self.deletes.entry(id).or_insert(0) += 1;
                    self.storage.remove(&id);
                    if self.array_buffer == Some(id) {
                        self.array_buffer = None;
                    }
                    if self.element_buffer == Some(id) {
                        self.element_buffer = None;
                    }
                }
                GlCommand::DrawArrays { count, .. } => self.draws.push((false, count)),
                GlCommand::DrawElements { count, .. } => self.draws.push((true, count)),
                _ => {}
            }
        }
    }
}

fn device() -> GraphicsDevice {
    let mut d = GraphicsDevice::new(Ok(1)).expect("device");
    d.take_commands();
    d
}

fn float_bytes(v: &[f32]) -> Vec<u8> {
    bytemuck::cast_slice::<f32, u8>(v).to_vec()
}

#[test]
fn new_device_binds_its_vertex_array() {
    let mut d = GraphicsDevice::new(Ok(7)).expect("device");
    assert_eq!(d.take_commands(), vec![GlCommand::BindVertexArray { id: 7 }]);
    assert!(d.take_commands().is_empty());
}

#[test]
fn new_device_reports_driver_error() {
    let r = GraphicsDevice::new(Err("no vertex arrays".to_string()));
    match r {
        Err(e) => assert_eq!(e, GraphicsError::Allocation { message: "no vertex arrays".to_string() }),
        Ok(_) => panic!("expected an error"),
    }
}

#[test]
fn usage_hints_are_the_gl_enumerants() {
    assert_eq!(u32::from(BufferUsage::StaticDraw), glow::STATIC_DRAW);
    assert_eq!(u32::from(BufferUsage::DynamicDraw), glow::DYNAMIC_DRAW);
}

#[test]
fn new_vertex_buffer_binds_and_allocates() {
    let mut d = device();
    let b = d.new_vertex_buffer(Ok(3), 48, 3, BufferUsage::StaticDraw).expect("buffer");
    assert_eq!((b.id(), b.count(), b.stride()), (3, 48, 3));
    assert_eq!(
        d.take_commands(),
        vec![
            GlCommand::BindBuffer { target: BufferTarget::Array, id: Some(3) },
            GlCommand::BufferDataSize {
                target: BufferTarget::Array,
                size: 48,
                usage: BufferUsage::StaticDraw,
            },
        ]
    );
}

#[test]
fn new_vertex_buffer_reports_driver_error() {
    let mut d = device();
    let r = d.new_vertex_buffer(Err("out of memory".to_string()), 48, 3, BufferUsage::DynamicDraw);
    match r {
        Err(e) => assert_eq!(e, GraphicsError::Allocation { message: "out of memory".to_string() }),
        Ok(_) => panic!("expected an error"),
    }
    assert!(d.take_commands().is_empty());
}

#[test]
fn repeated_bind_issues_one_call() {
    let mut d = device();
    let a = d.new_vertex_buffer(Ok(3), 16, 1, BufferUsage::StaticDraw).unwrap();
    let b = d.new_vertex_buffer(Ok(4), 16, 1, BufferUsage::StaticDraw).unwrap();
    d.take_commands();
    d.bind_vertex_buffer(Some(&a));
    d.bind_vertex_buffer(Some(&a));
    d.bind_vertex_buffer(Some(&a));
    assert_eq!(
        d.take_commands(),
        vec![GlCommand::BindBuffer { target: BufferTarget::Array, id: Some(3) }]
    );
    d.bind_vertex_buffer(Some(&b));
    d.bind_vertex_buffer(Some(&a));
    d.bind_vertex_buffer(None);
    d.bind_vertex_buffer(None);
    assert_eq!(
        d.take_commands(),
        vec![
            GlCommand::BindBuffer { target: BufferTarget::Array, id: Some(4) },
            GlCommand::BindBuffer { target: BufferTarget::Array, id: Some(3) },
            GlCommand::BindBuffer { target: BufferTarget::Array, id: None },
        ]
    );
}

#[test]
fn upload_reads_back_at_offset() {
    let mut gl = FakeGl::default();
    let mut d = device();
    let b = d.new_vertex_buffer(Ok(5), 48, 3, BufferUsage::StaticDraw).unwrap();
    let data = float_bytes(&[1.0, 2.0, 3.0]);
    d.set_vertex_buffer_data(&b, &data, 2);
    gl.run(d.take_commands());
    let stored = &gl.storage[&5];
    assert_eq!(stored.len(), 48);
    assert_eq!(&stored[8..20], &data[..]);
    assert!(stored[..8].iter().all(|&x| x == 0));
    assert!(stored[20..].iter().all(|&x| x == 0));
}

#[test]
fn upload_filling_whole_buffer() {
    let mut gl = FakeGl::default();
    let mut d = device();
    let vertices: [f32; 12] = [-0.5, 0.5, 0.0, 0.5, 0.5, 0.0, 0.5, -0.5, 0.0, -0.5, -0.5, 0.0];
    let b = d.new_vertex_buffer(Ok(2), 48, 3, BufferUsage::StaticDraw).unwrap();
    let data = float_bytes(&vertices);
    d.set_vertex_buffer_data(&b, &data, 0);
    let commands = d.take_commands();
    assert_eq!(
        commands.last(),
        Some(&GlCommand::BufferSubData { target: BufferTarget::Array, offset: 0, data: data.clone() })
    );
    gl.run(commands);
    assert_eq!(gl.storage[&2], data);
}

#[test]
fn vertex_attribute_uses_byte_stride_and_offset() {
    let mut d = device();
    let b = d.new_vertex_buffer(Ok(2), 96, 6, BufferUsage::StaticDraw).unwrap();
    d.take_commands();
    d.set_vertex_buffer_attribute(&b, 1, 3, 3);
    assert_eq!(
        d.take_commands(),
        vec![
            GlCommand::VertexAttribPointer { index: 1, size: 3, stride: 24, offset: 12 },
            GlCommand::EnableVertexAttribArray { index: 1 },
        ]
    );
}

#[test]
fn index_buffer_is_sized_in_indices() {
    let mut d = device();
    let ib = d.new_index_buffer(Ok(9), 6, BufferUsage::StaticDraw).unwrap();
    assert_eq!((ib.id(), ib.count()), (9, 6));
    assert_eq!(
        d.take_commands(),
        vec![
            GlCommand::BindBuffer { target: BufferTarget::ElementArray, id: Some(9) },
            GlCommand::BufferDataSize {
                target: BufferTarget::ElementArray,
                size: 24,
                usage: BufferUsage::StaticDraw,
            },
        ]
    );
}

#[test]
fn index_data_goes_in_machine_byte_order() {
    let mut gl = FakeGl::default();
    let mut d = device();
    let ib = d.new_index_buffer(Ok(9), 8, BufferUsage::StaticDraw).unwrap();
    let indices: [u32; 6] = [0, 1, 2, 2, 3, 0x01020304];
    d.set_index_buffer_data(&ib, &indices, 2);
    let commands = d.take_commands();
    let expected: Vec<u8> = indices.iter().flat_map(|i| i.to_ne_bytes()).collect();
    assert_eq!(
        commands.last(),
        Some(&GlCommand::BufferSubData {
            target: BufferTarget::ElementArray,
            offset: 8,
            data: expected.clone(),
        })
    );
    gl.run(commands);
    assert_eq!(&gl.storage[&9][8..32], &expected[..]);
}

#[test]
fn index_and_vertex_binds_are_cached_apart() {
    let mut d = device();
    let vb = d.new_vertex_buffer(Ok(2), 48, 3, BufferUsage::StaticDraw).unwrap();
    let ib = d.new_index_buffer(Ok(3), 6, BufferUsage::StaticDraw).unwrap();
    d.take_commands();
    d.bind_vertex_buffer(Some(&vb));
    d.bind_index_buffer(Some(&ib));
    d.bind_index_buffer(Some(&ib));
    assert!(d.take_commands().is_empty());
    d.bind_index_buffer(None);
    assert_eq!(
        d.take_commands(),
        vec![GlCommand::BindBuffer { target: BufferTarget::ElementArray, id: None }]
    );
}

fn finished_program(d: &GraphicsDevice, id: u32) -> RawProgram {
    let mut build = d.new_program("v", "f");
    build.advance(BuildEvent::ShaderCompiled { id: 1, compiled: true, log: String::new() });
    build.advance(BuildEvent::ShaderCompiled { id: 2, compiled: true, log: String::new() });
    build.advance(BuildEvent::ProgramLinked { id, linked: true, log: String::new() });
    build.advance(BuildEvent::ShadersDeleted);
    build.finish().expect("finished").expect("built")
}

#[test]
fn draw_without_index_buffer_issues_one_array_draw() {
    let mut gl = FakeGl::default();
    let mut d = device();
    let vb = d.new_vertex_buffer(Ok(2), 36, 3, BufferUsage::StaticDraw).unwrap();
    let program = finished_program(&d, 10);
    d.take_commands();
    d.draw(&vb, None, &program, 3);
    let commands = d.take_commands();
    assert_eq!(
        commands,
        vec![
            GlCommand::BindVertexArray { id: 1 },
            GlCommand::UseProgram { id: Some(10) },
            GlCommand::DrawArrays { first: 0, count: 3 },
        ]
    );
    gl.run(commands);
    assert_eq!(gl.draws, vec![(false, 3)]);
}

#[test]
fn draw_with_index_buffer_issues_one_indexed_draw() {
    let mut gl = FakeGl::default();
    let mut d = device();
    let vb = d.new_vertex_buffer(Ok(2), 48, 3, BufferUsage::StaticDraw).unwrap();
    let ib = d.new_index_buffer(Ok(3), 6, BufferUsage::StaticDraw).unwrap();
    let program = finished_program(&d, 10);
    d.bind_vertex_buffer(None);
    gl.run(d.take_commands());
    d.draw(&vb, Some(&ib), &program, 6);
    let commands = d.take_commands();
    assert_eq!(
        commands,
        vec![
            GlCommand::BindVertexArray { id: 1 },
            GlCommand::BindBuffer { target: BufferTarget::Array, id: Some(2) },
            GlCommand::UseProgram { id: Some(10) },
            GlCommand::DrawElements { count: 6, offset: 0 },
        ]
    );
    gl.run(commands);
    assert_eq!(gl.draws, vec![(true, 6)]);
    d.draw(&vb, Some(&ib), &program, 6);
    assert_eq!(
        d.take_commands(),
        vec![GlCommand::BindVertexArray { id: 1 }, GlCommand::DrawElements { count: 6, offset: 0 }]
    );
}

fn pass_along(b: RawVertexBuffer) -> RawVertexBuffer {
    b
}

#[test]
fn moved_buffer_is_released_once() {
    let mut gl = FakeGl::default();
    let mut d = device();
    let b = d.new_vertex_buffer(Ok(4), 16, 1, BufferUsage::StaticDraw).unwrap();
    let held = vec![pass_along(b)];
    let b = held.into_iter().next().unwrap();
    let boxed = Box::new(b);
    d.delete_vertex_buffer(*boxed);
    gl.run(d.take_commands());
    assert_eq!(gl.deletes.get(&4), Some(&1));
    assert_eq!(gl.deletes.len(), 1);
    assert!(!gl.storage.contains_key(&4));
}

#[test]
fn deleting_a_bound_buffer_clears_the_cache() {
    let mut d = device();
    let a = d.new_vertex_buffer(Ok(4), 16, 1, BufferUsage::StaticDraw).unwrap();
    let again = d.new_vertex_buffer(Ok(5), 16, 1, BufferUsage::StaticDraw).unwrap();
    d.bind_vertex_buffer(Some(&again));
    d.take_commands();
    d.delete_vertex_buffer(again);
    // The driver may hand the freed name out again; binding it must be issued.
    let reused = d.new_vertex_buffer(Ok(5), 16, 1, BufferUsage::StaticDraw).unwrap();
    assert_eq!(
        d.take_commands(),
        vec![
            GlCommand::DeleteBuffer { id: 5 },
            GlCommand::BindBuffer { target: BufferTarget::Array, id: Some(5) },
            GlCommand::BufferDataSize {
                target: BufferTarget::Array,
                size: 16,
                usage: BufferUsage::StaticDraw,
            },
        ]
    );
    assert!(a != reused);
}

#[test]
fn deleting_a_bound_index_buffer_clears_the_cache() {
    let mut d = device();
    let ib = d.new_index_buffer(Ok(8), 1, BufferUsage::StaticDraw).unwrap();
    d.take_commands();
    d.delete_index_buffer(ib);
    let ib = d.new_index_buffer(Ok(8), 1, BufferUsage::StaticDraw).unwrap();
    assert_eq!(ib.id(), 8);
    assert_eq!(
        d.take_commands(),
        vec![
            GlCommand::DeleteBuffer { id: 8 },
            GlCommand::BindBuffer { target: BufferTarget::ElementArray, id: Some(8) },
            GlCommand::BufferDataSize {
                target: BufferTarget::ElementArray,
                size: 4,
                usage: BufferUsage::StaticDraw,
            },
        ]
    );
}

#[test]
fn program_release_and_rebind() {
    let mut d = device();
    let p = finished_program(&d, 12);
    p.bind(&mut d);
    p.bind(&mut d);
    assert_eq!(d.take_commands(), vec![GlCommand::UseProgram { id: Some(12) }]);
    d.delete_program(p);
    assert_eq!(d.take_commands(), vec![GlCommand::DeleteProgram { id: 12 }]);
    d.bind_program(None);
    assert_eq!(d.take_commands(), vec![GlCommand::UseProgram { id: None }]);
}
