//! Meshes: host-side geometry plus the GPU objects that mirror it.
//!
//! A mesh owns one vertex array, one vertex buffer and one index buffer, and
//! keeps host-side copies of the vertex and index data. Geometry is immutable
//! after construction. The central invariant is that every draw index refers
//! to one of the mesh's vertices, and that the vertex buffer's byte length is
//! the vertex count times the vertex stride.

use crate::gpu::{BufferKind, BufferUsage, GPUBuffer, GPUVertexArray, GpuCommand};
use crate::units::{MicroVec2, MicroVec3, MICRO_PER_UNIT};
use crate::vertex::{Vertex, VERTEX_STRIDE};
use vstd::prelude::*;

verus! {

/// Bytes per draw index (one 32-bit unsigned integer).
pub const INDEX_STRIDE: usize = 4;

/// The three freshly created GPU objects a mesh is built over.
#[derive(Clone, Copy, Debug, PartialEq, Eq, Structural)]
pub struct MeshHandles {
    pub vertex_array_object: GPUVertexArray,
    pub vertex_buffer: GPUBuffer,
    pub index_buffer: GPUBuffer,
}

impl MeshHandles {
    /// Live handles with the two buffers in their proper roles.
    pub open spec fn wf(self) -> bool {
        &&& self.vertex_array_object.alive
        &&& self.vertex_buffer.alive
        &&& self.index_buffer.alive
        &&& self.vertex_buffer.buffer_type == BufferKind::Array
        &&& self.index_buffer.buffer_type == BufferKind::ElementArray
    }
}

/// Host-side geometry and the GPU objects holding its uploaded copy.
pub struct Mesh {
    /// Mesh vertices.
    pub vertices: Vec<Vertex>,
    /// Draw indices.
    pub indices: Vec<u32>,
    /// The vertex-layout binding.
    pub vertex_array_object: GPUVertexArray,
    /// The uploaded vertex data.
    pub vertex_buffer: GPUBuffer,
    /// The uploaded index data.
    pub index_buffer: GPUBuffer,
}

impl Mesh {
    /// Every draw index refers to one of the mesh's vertices.
    pub open spec fn wf(self) -> bool {
        forall|k: int|
            0 <= k < self.indices@.len() ==> (self.indices@[k] as int) < self.vertices@.len()
    }

    /// All three GPU objects are still live, in their proper roles.
    pub open spec fn alive(self) -> bool {
        &&& self.vertex_array_object.alive
        &&& self.vertex_buffer.alive
        &&& self.index_buffer.alive
        &&& self.vertex_buffer.buffer_type == BufferKind::Array
        &&& self.index_buffer.buffer_type == BufferKind::ElementArray
    }

    /// The calls that upload the mesh: bind the vertex array, upload both
    /// buffers, describe the vertex layout, unbind.
    pub open spec fn setup_commands(self) -> Seq<GpuCommand> {
        seq![
            GpuCommand::BindVertexArray(self.vertex_array_object.id),
            GpuCommand::BindBuffer(BufferKind::Array, self.vertex_buffer.id),
            GpuCommand::BufferData(
                BufferKind::Array,
                (self.vertices@.len() * VERTEX_STRIDE) as usize,
                BufferUsage::StaticDraw,
            ),
            GpuCommand::BindBuffer(BufferKind::ElementArray, self.index_buffer.id),
            GpuCommand::BufferData(
                BufferKind::ElementArray,
                (self.indices@.len() * INDEX_STRIDE) as usize,
                BufferUsage::StaticDraw,
            ),
        ] + Vertex::attribute_commands() + seq![GpuCommand::BindVertexArray(0)]
    }

    /// The calls of one indexed triangle-list draw of the whole mesh.
    pub open spec fn draw_commands(self) -> Seq<GpuCommand> {
        seq![
            GpuCommand::BindVertexArray(self.vertex_array_object.id),
            GpuCommand::DrawTriangles(self.indices@.len() as usize),
            GpuCommand::BindVertexArray(0),
        ]
    }

    /// The calls of one instanced draw of the whole mesh.
    pub open spec fn draw_instanced_commands(self, count: i32) -> Seq<GpuCommand> {
        seq![
            GpuCommand::BindVertexArray(self.vertex_array_object.id),
            GpuCommand::DrawTrianglesInstanced(self.indices@.len() as usize, count),
            GpuCommand::BindVertexArray(0),
        ]
    }

    /// The mesh after its GPU objects have been released.
    pub open spec fn released(self) -> Mesh {
        Mesh {
            vertex_array_object: self.vertex_array_object.released(),
            vertex_buffer: self.vertex_buffer.released(),
            index_buffer: self.index_buffer.released(),
            ..self
        }
    }

    /// What releasing the mesh deletes: each live handle once, vertex array
    /// first, then the two buffers.
    pub open spec fn release_commands(self) -> Seq<GpuCommand> {
        crate::gpu::option_commands(self.vertex_array_object.release_command())
            + crate::gpu::option_commands(self.vertex_buffer.release_command())
            + crate::gpu::option_commands(self.index_buffer.release_command())
    }

    /// Builds a mesh over freshly created GPU objects and produces the calls
    /// that upload it.
    pub fn new(vertices: Vec<Vertex>, indices: Vec<u32>, handles: MeshHandles) -> (r: (
        Mesh,
        Vec<GpuCommand>,
    ))
        requires
            forall|k: int| 0 <= k < indices@.len() ==> (indices@[k] as int) < vertices@.len(),
            handles.wf(),
            vertices@.len() * VERTEX_STRIDE <= usize::MAX,
            indices@.len() * INDEX_STRIDE <= usize::MAX,
        ensures
            r.0.vertices@ == vertices@,
            r.0.indices@ == indices@,
            r.0.vertex_array_object == handles.vertex_array_object,
            r.0.vertex_buffer == handles.vertex_buffer,
            r.0.index_buffer == handles.index_buffer,
            r.0.wf(),
            r.0.alive(),
            r.1@ == r.0.setup_commands(),
    {
        let vertex_bytes: usize = vertices.len() * VERTEX_STRIDE;
        let index_bytes: usize = indices.len() * INDEX_STRIDE;

        let mut cmds: Vec<GpuCommand> = Vec::new();
        cmds.push(handles.vertex_array_object.bind());
        let mut upload = handles.vertex_buffer.set_data(vertex_bytes, BufferUsage::StaticDraw);
        cmds.append(&mut upload);
        let mut upload = handles.index_buffer.set_data(index_bytes, BufferUsage::StaticDraw);
        cmds.append(&mut upload);
        let mut attributes = Vertex::set_vertex_attributes();
        cmds.append(&mut attributes);
        cmds.push(GpuCommand::BindVertexArray(0));

        let mesh = Mesh {
            vertices,
            indices,
            vertex_array_object: handles.vertex_array_object,
            vertex_buffer: handles.vertex_buffer,
            index_buffer: handles.index_buffer,
        };
        assert(cmds@ =~= mesh.setup_commands());
        (mesh, cmds)
    }

    /// One indexed triangle-list draw of `indices.len()` elements.
    pub fn draw(&self) -> (cmds: Vec<GpuCommand>)
        requires
            self.alive(),
        ensures
            cmds@ == self.draw_commands(),
    {
        let mut cmds: Vec<GpuCommand> = Vec::new();
        cmds.push(self.vertex_array_object.bind());
        cmds.push(GpuCommand::DrawTriangles(self.indices.len()));
        cmds.push(GpuCommand::BindVertexArray(0));
        assert(cmds@ =~= self.draw_commands());
        cmds
    }

    /// The same geometry drawn `count` times; per-instance transforms come
    /// from a shader-side array uniform indexed by instance id.
    pub fn draw_instanced(&self, count: i32) -> (cmds: Vec<GpuCommand>)
        requires
            self.alive(),
            count >= 0,
        ensures
            cmds@ == self.draw_instanced_commands(count),
    {
        let mut cmds: Vec<GpuCommand> = Vec::new();
        cmds.push(self.vertex_array_object.bind());
        cmds.push(GpuCommand::DrawTrianglesInstanced(self.indices.len(), count));
        cmds.push(GpuCommand::BindVertexArray(0));
        assert(cmds@ =~= self.draw_instanced_commands(count));
        cmds
    }

    /// Releases the mesh's GPU objects. Safe to call again: a second release
    /// deletes nothing further.
    pub fn release(&mut self) -> (cmds: Vec<GpuCommand>)
        ensures
            cmds@ == old(self).release_commands(),
            *final(self) == old(self).released(),
    {
        let mut cmds: Vec<GpuCommand> = Vec::new();
        if let Some(c) = self.vertex_array_object.release() {
            cmds.push(c);
        }
        if let Some(c) = self.vertex_buffer.release() {
            cmds.push(c);
        }
        if let Some(c) = self.index_buffer.release() {
            cmds.push(c);
        }
        assert(cmds@ =~= old(self).release_commands());
        cmds
    }

    /// A second release of the same mesh deletes nothing and changes nothing.
    pub proof fn lemma_release_idempotent(m: Mesh)
        ensures
            m.released().release_commands() =~= Seq::<GpuCommand>::empty(),
            m.released().released() == m.released(),
    {
    }

    /// Builds a 4-vertex, 6-index quad centered at the origin in the XY
    /// plane, normal towards the viewer, with a configurable texture
    /// sub-rectangle defaulting to the whole image.
    pub fn make_rect(
        width: i64,
        height: i64,
        uv_top_left: Option<MicroVec2>,
        uv_bottom_right: Option<MicroVec2>,
        handles: MeshHandles,
    ) -> (r: (Mesh, Vec<GpuCommand>))
        requires
            0 <= width,
            0 <= height,
            handles.wf(),
        ensures
            r.0.vertices@ == Mesh::rect_vertices(
                width,
                height,
                Mesh::rect_uv_top_left(uv_top_left),
                Mesh::rect_uv_bottom_right(uv_bottom_right),
            ),
            r.0.indices@ == Mesh::rect_indices(),
            forall|k: int|
                0 <= k < r.0.indices@.len() ==> (r.0.indices@[k] as int) < r.0.vertices@.len(),
            r.0.wf(),
            r.0.alive(),
            r.0.vertex_array_object == handles.vertex_array_object,
            r.0.vertex_buffer == handles.vertex_buffer,
            r.0.index_buffer == handles.index_buffer,
            r.1@ == r.0.setup_commands(),
    {
        let half_width: i64 = ((width as u64) / 2) as i64;
        let half_height: i64 = ((height as u64) / 2) as i64;
        let tl = match uv_top_left {
            Some(uv) => uv,
            None => MicroVec2 { x: 0, y: 0 },
        };
        let br = match uv_bottom_right {
            Some(uv) => uv,
            None => MicroVec2 { x: MICRO_PER_UNIT, y: MICRO_PER_UNIT },
        };
        let uv_top_right = MicroVec2 { x: br.x, y: tl.y };
        let uv_bottom_left = MicroVec2 { x: tl.x, y: br.y };

        let normal = MicroVec3 { x: 0, y: 0, z: MICRO_PER_UNIT };

        let mut vertices: Vec<Vertex> = Vec::new();
        // Top-right, bottom-right, bottom-left, top-left.
        vertices.push(
            Vertex::new(MicroVec3 { x: half_width, y: half_height, z: 0 }, uv_top_right, normal),
        );
        vertices.push(
            Vertex::new(
                MicroVec3 { x: half_width, y: -half_height, z: 0 },
                br,
                normal,
            ),
        );
        vertices.push(
            Vertex::new(
                MicroVec3 { x: -half_width, y: -half_height, z: 0 },
                uv_bottom_left,
                normal,
            ),
        );
        vertices.push(
            Vertex::new(MicroVec3 { x: -half_width, y: half_height, z: 0 }, tl, normal),
        );

        let mut indices: Vec<u32> = Vec::new();
        // First triangle.
        indices.push(0);
        indices.push(1);
        indices.push(3);
        // Second triangle.
        indices.push(1);
        indices.push(2);
        indices.push(3);

        assert(vertices@ =~= Mesh::rect_vertices(
            width,
            height,
            Mesh::rect_uv_top_left(uv_top_left),
            Mesh::rect_uv_bottom_right(uv_bottom_right),
        ));
        assert(indices@ =~= Mesh::rect_indices());

        Mesh::new(vertices, indices, handles)
    }

    /// The texture corner a rect uses when none is given: the image's origin.
    pub open spec fn rect_uv_top_left(uv: Option<MicroVec2>) -> MicroVec2 {
        match uv {
            Some(v) => v,
            None => MicroVec2 { x: 0, y: 0 },
        }
    }

    /// The opposite default corner: the image's far corner.
    pub open spec fn rect_uv_bottom_right(uv: Option<MicroVec2>) -> MicroVec2 {
        match uv {
            Some(v) => v,
            None => MicroVec2 { x: MICRO_PER_UNIT, y: MICRO_PER_UNIT },
        }
    }

    /// A rect's four corners: top-right, bottom-right, bottom-left, top-left,
    /// at half the width and height out from the origin, normal towards the
    /// viewer.
    pub open spec fn rect_vertices(
        width: i64,
        height: i64,
        tl: MicroVec2,
        br: MicroVec2,
    ) -> Seq<Vertex> {
        let hw = (width / 2) as i64;
        let hh = (height / 2) as i64;
        let nw = (-(width / 2)) as i64;
        let nh = (-(height / 2)) as i64;
        let normal = MicroVec3 { x: 0, y: 0, z: MICRO_PER_UNIT };
        seq![
            Vertex {
                position: MicroVec3 { x: hw, y: hh, z: 0 },
                texture_coordinate: MicroVec2 { x: br.x, y: tl.y },
                normal,
            },
            Vertex { position: MicroVec3 { x: hw, y: nh, z: 0 }, texture_coordinate: br, normal },
            Vertex {
                position: MicroVec3 { x: nw, y: nh, z: 0 },
                texture_coordinate: MicroVec2 { x: tl.x, y: br.y },
                normal,
            },
            Vertex { position: MicroVec3 { x: nw, y: hh, z: 0 }, texture_coordinate: tl, normal },
        ]
    }

    /// A rect's two triangles over its four corners.
    pub open spec fn rect_indices() -> Seq<u32> {
        seq![0u32, 1u32, 3u32, 1u32, 2u32, 3u32]
    }
}

} // verus!
