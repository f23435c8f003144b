//! The vertex record and its binary layout contract.
//!
//! On the GPU side a vertex is eight 32-bit float components: a position
//! (three), a texture coordinate (two) and a normal (three), in that order,
//! at attribute slots 0, 1 and 2. The stride and offsets below are the byte
//! layout the attribute setup promises to the GPU, and the mesh module's
//! buffer sizes are stated against the same stride. Host-side the components
//! are held in micro-units; the shell converts each to a float when it
//! uploads.

use crate::gpu::GpuCommand;
use crate::units::{MicroVec2, MicroVec3};
use vstd::prelude::*;

verus! {

/// Bytes per vertex: eight components of four bytes.
pub const VERTEX_STRIDE: usize = 32;

/// Byte offset of the texture coordinate: past the three position components.
pub const TEX_COORDINATE_OFFSET: usize = 12;

/// Byte offset of the normal: past position and texture coordinate.
pub const NORMAL_OFFSET: usize = 20;

/// One vertex: position, texture coordinate, normal, in micro-units.
#[derive(Clone, Copy, Debug, PartialEq, Eq, Structural)]
pub struct Vertex {
    pub position: MicroVec3,
    pub texture_coordinate: MicroVec2,
    pub normal: MicroVec3,
}

impl Vertex {
    pub fn new(position: MicroVec3, texture_coordinate: MicroVec2, normal: MicroVec3) -> (v:
        Vertex)
        ensures
            v == (Vertex { position, texture_coordinate, normal }),
    {
        Vertex { position, texture_coordinate, normal }
    }

    /// The attribute setup for the layout above: three attributes over one
    /// interleaved buffer, each enabled after it is described.
    pub open spec fn attribute_commands() -> Seq<GpuCommand> {
        seq![
            GpuCommand::VertexAttribPointer {
                slot: 0,
                components: 3,
                stride: VERTEX_STRIDE,
                offset: 0,
            },
            GpuCommand::EnableVertexAttribArray(0),
            GpuCommand::VertexAttribPointer {
                slot: 1,
                components: 2,
                stride: VERTEX_STRIDE,
                offset: TEX_COORDINATE_OFFSET,
            },
            GpuCommand::EnableVertexAttribArray(1),
            GpuCommand::VertexAttribPointer {
                slot: 2,
                components: 3,
                stride: VERTEX_STRIDE,
                offset: NORMAL_OFFSET,
            },
            GpuCommand::EnableVertexAttribArray(2),
        ]
    }

    /// Describes the vertex layout to the currently bound vertex array.
    pub fn set_vertex_attributes() -> (cmds: Vec<GpuCommand>)
        ensures
            cmds@ == Vertex::attribute_commands(),
    {
        let mut cmds: Vec<GpuCommand> = Vec::new();
        cmds.push(
            GpuCommand::VertexAttribPointer {
                slot: 0,
                components: 3,
                stride: VERTEX_STRIDE,
                offset: 0,
            },
        );
        cmds.push(GpuCommand::EnableVertexAttribArray(0));
        cmds.push(
            GpuCommand::VertexAttribPointer {
                slot: 1,
                components: 2,
                stride: VERTEX_STRIDE,
                offset: TEX_COORDINATE_OFFSET,
            },
        );
        cmds.push(GpuCommand::EnableVertexAttribArray(1));
        cmds.push(
            GpuCommand::VertexAttribPointer {
                slot: 2,
                components: 3,
                stride: VERTEX_STRIDE,
                offset: NORMAL_OFFSET,
            },
        );
        cmds.push(GpuCommand::EnableVertexAttribArray(2));
        assert(cmds@ =~= Vertex::attribute_commands());
        cmds
    }
}

} // verus!
