//! The graphics-API boundary, modeled as data.
//!
//! Every call the renderer makes against the graphics API is described by a
//! [`GpuCommand`] value. Verified code produces command sequences and tracks
//! each handle's lifetime; the unverified shell executes the commands in
//! order. Handle generation runs the other way: the shell creates raw handles
//! and passes them in as plain integers.
//!
//! Each wrapper owns exactly one handle. `release` disarms the wrapper and
//! hands back the matching delete command exactly once; releasing an already
//! released wrapper yields nothing and changes nothing, so teardown paths may
//! run in any order and any number of times.

use crate::units::{MicroVec3, Transform};
use vstd::prelude::*;

verus! {

/// The two buffer roles a mesh uses.
#[derive(Clone, Copy, Debug, PartialEq, Eq, Structural)]
pub enum BufferKind {
    /// Vertex data.
    Array,
    /// Draw indices.
    ElementArray,
}

/// Upload usage hints.
#[derive(Clone, Copy, Debug, PartialEq, Eq, Structural)]
pub enum BufferUsage {
    StaticDraw,
    DynamicDraw,
    StreamDraw,
}

/// Sampling parameters a texture sets once after creation.
#[derive(Clone, Copy, Debug, PartialEq, Eq, Structural)]
pub enum TextureParameter {
    WrapSRepeat,
    WrapTRepeat,
    MinFilterLinearMipmapLinear,
    MagFilterLinear,
}

/// The pixel layouts the renderer accepts for texture uploads.
#[derive(Clone, Copy, Debug, PartialEq, Eq, Structural)]
pub enum PixelFormat {
    /// Three 8-bit channels.
    Rgb8,
    /// Four 8-bit channels.
    Rgba8,
}

/// One call against the graphics API.
///
/// Buffer sizes are byte counts; binding handle `0` unbinds.
#[derive(Clone, Copy, Debug, PartialEq, Eq, Structural)]
pub enum GpuCommand {
    BindVertexArray(u32),
    BindBuffer(BufferKind, u32),
    BufferData(BufferKind, usize, BufferUsage),
    VertexAttribPointer { slot: u32, components: u32, stride: usize, offset: usize },
    EnableVertexAttribArray(u32),
    DrawTriangles(usize),
    DrawTrianglesInstanced(usize, i32),
    BindTexture(u32),
    TexParameter(TextureParameter),
    TexImage2D { format: PixelFormat, width: u32, height: u32 },
    GenerateMipmap,
    UseProgram(u32),
    /// Upload a placement to a matrix uniform; the executor builds the
    /// matrix from the placement's three factors.
    UniformMat4 { location: i32, transform: Transform },
    /// Upload a micro-unit vector to a 3-vector uniform.
    UniformVec3 { location: i32, value: MicroVec3 },
    DeleteBuffer(u32),
    DeleteVertexArray(u32),
    DeleteTexture(u32),
    DeleteProgram(u32),
    DeleteShader(u32),
}

/// A release result as a command sequence: one delete, or nothing.
pub open spec fn option_commands(cmd: Option<GpuCommand>) -> Seq<GpuCommand> {
    match cmd {
        Some(c) => seq![c],
        None => Seq::empty(),
    }
}

/// A clock part that draws itself by issuing commands.
pub trait Drawable {
    /// The handles the part draws with are still live.
    spec fn ready(&self) -> bool;

    /// The calls one draw of the part issues.
    spec fn draw_commands(&self) -> Seq<GpuCommand>;

    /// Produces the part's draw calls, in order.
    fn draw(&self) -> (cmds: Vec<GpuCommand>)
        requires
            self.ready(),
        ensures
            cmds@ == self.draw_commands(),
    ;
}

/// Owns one GPU memory buffer handle.
#[derive(Clone, Copy, Debug, PartialEq, Eq, Structural)]
pub struct GPUBuffer {
    pub id: u32,
    pub buffer_type: BufferKind,
    pub alive: bool,
}

impl GPUBuffer {
    /// The buffer after its handle has been released.
    pub open spec fn released(self) -> GPUBuffer {
        GPUBuffer { alive: false, ..self }
    }

    /// What releasing the buffer deletes: its handle, the first time only.
    pub open spec fn release_command(self) -> Option<GpuCommand> {
        if self.alive {
            Some(GpuCommand::DeleteBuffer(self.id))
        } else {
            None
        }
    }

    /// Wraps a buffer handle the shell has just created.
    pub fn new(id: u32, buffer_type: BufferKind) -> (b: GPUBuffer)
        ensures
            b == (GPUBuffer { id, buffer_type, alive: true }),
    {
        GPUBuffer { id, buffer_type, alive: true }
    }

    /// Replaces the buffer's entire contents with `len` bytes.
    pub fn set_data(&self, len: usize, usage: BufferUsage) -> (cmds: Vec<GpuCommand>)
        requires
            self.alive,
        ensures
            cmds@ == seq![
                GpuCommand::BindBuffer(self.buffer_type, self.id),
                GpuCommand::BufferData(self.buffer_type, len, usage),
            ],
    {
        let mut cmds: Vec<GpuCommand> = Vec::new();
        cmds.push(GpuCommand::BindBuffer(self.buffer_type, self.id));
        cmds.push(GpuCommand::BufferData(self.buffer_type, len, usage));
        assert(cmds@ =~= seq![
            GpuCommand::BindBuffer(self.buffer_type, self.id),
            GpuCommand::BufferData(self.buffer_type, len, usage),
        ]);
        cmds
    }

    /// Gives up the handle; deletes it exactly once.
    pub fn release(&mut self) -> (cmd: Option<GpuCommand>)
        ensures
            cmd == old(self).release_command(),
            *final(self) == old(self).released(),
    {
        if self.alive {
            self.alive = false;
            Some(GpuCommand::DeleteBuffer(self.id))
        } else {
            None
        }
    }
}

/// Owns one vertex-layout-binding handle.
#[derive(Clone, Copy, Debug, PartialEq, Eq, Structural)]
pub struct GPUVertexArray {
    pub id: u32,
    pub alive: bool,
}

impl GPUVertexArray {
    /// The vertex array after its handle has been released.
    pub open spec fn released(self) -> GPUVertexArray {
        GPUVertexArray { alive: false, ..self }
    }

    /// What releasing the vertex array deletes.
    pub open spec fn release_command(self) -> Option<GpuCommand> {
        if self.alive {
            Some(GpuCommand::DeleteVertexArray(self.id))
        } else {
            None
        }
    }

    /// Wraps a vertex-array handle the shell has just created.
    pub fn new(id: u32) -> (v: GPUVertexArray)
        ensures
            v == (GPUVertexArray { id, alive: true }),
    {
        GPUVertexArray { id, alive: true }
    }

    /// Makes this vertex array current.
    pub fn bind(&self) -> (cmd: GpuCommand)
        requires
            self.alive,
        ensures
            cmd == GpuCommand::BindVertexArray(self.id),
    {
        GpuCommand::BindVertexArray(self.id)
    }

    /// Gives up the handle; deletes it exactly once.
    pub fn release(&mut self) -> (cmd: Option<GpuCommand>)
        ensures
            cmd == old(self).release_command(),
            *final(self) == old(self).released(),
    {
        if self.alive {
            self.alive = false;
            Some(GpuCommand::DeleteVertexArray(self.id))
        } else {
            None
        }
    }
}

} // verus!
