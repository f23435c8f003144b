//! The dial: a textured face and sixty tick marks around the rim.
//!
//! The ticks never move, so their placements are computed once, at
//! construction, and drawn with a single instanced call of sixty instances;
//! a shader-side array uniform indexed by instance id supplies each tick's
//! placement. Ticks are tiered by visual weight: the quarter-hour ticks are
//! scaled three-fold, the remaining hour ticks one-and-a-half-fold, minute
//! ticks not at all, and each tick is pushed up so its outer edge sits at
//! the dial rim, slightly behind the hands and in front of the face.

use crate::gpu::{Drawable, GpuCommand};
use crate::mesh::{Mesh, MeshHandles};
use crate::shader::ShaderProgram;
use crate::texture::GPUTexture;
use crate::units::{MicroVec2, MicroVec3, Transform, MICRO_PER_UNIT};
use vstd::prelude::*;

verus! {

/// Tick marks around the dial.
pub const TICK_COUNT: u8 = 60;

/// Microdegrees from one tick to the next: a sixtieth of a turn.
pub const TICK_STEP_MICRO_DEG: i64 = 6_000_000;

/// The dial is two scene units wide and tall.
pub const FACE_SIZE: i64 = 2_000_000;

/// An unscaled tick's width.
pub const TICK_WIDTH: i64 = 20_000;

/// An unscaled tick's height.
pub const TICK_HEIGHT: i64 = 30_000;

/// Ticks sit slightly behind the hands and in front of the face.
pub const TICK_Z_OFFSET: i64 = -50_000;

/// How much a tick is scaled, by its index around the dial: three-fold at
/// the quarter hours, one-and-a-half-fold at the other hours, unscaled at
/// the minutes.
pub open spec fn tick_scale_micro(index: u8) -> int {
    if index % 15 == 0 {
        3_000_000
    } else if index % 5 == 0 {
        1_500_000
    } else {
        1_000_000
    }
}

/// The placement of one tick: scaled by its tier, pushed up so its outer
/// edge sits at the dial rim, then swung to its minute position.
pub open spec fn tick_transform(index: u8, tick_height: i64) -> Transform {
    let s = tick_scale_micro(index);
    Transform {
        rotation_micro_deg: (index * TICK_STEP_MICRO_DEG) as i64,
        translation: MicroVec3 {
            x: 0,
            y: (MICRO_PER_UNIT - tick_height * s / (2 * MICRO_PER_UNIT)) as i64,
            z: TICK_Z_OFFSET,
        },
        scale: MicroVec3 { x: s as i64, y: s as i64, z: MICRO_PER_UNIT },
    }
}

/// The dial: face mesh, texture and program, tick mesh and program, and
/// the sixty per-tick placements uploaded once as an array uniform.
pub struct ClockFace {
    pub face_mesh: Mesh,
    pub face_shader_program: ShaderProgram,
    pub face_texture: GPUTexture,
    pub tick_mesh: Mesh,
    pub tick_shader_program: ShaderProgram,
    /// One placement per tick, fixed at construction.
    pub tick_transforms: Vec<Transform>,
}

impl ClockFace {
    /// Computes where one tick sits and how large it is drawn.
    pub fn calculate_tick_transform(index: u8, tick_height: i64) -> (t: Transform)
        requires
            0 <= tick_height,
            tick_height * 3_000_000 <= i64::MAX,
        ensures
            t == tick_transform(index, tick_height),
            index % 15 == 0 ==> t.scale.x == 3_000_000,
            index % 15 != 0 && index % 5 == 0 ==> t.scale.x == 1_500_000,
            index % 5 != 0 ==> t.scale.x == 1_000_000,
    {
        let scale_factor: i64 = if index % 15 == 0 {
            3_000_000
        } else if index % 5 == 0 {
            1_500_000
        } else {
            1_000_000
        };
        proof {
            assert((tick_height as int) * (scale_factor as int) <= (tick_height as int)
                * 3_000_000) by (nonlinear_arith)
                requires
                    0 <= tick_height as int,
                    scale_factor as int <= 3_000_000,
            ;
        }
        let half_scaled: i64 = (((tick_height as u64) * (scale_factor as u64)) / (2_000_000u64))
            as i64;
        let y_translation: i64 = MICRO_PER_UNIT - half_scaled;
        Transform {
            rotation_micro_deg: (index as i64) * TICK_STEP_MICRO_DEG,
            translation: MicroVec3 { x: 0, y: y_translation, z: TICK_Z_OFFSET },
            scale: MicroVec3 { x: scale_factor, y: scale_factor, z: MICRO_PER_UNIT },
        }
    }

    /// Everything the dial draws with is still live.
    pub open spec fn parts_alive(self) -> bool {
        &&& self.face_mesh.alive()
        &&& self.face_mesh.wf()
        &&& self.face_shader_program.alive
        &&& self.face_texture.alive
        &&& self.tick_mesh.alive()
        &&& self.tick_mesh.wf()
        &&& self.tick_shader_program.alive
    }

    /// The dial after all its GPU objects have been released.
    pub open spec fn released(self) -> ClockFace {
        ClockFace {
            face_mesh: self.face_mesh.released(),
            face_shader_program: self.face_shader_program.released(),
            face_texture: self.face_texture.released(),
            tick_mesh: self.tick_mesh.released(),
            tick_shader_program: self.tick_shader_program.released(),
            ..self
        }
    }

    /// What releasing the dial deletes: each part's handles once, in the
    /// order the parts were created — each mesh's objects before the
    /// program that draws it.
    pub open spec fn release_commands(self) -> Seq<GpuCommand> {
        self.face_mesh.release_commands() + crate::gpu::option_commands(
            self.face_shader_program.release_command(),
        ) + crate::gpu::option_commands(self.face_texture.release_command())
            + self.tick_mesh.release_commands() + crate::gpu::option_commands(
            self.tick_shader_program.release_command(),
        )
    }

    /// Builds the dial over freshly created GPU objects: a full-size face
    /// rect, a tick rect, and the sixty tick placements. The returned calls
    /// upload both meshes; the shell then uploads the placements as the
    /// tick program's array uniform.
    pub fn new(
        face_handles: MeshHandles,
        face_shader_program: ShaderProgram,
        face_texture: GPUTexture,
        tick_handles: MeshHandles,
        tick_shader_program: ShaderProgram,
    ) -> (r: (ClockFace, Vec<GpuCommand>))
        requires
            face_handles.wf(),
            tick_handles.wf(),
            face_shader_program.alive,
            face_texture.alive,
            tick_shader_program.alive,
        ensures
            r.0.face_mesh.vertices@ == Mesh::rect_vertices(
                FACE_SIZE,
                FACE_SIZE,
                Mesh::rect_uv_top_left(None),
                Mesh::rect_uv_bottom_right(None),
            ),
            r.0.face_mesh.indices@ == Mesh::rect_indices(),
            r.0.tick_mesh.vertices@ == Mesh::rect_vertices(
                TICK_WIDTH,
                TICK_HEIGHT,
                Mesh::rect_uv_top_left(None),
                Mesh::rect_uv_bottom_right(None),
            ),
            r.0.tick_mesh.indices@ == Mesh::rect_indices(),
            r.0.face_mesh.vertex_array_object == face_handles.vertex_array_object,
            r.0.face_mesh.vertex_buffer == face_handles.vertex_buffer,
            r.0.face_mesh.index_buffer == face_handles.index_buffer,
            r.0.tick_mesh.vertex_array_object == tick_handles.vertex_array_object,
            r.0.tick_mesh.vertex_buffer == tick_handles.vertex_buffer,
            r.0.tick_mesh.index_buffer == tick_handles.index_buffer,
            r.0.face_shader_program == face_shader_program,
            r.0.face_texture == face_texture,
            r.0.tick_shader_program == tick_shader_program,
            r.0.tick_transforms@.len() == TICK_COUNT,
            forall|k: int|
                0 <= k < TICK_COUNT ==> r.0.tick_transforms@[k] == tick_transform(
                    k as u8,
                    TICK_HEIGHT,
                ),
            r.0.parts_alive(),
            r.1@ == r.0.face_mesh.setup_commands() + r.0.tick_mesh.setup_commands(),
    {
        let (face_mesh, mut cmds) = Mesh::make_rect(FACE_SIZE, FACE_SIZE, None, None, face_handles);
        let (tick_mesh, mut tick_cmds) = Mesh::make_rect(
            TICK_WIDTH,
            TICK_HEIGHT,
            None,
            None,
            tick_handles,
        );
        cmds.append(&mut tick_cmds);

        let mut tick_transforms: Vec<Transform> = Vec::new();
        let mut i: u8 = 0;
        while i < TICK_COUNT
            invariant
                0 <= i <= TICK_COUNT,
                tick_transforms@.len() == i as int,
                forall|k: int|
                    0 <= k < i as int ==> tick_transforms@[k] == tick_transform(
                        k as u8,
                        TICK_HEIGHT,
                    ),
            decreases TICK_COUNT - i,
        {
            tick_transforms.push(ClockFace::calculate_tick_transform(i, TICK_HEIGHT));
            i += 1;
        }

        let face = ClockFace {
            face_mesh,
            face_shader_program,
            face_texture,
            tick_mesh,
            tick_shader_program,
            tick_transforms,
        };
        (face, cmds)
    }

    /// Releases the dial's GPU objects. Safe to call again: a second
    /// release deletes nothing further.
    #[verifier::rlimit(50)]
    pub fn release(&mut self) -> (cmds: Vec<GpuCommand>)
        ensures
            cmds@ == old(self).release_commands(),
            *final(self) == old(self).released(),
    {
        let mut cmds = self.face_mesh.release();
        if let Some(c) = self.face_shader_program.release() {
            cmds.push(c);
        }
        if let Some(c) = self.face_texture.release() {
            cmds.push(c);
        }
        let mut tick_cmds = self.tick_mesh.release();
        cmds.append(&mut tick_cmds);
        if let Some(c) = self.tick_shader_program.release() {
            cmds.push(c);
        }
        assert(cmds@ =~= old(self).release_commands());
        cmds
    }
}

impl Drawable for ClockFace {
    /// The dial draws while all its parts are live.
    open spec fn ready(&self) -> bool {
        self.parts_alive()
    }

    /// One frame of the dial: the textured face, then all sixty ticks in
    /// one instanced call.
    open spec fn draw_commands(&self) -> Seq<GpuCommand> {
        seq![
            GpuCommand::UseProgram(self.face_shader_program.id),
            GpuCommand::BindTexture(self.face_texture.id),
        ] + self.face_mesh.draw_commands() + seq![GpuCommand::UseProgram(
            self.tick_shader_program.id,
        )] + self.tick_mesh.draw_instanced_commands(TICK_COUNT as i32)
    }

    fn draw(&self) -> (cmds: Vec<GpuCommand>) {
        let mut cmds: Vec<GpuCommand> = Vec::new();
        cmds.push(self.face_shader_program.activate());
        cmds.push(self.face_texture.bind());
        let mut mesh_cmds = self.face_mesh.draw();
        cmds.append(&mut mesh_cmds);
        cmds.push(self.tick_shader_program.activate());
        let mut tick_cmds = self.tick_mesh.draw_instanced(TICK_COUNT as i32);
        cmds.append(&mut tick_cmds);
        assert(cmds@ =~= self.draw_commands());
        cmds
    }
}

} // verus!
