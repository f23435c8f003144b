//! The analog clock: a dial and three hands driven by the time of day.
//!
//! The shell reads the wall clock and hands over hours, minutes, seconds
//! and milliseconds as plain values; `update` turns them into three
//! clockwise angles from twelve and pushes each into its hand. The angles
//! sweep continuously — the second hand moves within a second, the minute
//! hand within a minute, the hour hand across the whole twelve-hour face —
//! with nothing snapped to whole ticks.
//!
//! The three hands share one triangular mesh and one shader program. Both
//! are owned here, next to the hands, and handed to the draw code by
//! reference; a hand itself only carries its own color, length, depth and
//! placement.

use crate::face::ClockFace;
use crate::gpu::{Drawable, GpuCommand};
use crate::hand::{hand_after_rotation, hand_draw_commands, initial_hand, ClockHand};
use crate::mesh::{Mesh, MeshHandles};
use crate::shader::ShaderProgram;
use crate::units::{MicroVec2, MicroVec3, FULL_TURN_MICRO_DEG, MICRO_PER_UNIT};
use crate::vertex::Vertex;
use vstd::prelude::*;

verus! {

/// The second hand reaches almost to the tick ring.
pub const SECOND_HAND_LENGTH: i64 = 480_000;

/// The minute hand is a little shorter.
pub const MINUTE_HAND_LENGTH: i64 = 410_000;

/// The hour hand is the shortest.
pub const HOUR_HAND_LENGTH: i64 = 300_000;

/// Hands sit at distinct depths so they never z-fight; the second hand is
/// nearest the viewer.
pub const SECOND_HAND_DEPTH: i64 = -100_000;

pub const MINUTE_HAND_DEPTH: i64 = -200_000;

pub const HOUR_HAND_DEPTH: i64 = -300_000;

/// The second hand's angle: six degrees per second, swept continuously
/// through the second.
pub open spec fn seconds_rotation_micro_deg(seconds: int, milliseconds: int) -> int {
    seconds * 6_000_000 + milliseconds * 6_000
}

/// The minute hand's angle: six degrees per minute, crept forward by the
/// seconds and milliseconds within it.
pub open spec fn minutes_rotation_micro_deg(minutes: int, seconds: int, milliseconds: int) -> int {
    minutes * 6_000_000 + seconds * 100_000 + milliseconds * 100
}

/// The hour hand's angle: thirty degrees per hour, crept forward by the
/// minutes and seconds within it.
pub open spec fn hours_rotation_micro_deg(hours: int, minutes: int, seconds: int) -> int {
    hours * 30_000_000 + minutes * 500_000 + seconds * 8_333
}

/// The shared hand mesh: a triangle with its base at the bottom and its
/// tip at the top of local space.
pub open spec fn hand_mesh_vertices() -> Seq<Vertex> {
    let normal = MicroVec3 { x: 0, y: 0, z: 0 };
    seq![
        Vertex {
            position: MicroVec3 { x: 0, y: MICRO_PER_UNIT, z: 0 },
            texture_coordinate: MicroVec2 { x: 500_000, y: 0 },
            normal,
        },
        Vertex {
            position: MicroVec3 { x: MICRO_PER_UNIT, y: -1_000_000i64, z: 0 },
            texture_coordinate: MicroVec2 { x: MICRO_PER_UNIT, y: MICRO_PER_UNIT },
            normal,
        },
        Vertex {
            position: MicroVec3 { x: -1_000_000i64, y: -1_000_000i64, z: 0 },
            texture_coordinate: MicroVec2 { x: 0, y: MICRO_PER_UNIT },
            normal,
        },
    ]
}

/// The shared hand mesh's single triangle.
pub open spec fn hand_mesh_indices() -> Seq<u32> {
    seq![0u32, 1u32, 2u32]
}

/// The whole clock: the dial, the three hands, and the mesh and program
/// the hands share.
pub struct AnalogClock {
    pub face: ClockFace,
    pub second_hand: ClockHand,
    pub minute_hand: ClockHand,
    pub hour_hand: ClockHand,
    /// The triangle all three hands are drawn from.
    pub hand_mesh: Mesh,
    /// The program all three hands are drawn with.
    pub hand_shader_program: ShaderProgram,
}

impl AnalogClock {
    /// The clock after all its GPU objects have been released.
    pub open spec fn released(self) -> AnalogClock {
        AnalogClock {
            face: self.face.released(),
            hand_mesh: self.hand_mesh.released(),
            hand_shader_program: self.hand_shader_program.released(),
            ..self
        }
    }

    /// What releasing the clock deletes: the dial's objects, then the
    /// shared hand mesh, then the shared hand program — every mesh's
    /// objects before the program that draws them, each handle once.
    pub open spec fn release_commands(self) -> Seq<GpuCommand> {
        self.face.release_commands() + self.hand_mesh.release_commands()
            + crate::gpu::option_commands(self.hand_shader_program.release_command())
    }

    /// Builds the clock around a finished dial: the shared hand triangle
    /// over freshly created GPU objects, and the three hands — second,
    /// minute, hour — differing only in length, depth and color.
    pub fn new(face: ClockFace, hand_handles: MeshHandles, hand_shader_program: ShaderProgram) -> (r:
        (AnalogClock, Vec<GpuCommand>))
        requires
            hand_handles.wf(),
        ensures
            r.0.face == face,
            r.0.hand_shader_program == hand_shader_program,
            r.0.hand_mesh.vertices@ == hand_mesh_vertices(),
            r.0.hand_mesh.indices@ == hand_mesh_indices(),
            r.0.hand_mesh.wf(),
            r.0.hand_mesh.alive(),
            r.0.hand_mesh.vertex_array_object == hand_handles.vertex_array_object,
            r.0.hand_mesh.vertex_buffer == hand_handles.vertex_buffer,
            r.0.hand_mesh.index_buffer == hand_handles.index_buffer,
            r.0.second_hand == initial_hand(
                SECOND_HAND_LENGTH,
                SECOND_HAND_DEPTH,
                MicroVec3 { x: MICRO_PER_UNIT, y: 0, z: 0 },
            ),
            r.0.minute_hand == initial_hand(
                MINUTE_HAND_LENGTH,
                MINUTE_HAND_DEPTH,
                MicroVec3 { x: 0, y: MICRO_PER_UNIT, z: 0 },
            ),
            r.0.hour_hand == initial_hand(
                HOUR_HAND_LENGTH,
                HOUR_HAND_DEPTH,
                MicroVec3 { x: 0, y: 0, z: MICRO_PER_UNIT },
            ),
            r.0.second_hand.wf(),
            r.0.minute_hand.wf(),
            r.0.hour_hand.wf(),
            r.1@ == r.0.hand_mesh.setup_commands(),
    {
        let mut vertices: Vec<Vertex> = Vec::new();
        vertices.push(
            Vertex::new(
                MicroVec3 { x: 0, y: MICRO_PER_UNIT, z: 0 },
                MicroVec2 { x: 500_000, y: 0 },
                MicroVec3 { x: 0, y: 0, z: 0 },
            ),
        );
        vertices.push(
            Vertex::new(
                MicroVec3 { x: MICRO_PER_UNIT, y: -1_000_000i64, z: 0 },
                MicroVec2 { x: MICRO_PER_UNIT, y: MICRO_PER_UNIT },
                MicroVec3 { x: 0, y: 0, z: 0 },
            ),
        );
        vertices.push(
            Vertex::new(
                MicroVec3 { x: -1_000_000i64, y: -1_000_000i64, z: 0 },
                MicroVec2 { x: 0, y: MICRO_PER_UNIT },
                MicroVec3 { x: 0, y: 0, z: 0 },
            ),
        );
        let mut indices: Vec<u32> = Vec::new();
        indices.push(0);
        indices.push(1);
        indices.push(2);
        assert(vertices@ =~= hand_mesh_vertices());
        assert(indices@ =~= hand_mesh_indices());

        let (hand_mesh, cmds) = Mesh::new(vertices, indices, hand_handles);

        let second_hand = ClockHand::new(
            SECOND_HAND_LENGTH,
            SECOND_HAND_DEPTH,
            MicroVec3 { x: MICRO_PER_UNIT, y: 0, z: 0 },
        );
        let minute_hand = ClockHand::new(
            MINUTE_HAND_LENGTH,
            MINUTE_HAND_DEPTH,
            MicroVec3 { x: 0, y: MICRO_PER_UNIT, z: 0 },
        );
        let hour_hand = ClockHand::new(
            HOUR_HAND_LENGTH,
            HOUR_HAND_DEPTH,
            MicroVec3 { x: 0, y: 0, z: MICRO_PER_UNIT },
        );

        let clock = AnalogClock {
            face,
            second_hand,
            minute_hand,
            hour_hand,
            hand_mesh,
            hand_shader_program,
        };
        (clock, cmds)
    }

    /// Six degrees per second, plus six thousandths of a degree per
    /// millisecond, in microdegrees.
    pub fn get_seconds_rotation(seconds: u32, milliseconds: u32) -> (r: u64)
        ensures
            r == seconds_rotation_micro_deg(seconds as int, milliseconds as int),
            seconds < 60 && milliseconds < 1000 ==> r < FULL_TURN_MICRO_DEG,
    {
        (seconds as u64) * 6_000_000 + (milliseconds as u64) * 6_000
    }

    /// Six degrees per minute, a tenth of a degree per second, a
    /// ten-thousandth of a degree per millisecond, in microdegrees.
    pub fn get_minutes_rotation(minutes: u32, seconds: u32, milliseconds: u32) -> (r: u64)
        ensures
            r == minutes_rotation_micro_deg(minutes as int, seconds as int, milliseconds as int),
            minutes < 60 && seconds < 60 && milliseconds < 1000 ==> r < FULL_TURN_MICRO_DEG,
    {
        (minutes as u64) * 6_000_000 + (seconds as u64) * 100_000 + (milliseconds as u64) * 100
    }

    /// Thirty degrees per hour, half a degree per minute, 8333 millionths
    /// of a degree per second, in microdegrees.
    pub fn get_hours_rotation(hours: u32, minutes: u32, seconds: u32) -> (r: u64)
        ensures
            r == hours_rotation_micro_deg(hours as int, minutes as int, seconds as int),
            hours < 12 && minutes < 60 && seconds < 60 ==> r < FULL_TURN_MICRO_DEG,
    {
        (hours as u64) * 30_000_000 + (minutes as u64) * 500_000 + (seconds as u64) * 8_333
    }

    /// Points the three hands at the given time of day. Hours beyond the
    /// twelve-hour face are folded onto it; the dial and the shared
    /// resources are untouched.
    pub fn update(&mut self, hours: u32, minutes: u32, seconds: u32, milliseconds: u32)
        ensures
            final(self).second_hand == hand_after_rotation(
                old(self).second_hand,
                seconds_rotation_micro_deg(seconds as int, milliseconds as int) as u64,
            ),
            final(self).minute_hand == hand_after_rotation(
                old(self).minute_hand,
                minutes_rotation_micro_deg(
                    minutes as int,
                    seconds as int,
                    milliseconds as int,
                ) as u64,
            ),
            final(self).hour_hand == hand_after_rotation(
                old(self).hour_hand,
                hours_rotation_micro_deg(
                    (hours as int) % 12,
                    minutes as int,
                    seconds as int,
                ) as u64,
            ),
            final(self).second_hand.wf(),
            final(self).minute_hand.wf(),
            final(self).hour_hand.wf(),
            final(self).face == old(self).face,
            final(self).hand_mesh == old(self).hand_mesh,
            final(self).hand_shader_program == old(self).hand_shader_program,
    {
        let hours_on_face = hours % 12;
        self.second_hand.set_rotation(Self::get_seconds_rotation(seconds, milliseconds));
        self.minute_hand.set_rotation(Self::get_minutes_rotation(minutes, seconds, milliseconds));
        self.hour_hand.set_rotation(Self::get_hours_rotation(hours_on_face, minutes, seconds));
    }

    /// One frame of the whole clock: the dial first, then the hands in a
    /// fixed order — second, minute, hour. With the depth test off, later
    /// draws paint over earlier ones, so this order layers the second hand
    /// over the minute hand over the hour hand. The two locations are
    /// whatever the cache resolved for the shared hand program's placement
    /// and color uniforms; an absent one is skipped.
    pub fn draw(&self, transformation_location: Option<i32>, color_location: Option<i32>) -> (cmds:
        Vec<GpuCommand>)
        requires
            self.face.parts_alive(),
            self.hand_mesh.alive(),
            self.hand_shader_program.alive,
        ensures
            cmds@ == self.face.draw_commands() + hand_draw_commands(
                self.second_hand,
                self.hand_mesh,
                self.hand_shader_program,
                transformation_location,
                color_location,
            ) + hand_draw_commands(
                self.minute_hand,
                self.hand_mesh,
                self.hand_shader_program,
                transformation_location,
                color_location,
            ) + hand_draw_commands(
                self.hour_hand,
                self.hand_mesh,
                self.hand_shader_program,
                transformation_location,
                color_location,
            ),
    {
        let mut cmds = self.face.draw();
        let mut hand_cmds = self.second_hand.draw(
            &self.hand_mesh,
            &self.hand_shader_program,
            transformation_location,
            color_location,
        );
        cmds.append(&mut hand_cmds);
        let mut hand_cmds = self.minute_hand.draw(
            &self.hand_mesh,
            &self.hand_shader_program,
            transformation_location,
            color_location,
        );
        cmds.append(&mut hand_cmds);
        let mut hand_cmds = self.hour_hand.draw(
            &self.hand_mesh,
            &self.hand_shader_program,
            transformation_location,
            color_location,
        );
        cmds.append(&mut hand_cmds);
        cmds
    }

    /// Releases every GPU object the clock owns. Safe to call again: a
    /// second release deletes nothing further.
    pub fn release(&mut self) -> (cmds: Vec<GpuCommand>)
        ensures
            cmds@ == old(self).release_commands(),
            *final(self) == old(self).released(),
    {
        let mut cmds = self.face.release();
        let mut mesh_cmds = self.hand_mesh.release();
        cmds.append(&mut mesh_cmds);
        if let Some(c) = self.hand_shader_program.release() {
            cmds.push(c);
        }
        assert(cmds@ =~= old(self).release_commands());
        cmds
    }
}

/// Releasing an already released clock deletes nothing and changes
/// nothing: teardown is idempotent, however often and in whatever order
/// the owners run it.
pub proof fn lemma_release_idempotent(c: AnalogClock)
    ensures
        c.released().release_commands() =~= Seq::<GpuCommand>::empty(),
        c.released().released() == c.released(),
{
}

/// For a fully live clock, teardown deletes each handle exactly once, and
/// deletes every mesh's buffers and vertex array, and every texture,
/// before the program drawn with them last in its group: dial objects
/// first, then the shared hand mesh, then the shared hand program.
pub proof fn lemma_release_order(c: AnalogClock)
    requires
        c.face.parts_alive(),
        c.hand_mesh.alive(),
        c.hand_shader_program.alive,
    ensures
        c.release_commands() =~= seq![
            GpuCommand::DeleteVertexArray(c.face.face_mesh.vertex_array_object.id),
            GpuCommand::DeleteBuffer(c.face.face_mesh.vertex_buffer.id),
            GpuCommand::DeleteBuffer(c.face.face_mesh.index_buffer.id),
            GpuCommand::DeleteProgram(c.face.face_shader_program.id),
            GpuCommand::DeleteTexture(c.face.face_texture.id),
            GpuCommand::DeleteVertexArray(c.face.tick_mesh.vertex_array_object.id),
            GpuCommand::DeleteBuffer(c.face.tick_mesh.vertex_buffer.id),
            GpuCommand::DeleteBuffer(c.face.tick_mesh.index_buffer.id),
            GpuCommand::DeleteProgram(c.face.tick_shader_program.id),
            GpuCommand::DeleteVertexArray(c.hand_mesh.vertex_array_object.id),
            GpuCommand::DeleteBuffer(c.hand_mesh.vertex_buffer.id),
            GpuCommand::DeleteBuffer(c.hand_mesh.index_buffer.id),
            GpuCommand::DeleteProgram(c.hand_shader_program.id),
        ],
{
}

} // verus!
