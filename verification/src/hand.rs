//! A clock hand: a rotation angle and the placement derived from it.
//!
//! A hand's angle is measured clockwise from twelve o'clock and stored
//! reduced to one turn, so pushing an angle and pushing the same angle plus
//! a whole number of turns leave the hand in the same state. The stored
//! placement is always re-derived from the current angle, never edited
//! directly. Because screen-space rotation runs counterclockwise, the angle
//! is negated when it enters the transform.
//!
//! All three hands share one triangular mesh and one shader program, owned
//! by the clock that owns the hands; a hand itself holds only its own
//! mutable state (color, length, depth and the derived transform).

use crate::gpu::GpuCommand;
use crate::mesh::Mesh;
use crate::shader::ShaderProgram;
use crate::units::{
    normalized_micro_deg, MicroVec3, Transform, FULL_TURN_MICRO_DEG, MICRO_PER_UNIT,
};
use vstd::prelude::*;

verus! {

/// The X scale of the shared hand mesh: hands are drawn thin.
pub const HAND_THICKNESS: i64 = 30_000;

/// The placement of a hand at a reduced angle: local geometry is scaled to
/// the hand's thickness and length, pushed one length up along local Y at
/// the hand's depth, then swung clockwise by the angle.
pub open spec fn hand_transform(rotation_micro_deg: u64, length: i64, depth: i64) -> Transform {
    Transform {
        rotation_micro_deg: (-(rotation_micro_deg as int)) as i64,
        translation: MicroVec3 { x: 0, y: length, z: depth },
        scale: MicroVec3 { x: HAND_THICKNESS, y: length, z: MICRO_PER_UNIT },
    }
}

/// One frame of one hand: activate the shared program, push the hand's
/// placement and color into whichever of the two uniforms the program
/// turned out to have, draw the shared triangle. An absent uniform is
/// simply skipped — the draw still proceeds.
pub open spec fn hand_draw_commands(
    h: ClockHand,
    mesh: Mesh,
    program: ShaderProgram,
    transformation_location: Option<i32>,
    color_location: Option<i32>,
) -> Seq<GpuCommand> {
    seq![GpuCommand::UseProgram(program.id)] + (match transformation_location {
        Some(location) => seq![GpuCommand::UniformMat4 { location, transform: h.transform }],
        None => Seq::empty(),
    }) + (match color_location {
        Some(location) => seq![GpuCommand::UniformVec3 { location, value: h.color }],
        None => Seq::empty(),
    }) + mesh.draw_commands()
}

/// A rotating indicator on the clock face.
#[derive(Clone, Copy, Debug, PartialEq, Eq, Structural)]
pub struct ClockHand {
    /// The hand's draw color, as micro-unit RGB intensities.
    pub color: MicroVec3,
    /// How far the hand's tip reaches out from the clock center.
    pub length: i64,
    /// The hand's fixed base: the clock center at the hand's depth.
    pub mount_point: MicroVec3,
    /// Clockwise angle from twelve o'clock, reduced to one turn.
    pub rotation_micro_deg: u64,
    /// The placement derived from the current angle.
    pub transform: Transform,
}

/// A hand as constructed: pointing at twelve.
pub open spec fn initial_hand(length: i64, depth: i64, color: MicroVec3) -> ClockHand {
    ClockHand {
        color,
        length,
        mount_point: MicroVec3 { x: 0, y: 0, z: depth },
        rotation_micro_deg: 0,
        transform: hand_transform(0, length, depth),
    }
}

/// A hand after its angle has been set: the angle is reduced to one turn
/// and the placement re-derived; everything else is untouched.
pub open spec fn hand_after_rotation(h: ClockHand, rotation_micro_deg: u64) -> ClockHand {
    let reduced = normalized_micro_deg(rotation_micro_deg as int) as u64;
    ClockHand {
        rotation_micro_deg: reduced,
        transform: hand_transform(reduced, h.length, h.mount_point.z),
        ..h
    }
}

impl ClockHand {
    /// The angle is reduced and the placement matches it.
    pub open spec fn wf(self) -> bool {
        &&& self.rotation_micro_deg < FULL_TURN_MICRO_DEG
        &&& self.transform == hand_transform(
            self.rotation_micro_deg,
            self.length,
            self.mount_point.z,
        )
    }

    /// A new hand of the given reach, depth and color, pointing at twelve.
    pub fn new(length: i64, depth: i64, color: MicroVec3) -> (h: ClockHand)
        ensures
            h == initial_hand(length, depth, color),
            h.wf(),
    {
        let mut hand = ClockHand {
            color,
            length,
            mount_point: MicroVec3 { x: 0, y: 0, z: depth },
            rotation_micro_deg: 0,
            transform: Transform {
                rotation_micro_deg: 0,
                translation: MicroVec3 { x: 0, y: 0, z: 0 },
                scale: MicroVec3 { x: MICRO_PER_UNIT, y: MICRO_PER_UNIT, z: MICRO_PER_UNIT },
            },
        };
        hand.update_transform();
        hand
    }

    /// Re-derives the placement from the current angle.
    fn update_transform(&mut self)
        requires
            old(self).rotation_micro_deg < FULL_TURN_MICRO_DEG,
        ensures
            *final(self) == (ClockHand {
                transform: hand_transform(
                    old(self).rotation_micro_deg,
                    old(self).length,
                    old(self).mount_point.z,
                ),
                ..*old(self)
            }),
    {
        let swing: i64 = -(self.rotation_micro_deg as i64);
        self.transform = Transform {
            rotation_micro_deg: swing,
            translation: MicroVec3 { x: 0, y: self.length, z: self.mount_point.z },
            scale: MicroVec3 { x: HAND_THICKNESS, y: self.length, z: MICRO_PER_UNIT },
        };
    }

    /// Points the hand at the given clockwise angle from twelve o'clock.
    pub fn set_rotation(&mut self, rotation_micro_deg: u64)
        ensures
            *final(self) == hand_after_rotation(*old(self), rotation_micro_deg),
            final(self).wf(),
    {
        self.rotation_micro_deg = crate::units::normalize_micro_deg(rotation_micro_deg);
        self.update_transform();
    }

    /// Draws the hand with the shared mesh and program, pushing its own
    /// placement and color into the program's uniforms. The locations are
    /// whatever the cache resolved; an absent one is skipped and the draw
    /// still proceeds.
    pub fn draw(
        &self,
        mesh: &Mesh,
        shader_program: &ShaderProgram,
        transformation_location: Option<i32>,
        color_location: Option<i32>,
    ) -> (cmds: Vec<GpuCommand>)
        requires
            mesh.alive(),
            shader_program.alive,
        ensures
            cmds@ == hand_draw_commands(
                *self,
                *mesh,
                *shader_program,
                transformation_location,
                color_location,
            ),
    {
        let mut cmds: Vec<GpuCommand> = Vec::new();
        cmds.push(shader_program.activate());
        if let Some(location) = transformation_location {
            cmds.push(GpuCommand::UniformMat4 { location, transform: self.transform });
        }
        if let Some(location) = color_location {
            cmds.push(GpuCommand::UniformVec3 { location, value: self.color });
        }
        let mut mesh_cmds = mesh.draw();
        cmds.append(&mut mesh_cmds);
        assert(cmds@ =~= hand_draw_commands(
            *self,
            *mesh,
            *shader_program,
            transformation_location,
            color_location,
        ));
        cmds
    }
}

/// Setting an angle and setting the same angle one whole turn later leave
/// the hand in the same state, placement included.
pub proof fn lemma_set_rotation_periodic(h: ClockHand, rotation_micro_deg: u64)
    requires
        rotation_micro_deg + FULL_TURN_MICRO_DEG <= u64::MAX,
    ensures
        hand_after_rotation(h, (rotation_micro_deg + FULL_TURN_MICRO_DEG) as u64)
            == hand_after_rotation(h, rotation_micro_deg),
{
    crate::units::lemma_full_turn_preserves_angle(rotation_micro_deg as int);
}

} // verus!
