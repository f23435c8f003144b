//! Frame composition: what one draw of the dial, a hand, and the whole
//! clock sends to the GPU, and in what order.

use gl_clock::clock::AnalogClock;
use gl_clock::face::ClockFace;
use gl_clock::gpu::{
    BufferKind, Drawable, GPUBuffer, GPUVertexArray, GpuCommand, PixelFormat,
};
use gl_clock::mesh::MeshHandles;
use gl_clock::shader::{LinkOutcome, ShaderProgram};
use gl_clock::texture::{GPUTexture, TextureUsage};
use gl_clock::units::MicroVec3;

fn handles(base: u32) -> MeshHandles {
    MeshHandles {
        vertex_array_object: GPUVertexArray::new(base),
        vertex_buffer: GPUBuffer::new(base + 1, BufferKind::Array),
        index_buffer: GPUBuffer::new(base + 2, BufferKind::ElementArray),
    }
}

fn program(name: &str, id: u32) -> ShaderProgram {
    let (built, _cleanup) = ShaderProgram::program_linked(name, id, 90, 91, LinkOutcome::Linked);
    built.unwrap()
}

fn texture(id: u32) -> GPUTexture {
    let (tex, _cmds) = GPUTexture::from_decoded_image(id, TextureUsage::Diffuse, PixelFormat::Rgba8, 4, 4);
    tex
}

fn whole_clock() -> AnalogClock {
    let (face, _cmds) = ClockFace::new(
        handles(1),
        program("clockFace", 40),
        texture(30),
        handles(10),
        program("clockTick", 41),
    );
    let (clock, _cmds) = AnalogClock::new(face, handles(20), program("clockHand", 42));
    clock
}

#[test]
fn face_draw_is_one_textured_draw_and_one_instanced_draw() {
    let clock = whole_clock();
    let cmds = clock.face.draw();
    assert_eq!(
        cmds,
        vec![
            GpuCommand::UseProgram(40),
            GpuCommand::BindTexture(30),
            GpuCommand::BindVertexArray(1),
            GpuCommand::DrawTriangles(6),
            GpuCommand::BindVertexArray(0),
            GpuCommand::UseProgram(41),
            GpuCommand::BindVertexArray(10),
            GpuCommand::DrawTrianglesInstanced(6, 60),
            GpuCommand::BindVertexArray(0),
        ]
    );
}

#[test]
fn hand_draw_pushes_placement_and_color() {
    let clock = whole_clock();
    let cmds = clock.second_hand.draw(&clock.hand_mesh, &clock.hand_shader_program, Some(2), Some(3));
    assert_eq!(
        cmds,
        vec![
            GpuCommand::UseProgram(42),
            GpuCommand::UniformMat4 { location: 2, transform: clock.second_hand.transform },
            GpuCommand::UniformVec3 { location: 3, value: MicroVec3 { x: 1_000_000, y: 0, z: 0 } },
            GpuCommand::BindVertexArray(20),
            GpuCommand::DrawTriangles(3),
            GpuCommand::BindVertexArray(0),
        ]
    );
}

#[test]
fn hand_draw_skips_absent_uniforms_but_still_draws() {
    let clock = whole_clock();
    let cmds = clock.second_hand.draw(&clock.hand_mesh, &clock.hand_shader_program, Some(2), None);
    assert_eq!(
        cmds,
        vec![
            GpuCommand::UseProgram(42),
            GpuCommand::UniformMat4 { location: 2, transform: clock.second_hand.transform },
            GpuCommand::BindVertexArray(20),
            GpuCommand::DrawTriangles(3),
            GpuCommand::BindVertexArray(0),
        ]
    );
}

#[test]
fn clock_draws_face_then_second_minute_hour() {
    let mut clock = whole_clock();
    clock.update(9, 15, 30, 0);
    let cmds = clock.draw(Some(2), Some(3));

    // The dial comes first.
    assert_eq!(cmds[0], GpuCommand::UseProgram(40));
    assert_eq!(cmds.len(), 9 + 3 * 6);

    // Then the hands, recognizable by their colors: red second hand, green
    // minute hand, blue hour hand — in that order, so later draws layer
    // the faster hand on top.
    let colors: Vec<MicroVec3> = cmds
        .iter()
        .filter_map(|c| match c {
            GpuCommand::UniformVec3 { value, .. } => Some(*value),
            _ => None,
        })
        .collect();
    assert_eq!(
        colors,
        vec![
            MicroVec3 { x: 1_000_000, y: 0, z: 0 },
            MicroVec3 { x: 0, y: 1_000_000, z: 0 },
            MicroVec3 { x: 0, y: 0, z: 1_000_000 },
        ]
    );

    // Each hand's placement went out with its own angle.
    let swings: Vec<i64> = cmds
        .iter()
        .filter_map(|c| match c {
            GpuCommand::UniformMat4 { transform, .. } => Some(transform.rotation_micro_deg),
            _ => None,
        })
        .collect();
    assert_eq!(
        swings,
        vec![
            -(30 * 6_000_000),
            -(15 * 6_000_000 + 30 * 100_000),
            -(9 * 30_000_000 + 15 * 500_000 + 30 * 8_333),
        ]
    );
}
