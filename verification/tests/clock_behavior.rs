//! The clock's observable behavior: angles, hand state, tick tiers.

use gl_clock::clock::AnalogClock;
use gl_clock::face::ClockFace;
use gl_clock::gpu::{BufferKind, GPUBuffer, GPUVertexArray};
use gl_clock::hand::ClockHand;
use gl_clock::mesh::MeshHandles;
use gl_clock::shader::{LinkOutcome, ShaderProgram};
use gl_clock::texture::{GPUTexture, TextureUsage};
use gl_clock::units::{normalize_micro_deg, MicroVec3};

fn handles(base: u32) -> MeshHandles {
    MeshHandles {
        vertex_array_object: GPUVertexArray::new(base),
        vertex_buffer: GPUBuffer::new(base + 1, BufferKind::Array),
        index_buffer: GPUBuffer::new(base + 2, BufferKind::ElementArray),
    }
}

fn program(name: &str, id: u32) -> ShaderProgram {
    let (built, _cleanup) = ShaderProgram::program_linked(name, id, 90, 91, LinkOutcome::Linked);
    built.unwrap()
}

fn texture(id: u32) -> GPUTexture {
    let (tex, _cmds) =
        GPUTexture::from_decoded_image(id, TextureUsage::Diffuse, gl_clock::gpu::PixelFormat::Rgba8, 4, 4);
    tex
}

fn whole_clock() -> gl_clock::clock::AnalogClock {
    let face_program = program("clockFace", 40);
    let tick_program = program("clockTick", 41);
    let hand_program = program("clockHand", 42);
    let (face, _cmds) = ClockFace::new(handles(1), face_program, texture(30), handles(10), tick_program);
    let (clock, _cmds) = AnalogClock::new(face, handles(20), hand_program);
    clock
}

#[test]
fn full_turn_gives_same_hand_state() {
    let mut a = ClockHand::new(480_000, -100_000, MicroVec3 { x: 1_000_000, y: 0, z: 0 });
    let mut b = ClockHand::new(480_000, -100_000, MicroVec3 { x: 1_000_000, y: 0, z: 0 });
    a.set_rotation(123_456_789);
    b.set_rotation(123_456_789 + 360_000_000);
    assert_eq!(a, b);

    a.set_rotation(0);
    b.set_rotation(360_000_000);
    assert_eq!(a, b);
}

#[test]
fn hand_at_twelve_and_transform() {
    let mut hand = ClockHand::new(480_000, -100_000, MicroVec3 { x: 1_000_000, y: 0, z: 0 });
    assert_eq!(hand.rotation_micro_deg, 0);
    assert_eq!(hand.transform.rotation_micro_deg, 0);
    assert_eq!(hand.transform.translation, MicroVec3 { x: 0, y: 480_000, z: -100_000 });
    assert_eq!(hand.transform.scale, MicroVec3 { x: 30_000, y: 480_000, z: 1_000_000 });
    assert_eq!(hand.mount_point, MicroVec3 { x: 0, y: 0, z: -100_000 });

    hand.set_rotation(90_000_000);
    assert_eq!(hand.rotation_micro_deg, 90_000_000);
    // Clockwise input, counterclockwise screen angle.
    assert_eq!(hand.transform.rotation_micro_deg, -90_000_000);
    // The translation and scale do not depend on the angle.
    assert_eq!(hand.transform.translation, MicroVec3 { x: 0, y: 480_000, z: -100_000 });
}

#[test]
fn angle_normalization() {
    assert_eq!(normalize_micro_deg(0), 0);
    assert_eq!(normalize_micro_deg(359_999_999), 359_999_999);
    assert_eq!(normalize_micro_deg(360_000_000), 0);
    assert_eq!(normalize_micro_deg(725_000_000), 5_000_000);
}

#[test]
fn tick_scale_tiers() {
    for index in 0u8..60 {
        let t = ClockFace::calculate_tick_transform(index, 30_000);
        let expected_micro: i64 = if index % 15 == 0 {
            3_000_000
        } else if index % 5 == 0 {
            1_500_000
        } else {
            1_000_000
        };
        assert_eq!(t.scale.x, expected_micro, "index {index}");
        assert_eq!(t.scale.y, expected_micro, "index {index}");
        let factor = t.scale.x as f64 / 1e6;
        match index {
            0 | 15 | 30 | 45 => assert_eq!(factor, 3.0),
            5 | 10 | 20 | 25 | 35 | 40 | 50 | 55 => assert_eq!(factor, 1.5),
            _ => assert_eq!(factor, 1.0),
        }
    }
}

#[test]
fn tick_placement() {
    // A quarter-hour tick: scaled three-fold, its outer edge at the rim.
    let t = ClockFace::calculate_tick_transform(15, 30_000);
    assert_eq!(t.rotation_micro_deg, 90_000_000);
    assert_eq!(t.translation, MicroVec3 { x: 0, y: 955_000, z: -50_000 });
    // An hour tick.
    let t = ClockFace::calculate_tick_transform(25, 30_000);
    assert_eq!(t.translation.y, 977_500);
    // A minute tick.
    let t = ClockFace::calculate_tick_transform(7, 30_000);
    assert_eq!(t.translation.y, 985_000);
    assert_eq!(t.rotation_micro_deg, 42_000_000);
}

#[test]
fn time_mapping_three_oclock() {
    assert_eq!(AnalogClock::get_hours_rotation(3, 0, 0), 90_000_000);
    assert_eq!(AnalogClock::get_minutes_rotation(0, 0, 0), 0);
    assert_eq!(AnalogClock::get_seconds_rotation(0, 0), 0);
    assert_eq!(AnalogClock::get_hours_rotation(3, 0, 0) as f64 / 1e6, 90.0);
}

#[test]
fn time_mapping_half_past_midnight() {
    assert_eq!(AnalogClock::get_hours_rotation(0, 30, 0), 15_000_000);
    assert_eq!(AnalogClock::get_minutes_rotation(30, 0, 0), 180_000_000);
    assert_eq!(AnalogClock::get_hours_rotation(0, 30, 0) as f64 / 1e6, 15.0);
    assert_eq!(AnalogClock::get_minutes_rotation(30, 0, 0) as f64 / 1e6, 180.0);
}

#[test]
fn time_mapping_thirty_and_a_half_seconds() {
    let s = AnalogClock::get_seconds_rotation(30, 500);
    assert_eq!(s, 183_000_000);
    assert_eq!(s as f64 / 1e6, 183.0);
}

#[test]
fn update_points_all_three_hands() {
    let mut clock = whole_clock();
    clock.update(3, 0, 0, 0);
    assert_eq!(clock.hour_hand.rotation_micro_deg, 90_000_000);
    assert_eq!(clock.minute_hand.rotation_micro_deg, 0);
    assert_eq!(clock.second_hand.rotation_micro_deg, 0);

    clock.update(0, 30, 0, 0);
    assert_eq!(clock.hour_hand.rotation_micro_deg, 15_000_000);
    assert_eq!(clock.minute_hand.rotation_micro_deg, 180_000_000);

    clock.update(0, 0, 30, 500);
    assert_eq!(clock.second_hand.rotation_micro_deg, 183_000_000);

    // Hours beyond the twelve-hour face fold onto it.
    clock.update(15, 0, 0, 0);
    assert_eq!(clock.hour_hand.rotation_micro_deg, 90_000_000);
}

#[test]
fn update_recomputes_transforms() {
    let mut clock = whole_clock();
    clock.update(0, 0, 15, 0);
    assert_eq!(clock.second_hand.rotation_micro_deg, 90_000_000);
    assert_eq!(clock.second_hand.transform.rotation_micro_deg, -90_000_000);
    assert_eq!(
        clock.second_hand.transform.translation,
        MicroVec3 { x: 0, y: 480_000, z: -100_000 }
    );
}

#[test]
fn new_clock_hand_parameters() {
    let clock = whole_clock();
    assert_eq!(clock.second_hand.length, 480_000);
    assert_eq!(clock.minute_hand.length, 410_000);
    assert_eq!(clock.hour_hand.length, 300_000);
    assert_eq!(clock.second_hand.mount_point.z, -100_000);
    assert_eq!(clock.minute_hand.mount_point.z, -200_000);
    assert_eq!(clock.hour_hand.mount_point.z, -300_000);
    assert_eq!(clock.second_hand.color, MicroVec3 { x: 1_000_000, y: 0, z: 0 });
    assert_eq!(clock.minute_hand.color, MicroVec3 { x: 0, y: 1_000_000, z: 0 });
    assert_eq!(clock.hour_hand.color, MicroVec3 { x: 0, y: 0, z: 1_000_000 });
    assert_eq!(clock.face.tick_transforms.len(), 60);
}
