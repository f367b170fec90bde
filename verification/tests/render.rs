use particle_system::dispatch::INDIRECT_ARGS_SIZE;
use particle_system::render::{IndirectArgs, ParticleRenderShape};

#[test]
fn points_take_one_vertex_and_quads_six() {
    assert_eq!(ParticleRenderShape::Points.vertex_count(), 1);
    assert_eq!(ParticleRenderShape::Quads.vertex_count(), 6);
}

#[test]
fn toggling_the_shape_twice_gives_it_back() {
    assert_eq!(ParticleRenderShape::Points.toggled(), ParticleRenderShape::Quads);
    assert_eq!(ParticleRenderShape::Quads.toggled(), ParticleRenderShape::Points);
    assert_eq!(ParticleRenderShape::Points.toggled().toggled(), ParticleRenderShape::Points);
}

#[test]
fn draw_arguments_start_at_the_first_vertex_and_instance() {
    assert_eq!(
        IndirectArgs::draw(ParticleRenderShape::Points, 1000),
        IndirectArgs { vertex_count: 1, instance_count: 1000, first_vertex: 0, first_instance: 0 }
    );
    assert_eq!(
        IndirectArgs::draw(ParticleRenderShape::Quads, 0),
        IndirectArgs { vertex_count: 6, instance_count: 0, first_vertex: 0, first_instance: 0 }
    );
}

#[test]
fn draw_arguments_lie_in_the_order_of_their_fields() {
    let args = IndirectArgs {
        vertex_count: 6,
        instance_count: 0x0102_0304,
        first_vertex: 7,
        first_instance: u32::MAX,
    };
    assert_eq!(args.words(), [6, 0x0102_0304, 7, u32::MAX]);
}

#[test]
fn draw_arguments_are_sixteen_bytes_in_the_byte_order_of_the_machine() {
    let args = IndirectArgs {
        vertex_count: 6,
        instance_count: 0x0102_0304,
        first_vertex: 7,
        first_instance: u32::MAX,
    };
    let bytes = args.bytes();
    assert_eq!(bytes.len() as u64, INDIRECT_ARGS_SIZE);
    let mut expected: Vec<u8> = Vec::new();
    for word in args.words() {
        expected.extend_from_slice(&word.to_ne_bytes());
    }
    assert_eq!(bytes, expected);
    let reset = IndirectArgs::draw(ParticleRenderShape::Points, 0).bytes();
    assert_eq!(&reset[0..4], &1u32.to_ne_bytes()[..]);
    assert_eq!(&reset[4..16], &[0u8; 12][..]);
}

#[test]
fn draw_arguments_are_the_four_words_low_byte_first_or_high_byte_first() {
    let args = IndirectArgs {
        vertex_count: 1,
        instance_count: 0x0A0B_0C0D,
        first_vertex: 0x0000_0100,
        first_instance: 0xFFFF_FFFE,
    };
    let low_first: Vec<u8> = vec![
        0x01, 0x00, 0x00, 0x00, 0x0D, 0x0C, 0x0B, 0x0A, 0x00, 0x01, 0x00, 0x00, 0xFE, 0xFF, 0xFF,
        0xFF,
    ];
    let high_first: Vec<u8> = vec![
        0x00, 0x00, 0x00, 0x01, 0x0A, 0x0B, 0x0C, 0x0D, 0x00, 0x00, 0x01, 0x00, 0xFF, 0xFF, 0xFF,
        0xFE,
    ];
    let bytes = args.bytes();
    assert!(bytes == low_first || bytes == high_first);
    assert_eq!(bytes == low_first, 1u32.to_ne_bytes() == 1u32.to_le_bytes());
}
