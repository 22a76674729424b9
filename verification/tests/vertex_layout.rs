use gl_sandbox::vertex::consts::{
    COLOR_START, NORMAL_START, POSITION_START, SIZE, SIZE_F32, TEXCOORD_START,
};
use gl_sandbox::vertex::Vertex;

fn bits3(v: [f32; 3]) -> [u32; 3] {
    [v[0].to_bits(), v[1].to_bits(), v[2].to_bits()]
}

fn bits4(v: [f32; 4]) -> [u32; 4] {
    [v[0].to_bits(), v[1].to_bits(), v[2].to_bits(), v[3].to_bits()]
}

fn bits2(v: [f32; 2]) -> [u32; 2] {
    [v[0].to_bits(), v[1].to_bits()]
}

fn sample() -> Vertex {
    Vertex {
        position: bits3([-0.5, 0.5, 0.25]),
        color: bits4([1.0, 0.0, 0.5, 1.0]),
        tex_coord: bits2([0.125, 1.0]),
        normal: bits3([0.0, -1.0, 3.5]),
    }
}

fn floats_of(v: &Vertex) -> Vec<f32> {
    v.to_words().iter().map(|w| f32::from_bits(*w)).collect()
}

#[test]
fn layout_constants() {
    assert_eq!(SIZE_F32, 12);
    assert_eq!(SIZE, 48);
    assert_eq!(SIZE, SIZE_F32 * 4);
    assert_eq!(POSITION_START, 0);
    assert_eq!(COLOR_START, 12);
    assert_eq!(TEXCOORD_START, 28);
    assert_eq!(NORMAL_START, 36);
}

#[test]
fn default_vertex_is_white_at_origin() {
    let v = Vertex::default();
    assert_eq!(
        floats_of(&v),
        vec![0.0, 0.0, 0.0, 1.0, 1.0, 1.0, 1.0, 0.0, 0.0, 0.0, 0.0, 0.0]
    );
}

#[test]
fn encoding_is_little_endian_floats_in_field_order() {
    let v = sample();
    let mut expected: Vec<u8> = Vec::new();
    for f in [-0.5f32, 0.5, 0.25, 1.0, 0.0, 0.5, 1.0, 0.125, 1.0, 0.0, -1.0, 3.5] {
        expected.extend_from_slice(&f.to_le_bytes());
    }
    assert_eq!(v.to_bytes().to_vec(), expected);
}

#[test]
fn one_encodes_as_00_00_80_3f() {
    let mut v = Vertex::default();
    v.position = [1.0f32.to_bits(), 0, 0];
    let bytes = v.to_bytes();
    assert_eq!(&bytes[0..4], &[0x00, 0x00, 0x80, 0x3f]);
    assert_eq!(&bytes[4..12], &[0u8; 8]);
}

#[test]
fn round_trip_gives_the_twelve_floats_back() {
    let v = sample();
    let back = Vertex::from_bytes(&v.to_bytes());
    assert_eq!(back.position, v.position);
    assert_eq!(back.color, v.color);
    assert_eq!(back.tex_coord, v.tex_coord);
    assert_eq!(back.normal, v.normal);
    assert_eq!(floats_of(&back), floats_of(&v));
}

#[test]
fn round_trip_keeps_unusual_bit_patterns() {
    let v = Vertex {
        position: [0xffff_ffff, 0x7fc0_0001, 0x8000_0000],
        color: [0x0000_0001, 0x7f80_0000, 0xff80_0000, 0x0102_0304],
        tex_coord: [0xdead_beef, 0x0000_ff00],
        normal: [0x00ff_0000, 0xff00_0000, 0x1234_5678],
    };
    let back = Vertex::from_bytes(&v.to_bytes());
    assert_eq!(back.to_words(), v.to_words());
    assert_eq!(&v.to_bytes()[24..28], &[0x04, 0x03, 0x02, 0x01]);
}

#[test]
fn bytes_round_trip_through_a_vertex() {
    let mut bytes = [0u8; 48];
    for (i, b) in bytes.iter_mut().enumerate() {
        *b = (i * 5 + 3) as u8;
    }
    assert_eq!(Vertex::from_bytes(&bytes).to_bytes(), bytes);
}

#[test]
fn words_round_trip() {
    let v = sample();
    let w = v.to_words();
    assert_eq!(w[3], 1.0f32.to_bits());
    assert_eq!(Vertex::from_words(&w).to_words(), w);
}

#[test]
fn attributes_sit_at_their_offsets() {
    let v = sample();
    let bytes = v.to_bytes();
    assert_eq!(&bytes[POSITION_START..POSITION_START + 4], &(-0.5f32).to_le_bytes());
    assert_eq!(&bytes[COLOR_START..COLOR_START + 4], &1.0f32.to_le_bytes());
    assert_eq!(&bytes[COLOR_START + 8..COLOR_START + 12], &0.5f32.to_le_bytes());
    assert_eq!(&bytes[TEXCOORD_START..TEXCOORD_START + 4], &0.125f32.to_le_bytes());
    assert_eq!(&bytes[NORMAL_START + 8..NORMAL_START + 12], &3.5f32.to_le_bytes());
}

#[test]
fn into_bytes_of_nothing_is_empty() {
    assert_eq!(Vertex::into_bytes(&[]), Vec::<u8>::new());
}

#[test]
fn into_bytes_lays_records_back_to_back() {
    let a = sample();
    let b = Vertex::default();
    let all = Vertex::into_bytes(&[a, b, a]);
    assert_eq!(all.len(), 3 * SIZE);
    assert_eq!(&all[0..SIZE], &a.to_bytes());
    assert_eq!(&all[SIZE..2 * SIZE], &b.to_bytes());
    assert_eq!(&all[2 * SIZE..3 * SIZE], &a.to_bytes());
}
