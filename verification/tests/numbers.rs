//! Types, byte layout, and the conversions between integers and floats.
use cranelift_step::bytes::{read_lane, write_lane};
use cranelift_step::float::{float_to_int, int_to_f32_bits, int_to_f64_bits};
use cranelift_step::types::{LaneType, Lanes, Type};

const SAMPLES: [i128; 24] = [
    0,
    1,
    -1,
    2,
    3,
    127,
    -128,
    255,
    16_777_215,
    16_777_216,
    16_777_217,
    16_777_219,
    -16_777_217,
    9_007_199_254_740_991,
    9_007_199_254_740_992,
    9_007_199_254_740_993,
    9_007_199_254_740_995,
    -9_007_199_254_740_993,
    0x7fff_ffff_ffff_ffff,
    -0x8000_0000_0000_0000,
    0xffff_ffff_ffff_ffff,
    i128::MAX,
    i128::MIN,
    0x0123_4567_89ab_cdef_0123_4567_89ab_cdef,
];

#[test]
fn integers_to_floats_of_single_precision() {
    for n in SAMPLES {
        assert_eq!(int_to_f32_bits(n), (n as f32).to_bits(), "{}", n);
    }
    assert_eq!(int_to_f32_bits(1), 0x3f80_0000);
    assert_eq!(int_to_f32_bits(-2), 0xc000_0000);
}

#[test]
fn integers_to_floats_of_double_precision() {
    for n in SAMPLES {
        assert_eq!(int_to_f64_bits(n), (n as f64).to_bits(), "{}", n);
    }
    assert_eq!(int_to_f64_bits(1), 0x3ff0_0000_0000_0000);
}

#[test]
fn floats_to_integers() {
    let floats = [
        0.0,
        -0.0,
        0.5,
        -0.5,
        1.0,
        1.99,
        -1.99,
        255.75,
        4_503_599_627_370_495.5,
        1e18,
        -1e18,
        1e30,
        1e38,
        1e39,
        -1e39,
        f64::MAX,
        f64::MIN,
        f64::MIN_POSITIVE,
        5e-324,
        f64::INFINITY,
        f64::NEG_INFINITY,
        f64::NAN,
    ];
    for x in floats {
        assert_eq!(float_to_int(x.to_bits()), x as i128, "{}", x);
    }
    assert_eq!(float_to_int(0xc059_0000_0000_0000), -100);
}

#[test]
fn small_integers_survive_the_way_to_floats_and_back() {
    for n in [0, 1, -1, 42, -42, 9_007_199_254_740_992, -9_007_199_254_740_992] {
        assert_eq!(float_to_int(int_to_f64_bits(n)), n);
    }
    // One more bit is too much.
    assert_eq!(float_to_int(int_to_f64_bits(9_007_199_254_740_993)), 9_007_199_254_740_992);
}

#[test]
fn lanes_in_bytes() {
    let mut bytes = [0u8; 16];
    write_lane(&mut bytes, 4, 4, -2);
    assert_eq!(bytes[3..9], [0, 0xfe, 0xff, 0xff, 0xff, 0]);
    assert_eq!(read_lane(&bytes, 4, 4), 0xffff_fffe);
    assert_eq!(read_lane(&bytes, 5, 2), 0xffff);
    assert_eq!(read_lane(&bytes, 8, 8), 0);
}

#[test]
fn bounds_of_integer_types() {
    let i8_ty = Type::Lane(LaneType::I8);
    assert_eq!(i8_ty.bounds(false), (0, 255));
    assert_eq!(i8_ty.bounds(true), ((-128i128) as u128, 127));
    assert_eq!(Type::Vector(LaneType::I16, Lanes::X8).signed_bounds(), (-32768, 32767));
    assert_eq!(Type::Lane(LaneType::I32).signed_bounds(), (-0x8000_0000, 0x7fff_ffff));
    assert_eq!(Type::Lane(LaneType::I64).bounds(false), (0, u64::MAX as u128));
    assert_eq!(Type::Lane(LaneType::I128).bounds(false), (0, u128::MAX));
    assert_eq!(Type::Lane(LaneType::I128).signed_bounds(), (i128::MIN, i128::MAX));
}

#[test]
fn sizes_of_types() {
    let i32x4 = Type::Vector(LaneType::I32, Lanes::X4);
    assert_eq!(i32x4.bytes(), 16);
    assert_eq!(i32x4.lane_count(), 4);
    assert_eq!(i32x4.lane_bits(), 32);
    assert_eq!(i32x4.lane_type(), Type::Lane(LaneType::I32));
    assert!(i32x4.is_vector());
    assert!(!i32x4.is_int());
    assert_eq!(Type::Lane(LaneType::F64).bytes(), 8);
    assert!(Type::Lane(LaneType::F64).is_float());
    assert_eq!(Type::Special.bytes(), 0);
    assert_eq!(Type::Dynamic(LaneType::I8, Lanes::X16).lane_count(), 0);
}

#[test]
fn lanes_split_and_merge() {
    let i32x4 = Type::Vector(LaneType::I32, Lanes::X4);
    let i16x8 = Type::Vector(LaneType::I16, Lanes::X8);
    assert_eq!(i32x4.split_lanes(), Some(i16x8));
    assert_eq!(i16x8.merge_lanes(), Some(i32x4));
    assert_eq!(i16x8.bytes(), i32x4.bytes());
    assert_eq!(
        Type::Lane(LaneType::I64).split_lanes(),
        Some(Type::Vector(LaneType::I32, Lanes::X2))
    );
    assert_eq!(
        Type::Vector(LaneType::I32, Lanes::X2).merge_lanes(),
        Some(Type::Lane(LaneType::I64))
    );
    assert_eq!(Type::Lane(LaneType::I8).split_lanes(), None);
    assert_eq!(Type::Lane(LaneType::I16).merge_lanes(), None);
    assert_eq!(Type::Vector(LaneType::I16, Lanes::X256).split_lanes(), None);
}

#[test]
fn types_of_the_same_shape() {
    let f32x4 = Type::Vector(LaneType::F32, Lanes::X4);
    let i32x4 = Type::Vector(LaneType::I32, Lanes::X4);
    assert_eq!(f32x4.as_int(), i32x4);
    assert_eq!(f32x4.as_truthy(), i32x4);
    assert_eq!(Type::Lane(LaneType::F64).as_truthy(), Type::Lane(LaneType::I8));
    assert_eq!(Type::Lane(LaneType::F64).as_truthy_pedantic(), Type::Lane(LaneType::I64));
    assert_eq!(i32x4.double_width(), Some(Type::Vector(LaneType::I64, Lanes::X4)));
    assert_eq!(Type::Lane(LaneType::I128).double_width(), None);
}
