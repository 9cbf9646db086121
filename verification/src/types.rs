//! Value types: scalars, SIMD vectors of them, and how lanes widen, narrow and split.
use vstd::arithmetic::power2::*;
use vstd::prelude::*;

verus! {

/// A scalar type that can also be the lane of a SIMD vector.
#[derive(Clone, Copy, PartialEq, Eq, Structural, Debug, Hash)]
pub enum LaneType {
    I8,
    I16,
    I32,
    I64,
    I128,
    F32,
    F64,
    R32,
    R64,
}

/// The number of lanes of a SIMD vector, a power of two.
#[derive(Clone, Copy, PartialEq, Eq, Structural, Debug, Hash)]
pub enum Lanes {
    X2,
    X4,
    X8,
    X16,
    X32,
    X64,
    X128,
    X256,
}

/// The type of an SSA value.
#[derive(Clone, Copy, PartialEq, Eq, Structural, Debug, Hash)]
pub enum Type {
    /// A type without values, such as the placeholder of instructions that need no controlling
    /// type.
    Special,
    /// A scalar.
    Lane(LaneType),
    /// A SIMD vector.
    Vector(LaneType, Lanes),
    /// A SIMD vector with a runtime multiple of the given number of lanes.
    Dynamic(LaneType, Lanes),
}

impl LaneType {
    /// The number of bits.
    pub open spec fn spec_bits(self) -> u32 {
        match self {
            LaneType::I8 => 8,
            LaneType::I16 => 16,
            LaneType::I32 | LaneType::F32 | LaneType::R32 => 32,
            LaneType::I64 | LaneType::F64 | LaneType::R64 => 64,
            LaneType::I128 => 128,
        }
    }

    /// The number of bits.
    #[verifier::when_used_as_spec(spec_bits)]
    pub fn bits(self) -> (bits: u32)
        ensures
            bits == self.spec_bits(),
    {
        match self {
            LaneType::I8 => 8,
            LaneType::I16 => 16,
            LaneType::I32 | LaneType::F32 | LaneType::R32 => 32,
            LaneType::I64 | LaneType::F64 | LaneType::R64 => 64,
            LaneType::I128 => 128,
        }
    }

    /// Whether this is an integer type.
    pub open spec fn spec_is_int(self) -> bool {
        self is I8 || self is I16 || self is I32 || self is I64 || self is I128
    }

    /// The integer type of the same size, for integers and floats.
    pub open spec fn same_size_int(self) -> Option<LaneType> {
        match self {
            LaneType::F32 => Some(LaneType::I32),
            LaneType::F64 => Some(LaneType::I64),
            LaneType::R32 | LaneType::R64 => None,
            _ => Some(self),
        }
    }

    /// The type of the same kind with twice the bits.
    pub open spec fn twice_as_wide(self) -> Option<LaneType> {
        match self {
            LaneType::I8 => Some(LaneType::I16),
            LaneType::I16 => Some(LaneType::I32),
            LaneType::I32 => Some(LaneType::I64),
            LaneType::I64 => Some(LaneType::I128),
            LaneType::F32 => Some(LaneType::F64),
            _ => None,
        }
    }

    /// The type of the same kind with half the bits.
    pub open spec fn half_as_wide(self) -> Option<LaneType> {
        match self {
            LaneType::I16 => Some(LaneType::I8),
            LaneType::I32 => Some(LaneType::I16),
            LaneType::I64 => Some(LaneType::I32),
            LaneType::I128 => Some(LaneType::I64),
            LaneType::F64 => Some(LaneType::F32),
            _ => None,
        }
    }

    /// The least value of an integer type.
    pub open spec fn min_value(self, signed: bool) -> int {
        if !signed {
            0
        } else {
            match self {
                LaneType::I8 => -0x80,
                LaneType::I16 => -0x8000,
                LaneType::I32 => -0x8000_0000,
                LaneType::I64 => -0x8000_0000_0000_0000,
                _ => -0x8000_0000_0000_0000_0000_0000_0000_0000,
            }
        }
    }

    /// The greatest value of an integer type.
    pub open spec fn max_value(self, signed: bool) -> int {
        if signed {
            match self {
                LaneType::I8 => 0x7f,
                LaneType::I16 => 0x7fff,
                LaneType::I32 => 0x7fff_ffff,
                LaneType::I64 => 0x7fff_ffff_ffff_ffff,
                _ => 0x7fff_ffff_ffff_ffff_ffff_ffff_ffff_ffff,
            }
        } else {
            match self {
                LaneType::I8 => 0xff,
                LaneType::I16 => 0xffff,
                LaneType::I32 => 0xffff_ffff,
                LaneType::I64 => 0xffff_ffff_ffff_ffff,
                _ => 0xffff_ffff_ffff_ffff_ffff_ffff_ffff_ffff,
            }
        }
    }
}

impl Lanes {
    /// The number of lanes.
    pub open spec fn spec_count(self) -> u32 {
        match self {
            Lanes::X2 => 2,
            Lanes::X4 => 4,
            Lanes::X8 => 8,
            Lanes::X16 => 16,
            Lanes::X32 => 32,
            Lanes::X64 => 64,
            Lanes::X128 => 128,
            Lanes::X256 => 256,
        }
    }

    /// The number of lanes.
    #[verifier::when_used_as_spec(spec_count)]
    pub fn count(self) -> (count: u32)
        ensures
            count == self.spec_count(),
    {
        match self {
            Lanes::X2 => 2,
            Lanes::X4 => 4,
            Lanes::X8 => 8,
            Lanes::X16 => 16,
            Lanes::X32 => 32,
            Lanes::X64 => 64,
            Lanes::X128 => 128,
            Lanes::X256 => 256,
        }
    }

    /// Twice as many lanes, up to the most that a vector can have.
    pub open spec fn spec_doubled(self) -> Option<Lanes> {
        match self {
            Lanes::X2 => Some(Lanes::X4),
            Lanes::X4 => Some(Lanes::X8),
            Lanes::X8 => Some(Lanes::X16),
            Lanes::X16 => Some(Lanes::X32),
            Lanes::X32 => Some(Lanes::X64),
            Lanes::X64 => Some(Lanes::X128),
            Lanes::X128 => Some(Lanes::X256),
            Lanes::X256 => None,
        }
    }

    /// Twice as many lanes, up to the most that a vector can have.
    #[verifier::when_used_as_spec(spec_doubled)]
    pub fn doubled(self) -> (lanes: Option<Lanes>)
        ensures
            lanes == self.spec_doubled(),
    {
        match self {
            Lanes::X2 => Some(Lanes::X4),
            Lanes::X4 => Some(Lanes::X8),
            Lanes::X8 => Some(Lanes::X16),
            Lanes::X16 => Some(Lanes::X32),
            Lanes::X32 => Some(Lanes::X64),
            Lanes::X64 => Some(Lanes::X128),
            Lanes::X128 => Some(Lanes::X256),
            Lanes::X256 => None,
        }
    }

    /// Half as many lanes, as long as that is still a vector.
    pub open spec fn spec_halved(self) -> Option<Lanes> {
        match self {
            Lanes::X2 => None,
            Lanes::X4 => Some(Lanes::X2),
            Lanes::X8 => Some(Lanes::X4),
            Lanes::X16 => Some(Lanes::X8),
            Lanes::X32 => Some(Lanes::X16),
            Lanes::X64 => Some(Lanes::X32),
            Lanes::X128 => Some(Lanes::X64),
            Lanes::X256 => Some(Lanes::X128),
        }
    }

    /// Half as many lanes, as long as that is still a vector.
    #[verifier::when_used_as_spec(spec_halved)]
    pub fn halved(self) -> (lanes: Option<Lanes>)
        ensures
            lanes == self.spec_halved(),
    {
        match self {
            Lanes::X2 => None,
            Lanes::X4 => Some(Lanes::X2),
            Lanes::X8 => Some(Lanes::X4),
            Lanes::X16 => Some(Lanes::X8),
            Lanes::X32 => Some(Lanes::X16),
            Lanes::X64 => Some(Lanes::X32),
            Lanes::X128 => Some(Lanes::X64),
            Lanes::X256 => Some(Lanes::X128),
        }
    }
}

/// The least and the greatest value of an integer type of `bits` bits, as bit patterns of 128
/// bits: what `cranelift_codegen::ir::Type::bounds` gives for the type that
/// `cranelift_codegen::ir::Type::int` finds. A negative least value stands as its two's
/// complement.
#[verifier::external_body]
fn int_bounds(bits: u16, signed: bool) -> (bounds: (u128, u128))
    requires
        bits == 8 || bits == 16 || bits == 32 || bits == 64 || bits == 128,
    ensures
        signed ==> bounds.0 == 0x1_0000_0000_0000_0000_0000_0000_0000_0000 - pow2((bits - 1) as nat),
        signed ==> bounds.1 == pow2((bits - 1) as nat) - 1,
        !signed ==> bounds.0 == 0,
        !signed ==> bounds.1 == pow2(bits as nat) - 1,
{
    cranelift_codegen::ir::Type::int(bits).unwrap().bounds(signed)
}

/// The bit pattern of a negative number, read as a signed integer.
proof fn lemma_signed_pattern(pattern: u128)
    ensures
        pattern >= 0x8000_0000_0000_0000_0000_0000_0000_0000 ==> (pattern as i128) as int
            == pattern - 0x1_0000_0000_0000_0000_0000_0000_0000_0000,
        pattern < 0x8000_0000_0000_0000_0000_0000_0000_0000 ==> (pattern as i128) as int == pattern,
{
    assert(pattern >= 0x8000_0000_0000_0000_0000_0000_0000_0000u128 ==> (pattern as i128) == pattern
        - 0x1_0000_0000_0000_0000_0000_0000_0000_0000) by (bit_vector);
}

/// The powers of two that bound the integer types.
proof fn lemma_type_powers()
    ensures
        pow2(7) == 0x80,
        pow2(8) == 0x100,
        pow2(15) == 0x8000,
        pow2(16) == 0x1_0000,
        pow2(31) == 0x8000_0000,
        pow2(32) == 0x1_0000_0000,
        pow2(63) == 0x8000_0000_0000_0000,
        pow2(64) == 0x1_0000_0000_0000_0000,
        pow2(127) == 0x8000_0000_0000_0000_0000_0000_0000_0000,
        pow2(128) == 0x1_0000_0000_0000_0000_0000_0000_0000_0000,
{
    lemma2_to64();
    lemma2_to64_rest();
    lemma_pow2_adds(64, 64);
    lemma_pow2_unfold(128);
}

impl Type {
    /// The lane type of a vector; any other type is its own lane type.
    pub open spec fn spec_lane_type(self) -> Type {
        match self {
            Type::Vector(lane, _) | Type::Dynamic(lane, _) => Type::Lane(lane),
            _ => self,
        }
    }

    /// The lane type of a vector; any other type is its own lane type.
    #[verifier::when_used_as_spec(spec_lane_type)]
    pub fn lane_type(self) -> (ty: Type)
        ensures
            ty == self.spec_lane_type(),
    {
        match self {
            Type::Vector(lane, _) | Type::Dynamic(lane, _) => Type::Lane(lane),
            _ => self,
        }
    }

    /// The number of lanes; a scalar has one.
    pub open spec fn spec_lane_count(self) -> u32 {
        match self {
            Type::Vector(_, lanes) => lanes.count(),
            Type::Dynamic(_, _) => 0,
            _ => 1,
        }
    }

    /// The number of lanes; a scalar has one, a vector whose size is open none.
    #[verifier::when_used_as_spec(spec_lane_count)]
    pub fn lane_count(self) -> (count: u32)
        ensures
            count == self.spec_lane_count(),
    {
        match self {
            Type::Vector(_, lanes) => lanes.count(),
            Type::Dynamic(_, _) => 0,
            _ => 1,
        }
    }

    /// The number of bits of a lane.
    pub open spec fn spec_lane_bits(self) -> u32 {
        match self {
            Type::Lane(lane) | Type::Vector(lane, _) | Type::Dynamic(lane, _) => lane.bits(),
            Type::Special => 0,
        }
    }

    /// The number of bits of a lane.
    #[verifier::when_used_as_spec(spec_lane_bits)]
    pub fn lane_bits(self) -> (bits: u32)
        ensures
            bits == self.spec_lane_bits(),
    {
        match self {
            Type::Lane(lane) | Type::Vector(lane, _) | Type::Dynamic(lane, _) => lane.bits(),
            Type::Special => 0,
        }
    }

    /// The number of bytes that a value of this type takes in memory.
    pub open spec fn spec_bytes(self) -> u32 {
        (self.spec_lane_bits() * self.spec_lane_count() / 8) as u32
    }

    /// The number of bytes that a value of this type takes in memory.
    #[verifier::when_used_as_spec(spec_bytes)]
    pub fn bytes(self) -> (bytes: u32)
        ensures
            bytes == self.spec_bytes(),
    {
        let bits: u32 = self.lane_bits();
        let count: u32 = self.lane_count();
        assert(0 <= bits * count <= 128 * 256) by (nonlinear_arith)
            requires
                0 <= bits <= 128,
                0 <= count <= 256,
        ;
        bits * count / 8
    }

    /// Whether this is a SIMD vector with a fixed number of lanes.
    pub open spec fn spec_is_vector(self) -> bool {
        self is Vector
    }

    /// Whether this is a SIMD vector with a fixed number of lanes.
    #[verifier::when_used_as_spec(spec_is_vector)]
    pub fn is_vector(self) -> (b: bool)
        ensures
            b == self.spec_is_vector(),
    {
        matches!(self, Type::Vector(_, _))
    }

    /// Whether this is a scalar integer.
    pub open spec fn spec_is_int(self) -> bool {
        self matches Type::Lane(lane) && lane.spec_is_int()
    }

    /// Whether this is a scalar integer.
    #[verifier::when_used_as_spec(spec_is_int)]
    pub fn is_int(self) -> (b: bool)
        ensures
            b == self.spec_is_int(),
    {
        match self {
            Type::Lane(LaneType::I8) | Type::Lane(LaneType::I16) | Type::Lane(LaneType::I32)
            | Type::Lane(LaneType::I64) | Type::Lane(LaneType::I128) => true,
            _ => false,
        }
    }

    /// Whether this is a scalar float.
    pub open spec fn spec_is_float(self) -> bool {
        self == Type::Lane(LaneType::F32) || self == Type::Lane(LaneType::F64)
    }

    /// Whether this is a scalar float.
    #[verifier::when_used_as_spec(spec_is_float)]
    pub fn is_float(self) -> (b: bool)
        ensures
            b == self.spec_is_float(),
    {
        match self {
            Type::Lane(LaneType::F32) | Type::Lane(LaneType::F64) => true,
            _ => false,
        }
    }

    /// The type with as many lanes as this one, but with lanes of type `lane`. A dynamic vector
    /// does not survive this.
    pub open spec fn with_lanes(self, lane: LaneType) -> Type {
        match self {
            Type::Lane(_) => Type::Lane(lane),
            Type::Vector(_, lanes) => Type::Vector(lane, lanes),
            _ => Type::Special,
        }
    }

    fn replace_lanes(self, lane: LaneType) -> (ty: Type)
        ensures
            ty == self.with_lanes(lane),
    {
        match self {
            Type::Lane(_) => Type::Lane(lane),
            Type::Vector(_, lanes) => Type::Vector(lane, lanes),
            _ => Type::Special,
        }
    }

    /// The type with as many lanes, each an integer of the same size; references and types
    /// without values have none.
    pub open spec fn int_lanes(self) -> Option<Type> {
        match self {
            Type::Lane(lane) | Type::Vector(lane, _) | Type::Dynamic(
                lane,
                _,
            ) => match lane.same_size_int() {
                Some(int_lane) => Some(self.with_lanes(int_lane)),
                None => None,
            },
            Type::Special => None,
        }
    }

    /// The type with as many lanes, each an integer of the same size.
    pub fn as_int(self) -> (ty: Type)
        requires
            self.int_lanes() is Some,
        ensures
            Some(ty) == self.int_lanes(),
    {
        match self {
            Type::Lane(lane) | Type::Vector(lane, _) | Type::Dynamic(lane, _) => match lane {
                LaneType::F32 => self.replace_lanes(LaneType::I32),
                LaneType::F64 => self.replace_lanes(LaneType::I64),
                LaneType::R32 | LaneType::R64 => vstd::pervasive::unreached(),
                _ => self.replace_lanes(lane),
            },
            Type::Special => vstd::pervasive::unreached(),
        }
    }

    /// The type of the truth values of this type: as many lanes, each an integer of the same size.
    pub fn as_truthy_pedantic(self) -> (ty: Type)
        requires
            self.int_lanes() is Some,
        ensures
            Some(ty) == self.int_lanes(),
    {
        self.as_int()
    }

    /// The type of the result of a comparison: truth values lane by lane for a vector, `i8`
    /// otherwise.
    pub open spec fn truthy(self) -> Option<Type> {
        if self is Vector {
            self.int_lanes()
        } else {
            Some(Type::Lane(LaneType::I8))
        }
    }

    /// The type of the result of a comparison.
    pub fn as_truthy(self) -> (ty: Type)
        requires
            self.truthy() is Some,
        ensures
            Some(ty) == self.truthy(),
    {
        if self.is_vector() {
            self.as_truthy_pedantic()
        } else {
            Type::Lane(LaneType::I8)
        }
    }

    /// The type with as many lanes of twice the width.
    pub open spec fn spec_double_width(self) -> Option<Type> {
        match self {
            Type::Lane(lane) | Type::Vector(lane, _) | Type::Dynamic(
                lane,
                _,
            ) => match lane.twice_as_wide() {
                Some(wide) => Some(self.with_lanes(wide)),
                None => None,
            },
            Type::Special => None,
        }
    }

    /// The type with as many lanes of twice the width.
    #[verifier::when_used_as_spec(spec_double_width)]
    pub fn double_width(self) -> (ty: Option<Type>)
        ensures
            ty == self.spec_double_width(),
    {
        match self {
            Type::Lane(lane) | Type::Vector(lane, _) | Type::Dynamic(lane, _) => match lane {
                LaneType::I8 => Some(self.replace_lanes(LaneType::I16)),
                LaneType::I16 => Some(self.replace_lanes(LaneType::I32)),
                LaneType::I32 => Some(self.replace_lanes(LaneType::I64)),
                LaneType::I64 => Some(self.replace_lanes(LaneType::I128)),
                LaneType::F32 => Some(self.replace_lanes(LaneType::F64)),
                _ => None,
            },
            Type::Special => None,
        }
    }

    /// Twice as many lanes of half the width.
    pub open spec fn spec_split_lanes(self) -> Option<Type> {
        match self {
            Type::Lane(lane) => match lane.half_as_wide() {
                Some(half) => Some(Type::Vector(half, Lanes::X2)),
                None => None,
            },
            Type::Vector(lane, lanes) => match (lane.half_as_wide(), lanes.doubled()) {
                (Some(half), Some(more)) => Some(Type::Vector(half, more)),
                _ => None,
            },
            _ => None,
        }
    }

    /// Twice as many lanes of half the width; a scalar becomes a vector of two lanes.
    #[verifier::when_used_as_spec(spec_split_lanes)]
    pub fn split_lanes(self) -> (ty: Option<Type>)
        ensures
            ty == self.spec_split_lanes(),
    {
        let (lane, lanes): (LaneType, Lanes) = match self {
            Type::Lane(lane) => (lane, Lanes::X2),
            Type::Vector(lane, lanes) => match lanes.doubled() {
                Some(more) => (lane, more),
                None => {
                    return None;
                },
            },
            _ => {
                return None;
            },
        };
        match lane {
            LaneType::I16 => Some(Type::Vector(LaneType::I8, lanes)),
            LaneType::I32 => Some(Type::Vector(LaneType::I16, lanes)),
            LaneType::I64 => Some(Type::Vector(LaneType::I32, lanes)),
            LaneType::I128 => Some(Type::Vector(LaneType::I64, lanes)),
            LaneType::F64 => Some(Type::Vector(LaneType::F32, lanes)),
            _ => None,
        }
    }

    /// Half as many lanes of twice the width.
    pub open spec fn spec_merge_lanes(self) -> Option<Type> {
        match self {
            Type::Vector(lane, lanes) => match (lane.twice_as_wide(), lanes.halved()) {
                (Some(wide), Some(fewer)) => Some(Type::Vector(wide, fewer)),
                (Some(wide), None) => Some(Type::Lane(wide)),
                _ => None,
            },
            _ => None,
        }
    }

    /// Half as many lanes of twice the width; a vector of two lanes becomes a scalar.
    #[verifier::when_used_as_spec(spec_merge_lanes)]
    pub fn merge_lanes(self) -> (ty: Option<Type>)
        ensures
            ty == self.spec_merge_lanes(),
    {
        let (lane, lanes): (LaneType, Lanes) = match self {
            Type::Vector(lane, lanes) => (lane, lanes),
            _ => {
                return None;
            },
        };
        let wide: LaneType = match lane {
            LaneType::I8 => LaneType::I16,
            LaneType::I16 => LaneType::I32,
            LaneType::I32 => LaneType::I64,
            LaneType::I64 => LaneType::I128,
            LaneType::F32 => LaneType::F64,
            _ => {
                return None;
            },
        };
        match lanes.halved() {
            Some(fewer) => Some(Type::Vector(wide, fewer)),
            None => Some(Type::Lane(wide)),
        }
    }

    /// The lane type of a type whose lanes are integers.
    pub open spec fn int_lane(self) -> Option<LaneType> {
        match self {
            Type::Lane(lane) | Type::Vector(lane, _) | Type::Dynamic(lane, _) => if lane.spec_is_int() {
                Some(lane)
            } else {
                None
            },
            Type::Special => None,
        }
    }

    /// The least and the greatest value of the lanes of an integer type, as bit patterns of 128
    /// bits: a negative least value stands as its two's complement.
    pub fn bounds(self, signed: bool) -> (bounds: (u128, u128))
        requires
            self.int_lane() is Some,
        ensures
            (bounds.0 as i128) as int == self.int_lane()->0.min_value(signed),
            bounds.1 as int == self.int_lane()->0.max_value(signed),
    {
        if !self.lane_type().is_int() {
            return vstd::pervasive::unreached();
        }
        let bounds = int_bounds(self.lane_bits() as u16, signed);
        proof {
            lemma_type_powers();
            lemma_signed_pattern(bounds.0);
        }
        bounds
    }

    /// The least and the greatest value of the lanes of an integer type, read as signed integers.
    pub fn signed_bounds(self) -> (bounds: (i128, i128))
        requires
            self.int_lane() is Some,
        ensures
            bounds.0 == self.int_lane()->0.min_value(true),
            bounds.1 == self.int_lane()->0.max_value(true),
    {
        let (min, max) = self.bounds(true);
        (min as i128, max as i128)
    }
}

} // verus!
