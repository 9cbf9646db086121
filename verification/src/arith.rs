//! Comparisons, and arithmetic lane by lane.
use crate::eval::{
    eval, eval_list, lemma_sequence_step, lemma_sequence_stop, present, sequence, Eval,
};
use crate::float::{
    f32_from_int, f64_from_int, f64_to_int, float_to_int, int_to_f32_bits, int_to_f64_bits,
};
use crate::ir::{FloatCC, IntCC};
use crate::lanes::{extractlanes, lanes_of, vector_of, vectorizelanes};
use crate::lanewise::{
    binary_accepts, binary_arith, binary_gives, binary_pairwise, fold_accepts, fold_may_be,
    fold_vector, lemma_vector_is, lemma_vector_ready, pair_count, pairwise_accepts, pairwise_gives,
    unary_accepts, unary_arith, unary_gives,
};
use crate::types::{LaneType, Type};
use crate::value::{BinaryOp, UnaryOp, Value, ValueConversionKind, ValueError, ValueResult};
use vstd::arithmetic::power2::*;
use vstd::prelude::*;

verus! {

/// A disjunction whose second part counts only if the first is false.
pub open spec fn either(a: ValueResult<bool>, b: ValueResult<bool>) -> ValueResult<bool> {
    match a {
        Ok(true) => Ok(true),
        Ok(false) => b,
        Err(e) => Err(e),
    }
}

/// Whether the floats `left` and `right` satisfy the condition `code`.
pub open spec fn float_compare<V: Value>(code: FloatCC, left: V, right: V) -> ValueResult<bool> {
    let eq = left.spec_eq(right);
    let lt = left.spec_lt(right);
    let le = left.spec_le(right);
    let gt = left.spec_gt(right);
    let ge = left.spec_ge(right);
    let uno = left.spec_uno(right);
    match code {
        FloatCC::Ordered => either(either(eq, lt), gt),
        FloatCC::Unordered => uno,
        FloatCC::Equal => eq,
        FloatCC::NotEqual => either(either(lt, gt), uno),
        FloatCC::OrderedNotEqual => either(lt, gt),
        FloatCC::UnorderedOrEqual => either(eq, uno),
        FloatCC::LessThan => lt,
        FloatCC::LessThanOrEqual => le,
        FloatCC::GreaterThan => gt,
        FloatCC::GreaterThanOrEqual => ge,
        FloatCC::UnorderedOrLessThan => either(uno, lt),
        FloatCC::UnorderedOrLessThanOrEqual => either(uno, le),
        FloatCC::UnorderedOrGreaterThan => either(uno, gt),
        FloatCC::UnorderedOrGreaterThanOrEqual => either(uno, ge),
    }
}

/// Compare two values using the given floating point condition `code`.
pub fn fcmp<V: Value>(code: FloatCC, left: &V, right: &V) -> (b: ValueResult<bool>)
    ensures
        b == float_compare(code, *left, *right),
{
    Ok(
        match code {
            FloatCC::Ordered => {
                V::eq(left, right)? || V::lt(left, right)? || V::gt(left, right)?
            },
            FloatCC::Unordered => V::uno(left, right)?,
            FloatCC::Equal => V::eq(left, right)?,
            FloatCC::NotEqual => {
                V::lt(left, right)? || V::gt(left, right)? || V::uno(left, right)?
            },
            FloatCC::OrderedNotEqual => V::lt(left, right)? || V::gt(left, right)?,
            FloatCC::UnorderedOrEqual => V::eq(left, right)? || V::uno(left, right)?,
            FloatCC::LessThan => V::lt(left, right)?,
            FloatCC::LessThanOrEqual => V::le(left, right)?,
            FloatCC::GreaterThan => V::gt(left, right)?,
            FloatCC::GreaterThanOrEqual => V::ge(left, right)?,
            FloatCC::UnorderedOrLessThan => V::uno(left, right)? || V::lt(left, right)?,
            FloatCC::UnorderedOrLessThanOrEqual => V::uno(left, right)? || V::le(left, right)?,
            FloatCC::UnorderedOrGreaterThan => V::uno(left, right)? || V::gt(left, right)?,
            FloatCC::UnorderedOrGreaterThanOrEqual => {
                V::uno(left, right)? || V::ge(left, right)?
            },
        },
    )
}

/// Whether a condition reads its operands as unsigned integers.
pub open spec fn is_unsigned(code: IntCC) -> bool {
    ||| code is UnsignedLessThan
    ||| code is UnsignedLessThanOrEqual
    ||| code is UnsignedGreaterThan
    ||| code is UnsignedGreaterThanOrEqual
}

/// `x` read as an unsigned integer if `unsigned`, as it is otherwise.
pub open spec fn operand<V: Value>(x: V, unsigned: bool) -> Eval<V, ValueError> {
    if unsigned {
        eval(x.spec_convert(ValueConversionKind::ToUnsigned))
    } else {
        Eval::Value(x)
    }
}

/// Whether two operands, which have been read as the condition says, satisfy it.
pub open spec fn holds<V: Value>(code: IntCC, left: V, right: V) -> ValueResult<bool> {
    match code {
        IntCC::Equal => left.spec_eq(right),
        IntCC::NotEqual => match left.spec_eq(right) {
            Ok(b) => Ok(!b),
            Err(e) => Err(e),
        },
        IntCC::SignedGreaterThan | IntCC::UnsignedGreaterThan => left.spec_gt(right),
        IntCC::SignedGreaterThanOrEqual | IntCC::UnsignedGreaterThanOrEqual => left.spec_ge(right),
        IntCC::SignedLessThan | IntCC::UnsignedLessThan => left.spec_lt(right),
        IntCC::SignedLessThanOrEqual | IntCC::UnsignedLessThanOrEqual => left.spec_le(right),
    }
}

/// Whether the integers `left` and `right` satisfy the condition `code`.
pub open spec fn int_compare<V: Value>(code: IntCC, left: V, right: V) -> Eval<bool, ValueError> {
    operand(left, is_unsigned(code)).bind(
        |l: V| operand(right, is_unsigned(code)).bind(|r: V| eval(holds(code, l, r))),
    )
}

fn compare_ints<V: Value>(code: IntCC, left: &V, right: &V) -> (b: ValueResult<bool>)
    ensures
        eval(b) == int_compare(code, *left, *right),
{
    Ok(
        match code {
            IntCC::Equal => V::eq(left, right)?,
            IntCC::NotEqual => !V::eq(left, right)?,
            IntCC::SignedGreaterThan => V::gt(left, right)?,
            IntCC::SignedGreaterThanOrEqual => V::ge(left, right)?,
            IntCC::SignedLessThan => V::lt(left, right)?,
            IntCC::SignedLessThanOrEqual => V::le(left, right)?,
            IntCC::UnsignedGreaterThan => V::gt(
                &left.duplicate().convert(ValueConversionKind::ToUnsigned)?,
                &right.duplicate().convert(ValueConversionKind::ToUnsigned)?,
            )?,
            IntCC::UnsignedGreaterThanOrEqual => V::ge(
                &left.duplicate().convert(ValueConversionKind::ToUnsigned)?,
                &right.duplicate().convert(ValueConversionKind::ToUnsigned)?,
            )?,
            IntCC::UnsignedLessThan => V::lt(
                &left.duplicate().convert(ValueConversionKind::ToUnsigned)?,
                &right.duplicate().convert(ValueConversionKind::ToUnsigned)?,
            )?,
            IntCC::UnsignedLessThanOrEqual => V::le(
                &left.duplicate().convert(ValueConversionKind::ToUnsigned)?,
                &right.duplicate().convert(ValueConversionKind::ToUnsigned)?,
            )?,
        },
    )
}

/// The bits of `x` where `c` has a bit set, those of `y` elsewhere.
pub open spec fn select_bits<V: Value>(c: V, x: V, y: V) -> Eval<V, ValueError> {
    eval(c.spec_and(x)).bind(
        |mask_x: V|
            eval(c.spec_not()).bind(
                |not_c: V|
                    eval(not_c.spec_and(y)).bind(|mask_y: V| eval(mask_x.spec_or(mask_y))),
            ),
    )
}

/// Choose the bits of `x` where `c` has a bit set, those of `y` elsewhere.
pub fn bitselect<V: Value>(c: V, x: V, y: V) -> (v: ValueResult<V>)
    ensures
        eval(v) == select_bits(c, x, y),
{
    let mask_x: V = V::and(c.duplicate(), x)?;
    let mask_y: V = V::and(V::not(c)?, y)?;
    V::or(mask_x, mask_y)
}

/// What to do with each lane of one operand.
pub enum LaneMap<V> {
    /// A conversion.
    Convert { kind: ValueConversionKind },
    /// The absolute value of an integer of type `lane`, except that `min` stays as it is.
    Abs { min: V, lane: Type },
    /// The lane clamped to `min` and `max` and truncated to `lane`.
    Narrow { from_unsigned: bool, to_unsigned: bool, min: V, max: V, lane: Type },
    /// The float as an integer of the lane type of `ty`, saturating; zero if not a number.
    FloatToInt { signed: bool, ty: Type },
    /// The integer as a float of type `lane`.
    IntToFloat { unsigned: bool, lane: Type },
}

/// `n`, or the bound that it exceeds.
pub open spec fn clamp(n: int, min: int, max: int) -> int {
    if n < min {
        min
    } else if n > max {
        max
    } else {
        n
    }
}

/// The bits of the float of type `lane` nearest to `n`.
pub open spec fn float_bits(n: int, lane: Type) -> Option<u64> {
    if lane == Type::Lane(LaneType::F32) {
        Some(f32_from_int(n) as u64)
    } else if lane == Type::Lane(LaneType::F64) {
        Some(f64_from_int(n) as u64)
    } else {
        None
    }
}

impl<V: Value> LaneMap<V> {
    /// What a lane becomes.
    pub open spec fn result(self, x: V) -> Eval<V, ValueError> {
        match self {
            LaneMap::Convert { kind } => eval(x.spec_convert(kind)),
            LaneMap::Abs { min, lane } => eval(x.spec_eq(min)).bind(
                |is_min: bool|
                    if is_min {
                        Eval::Value(min)
                    } else {
                        eval(x.spec_into_int()).bind(
                            |n: i128|
                                if n == i128::MIN {
                                    Eval::Undefined
                                } else {
                                    eval(V::spec_integer(if n < 0 { -n } else { n as int }, lane))
                                },
                        )
                    },
            ),
            LaneMap::Narrow { from_unsigned, to_unsigned, min, max, lane } => operand(
                x,
                from_unsigned,
            ).bind(
                |y: V|
                    eval(y.spec_max(min)).bind(
                        |low: V|
                            eval(low.spec_min(max)).bind(
                                |high: V|
                                    eval(
                                        high.spec_convert(ValueConversionKind::Truncate(lane)),
                                    ).bind(|cut: V| operand(cut, to_unsigned)),
                            ),
                    ),
            ),
            LaneMap::FloatToInt { signed, ty } => eval(x.spec_is_nan()).bind(
                |nan: bool|
                    if nan {
                        eval(V::spec_integer(0, ty.lane_type()))
                    } else {
                        present(ty.int_lane()).bind(
                            |lane: LaneType|
                                eval(x.spec_into_float()).bind(
                                    |bits: u64|
                                        eval(
                                            V::spec_integer(
                                                clamp(
                                                    f64_to_int(bits),
                                                    lane.min_value(signed),
                                                    lane.max_value(signed),
                                                ),
                                                ty.lane_type(),
                                            ),
                                        ),
                                ),
                        )
                    },
            ),
            LaneMap::IntToFloat { unsigned, lane } => operand(x, unsigned).bind(
                |y: V|
                    if lane.is_float() {
                        eval(y.spec_into_int()).bind(
                            |n: i128| eval(V::spec_float(float_bits(n as int, lane)->0, lane)),
                        )
                    } else {
                        Eval::Undefined
                    },
            ),
        }
    }

    /// What the lanes become.
    pub open spec fn results(self, xs: Seq<V>) -> Seq<Eval<V, ValueError>> {
        Seq::new(xs.len(), |i: int| self.result(xs[i]))
    }

    fn apply(&self, x: V) -> (v: ValueResult<V>)
        requires
            self.result(x).defined(),
        ensures
            eval(v) == self.result(x),
    {
        match self {
            LaneMap::Convert { kind } => x.convert(*kind),
            LaneMap::Abs { min, lane } => {
                if x.eq(min)? {
                    Ok(min.duplicate())
                } else {
                    let n: i128 = x.into_int()?;
                    V::integer(
                        if n < 0 {
                            -n
                        } else {
                            n
                        },
                        *lane,
                    )
                }
            },
            LaneMap::Narrow { from_unsigned, to_unsigned, min, max, lane } => {
                let y: V = read_operand(x, *from_unsigned)?;
                let low: V = y.max(min.duplicate())?;
                let high: V = low.min(max.duplicate())?;
                let cut: V = high.convert(ValueConversionKind::Truncate(*lane))?;
                read_operand(cut, *to_unsigned)
            },
            LaneMap::FloatToInt { signed, ty } => {
                if x.is_nan()? {
                    V::integer(0, ty.lane_type())
                } else {
                    let (min, max) = ty.bounds(*signed);
                    let n: i128 = float_to_int(x.into_float()?);
                    let n: i128 = if *signed {
                        if n < min as i128 {
                            min as i128
                        } else if n > max as i128 {
                            max as i128
                        } else {
                            n
                        }
                    } else {
                        if n < 0 {
                            0
                        } else if n as u128 > max {
                            max as i128
                        } else {
                            n
                        }
                    };
                    V::integer(n, ty.lane_type())
                }
            },
            LaneMap::IntToFloat { unsigned, lane } => {
                let y: V = read_operand(x, *unsigned)?;
                let bits: u64 = match lane {
                    Type::Lane(LaneType::F32) => int_to_f32_bits(y.into_int()?) as u64,
                    Type::Lane(LaneType::F64) => int_to_f64_bits(y.into_int()?),
                    _ => vstd::pervasive::unreached(),
                };
                V::float(bits, *lane)
            },
        }
    }

    /// Apply this to each lane.
    pub fn apply_all(&self, xs: &Vec<V>) -> (lanes: ValueResult<Vec<V>>)
        requires
            sequence(self.results(xs@)).defined(),
        ensures
            eval_list(lanes) == sequence(self.results(xs@)),
    {
        let mut lanes: Vec<V> = Vec::new();
        let ghost evals = self.results(xs@);
        let mut i: usize = 0;
        assert(evals.take(0) =~= Seq::empty());
        while i < xs.len()
            invariant
                i <= xs.len(),
                evals == self.results(xs@),
                sequence(evals).defined(),
                sequence(evals.take(i as int)) == Eval::<Seq<V>, ValueError>::Value(lanes@),
            decreases xs.len() - i,
        {
            proof {
                lemma_sequence_step(evals, i as int);
                if !(evals[i as int] is Value) {
                    lemma_sequence_stop(evals, i as int);
                }
            }
            let lane: V = self.apply(xs[i].duplicate())?;
            lanes.push(lane);
            i = i + 1;
        }
        assert(evals.take(i as int) =~= evals);
        Ok(lanes)
    }
}

/// `x` read as an unsigned integer if `unsigned`, as it is otherwise.
pub fn read_operand<V: Value>(x: V, unsigned: bool) -> (v: ValueResult<V>)
    ensures
        eval(v) == operand(x, unsigned),
{
    if unsigned {
        x.convert(ValueConversionKind::ToUnsigned)
    } else {
        Ok(x)
    }
}

/// The lesser of two lengths.
pub open spec fn shorter(m: nat, n: nat) -> nat {
    if m < n {
        m
    } else {
        n
    }
}

/// What to do with the corresponding lanes of two operands.
pub enum LaneZip<V> {
    /// An integer comparison, as a truth value of type `lane`.
    Compare { code: IntCC, vec_elem: bool, lane: Type },
    /// A floating point comparison, as a truth value of type `lane`. It must not fail.
    FloatCompare { code: Option<FloatCC>, vec_elem: bool, lane: Type },
    /// The high half of the product, computed after widening by `kind`.
    MulHigh { kind: ValueConversionKind, lane: Type },
    /// The rounded and saturated product of fixed point numbers, computed in type `wide`.
    FixedMul { lane: LaneType, wide: Type, min: V, max: V },
}

/// The product of two fixed point numbers of `bits` bits, all but one of them behind the point,
/// rounded to the nearest number.
pub open spec fn fixed_point_product(x: int, y: int, bits: nat) -> int {
    (x * y + pow2((bits - 2) as nat)) / pow2((bits - 1) as nat) as int
}

/// Whether the product can be computed in 128 bits.
pub open spec fn product_fits(x: int, y: int, bits: nat) -> bool {
    &&& i128::MIN <= x * y <= i128::MAX
    &&& x * y + pow2((bits - 2) as nat) <= i128::MAX
}

fn fixed_mul(x: i128, y: i128, lane: LaneType) -> (n: i128)
    requires
        lane is I8 || lane is I16 || lane is I32 || lane is I64,
        product_fits(x as int, y as int, lane.bits() as nat),
    ensures
        n == fixed_point_product(x as int, y as int, lane.bits() as nat),
{
    proof {
        lemma2_to64();
        lemma2_to64_rest();
    }
    let p: i128 = x * y;
    match lane {
        LaneType::I8 => {
            let sum: i128 = p + 0x40;
            assert((sum >> 7) * 0x80 <= sum < (sum >> 7) * 0x80 + 0x80) by (bit_vector);
            assert(pow2(6) == 0x40 && pow2(7) == 0x80);
            assert(sum as int / 0x80 == (sum >> 7) as int);
            sum >> 7
        },
        LaneType::I16 => {
            let sum: i128 = p + 0x4000;
            assert((sum >> 15) * 0x8000 <= sum < (sum >> 15) * 0x8000 + 0x8000) by (bit_vector);
            assert(pow2(14) == 0x4000 && pow2(15) == 0x8000);
            assert(sum as int / 0x8000 == (sum >> 15) as int);
            sum >> 15
        },
        LaneType::I32 => {
            let sum: i128 = p + 0x4000_0000;
            assert((sum >> 31) * 0x8000_0000 <= sum < (sum >> 31) * 0x8000_0000 + 0x8000_0000)
                by (bit_vector);
            assert(pow2(30) == 0x4000_0000 && pow2(31) == 0x8000_0000);
            assert(sum as int / 0x8000_0000 == (sum >> 31) as int);
            sum >> 31
        },
        _ => {
            let sum: i128 = p + 0x4000_0000_0000_0000;
            assert((sum >> 63) * 0x8000_0000_0000_0000 <= sum < (sum >> 63) * 0x8000_0000_0000_0000
                + 0x8000_0000_0000_0000) by (bit_vector);
            assert(pow2(62) == 0x4000_0000_0000_0000 && pow2(63) == 0x8000_0000_0000_0000);
            assert(sum as int / 0x8000_0000_0000_0000 == (sum >> 63) as int);
            sum >> 63
        },
    }
}

impl<V: Value> LaneZip<V> {
    /// What two corresponding lanes become.
    pub open spec fn result(self, x: V, y: V) -> Eval<V, ValueError> {
        match self {
            LaneZip::Compare { code, vec_elem, lane } => int_compare(code, x, y).bind(
                |b: bool| eval(V::spec_boolean(b, vec_elem, lane)),
            ),
            LaneZip::FloatCompare { code, vec_elem, lane } => match code {
                Some(cc) => match float_compare(cc, x, y) {
                    Ok(b) => eval(V::spec_boolean(b, vec_elem, lane)),
                    Err(_) => Eval::Undefined,
                },
                None => Eval::Undefined,
            },
            LaneZip::MulHigh { kind, lane } => eval(x.spec_convert(kind)).bind(
                |l: V|
                    eval(y.spec_convert(kind)).bind(
                        |r: V|
                            eval(l.spec_mul(r)).bind(
                                |p: V|
                                    eval(p.spec_convert(ValueConversionKind::ExtractUpper(lane))),
                            ),
                    ),
            ),
            LaneZip::FixedMul { lane, wide, min, max } => eval(x.spec_into_int()).bind(
                |m: i128|
                    eval(y.spec_into_int()).bind(
                        |n: i128|
                            if !product_fits(m as int, n as int, lane.bits() as nat) {
                                Eval::Undefined
                            } else {
                                eval(
                                    V::spec_integer(
                                        fixed_point_product(m as int, n as int, lane.bits() as nat),
                                        wide,
                                    ),
                                ).bind(
                                    |z: V|
                                        eval(z.spec_min(max)).bind(
                                            |low: V|
                                                eval(low.spec_max(min)).bind(
                                                    |high: V|
                                                        eval(
                                                            high.spec_convert(
                                                                ValueConversionKind::Truncate(
                                                                    Type::Lane(lane),
                                                                ),
                                                            ),
                                                        ),
                                                ),
                                        ),
                                )
                            },
                    ),
            ),
        }
    }

    /// What corresponding lanes become, as far as both operands have lanes.
    pub open spec fn results(self, xs: Seq<V>, ys: Seq<V>) -> Seq<Eval<V, ValueError>> {
        Seq::new(shorter(xs.len(), ys.len()), |i: int| self.result(xs[i], ys[i]))
    }

    /// Whether this is one of the operations; fixed point numbers have up to 64 bits.
    pub open spec fn supported(self) -> bool {
        self matches LaneZip::FixedMul { lane, .. } ==> lane is I8 || lane is I16 || lane is I32
            || lane is I64
    }

    fn apply(&self, x: V, y: V) -> (v: ValueResult<V>)
        requires
            self.supported(),
            self.result(x, y).defined(),
        ensures
            eval(v) == self.result(x, y),
    {
        match self {
            LaneZip::Compare { code, vec_elem, lane } => {
                let b: bool = compare_ints(*code, &x, &y)?;
                V::boolean(b, *vec_elem, *lane)
            },
            LaneZip::FloatCompare { code, vec_elem, lane } => {
                let b: bool = fcmp(code.unwrap(), &x, &y).unwrap();
                V::boolean(b, *vec_elem, *lane)
            },
            LaneZip::MulHigh { kind, lane } => {
                let l: V = x.convert(*kind)?;
                let r: V = y.convert(*kind)?;
                V::mul(l, r)?.convert(ValueConversionKind::ExtractUpper(*lane))
            },
            LaneZip::FixedMul { lane, wide, min, max } => {
                let m: i128 = x.into_int()?;
                let n: i128 = y.into_int()?;
                // Temporarily widen the value to avoid overflow.
                let z: V = V::integer(fixed_mul(m, n, *lane), *wide)?;
                // Check bounds, saturate, and truncate to the correct width.
                let z: V = z.min(max.duplicate())?;
                let z: V = z.max(min.duplicate())?;
                z.convert(ValueConversionKind::Truncate(Type::Lane(*lane)))
            },
        }
    }

    /// Apply this to corresponding lanes.
    pub fn apply_all(&self, xs: &Vec<V>, ys: &Vec<V>) -> (lanes: ValueResult<Vec<V>>)
        requires
            self.supported(),
            sequence(self.results(xs@, ys@)).defined(),
        ensures
            eval_list(lanes) == sequence(self.results(xs@, ys@)),
    {
        let mut lanes: Vec<V> = Vec::new();
        let ghost evals = self.results(xs@, ys@);
        let mut i: usize = 0;
        assert(evals.take(0) =~= Seq::empty());
        while i < xs.len() && i < ys.len()
            invariant
                i <= xs.len(),
                i <= ys.len(),
                self.supported(),
                evals == self.results(xs@, ys@),
                sequence(evals).defined(),
                sequence(evals.take(i as int)) == Eval::<Seq<V>, ValueError>::Value(lanes@),
            decreases xs.len() - i,
        {
            proof {
                lemma_sequence_step(evals, i as int);
                if !(evals[i as int] is Value) {
                    lemma_sequence_stop(evals, i as int);
                }
            }
            let lane: V = self.apply(xs[i].duplicate(), ys[i].duplicate())?;
            lanes.push(lane);
            i = i + 1;
        }
        assert(evals.take(i as int) =~= evals);
        Ok(lanes)
    }
}

/// What an operation on one operand gives, lane by lane: the operand is a vector of type `ty`, the
/// result is one of type `result_ty`.
pub open spec fn map_vector<V: Value>(x: V, ty: Type, map: LaneMap<V>, result_ty: Type) -> Eval<
    V,
    ValueError,
> {
    lanes_of(x, ty).bind(
        |xs: Seq<V>|
            sequence(map.results(xs)).bind(|lanes: Seq<V>| vector_of(lanes, result_ty)),
    )
}

/// Perform an operation on the lanes of `x`.
pub fn map_lanes<V: Value>(x: &V, ty: Type, map: &LaneMap<V>, result_ty: Type) -> (v: ValueResult<V>)
    requires
        map_vector(*x, ty, *map, result_ty).defined(),
    ensures
        eval(v) == map_vector(*x, ty, *map, result_ty),
{
    let xs: Vec<V> = extractlanes(x, ty)?;
    let lanes: Vec<V> = map.apply_all(&xs)?;
    vectorizelanes(&lanes, result_ty)
}

/// What an operation on two operands gives, lane by lane: the operands are vectors of type `ty`,
/// the result is one of type `result_ty`.
pub open spec fn zip_vectors<V: Value>(
    x: V,
    y: V,
    ty: Type,
    zip: LaneZip<V>,
    result_ty: Type,
) -> Eval<V, ValueError> {
    lanes_of(x, ty).bind(
        |xs: Seq<V>|
            lanes_of(y, ty).bind(
                |ys: Seq<V>|
                    sequence(zip.results(xs, ys)).bind(
                        |lanes: Seq<V>| vector_of(lanes, result_ty),
                    ),
            ),
    )
}

/// Perform an operation on corresponding lanes of `x` and `y`.
pub fn zip_lanes<V: Value>(x: &V, y: &V, ty: Type, zip: &LaneZip<V>, result_ty: Type) -> (v:
    ValueResult<V>)
    requires
        zip.supported(),
        zip_vectors(*x, *y, ty, *zip, result_ty).defined(),
    ensures
        eval(v) == zip_vectors(*x, *y, ty, *zip, result_ty),
{
    let xs: Vec<V> = extractlanes(x, ty)?;
    let ys: Vec<V> = extractlanes(y, ty)?;
    let lanes: Vec<V> = zip.apply_all(&xs, &ys)?;
    vectorizelanes(&lanes, result_ty)
}

/// What the lanes become under `op`; `unsigned` reads them as unsigned integers first.
pub open spec fn unary_results<V: Value>(xs: Seq<V>, op: UnaryOp, unsigned: bool) -> Seq<
    Eval<V, ValueError>,
> {
    Seq::new(
        xs.len(),
        |i: int| operand(xs[i], unsigned).bind(|a: V| eval(op.result(a))),
    )
}

/// What [unary_arith] gives for one of the operations that instructions name.
pub open spec fn unary_vector<V: Value>(x: V, ty: Type, op: UnaryOp, unsigned: bool) -> Eval<
    V,
    ValueError,
> {
    lanes_of(x, ty).bind(
        |xs: Seq<V>|
            sequence(unary_results(xs, op, unsigned)).bind(|lanes: Seq<V>| vector_of(lanes, ty)),
    )
}

/// [unary_arith] with one of the operations that instructions name.
pub fn apply_unary<V: Value>(x: V, ty: Type, op: UnaryOp, unsigned: bool) -> (v: ValueResult<V>)
    requires
        unary_vector(x, ty, op, unsigned).defined(),
    ensures
        eval(v) == unary_vector(x, ty, op, unsigned),
{
    let f = |a: V| -> (r: ValueResult<V>)
        ensures
            r == op.result(a),
        { op.apply(a) };
    let ghost xs = lanes_of(x, ty)->Value_0;
    let ghost gives = unary_gives(f, xs, unsigned);
    let ghost evals = unary_results(xs, op, unsigned);
    proof {
        if lanes_of(x, ty) is Value {
            lemma_vector_ready(gives, unary_accepts(f, xs, unsigned), evals, ty);
        }
    }
    let v: ValueResult<V> = unary_arith(x, ty, f, unsigned);
    proof {
        if lanes_of(x, ty) is Value {
            lemma_vector_is(gives, evals, ty, v);
        }
    }
    v
}

/// What corresponding lanes become under `op`, as far as both operands have lanes; `unsigned` reads
/// them as unsigned integers first.
pub open spec fn binary_results<V: Value>(
    xs: Seq<V>,
    ys: Seq<V>,
    op: BinaryOp,
    unsigned: bool,
) -> Seq<Eval<V, ValueError>> {
    Seq::new(
        shorter(xs.len(), ys.len()),
        |i: int|
            operand(xs[i], unsigned).bind(
                |l: V| operand(ys[i], unsigned).bind(|r: V| eval(op.result(l, r))),
            ),
    )
}

/// What [binary_arith] gives for one of the operations that instructions name.
pub open spec fn binary_vector<V: Value>(
    x: V,
    y: V,
    ty: Type,
    op: BinaryOp,
    unsigned: bool,
) -> Eval<V, ValueError> {
    lanes_of(x, ty).bind(
        |xs: Seq<V>|
            lanes_of(y, ty).bind(
                |ys: Seq<V>|
                    sequence(binary_results(xs, ys, op, unsigned)).bind(
                        |lanes: Seq<V>| vector_of(lanes, ty),
                    ),
            ),
    )
}

/// [binary_arith] with one of the operations that instructions name.
pub fn apply_binary<V: Value>(x: V, y: V, ty: Type, op: BinaryOp, unsigned: bool) -> (v:
    ValueResult<V>)
    requires
        binary_vector(x, y, ty, op, unsigned).defined(),
    ensures
        eval(v) == binary_vector(x, y, ty, op, unsigned),
{
    let f = |a: V, b: V| -> (r: ValueResult<V>)
        ensures
            r == op.result(a, b),
        { op.apply(a, b) };
    let ghost xs = lanes_of(x, ty)->Value_0;
    let ghost ys = lanes_of(y, ty)->Value_0;
    let ghost gives = binary_gives(f, xs, ys, unsigned);
    let ghost evals = binary_results(xs, ys, op, unsigned);
    proof {
        if lanes_of(x, ty) is Value && lanes_of(y, ty) is Value {
            lemma_vector_ready(gives, binary_accepts(f, xs, ys, unsigned), evals, ty);
        }
    }
    let v: ValueResult<V> = binary_arith(x, y, ty, f, unsigned);
    proof {
        if lanes_of(x, ty) is Value && lanes_of(y, ty) is Value {
            lemma_vector_is(gives, evals, ty, v);
        }
    }
    v
}

/// What [icmp] gives.
pub open spec fn compare_vectors<V: Value>(ty: Type, code: IntCC, left: V, right: V) -> Eval<
    V,
    ValueError,
> {
    present(ty.truthy()).bind(
        |dst: Type|
            zip_vectors(
                left,
                right,
                ty,
                LaneZip::Compare { code, vec_elem: ty.is_vector(), lane: dst.lane_type() },
                dst,
            ),
    )
}

/// Compare two values using the given integer condition `code`.
pub fn icmp<V: Value>(ctrl_ty: Type, code: IntCC, left: &V, right: &V) -> (v: ValueResult<V>)
    requires
        compare_vectors(ctrl_ty, code, *left, *right).defined(),
    ensures
        eval(v) == compare_vectors(ctrl_ty, code, *left, *right),
{
    let dst_ty: Type = ctrl_ty.as_truthy();
    let zip: LaneZip<V> = LaneZip::Compare {
        code,
        vec_elem: ctrl_ty.is_vector(),
        lane: dst_ty.lane_type(),
    };
    zip_lanes(left, right, ctrl_ty, &zip, dst_ty)
}

/// Combine `init` with the lanes, from the first to the last.
pub open spec fn fold_lanes<V: Value>(lanes: Seq<V>, init: V, op: BinaryOp) -> Eval<V, ValueError>
    decreases lanes.len(),
{
    if lanes.len() == 0 {
        Eval::Value(init)
    } else {
        eval(op.result(init, lanes.first())).bind(
            |acc: V| fold_lanes(lanes.drop_first(), acc, op),
        )
    }
}

/// What [fold_vector] gives for one of the operations that instructions name.
pub open spec fn folded_vector<V: Value>(v: V, ty: Type, init: V, op: BinaryOp) -> Eval<
    V,
    ValueError,
> {
    lanes_of(v, ty).bind(|lanes: Seq<V>| fold_lanes(lanes, init, op))
}

/// Combining lanes by an operation with one result is folding them.
proof fn lemma_fold<V: Value, F: FnMut(V, V) -> ValueResult<V>>(
    lanes: Seq<V>,
    init: V,
    op: BinaryOp,
    f: F,
)
    requires
        forall|a: V, b: V| #[trigger] call_requires(f, (a, b)),
        forall|a: V, b: V, r: ValueResult<V>| #[trigger]
            call_ensures(f, (a, b), r) ==> r == op.result(a, b),
    ensures
        fold_accepts(lanes, init, f),
        forall|r: ValueResult<V>| #[trigger]
            fold_may_be(lanes, init, f, r) ==> eval(r) == fold_lanes(lanes, init, op),
    decreases lanes.len(),
{
    if lanes.len() > 0 {
        let rest = lanes.drop_first();
        assert forall|acc: V| #[trigger]
            call_ensures(f, (init, lanes.first()), Ok(acc)) implies fold_accepts(rest, acc, f) by {
            lemma_fold(rest, acc, op, f);
        }
        assert forall|r: ValueResult<V>| #[trigger] fold_may_be(lanes, init, f, r) implies eval(r)
            == fold_lanes(lanes, init, op) by {
            if !(r is Err && call_ensures(f, (init, lanes.first()), r)) {
                let acc = choose|acc: V| #[trigger]
                    call_ensures(f, (init, lanes.first()), Ok(acc)) && fold_may_be(rest, acc, f, r);
                lemma_fold(rest, acc, op, f);
            }
        }
    }
}

/// [fold_vector] with one of the operations that instructions name.
pub fn apply_fold<V: Value>(v: V, ty: Type, init: V, op: BinaryOp) -> (r: ValueResult<V>)
    requires
        folded_vector(v, ty, init, op).defined(),
    ensures
        eval(r) == folded_vector(v, ty, init, op),
{
    let f = |a: V, b: V| -> (r: ValueResult<V>)
        ensures
            r == op.result(a, b),
        { op.apply(a, b) };
    proof {
        if lanes_of(v, ty) is Value {
            lemma_fold(lanes_of(v, ty)->Value_0, init, op, f);
        }
    }
    fold_vector(v, ty, init, f)
}

/// What [sum] gives.
pub open spec fn total<V: Value>(head: V, tail: Seq<V>) -> Eval<i128, ValueError> {
    fold_lanes(tail, head, BinaryOp::Add).bind(|acc: V| eval(acc.spec_into_int()))
}

/// Helper for summing a sequence of values.
pub fn sum<V: Value>(head: V, tail: &Vec<V>) -> (n: ValueResult<i128>)
    ensures
        eval(n) == total(head, tail@),
{
    let mut acc: V = head;
    let mut i: usize = 0;
    assert(tail@.skip(0) =~= tail@);
    while i < tail.len()
        invariant
            i <= tail.len(),
            fold_lanes(tail@, head, BinaryOp::Add) == fold_lanes(
                tail@.skip(i as int),
                acc,
                BinaryOp::Add,
            ),
        decreases tail.len() - i,
    {
        let ghost rest = tail@.skip(i as int);
        assert(rest.first() == tail@[i as int]);
        assert(rest.drop_first() =~= tail@.skip(i + 1));
        acc = V::add(acc, tail[i].duplicate())?;
        i = i + 1;
    }
    acc.into_int()
}

/// The results of `op` on the adjacent pairs of lanes. The last lane must not be without a partner.
pub open spec fn pair_results<V: Value>(lanes: Seq<V>, op: BinaryOp) -> Seq<Eval<V, ValueError>> {
    Seq::new(
        pair_count(lanes.len()),
        |i: int|
            if 2 * i + 1 < lanes.len() {
                eval(op.result(lanes[2 * i], lanes[2 * i + 1]))
            } else {
                Eval::Undefined
            },
    )
}

/// What [binary_pairwise] gives for one of the operations that instructions name.
pub open spec fn pairwise_vector<V: Value>(x: V, y: V, ty: Type, op: BinaryOp) -> Eval<
    V,
    ValueError,
> {
    lanes_of(x, ty).bind(
        |xs: Seq<V>|
            lanes_of(y, ty).bind(
                |ys: Seq<V>|
                    sequence(pair_results(xs, op) + pair_results(ys, op)).bind(
                        |lanes: Seq<V>| vector_of(lanes, ty),
                    ),
            ),
    )
}

/// [binary_pairwise] with one of the operations that instructions name.
pub fn apply_pairwise<V: Value>(x: V, y: V, ty: Type, op: BinaryOp) -> (v: ValueResult<V>)
    requires
        pairwise_vector(x, y, ty, op).defined(),
    ensures
        eval(v) == pairwise_vector(x, y, ty, op),
{
    let f = |a: V, b: V| -> (r: ValueResult<V>)
        ensures
            r == op.result(a, b),
        { op.apply(a, b) };
    let ghost xs = lanes_of(x, ty)->Value_0;
    let ghost ys = lanes_of(y, ty)->Value_0;
    let ghost gives = pairwise_gives(f, xs, ys);
    let ghost evals = pair_results(xs, op) + pair_results(ys, op);
    proof {
        if lanes_of(x, ty) is Value && lanes_of(y, ty) is Value {
            lemma_vector_ready(gives, pairwise_accepts(f, xs, ys), evals, ty);
        }
    }
    let v: ValueResult<V> = binary_pairwise(x, y, ty, f);
    proof {
        if lanes_of(x, ty) is Value && lanes_of(y, ty) is Value {
            lemma_vector_is(gives, evals, ty, v);
        }
    }
    v
}

} // verus!
