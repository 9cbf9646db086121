//! Arithmetic lane by lane, with any operation on lanes.
//!
//! An operation is any function of the caller: what is known of it is what its own contract says.
//! So a contract here says which results are possible, given what the operation may give on each
//! lane. Lanes are visited in order, and the first one that fails decides.
use crate::arith::{operand, read_operand, shorter};
use crate::eval::{eval, lemma_sequence_stop, lemma_sequence_value, sequence, Eval};
use crate::lanes::{extractlanes, lanes_of, vector_of, vectorizelanes};
use crate::types::Type;
use crate::value::{Value, ValueError, ValueResult};
use vstd::prelude::*;

verus! {

/// Whether the first lanes may become `zs`, where `gives(i, r)` says that lane `i` may give `r`.
pub open spec fn lanes_give<V>(gives: spec_fn(int, ValueResult<V>) -> bool, zs: Seq<V>) -> bool {
    forall|i: int| 0 <= i < zs.len() ==> gives(i, Ok(#[trigger] zs[i]))
}

/// Whether visiting `n` lanes may end in this way: with a result of each of them, or with the error
/// of the first one that fails.
pub open spec fn may_give<V>(
    gives: spec_fn(int, ValueResult<V>) -> bool,
    n: nat,
    outcome: ValueResult<Seq<V>>,
) -> bool {
    match outcome {
        Ok(zs) => zs.len() == n && lanes_give(gives, zs),
        Err(e) => exists|zs: Seq<V>|
            zs.len() < n && #[trigger] lanes_give(gives, zs) && gives(zs.len() as int, Err(e)),
    }
}

/// Whether each of `n` lanes that is visited is one that can be; `ready(i)` says so of lane `i`.
pub open spec fn lanes_ready<V>(
    gives: spec_fn(int, ValueResult<V>) -> bool,
    ready: spec_fn(int) -> bool,
    n: nat,
) -> bool {
    forall|zs: Seq<V>| zs.len() < n && #[trigger] lanes_give(gives, zs) ==> ready(zs.len() as int)
}

/// Whether the results of `n` lanes can be visited and made a value of type `ty`.
pub open spec fn vector_ready<V: Value>(
    gives: spec_fn(int, ValueResult<V>) -> bool,
    ready: spec_fn(int) -> bool,
    n: nat,
    ty: Type,
) -> bool {
    &&& lanes_ready(gives, ready, n)
    &&& forall|zs: Seq<V>|
        zs.len() == n && #[trigger] lanes_give(gives, zs) ==> vector_of(zs, ty).defined()
}

/// Whether visiting `n` lanes and making a value of type `ty` of their results may end in `v`.
pub open spec fn vector_may_be<V: Value>(
    gives: spec_fn(int, ValueResult<V>) -> bool,
    n: nat,
    ty: Type,
    v: ValueResult<V>,
) -> bool {
    exists|outcome: ValueResult<Seq<V>>| #[trigger]
        may_give(gives, n, outcome) && match outcome {
            Ok(zs) => eval(v) == vector_of(zs, ty),
            Err(e) => v == Err::<V, ValueError>(e),
        }
}

/// Visiting lanes that give one result each is evaluating them in sequence.
pub proof fn lemma_may_give_sequence<V>(
    gives: spec_fn(int, ValueResult<V>) -> bool,
    evals: Seq<Eval<V, ValueError>>,
    outcome: ValueResult<Seq<V>>,
)
    requires
        forall|i: int, r: ValueResult<V>|
            0 <= i < evals.len() && #[trigger] gives(i, r) ==> evals[i] == eval(r),
        may_give(gives, evals.len(), outcome),
    ensures
        sequence(evals) == eval(outcome),
{
    match outcome {
        Ok(zs) => {
            lemma_prefix_value(gives, evals, zs);
            assert(evals.take(zs.len() as int) =~= evals);
        },
        Err(e) => {
            let zs = choose|zs: Seq<V>|
                zs.len() < evals.len() && #[trigger] lanes_give(gives, zs) && gives(
                    zs.len() as int,
                    Err(e),
                );
            lemma_prefix_value(gives, evals, zs);
            lemma_sequence_stop(evals, zs.len() as int);
        },
    }
}

/// The first lanes, evaluated in sequence.
proof fn lemma_prefix_value<V>(
    gives: spec_fn(int, ValueResult<V>) -> bool,
    evals: Seq<Eval<V, ValueError>>,
    zs: Seq<V>,
)
    requires
        forall|i: int, r: ValueResult<V>|
            0 <= i < evals.len() && #[trigger] gives(i, r) ==> evals[i] == eval(r),
        zs.len() <= evals.len(),
        lanes_give(gives, zs),
    ensures
        sequence(evals.take(zs.len() as int)) == Eval::<Seq<V>, ValueError>::Value(zs),
{
    let first = evals.take(zs.len() as int);
    lemma_sequence_value(first);
    assert forall|i: int| 0 <= i < first.len() implies (#[trigger] first[i]) == Eval::<
        V,
        ValueError,
    >::Value(zs[i]) by {
        assert(gives(i, Ok(zs[i])));
    }
    assert(sequence(first) is Value);
    let ws = sequence(first)->Value_0;
    assert forall|i: int| 0 <= i < zs.len() implies ws[i] == zs[i] by {
        assert(first[i] == Eval::<V, ValueError>::Value(ws[i]));
    }
    assert(ws =~= zs);
}

/// Lanes that give one result each can be visited if evaluating them in sequence is defined.
pub proof fn lemma_vector_ready<V: Value>(
    gives: spec_fn(int, ValueResult<V>) -> bool,
    ready: spec_fn(int) -> bool,
    evals: Seq<Eval<V, ValueError>>,
    ty: Type,
)
    requires
        forall|i: int, r: ValueResult<V>|
            0 <= i < evals.len() && #[trigger] gives(i, r) ==> evals[i] == eval(r),
        forall|i: int| 0 <= i < evals.len() && evals[i].defined() ==> #[trigger] ready(i),
        sequence(evals).bind(|zs: Seq<V>| vector_of(zs, ty)).defined(),
    ensures
        vector_ready(gives, ready, evals.len(), ty),
{
    assert forall|zs: Seq<V>|
        zs.len() < evals.len() && #[trigger] lanes_give(gives, zs) implies ready(
        zs.len() as int,
    ) by {
        lemma_prefix_value(gives, evals, zs);
        if evals[zs.len() as int] is Undefined {
            lemma_sequence_stop(evals, zs.len() as int);
        }
    }
    assert forall|zs: Seq<V>|
        zs.len() == evals.len() && #[trigger] lanes_give(gives, zs) implies vector_of(
        zs,
        ty,
    ).defined() by {
        lemma_prefix_value(gives, evals, zs);
        assert(evals.take(zs.len() as int) =~= evals);
    }
}

/// Lanes that give one result each make the value that evaluating them in sequence makes.
pub proof fn lemma_vector_is<V: Value>(
    gives: spec_fn(int, ValueResult<V>) -> bool,
    evals: Seq<Eval<V, ValueError>>,
    ty: Type,
    v: ValueResult<V>,
)
    requires
        forall|i: int, r: ValueResult<V>|
            0 <= i < evals.len() && #[trigger] gives(i, r) ==> evals[i] == eval(r),
        vector_may_be(gives, evals.len(), ty, v),
    ensures
        eval(v) == sequence(evals).bind(|zs: Seq<V>| vector_of(zs, ty)),
{
    let outcome = choose|outcome: ValueResult<Seq<V>>| #[trigger]
        may_give(gives, evals.len(), outcome) && match outcome {
            Ok(zs) => eval(v) == vector_of(zs, ty),
            Err(e) => v == Err::<V, ValueError>(e),
        };
    lemma_may_give_sequence(gives, evals, outcome);
}

/// What lane `i` of `xs` may give.
pub open spec fn unary_gives<V: Value, F: Fn(V) -> ValueResult<V>>(
    op: F,
    xs: Seq<V>,
    unsigned: bool,
) -> spec_fn(int, ValueResult<V>) -> bool {
    |i: int, r: ValueResult<V>|
        match operand(xs[i], unsigned) {
            Eval::Value(a) => call_ensures(op, (a,), r),
            Eval::Error(e) => r == Err::<V, ValueError>(e),
            Eval::Undefined => false,
        }
}

/// Whether the operation accepts lane `i` of `xs`.
pub open spec fn unary_accepts<V: Value, F: Fn(V) -> ValueResult<V>>(
    op: F,
    xs: Seq<V>,
    unsigned: bool,
) -> spec_fn(int) -> bool {
    |i: int| operand(xs[i], unsigned) matches Eval::Value(a) ==> call_requires(op, (a,))
}

/// Whether [unary_arith] can be performed: the operand has lanes, the operation accepts those that
/// it meets, and its results make a value.
pub open spec fn unary_domain<V: Value, F: Fn(V) -> ValueResult<V>>(
    x: V,
    ty: Type,
    op: F,
    unsigned: bool,
) -> bool {
    match lanes_of(x, ty) {
        Eval::Value(xs) => vector_ready(
            unary_gives(op, xs, unsigned),
            unary_accepts(op, xs, unsigned),
            xs.len(),
            ty,
        ),
        Eval::Error(_) => true,
        Eval::Undefined => false,
    }
}

/// What [unary_arith] may give: the value that the results of the lanes make, or the error of what
/// fails first.
pub open spec fn unary_may_be<V: Value, F: Fn(V) -> ValueResult<V>>(
    x: V,
    ty: Type,
    op: F,
    unsigned: bool,
    v: ValueResult<V>,
) -> bool {
    match lanes_of(x, ty) {
        Eval::Value(xs) => vector_may_be(unary_gives(op, xs, unsigned), xs.len(), ty, v),
        Eval::Error(e) => v == Err::<V, ValueError>(e),
        Eval::Undefined => false,
    }
}

/// Performs the supplied unary arithmetic `op` on a Value, either Vector or Scalar.
pub fn unary_arith<V: Value, F: Fn(V) -> ValueResult<V>>(
    x: V,
    vector_type: Type,
    op: F,
    unsigned: bool,
) -> (v: ValueResult<V>)
    requires
        unary_domain(x, vector_type, op, unsigned),
    ensures
        unary_may_be(x, vector_type, op, unsigned, v),
{
    let xs: Vec<V> = extractlanes(&x, vector_type)?;
    let ghost gives = unary_gives(op, xs@, unsigned);
    let ghost ready = unary_accepts(op, xs@, unsigned);
    let mut lanes: Vec<V> = Vec::new();
    let mut i: usize = 0;
    while i < xs.len()
        invariant
            i <= xs.len(),
            lanes.len() == i,
            lanes_of(x, vector_type) == Eval::<Seq<V>, ValueError>::Value(xs@),
            gives == unary_gives(op, xs@, unsigned),
            ready == unary_accepts(op, xs@, unsigned),
            lanes_ready(gives, ready, xs@.len()),
            lanes_give(gives, lanes@),
        decreases xs.len() - i,
    {
        assert(ready(lanes@.len() as int));
        let a: V = match read_operand(xs[i].duplicate(), unsigned) {
            Ok(a) => a,
            Err(e) => {
                assert(gives(lanes@.len() as int, Err(e)));
                assert(may_give(gives, xs@.len(), Err(e)));
                return Err(e);
            },
        };
        match op(a) {
            Ok(z) => {
                assert(gives(i as int, Ok(z)));
                lanes.push(z);
            },
            Err(e) => {
                assert(gives(lanes@.len() as int, Err(e)));
                assert(may_give(gives, xs@.len(), Err(e)));
                return Err(e);
            },
        }
        i = i + 1;
    }
    assert(may_give(gives, xs@.len(), Ok(lanes@)));
    vectorizelanes(&lanes, vector_type)
}

/// Two corresponding lanes as the operation reads them.
pub open spec fn operand_pair<V: Value>(x: V, y: V, unsigned: bool) -> Eval<(V, V), ValueError> {
    operand(x, unsigned).bind(
        |l: V| operand(y, unsigned).bind(|r: V| Eval::Value((l, r))),
    )
}

/// What two corresponding lanes of `xs` and `ys` may give.
pub open spec fn binary_gives<V: Value, F: Fn(V, V) -> ValueResult<V>>(
    op: F,
    xs: Seq<V>,
    ys: Seq<V>,
    unsigned: bool,
) -> spec_fn(int, ValueResult<V>) -> bool {
    |i: int, r: ValueResult<V>|
        match operand_pair(xs[i], ys[i], unsigned) {
            Eval::Value(p) => call_ensures(op, (p.0, p.1), r),
            Eval::Error(e) => r == Err::<V, ValueError>(e),
            Eval::Undefined => false,
        }
}

/// Whether the operation accepts two corresponding lanes of `xs` and `ys`.
pub open spec fn binary_accepts<V: Value, F: Fn(V, V) -> ValueResult<V>>(
    op: F,
    xs: Seq<V>,
    ys: Seq<V>,
    unsigned: bool,
) -> spec_fn(int) -> bool {
    |i: int|
        operand_pair(xs[i], ys[i], unsigned) matches Eval::Value(p) ==> call_requires(
            op,
            (p.0, p.1),
        )
}

/// Whether [binary_arith] can be performed: the operands have lanes, the operation accepts those
/// that it meets, and its results make a value.
pub open spec fn binary_domain<V: Value, F: Fn(V, V) -> ValueResult<V>>(
    x: V,
    y: V,
    ty: Type,
    op: F,
    unsigned: bool,
) -> bool {
    match lanes_of(x, ty) {
        Eval::Value(xs) => match lanes_of(y, ty) {
            Eval::Value(ys) => vector_ready(
                binary_gives(op, xs, ys, unsigned),
                binary_accepts(op, xs, ys, unsigned),
                shorter(xs.len(), ys.len()),
                ty,
            ),
            Eval::Error(_) => true,
            Eval::Undefined => false,
        },
        Eval::Error(_) => true,
        Eval::Undefined => false,
    }
}

/// What [binary_arith] may give: the value that the results of corresponding lanes make, or the
/// error of what fails first.
pub open spec fn binary_may_be<V: Value, F: Fn(V, V) -> ValueResult<V>>(
    x: V,
    y: V,
    ty: Type,
    op: F,
    unsigned: bool,
    v: ValueResult<V>,
) -> bool {
    match lanes_of(x, ty) {
        Eval::Value(xs) => match lanes_of(y, ty) {
            Eval::Value(ys) => vector_may_be(
                binary_gives(op, xs, ys, unsigned),
                shorter(xs.len(), ys.len()),
                ty,
                v,
            ),
            Eval::Error(e) => v == Err::<V, ValueError>(e),
            Eval::Undefined => false,
        },
        Eval::Error(e) => v == Err::<V, ValueError>(e),
        Eval::Undefined => false,
    }
}

fn read_pair<V: Value>(x: V, y: V, unsigned: bool) -> (p: ValueResult<(V, V)>)
    ensures
        eval(p) == operand_pair(x, y, unsigned),
{
    let l: V = read_operand(x, unsigned)?;
    let r: V = read_operand(y, unsigned)?;
    Ok((l, r))
}

/// Performs the supplied binary arithmetic `op` on two values, either vector or scalar.
pub fn binary_arith<V: Value, F: Fn(V, V) -> ValueResult<V>>(
    x: V,
    y: V,
    vector_type: Type,
    op: F,
    unsigned: bool,
) -> (v: ValueResult<V>)
    requires
        binary_domain(x, y, vector_type, op, unsigned),
    ensures
        binary_may_be(x, y, vector_type, op, unsigned, v),
{
    let xs: Vec<V> = extractlanes(&x, vector_type)?;
    let ys: Vec<V> = extractlanes(&y, vector_type)?;
    let ghost n = shorter(xs@.len(), ys@.len());
    let ghost gives = binary_gives(op, xs@, ys@, unsigned);
    let ghost ready = binary_accepts(op, xs@, ys@, unsigned);
    let mut lanes: Vec<V> = Vec::new();
    let mut i: usize = 0;
    while i < xs.len() && i < ys.len()
        invariant
            i <= xs.len(),
            i <= ys.len(),
            lanes.len() == i,
            n == shorter(xs@.len(), ys@.len()),
            lanes_of(x, vector_type) == Eval::<Seq<V>, ValueError>::Value(xs@),
            lanes_of(y, vector_type) == Eval::<Seq<V>, ValueError>::Value(ys@),
            gives == binary_gives(op, xs@, ys@, unsigned),
            ready == binary_accepts(op, xs@, ys@, unsigned),
            lanes_ready(gives, ready, n),
            lanes_give(gives, lanes@),
        decreases xs.len() - i,
    {
        assert(ready(lanes@.len() as int));
        let (l, r): (V, V) = match read_pair(xs[i].duplicate(), ys[i].duplicate(), unsigned) {
            Ok(p) => p,
            Err(e) => {
                assert(gives(lanes@.len() as int, Err(e)));
                assert(may_give(gives, n, Err(e)));
                return Err(e);
            },
        };
        match op(l, r) {
            Ok(z) => {
                assert(gives(i as int, Ok(z)));
                lanes.push(z);
            },
            Err(e) => {
                assert(gives(lanes@.len() as int, Err(e)));
                assert(may_give(gives, n, Err(e)));
                return Err(e);
            },
        }
        i = i + 1;
    }
    assert(may_give(gives, n, Ok(lanes@)));
    vectorizelanes(&lanes, vector_type)
}

/// The number of pairs of adjacent lanes; a last lane without a partner counts as a pair.
pub open spec fn pair_count(len: nat) -> nat {
    ((len + 1) / 2) as nat
}

/// Pair `i` of adjacent lanes: first those of `xs`, then those of `ys`. A last lane without a
/// partner makes no pair.
pub open spec fn adjacent_pair<V>(xs: Seq<V>, ys: Seq<V>, i: int) -> Option<(V, V)> {
    let count = pair_count(xs.len());
    let (lanes, k) = if i < count {
        (xs, i)
    } else {
        (ys, i - count)
    };
    if 2 * k + 1 < lanes.len() {
        Some((lanes[2 * k], lanes[2 * k + 1]))
    } else {
        None
    }
}

/// What a pair of adjacent lanes may give.
pub open spec fn pairwise_gives<V: Value, F: Fn(V, V) -> ValueResult<V>>(
    op: F,
    xs: Seq<V>,
    ys: Seq<V>,
) -> spec_fn(int, ValueResult<V>) -> bool {
    |i: int, r: ValueResult<V>|
        adjacent_pair(xs, ys, i) matches Some(p) && call_ensures(op, (p.0, p.1), r)
}

/// Whether there is such a pair of adjacent lanes, and the operation accepts it.
pub open spec fn pairwise_accepts<V: Value, F: Fn(V, V) -> ValueResult<V>>(
    op: F,
    xs: Seq<V>,
    ys: Seq<V>,
) -> spec_fn(int) -> bool {
    |i: int| adjacent_pair(xs, ys, i) matches Some(p) && call_requires(op, (p.0, p.1))
}

/// Whether [binary_pairwise] can be performed: the operands have lanes, each lane that is met has a
/// partner, the operation accepts them, and its results make a value.
pub open spec fn pairwise_domain<V: Value, F: Fn(V, V) -> ValueResult<V>>(
    x: V,
    y: V,
    ty: Type,
    op: F,
) -> bool {
    match lanes_of(x, ty) {
        Eval::Value(xs) => match lanes_of(y, ty) {
            Eval::Value(ys) => vector_ready(
                pairwise_gives(op, xs, ys),
                pairwise_accepts(op, xs, ys),
                pair_count(xs.len()) + pair_count(ys.len()),
                ty,
            ),
            Eval::Error(_) => true,
            Eval::Undefined => false,
        },
        Eval::Error(_) => true,
        Eval::Undefined => false,
    }
}

/// What [binary_pairwise] may give: the value that the results of the pairs make, or the error of
/// what fails first.
pub open spec fn pairwise_may_be<V: Value, F: Fn(V, V) -> ValueResult<V>>(
    x: V,
    y: V,
    ty: Type,
    op: F,
    v: ValueResult<V>,
) -> bool {
    match lanes_of(x, ty) {
        Eval::Value(xs) => match lanes_of(y, ty) {
            Eval::Value(ys) => vector_may_be(
                pairwise_gives(op, xs, ys),
                pair_count(xs.len()) + pair_count(ys.len()),
                ty,
                v,
            ),
            Eval::Error(e) => v == Err::<V, ValueError>(e),
            Eval::Undefined => false,
        },
        Eval::Error(e) => v == Err::<V, ValueError>(e),
        Eval::Undefined => false,
    }
}

/// Performs the supplied pairwise arithmetic `op` on two SIMD vectors, where pairs are formed from
/// adjacent vector elements and the vectors are concatenated at the end.
pub fn binary_pairwise<V: Value, F: Fn(V, V) -> ValueResult<V>>(
    x: V,
    y: V,
    vector_type: Type,
    op: F,
) -> (v: ValueResult<V>)
    requires
        pairwise_domain(x, y, vector_type, op),
    ensures
        pairwise_may_be(x, y, vector_type, op, v),
{
    let xs: Vec<V> = extractlanes(&x, vector_type)?;
    let ys: Vec<V> = extractlanes(&y, vector_type)?;
    let ghost n = pair_count(xs@.len()) + pair_count(ys@.len());
    let ghost gives = pairwise_gives(op, xs@, ys@);
    let ghost ready = pairwise_accepts(op, xs@, ys@);
    let mut lanes: Vec<V> = Vec::new();
    let mut i: usize = 0;
    while i < xs.len()
        invariant
            i <= xs.len() || i == xs.len() + 1,
            i % 2 == 0,
            lanes.len() == i / 2,
            n == pair_count(xs@.len()) + pair_count(ys@.len()),
            lanes_of(x, vector_type) == Eval::<Seq<V>, ValueError>::Value(xs@),
            lanes_of(y, vector_type) == Eval::<Seq<V>, ValueError>::Value(ys@),
            gives == pairwise_gives(op, xs@, ys@),
            ready == pairwise_accepts(op, xs@, ys@),
            lanes_ready(gives, ready, n),
            lanes_give(gives, lanes@),
        decreases xs.len() + 1 - i,
    {
        assert(ready(lanes@.len() as int));
        match op(xs[i].duplicate(), xs[i + 1].duplicate()) {
            Ok(z) => {
                assert(gives(lanes@.len() as int, Ok(z)));
                lanes.push(z);
            },
            Err(e) => {
                assert(gives(lanes@.len() as int, Err(e)));
                assert(may_give(gives, n, Err(e)));
                return Err(e);
            },
        }
        i = i + 2;
    }
    let mut k: usize = 0;
    while k < ys.len()
        invariant
            k <= ys.len() || k == ys.len() + 1,
            k % 2 == 0,
            lanes.len() == pair_count(xs@.len()) + k / 2,
            n == pair_count(xs@.len()) + pair_count(ys@.len()),
            lanes_of(x, vector_type) == Eval::<Seq<V>, ValueError>::Value(xs@),
            lanes_of(y, vector_type) == Eval::<Seq<V>, ValueError>::Value(ys@),
            gives == pairwise_gives(op, xs@, ys@),
            ready == pairwise_accepts(op, xs@, ys@),
            lanes_ready(gives, ready, n),
            lanes_give(gives, lanes@),
        decreases ys.len() + 1 - k,
    {
        assert(ready(lanes@.len() as int));
        match op(ys[k].duplicate(), ys[k + 1].duplicate()) {
            Ok(z) => {
                assert(gives(lanes@.len() as int, Ok(z)));
                lanes.push(z);
            },
            Err(e) => {
                assert(gives(lanes@.len() as int, Err(e)));
                assert(may_give(gives, n, Err(e)));
                return Err(e);
            },
        }
        k = k + 2;
    }
    assert(may_give(gives, n, Ok(lanes@)));
    vectorizelanes(&lanes, vector_type)
}

/// Whether the operation accepts each accumulated value and lane that it meets, from `init` on.
pub open spec fn fold_accepts<V, F: FnMut(V, V) -> ValueResult<V>>(
    lanes: Seq<V>,
    init: V,
    op: F,
) -> bool
    decreases lanes.len(),
{
    lanes.len() > 0 ==> {
        &&& call_requires(op, (init, lanes.first()))
        &&& forall|acc: V| #[trigger]
            call_ensures(op, (init, lanes.first()), Ok(acc)) ==> fold_accepts(
                lanes.drop_first(),
                acc,
                op,
            )
    }
}

/// Whether combining `init` with the lanes, from the first to the last, may end in `v`.
pub open spec fn fold_may_be<V, F: FnMut(V, V) -> ValueResult<V>>(
    lanes: Seq<V>,
    init: V,
    op: F,
    v: ValueResult<V>,
) -> bool
    decreases lanes.len(),
{
    if lanes.len() == 0 {
        v == Ok::<V, ValueError>(init)
    } else {
        ||| v is Err && call_ensures(op, (init, lanes.first()), v)
        ||| exists|acc: V| #[trigger]
            call_ensures(op, (init, lanes.first()), Ok(acc)) && fold_may_be(
                lanes.drop_first(),
                acc,
                op,
                v,
            )
    }
}

/// Whether [fold_vector] can be performed.
pub open spec fn fold_domain<V: Value, F: FnMut(V, V) -> ValueResult<V>>(
    v: V,
    ty: Type,
    init: V,
    op: F,
) -> bool {
    match lanes_of(v, ty) {
        Eval::Value(lanes) => fold_accepts(lanes, init, op),
        Eval::Error(_) => true,
        Eval::Undefined => false,
    }
}

/// What [fold_vector] may give.
pub open spec fn folded_may_be<V: Value, F: FnMut(V, V) -> ValueResult<V>>(
    v: V,
    ty: Type,
    init: V,
    op: F,
    r: ValueResult<V>,
) -> bool {
    match lanes_of(v, ty) {
        Eval::Value(lanes) => fold_may_be(lanes, init, op, r),
        Eval::Error(e) => r == Err::<V, ValueError>(e),
        Eval::Undefined => false,
    }
}

/// Performs a lanewise fold on a vector type
pub fn fold_vector<V: Value, F: FnMut(V, V) -> ValueResult<V>>(
    v: V,
    ty: Type,
    init: V,
    op: F,
) -> (r: ValueResult<V>)
    requires
        fold_domain(v, ty, init, op),
    ensures
        folded_may_be(v, ty, init, op, r),
{
    let lanes: Vec<V> = extractlanes(&v, ty)?;
    let mut combine: F = op;
    let mut acc: V = init;
    let mut i: usize = 0;
    assert(lanes@.skip(0) =~= lanes@);
    while i < lanes.len()
        invariant
            i <= lanes.len(),
            combine == op,
            lanes_of(v, ty) == Eval::<Seq<V>, ValueError>::Value(lanes@),
            fold_accepts(lanes@.skip(i as int), acc, op),
            forall|r: ValueResult<V>|
                fold_may_be(lanes@.skip(i as int), acc, op, r) ==> #[trigger] fold_may_be(
                    lanes@,
                    init,
                    op,
                    r,
                ),
        decreases lanes.len() - i,
    {
        let ghost rest = lanes@.skip(i as int);
        let ghost before = acc;
        assert(rest.first() == lanes@[i as int]);
        assert(rest.drop_first() =~= lanes@.skip(i + 1));
        match combine(acc, lanes[i].duplicate()) {
            Ok(next) => {
                assert(call_ensures(op, (before, rest.first()), Ok(next)));
                acc = next;
            },
            Err(e) => {
                assert(fold_may_be(rest, before, op, Err(e)));
                assert(fold_may_be(lanes@, init, op, Err(e)));
                return Err(e);
            },
        }
        i = i + 1;
    }
    assert(fold_may_be(lanes@.skip(i as int), acc, op, Ok(acc)));
    assert(fold_may_be(lanes@, init, op, Ok(acc)));
    Ok(acc)
}

} // verus!
