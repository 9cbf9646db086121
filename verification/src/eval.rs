//! The vocabulary in which contracts describe a computation: it yields a value, it fails with an
//! error, or its input lies outside the domain of the interpreter.
use vstd::prelude::*;

verus! {

/// The meaning of a computation.
#[verifier::ext_equal]
pub enum Eval<T, E> {
    /// The computation yields this value.
    Value(T),
    /// The computation fails with this error.
    Error(E),
    /// The input is outside the domain: the function that computes this excludes it by its
    /// precondition.
    Undefined,
}

impl<T, E> Eval<T, E> {
    /// Continue with `f` on the value, if there is one.
    pub open spec fn bind<U>(self, f: spec_fn(T) -> Eval<U, E>) -> Eval<U, E> {
        match self {
            Eval::Value(t) => f(t),
            Eval::Error(e) => Eval::Error(e),
            Eval::Undefined => Eval::Undefined,
        }
    }

    /// Whether the input is within the domain.
    pub open spec fn defined(self) -> bool {
        !(self is Undefined)
    }
}

/// The meaning of an executable result.
pub open spec fn eval<T, E>(r: Result<T, E>) -> Eval<T, E> {
    match r {
        Ok(t) => Eval::Value(t),
        Err(e) => Eval::Error(e),
    }
}

/// The meaning of an executable result that holds a list, by the elements of the list.
pub open spec fn eval_list<T, E>(r: Result<Vec<T>, E>) -> Eval<Seq<T>, E> {
    match r {
        Ok(t) => Eval::Value(t@),
        Err(e) => Eval::Error(e),
    }
}

/// The value of an option that is present on every input of the domain.
pub open spec fn present<T, E>(o: Option<T>) -> Eval<T, E> {
    match o {
        Some(t) => Eval::Value(t),
        None => Eval::Undefined,
    }
}

/// Evaluate all of `s` from left to right; the first one that has no value decides.
pub open spec fn sequence<T, E>(s: Seq<Eval<T, E>>) -> Eval<Seq<T>, E>
    decreases s.len(),
{
    if s.len() == 0 {
        Eval::Value(Seq::empty())
    } else {
        sequence(s.drop_last()).bind(|done: Seq<T>| s.last().bind(|t: T| Eval::Value(done.push(t))))
    }
}

/// One more element extends the evaluated prefix.
pub proof fn lemma_sequence_step<T, E>(s: Seq<Eval<T, E>>, i: int)
    requires
        0 <= i < s.len(),
    ensures
        sequence(s.take(i + 1)) == sequence(s.take(i)).bind(
            |done: Seq<T>| s[i].bind(|t: T| Eval::Value(done.push(t))),
        ),
{
    assert(s.take(i + 1).drop_last() =~= s.take(i));
    assert(s.take(i + 1).last() == s[i]);
}

/// Once a prefix has no value, it decides the whole.
pub proof fn lemma_sequence_absorb<T, E>(s: Seq<Eval<T, E>>, i: int)
    requires
        0 <= i <= s.len(),
        !(sequence(s.take(i)) is Value),
    ensures
        sequence(s) == sequence(s.take(i)),
    decreases s.len() - i,
{
    if i == s.len() {
        assert(s.take(i) =~= s);
    } else {
        lemma_sequence_step(s, i);
        lemma_sequence_absorb(s, i + 1);
    }
}

/// The first element without a value decides the whole.
pub proof fn lemma_sequence_stop<T, E>(s: Seq<Eval<T, E>>, i: int)
    requires
        0 <= i < s.len(),
        sequence(s.take(i)) is Value,
        !(s[i] is Value),
    ensures
        s[i] matches Eval::Error(e) ==> sequence(s) == Eval::<Seq<T>, E>::Error(e),
        s[i] is Undefined ==> sequence(s) is Undefined,
{
    lemma_sequence_step(s, i);
    lemma_sequence_absorb(s, i + 1);
}

/// A sequence has a value exactly if each of its elements has one, and the value lists theirs in
/// order.
pub proof fn lemma_sequence_value<T, E>(s: Seq<Eval<T, E>>)
    ensures
        sequence(s) is Value <==> (forall|i: int| 0 <= i < s.len() ==> (#[trigger] s[i]) is Value),
        sequence(s) matches Eval::Value(v) ==> v.len() == s.len() && (forall|i: int|
            0 <= i < s.len() ==> s[i] == Eval::<T, E>::Value(#[trigger] v[i])),
    decreases s.len(),
{
    if s.len() > 0 {
        let init = s.drop_last();
        lemma_sequence_value(init);
        assert(forall|i: int| 0 <= i < init.len() ==> init[i] == s[i]);
        assert(s[s.len() - 1] == s.last());
        if sequence(s) is Value {
            assert forall|i: int| 0 <= i < s.len() implies (#[trigger] s[i]) is Value by {
                if i < init.len() {
                    assert(init[i] is Value);
                }
            }
        } else if forall|i: int| 0 <= i < s.len() ==> (#[trigger] s[i]) is Value {
            assert forall|i: int| 0 <= i < init.len() implies (#[trigger] init[i]) is Value by {
                assert(s[i] is Value);
            }
        }
    }
}

/// A sequence of values evaluates to their list.
pub proof fn lemma_sequence_of_values<T, E>(s: Seq<Eval<T, E>>, values: Seq<T>)
    requires
        s.len() == values.len(),
        forall|i: int| 0 <= i < s.len() ==> (#[trigger] s[i]) == Eval::<T, E>::Value(values[i]),
    ensures
        sequence(s) == Eval::<Seq<T>, E>::Value(values),
{
    lemma_sequence_value(s);
    assert(sequence(s) is Value);
    let read = sequence(s)->Value_0;
    assert forall|i: int| 0 <= i < values.len() implies read[i] == values[i] by {
        assert(s[i] == Eval::<T, E>::Value(read[i]));
    }
    assert(read =~= values);
}

/// A sequence whose first elements are values evaluates to the error of the next one.
pub proof fn lemma_sequence_of_error<T, E>(s: Seq<Eval<T, E>>, k: int, e: E)
    requires
        0 <= k < s.len(),
        forall|i: int| 0 <= i < k ==> (#[trigger] s[i]) is Value,
        s[k] == Eval::<T, E>::Error(e),
    ensures
        sequence(s) == Eval::<Seq<T>, E>::Error(e),
{
    let first = s.take(k);
    assert forall|i: int| 0 <= i < first.len() implies (#[trigger] first[i]) is Value by {
        assert(first[i] == s[i]);
    }
    lemma_sequence_value(first);
    lemma_sequence_stop(s, k);
}

} // verus!
