//! Lemmas on sequences that the loops of this crate share.

use vstd::prelude::*;

verus! {

/// Mapping one element more maps the elements before it and then that one.
pub proof fn lemma_map_step<A, B>(s: Seq<A>, f: spec_fn(A) -> B, i: int)
    requires
        0 <= i < s.len(),
    ensures
        s.take(i + 1).map_values(f) == s.take(i).map_values(f).push(f(s[i])),
{
    assert(s.take(i + 1).map_values(f) =~= s.take(i).map_values(f).push(f(s[i])));
}

/// Mapping an element to a list and joining the lists: one element more adds
/// its list at the end.
pub proof fn lemma_flat_map_step<A, B>(s: Seq<A>, f: spec_fn(A) -> Seq<B>, i: int)
    requires
        0 <= i < s.len(),
    ensures
        s.take(i + 1).map_values(f).flatten() == s.take(i).map_values(f).flatten() + f(s[i]),
{
    lemma_map_step(s, f, i);
    s.take(i).map_values(f).lemma_flatten_push(f(s[i]));
}

/// Joining the lists of no element gives the empty list.
pub proof fn lemma_flat_map_empty<A, B>(s: Seq<A>, f: spec_fn(A) -> Seq<B>)
    ensures
        s.take(0).map_values(f).flatten() == Seq::<B>::empty(),
{
    assert(s.take(0).map_values(f) =~= Seq::<Seq<B>>::empty());
}

/// Mapping each element to a list and joining the lists: whatever is in the
/// result is in the list of some element.
pub proof fn lemma_flat_map_member<A, B>(s: Seq<A>, f: spec_fn(A) -> Seq<B>, k: int)
    requires
        0 <= k < s.map_values(f).flatten().len(),
    ensures
        exists|j: int|
            0 <= j < s.len() && f(#[trigger] s[j]).contains(s.map_values(f).flatten()[k]),
    decreases s.len(),
{
    if s.len() > 0 {
        let front = s.drop_last();
        let joined = front.map_values(f).flatten();
        assert(s.map_values(f) =~= front.map_values(f).push(f(s.last())));
        front.map_values(f).lemma_flatten_push(f(s.last()));
        if k < joined.len() {
            lemma_flat_map_member(front, f, k);
            let j = choose|j: int| 0 <= j < front.len() && f(#[trigger] front[j]).contains(joined[k]);
            assert(front[j] == s[j]);
            assert(f(s[j]).contains(s.map_values(f).flatten()[k]));
        } else {
            let m = k - joined.len();
            assert(f(s.last())[m] == s.map_values(f).flatten()[k]);
            assert(f(s[s.len() - 1]).contains(s.map_values(f).flatten()[k]));
        }
    }
}

/// Taking all of a sequence takes the sequence.
pub proof fn lemma_take_all<A>(s: Seq<A>)
    ensures
        s.take(s.len() as int) == s,
{
    assert(s.take(s.len() as int) =~= s);
}

} // verus!
