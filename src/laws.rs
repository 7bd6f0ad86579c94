use vstd::prelude::*;

verus! {

/// The kinds a tracker has seen after it started with `seen` and was asked
/// about `kinds`, in order, through `CssOnce::is_rendered`.
pub open spec fn seen_after(seen: Set<Seq<char>>, kinds: Seq<Seq<char>>) -> Set<Seq<char>>
    decreases kinds.len(),
{
    if kinds.len() == 0 {
        seen
    } else {
        seen_after(seen, kinds.drop_last()).insert(kinds.last())
    }
}

/// The answer of `CssOnce::is_rendered` to the call at position `i` of
/// `kinds`, on a tracker that started with `seen`.
pub open spec fn answer_at(seen: Set<Seq<char>>, kinds: Seq<Seq<char>>, i: int) -> bool {
    seen_after(seen, kinds.take(i)).contains(kinds[i])
}

/// After a run of calls, a kind has been seen exactly when it was seen at
/// the start or was asked about.
pub proof fn lemma_seen_after(seen: Set<Seq<char>>, kinds: Seq<Seq<char>>, k: Seq<char>)
    ensures
        seen_after(seen, kinds).contains(k) <==> seen.contains(k) || kinds.contains(k),
    decreases kinds.len(),
{
    if kinds.len() > 0 {
        let rest = kinds.drop_last();
        lemma_seen_after(seen, rest, k);
        if rest.contains(k) {
            let j = choose|j: int| 0 <= j < rest.len() && rest[j] == k;
            assert(kinds[j] == k);
        }
        if kinds.contains(k) && k != kinds.last() {
            let j = choose|j: int| 0 <= j < kinds.len() && kinds[j] == k;
            assert(rest[j] == k);
        }
    }
}

/// A tracker's answer depends on its own starting set and on its own
/// earlier calls alone: a call is answered `true` exactly when the kind was
/// seen at the start or asked about before. No other tracker enters into it.
pub proof fn lemma_answer_from_own_calls(seen: Set<Seq<char>>, kinds: Seq<Seq<char>>, i: int)
    requires
        0 <= i < kinds.len(),
    ensures
        answer_at(seen, kinds, i) <==> seen.contains(kinds[i]) || kinds.take(i).contains(kinds[i]),
{
    lemma_seen_after(seen, kinds.take(i), kinds[i]);
}

/// On a fresh tracker, the first call for any kind answers `false`, whatever
/// calls for other kinds came before it.
pub proof fn lemma_first_call_not_rendered(kinds: Seq<Seq<char>>, i: int)
    requires
        0 <= i < kinds.len(),
        !kinds.take(i).contains(kinds[i]),
    ensures
        !answer_at(Set::empty(), kinds, i),
{
    lemma_answer_from_own_calls(Set::empty(), kinds, i);
}

/// Once a kind has been asked about, every later call for it answers `true`.
pub proof fn lemma_repeat_rendered(seen: Set<Seq<char>>, kinds: Seq<Seq<char>>, j: int, i: int)
    requires
        0 <= j < i < kinds.len(),
        kinds[j] == kinds[i],
    ensures
        answer_at(seen, kinds, i),
{
    assert(kinds.take(i)[j] == kinds[i]);
    lemma_answer_from_own_calls(seen, kinds, i);
}

/// A call for one kind does not change the answer for another kind.
pub proof fn lemma_other_kind_independent(seen: Set<Seq<char>>, k1: Seq<char>, k2: Seq<char>)
    requires
        k1 != k2,
    ensures
        answer_at(seen, seq![k1, k2], 1) == answer_at(seen, seq![k2], 0),
{
    lemma_answer_from_own_calls(seen, seq![k1, k2], 1);
    lemma_answer_from_own_calls(seen, seq![k2], 0);
    assert(seq![k1, k2].take(1) =~= seq![k1]);
    assert(seq![k2].take(0) =~= Seq::<Seq<char>>::empty());
    if seq![k1].contains(k2) {
        assert(seq![k1][0] == k2);
    }
}

/// Two kinds asked about in the order a, b, a, b on a fresh tracker are
/// answered `false` on their first calls and `true` on the repeats.
pub proof fn lemma_interleaved(a: Seq<char>, b: Seq<char>)
    requires
        a != b,
    ensures
        !answer_at(Set::empty(), seq![a, b, a, b], 0),
        !answer_at(Set::empty(), seq![a, b, a, b], 1),
        answer_at(Set::empty(), seq![a, b, a, b], 2),
        answer_at(Set::empty(), seq![a, b, a, b], 3),
{
    let kinds = seq![a, b, a, b];
    assert(kinds.take(0) =~= Seq::<Seq<char>>::empty());
    lemma_first_call_not_rendered(kinds, 0);
    assert(kinds.take(1) =~= seq![a]);
    if kinds.take(1).contains(b) {
        assert(kinds.take(1)[0] == b);
    }
    lemma_first_call_not_rendered(kinds, 1);
    lemma_repeat_rendered(Set::empty(), kinds, 0, 2);
    lemma_repeat_rendered(Set::empty(), kinds, 1, 3);
}

} // verus!
