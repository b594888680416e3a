//! The order of texts, and sorting by it.

use vstd::prelude::*;

use crate::text::{chars_of, texts_of};

verus! {

/// Whether `a` stands before `b` in the dictionary: at the first position where they
/// differ, `a` has the smaller character, or `a` ends there and `b` does not.
pub open spec fn text_before(a: Seq<char>, b: Seq<char>) -> bool
    decreases a.len(),
{
    if b.len() == 0 {
        false
    } else if a.len() == 0 {
        true
    } else if a[0] != b[0] {
        a[0] < b[0]
    } else {
        text_before(a.skip(1), b.skip(1))
    }
}

/// Whether `a` equals `b` or stands before it in the dictionary.
pub open spec fn text_not_after(a: Seq<char>, b: Seq<char>) -> bool {
    !text_before(b, a)
}

/// Of two texts, at most one stands before the other.
pub proof fn lemma_text_before_is_asymmetric(a: Seq<char>, b: Seq<char>)
    ensures
        !(text_before(a, b) && text_before(b, a)),
    decreases a.len(),
{
    if a.len() > 0 && b.len() > 0 && a[0] == b[0] {
        lemma_text_before_is_asymmetric(a.skip(1), b.skip(1));
    }
}

/// The order of the dictionary is transitive.
pub proof fn lemma_text_not_after_is_transitive(a: Seq<char>, b: Seq<char>, c: Seq<char>)
    requires
        text_not_after(a, b),
        text_not_after(b, c),
    ensures
        text_not_after(a, c),
    decreases a.len(),
{
    if a.len() > 0 && b.len() > 0 && c.len() > 0 && a[0] == b[0] && b[0] == c[0] {
        lemma_text_not_after_is_transitive(a.skip(1), b.skip(1), c.skip(1));
    }
}

/// Whether `a` stands before `b` in the dictionary.
pub fn stands_before(a: &str, b: &str) -> (before: bool)
    ensures
        before == text_before(a@, b@),
{
    let first = chars_of(a);
    let second = chars_of(b);
    let mut i: usize = 0;
    assert(a@.skip(0) =~= a@);
    assert(b@.skip(0) =~= b@);
    while i < first.len() && i < second.len()
        invariant
            i <= first.len(),
            i <= second.len(),
            first@ == a@,
            second@ == b@,
            text_before(a@, b@) == text_before(a@.skip(i as int), b@.skip(i as int)),
        decreases first.len() - i,
    {
        proof {
            assert(a@.skip(i as int).skip(1) =~= a@.skip(i + 1));
            assert(b@.skip(i as int).skip(1) =~= b@.skip(i + 1));
        }
        if first[i] != second[i] {
            return first[i] < second[i];
        }
        i += 1;
    }
    i < second.len()
}

/// Whether `positions` holds each position below `count` exactly once.
pub open spec fn is_permutation(positions: Seq<usize>, count: nat) -> bool {
    &&& positions.len() == count
    &&& forall|i: int| 0 <= i < positions.len() ==> (#[trigger] positions[i]) < count
    &&& forall|i: int, j: int|
        0 <= i < positions.len() && 0 <= j < positions.len() && i != j ==> #[trigger] positions[i]
            != #[trigger] positions[j]
}

/// Whether the keys at `positions` stand in the order of the dictionary.
pub open spec fn is_sorted(positions: Seq<usize>, keys: Seq<Seq<char>>) -> bool {
    forall|i: int, j: int|
        0 <= i < j < positions.len() ==> text_not_after(
            keys[#[trigger] positions[i] as int],
            keys[#[trigger] positions[j] as int],
        )
}

/// Whether positions with equal keys stand in increasing order.
pub open spec fn is_stable(positions: Seq<usize>, keys: Seq<Seq<char>>) -> bool {
    forall|i: int, j: int|
        0 <= i < j < positions.len() && keys[#[trigger] positions[i] as int]
            == keys[#[trigger] positions[j] as int] ==> positions[i] < positions[j]
}

/// The positions of `keys` in the order of the dictionary of the keys. Positions with
/// equal keys keep their order.
pub fn sorted_positions(keys: &Vec<String>) -> (positions: Vec<usize>)
    ensures
        is_permutation(positions@, keys.len() as nat),
        is_sorted(positions@, texts_of(keys@)),
        is_stable(positions@, texts_of(keys@)),
{
    let ghost texts = texts_of(keys@);
    let mut positions: Vec<usize> = Vec::new();
    let mut i: usize = 0;
    while i < keys.len()
        invariant
            i <= keys.len(),
            texts == texts_of(keys@),
            is_permutation(positions@, i as nat),
            is_sorted(positions@, texts),
            is_stable(positions@, texts),
        decreases keys.len() - i,
    {
        let mut j: usize = positions.len();
        while j > 0 && stands_before(keys[i].as_str(), keys[positions[j - 1]].as_str())
            invariant
                j <= positions.len(),
                i < keys.len(),
                texts == texts_of(keys@),
                is_permutation(positions@, i as nat),
                forall|k: int|
                    j <= k < positions.len() ==> text_before(
                        texts[i as int],
                        texts[#[trigger] positions[k] as int],
                    ),
            decreases j,
        {
            j -= 1;
        }
        let ghost before = positions@;
        positions.insert(j, i);
        proof {
            let after = positions@;
            assert forall|a: int, b: int|
                0 <= a < b < after.len() && texts[#[trigger] after[a] as int]
                    == texts[#[trigger] after[b] as int] implies after[a] < after[b] by {
                if a == j {
                    lemma_text_before_is_asymmetric(texts[i as int], texts[before[b - 1] as int]);
                }
            }
            assert forall|a: int, b: int| 0 <= a < b < after.len() implies text_not_after(
                texts[#[trigger] after[a] as int],
                texts[#[trigger] after[b] as int],
            ) by {
                if b == j {
                    if a < j - 1 {
                        lemma_text_not_after_is_transitive(
                            texts[before[a] as int],
                            texts[before[j - 1] as int],
                            texts[i as int],
                        );
                    }
                } else if a == j {
                    lemma_text_before_is_asymmetric(texts[i as int], texts[before[b - 1] as int]);
                }
            }
        }
        i += 1;
    }
    positions
}

} // verus!
