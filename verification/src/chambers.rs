//! The cylinder as a sequence of chambers: counting the loaded ones and
//! placing bullets at chosen positions.

use vstd::prelude::*;
use vstd::seq_lib::*;

verus! {

/// Number of loaded chambers in `chambers`.
pub open spec fn count_loaded(chambers: Seq<bool>) -> nat {
    chambers.to_multiset().count(true)
}

/// Number of empty chambers in `chambers`.
pub open spec fn count_empty(chambers: Seq<bool>) -> nat {
    chambers.to_multiset().count(false)
}

/// Whether `picked` names chamber `index`.
pub open spec fn is_picked(picked: Seq<usize>, index: int) -> bool {
    exists|k: int| 0 <= k < picked.len() && #[trigger] picked[k] == index
}

/// A selection of chambers names distinct chambers of a cylinder with
/// `length` chambers.
pub open spec fn is_selection(picked: Seq<usize>, length: nat) -> bool {
    &&& forall|k: int| 0 <= k < picked.len() ==> #[trigger] picked[k] < length
    &&& forall|j: int, k: int| 0 <= j < k < picked.len() ==> picked[j] != picked[k]
}

/// The cylinder with `length` chambers in which exactly the picked chambers
/// are loaded.
pub open spec fn pattern(length: nat, picked: Seq<usize>) -> Seq<bool> {
    Seq::new(length, |index: int| is_picked(picked, index))
}

/// One more chamber adds one to the count if it is loaded.
pub proof fn lemma_count_push(chambers: Seq<bool>, loaded: bool)
    ensures
        count_loaded(chambers.push(loaded)) == count_loaded(chambers) + if loaded {
            1nat
        } else {
            0nat
        },
        count_empty(chambers.push(loaded)) == count_empty(chambers) + if loaded {
            0nat
        } else {
            1nat
        },
{
    broadcast use vstd::multiset::group_multiset_axioms;

    to_multiset_build(chambers, loaded);
}

/// Every chamber is either loaded or empty.
pub proof fn lemma_loaded_and_empty(chambers: Seq<bool>)
    ensures
        count_loaded(chambers) + count_empty(chambers) == chambers.len(),
    decreases chambers.len(),
{
    broadcast use vstd::multiset::group_multiset_axioms;

    if chambers.len() == 0 {
        to_multiset_len(chambers);
        assert(chambers.to_multiset() =~= vstd::multiset::Multiset::<bool>::empty());
    } else {
        lemma_loaded_and_empty(chambers.drop_last());
        lemma_count_push(chambers.drop_last(), chambers.last());
        assert(chambers.drop_last().push(chambers.last()) =~= chambers);
    }
}

/// No chamber is loaded exactly when the count is zero.
pub proof fn lemma_count_zero(chambers: Seq<bool>)
    ensures
        count_loaded(chambers) == 0 <==> forall|i: int|
            0 <= i < chambers.len() ==> !#[trigger] chambers[i],
{
    to_multiset_contains(chambers, true);
    if count_loaded(chambers) == 0 {
        assert forall|i: int| 0 <= i < chambers.len() implies !#[trigger] chambers[i] by {
            if chambers[i] {
                assert(chambers.contains(true));
            }
        }
    }
}

/// A cylinder whose chambers are all loaded holds as many bullets as
/// chambers.
pub proof fn lemma_count_full(chambers: Seq<bool>)
    requires
        forall|i: int| 0 <= i < chambers.len() ==> #[trigger] chambers[i],
    ensures
        count_loaded(chambers) == chambers.len(),
        count_empty(chambers) == 0,
    decreases chambers.len(),
{
    lemma_loaded_and_empty(chambers);
    if chambers.len() > 0 {
        lemma_count_full(chambers.drop_last());
        lemma_count_push(chambers.drop_last(), chambers.last());
        assert(chambers.drop_last().push(chambers.last()) =~= chambers);
    }
}

/// The chambers from `from` on hold the chamber at `from` and those after it.
pub proof fn lemma_count_skip(chambers: Seq<bool>, from: int)
    requires
        0 <= from < chambers.len(),
    ensures
        count_loaded(chambers.skip(from)) == count_loaded(chambers.skip(from + 1)) + if chambers[from] {
            1nat
        } else {
            0nat
        },
{
    broadcast use vstd::multiset::group_multiset_axioms;

    let rest = chambers.skip(from);
    to_multiset_remove(rest, 0);
    assert(rest.remove(0) =~= chambers.skip(from + 1));
    assert(rest[0] == chambers[from]);
    to_multiset_contains(rest, rest[0]);
    assert(rest.contains(rest[0]));
}

/// Loading an empty chamber adds one to the count.
pub proof fn lemma_count_load(chambers: Seq<bool>, index: int)
    requires
        0 <= index < chambers.len(),
        !chambers[index],
    ensures
        count_loaded(chambers.update(index, true)) == count_loaded(chambers) + 1,
{
    broadcast use vstd::multiset::group_multiset_axioms;

    to_multiset_update(chambers, index, true);
}

/// A selection loads as many chambers as it names.
pub proof fn lemma_pattern_count(length: nat, picked: Seq<usize>)
    requires
        is_selection(picked, length),
    ensures
        count_loaded(pattern(length, picked)) == picked.len(),
        count_empty(pattern(length, picked)) == length - picked.len(),
    decreases picked.len(),
{
    lemma_loaded_and_empty(pattern(length, picked));
    if picked.len() == 0 {
        lemma_count_zero(pattern(length, picked));
    } else {
        let before = picked.drop_last();
        let last = picked.last() as int;
        lemma_pattern_count(length, before);
        assert(!is_picked(before, last));
        lemma_pattern_step(length, before, picked.last());
        assert(before.push(picked.last()) =~= picked);
        lemma_count_load(pattern(length, before), last);
    }
}

/// Naming one more chamber loads that chamber and changes no other.
pub proof fn lemma_pattern_step(length: nat, picked: Seq<usize>, next: usize)
    requires
        next < length,
    ensures
        pattern(length, picked.push(next)) == pattern(length, picked).update(next as int, true),
{
    let more = picked.push(next);
    assert forall|index: int| 0 <= index < length implies is_picked(more, index) == (index == next
        || is_picked(picked, index)) by {
        if is_picked(picked, index) {
            let k = choose|k: int| 0 <= k < picked.len() && #[trigger] picked[k] == index;
            assert(more[k] == index);
        }
        if index == next {
            assert(more[picked.len() as int] == index);
        }
        if is_picked(more, index) {
            let k = choose|k: int| 0 <= k < more.len() && #[trigger] more[k] == index;
            if k < picked.len() {
                assert(picked[k] == index);
            }
        }
    }
    assert(pattern(length, more) =~= pattern(length, picked).update(next as int, true));
}

/// The cylinder with `length` chambers that are all loaded: the one way to
/// place as many bullets as there are chambers.
pub fn fill(length: usize) -> (chambers: Vec<bool>)
    ensures
        chambers@ == Seq::new(length as nat, |index: int| true),
        count_loaded(chambers@) == length,
        count_empty(chambers@) == 0,
{
    let mut chambers: Vec<bool> = Vec::new();
    let mut filled: usize = 0;
    while filled < length
        invariant
            filled <= length,
            chambers@.len() == filled,
            forall|i: int| 0 <= i < filled ==> #[trigger] chambers@[i],
        decreases length - filled,
    {
        chambers.push(true);
        filled = filled + 1;
    }
    proof {
        lemma_count_full(chambers@);
        assert(chambers@ =~= Seq::new(length as nat, |index: int| true));
    }
    chambers
}

/// Places a bullet in each picked chamber of an empty cylinder with `length`
/// chambers.
///
/// Returns the cylinder when `picked` is a selection: every index lies below
/// `length` and none occurs twice. Returns `None` otherwise.
pub fn place(length: usize, picked: &[usize]) -> (placed: Option<Vec<bool>>)
    ensures
        placed is Some <==> is_selection(picked@, length as nat),
        placed matches Some(chambers) ==> chambers@ == pattern(length as nat, picked@),
{
    let mut chambers: Vec<bool> = Vec::new();
    let mut filled: usize = 0;
    while filled < length
        invariant
            filled <= length,
            chambers@.len() == filled,
            forall|i: int| 0 <= i < filled ==> !#[trigger] chambers@[i],
        decreases length - filled,
    {
        chambers.push(false);
        filled = filled + 1;
    }
    assert(chambers@ =~= pattern(length as nat, picked@.take(0)));
    let count = picked.len();
    let mut done: usize = 0;
    while done < count
        invariant
            done <= count,
            count == picked@.len(),
            is_selection(picked@.take(done as int), length as nat),
            chambers@ == pattern(length as nat, picked@.take(done as int)),
        decreases count - done,
    {
        let index = picked[done];
        let ghost before = picked@.take(done as int);
        if index >= length {
            assert(!is_selection(picked@, length as nat));
            return None;
        }
        if chambers[index] {
            proof {
                let k = choose|k: int| 0 <= k < before.len() && #[trigger] before[k] == index;
                assert(picked@[k] == picked@[done as int]);
            }
            return None;
        }
        chambers.set(index, true);
        proof {
            assert(picked@.take(done + 1) =~= before.push(index));
            lemma_pattern_step(length as nat, before, index);
            assert forall|j: int, k: int| 0 <= j < k < done + 1 implies before.push(index)[j]
                != before.push(index)[k] by {
                if k == done {
                    assert(!is_picked(before, index as int));
                }
            }
        }
        done = done + 1;
    }
    assert(picked@.take(count as int) =~= picked@);
    Some(chambers)
}

} // verus!
