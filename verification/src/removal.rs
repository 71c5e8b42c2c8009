//! Removing several positions from a list at once.

use vstd::prelude::*;

verus! {

/// `position` is one of `positions`.
pub open spec fn is_listed(positions: Seq<usize>, position: int) -> bool {
    exists|j: int| 0 <= j < positions.len() && #[trigger] positions[j] == position
}

/// The items of `list` whose positions are not listed, in their order.
pub open spec fn without<T>(list: Seq<T>, positions: Seq<usize>) -> Seq<T>
    decreases list.len(),
{
    if list.len() == 0 {
        list
    } else {
        let earlier = without(list.drop_last(), positions);
        if is_listed(positions, list.len() - 1) {
            earlier
        } else {
            earlier.push(list.last())
        }
    }
}

/// Positions in a list of `len` items, in increasing order and each named once.
pub open spec fn are_positions(positions: Seq<usize>, len: nat) -> bool {
    &&& forall|j: int| 0 <= j < positions.len() ==> #[trigger] positions[j] < len
    &&& forall|j: int, k: int|
        0 <= j < k < positions.len() ==> #[trigger] positions[j] < #[trigger] positions[k]
}

/// Which items stay depends on their positions alone: converting each item and removing
/// positions can be done in either order.
pub proof fn law_without_maps<T, U>(list: Seq<T>, positions: Seq<usize>, convert: spec_fn(T) -> U)
    ensures
        without(list, positions).map_values(convert) == without(
            list.map_values(convert),
            positions,
        ),
    decreases list.len(),
{
    let converted = list.map_values(convert);
    if list.len() > 0 {
        law_without_maps(list.drop_last(), positions, convert);
        assert(converted.drop_last() =~= list.drop_last().map_values(convert));
    }
    assert(without(list, positions).map_values(convert) =~= without(converted, positions));
}

/// Positions at or above `bound` leave what stands below `bound` in place.
proof fn lemma_without_keeps_front<T>(list: Seq<T>, positions: Seq<usize>, bound: int)
    requires
        0 <= bound <= list.len(),
        forall|j: int| 0 <= j < positions.len() ==> bound <= #[trigger] positions[j],
    ensures
        without(list, positions).len() >= bound,
        without(list, positions).take(bound) == list.take(bound),
    decreases list.len(),
{
    if list.len() > 0 {
        let front = list.drop_last();
        if bound <= front.len() {
            lemma_without_keeps_front(front, positions, bound);
            assert(list.take(bound) =~= front.take(bound));
            assert(without(list, positions).take(bound) =~= without(front, positions).take(bound));
        } else {
            lemma_without_keeps_front(front, positions, bound - 1);
            assert(!is_listed(positions, list.len() - 1));
            assert(front.take(bound - 1) =~= front);
            lemma_without_bound(front, positions);
            assert(without(front, positions).take(bound - 1) =~= without(front, positions));
            assert(without(list, positions).take(bound) =~= list.take(bound));
        }
    }
}

/// Nothing is added.
proof fn lemma_without_bound<T>(list: Seq<T>, positions: Seq<usize>)
    ensures
        without(list, positions).len() <= list.len(),
    decreases list.len(),
{
    if list.len() > 0 {
        lemma_without_bound(list.drop_last(), positions);
    }
}

/// No positions, no removal.
proof fn lemma_without_none<T>(list: Seq<T>)
    ensures
        without(list, Seq::<usize>::empty()) == list,
    decreases list.len(),
{
    if list.len() > 0 {
        lemma_without_none(list.drop_last());
        assert(without(list, Seq::<usize>::empty()) =~= list);
    }
}

/// With every other position above `first`, removing `first` comes last and hits
/// the item that stood there from the start.
proof fn lemma_without_first<T>(list: Seq<T>, first: usize, rest: Seq<usize>)
    requires
        first < list.len(),
        forall|j: int| 0 <= j < rest.len() ==> first < #[trigger] rest[j],
    ensures
        first < without(list, rest).len(),
        without(list, seq![first] + rest) == without(list, rest).remove(first as int),
    decreases list.len(),
{
    let positions = seq![first] + rest;
    let front = list.drop_last();
    let last = list.len() - 1;
    lemma_without_keeps_front(list, rest, first + 1);
    assert(positions[0] == first);
    assert(is_listed(positions, last) <==> last == first || is_listed(rest, last)) by {
        if is_listed(rest, last) {
            let j = choose|j: int| 0 <= j < rest.len() && rest[j] == last;
            assert(positions[j + 1] == last);
        }
        if is_listed(positions, last) && last != first {
            let j = choose|j: int| 0 <= j < positions.len() && positions[j] == last;
            assert(rest[j - 1] == last);
        }
    }
    if first == last {
        assert(!is_listed(rest, last));
        lemma_without_keeps_front(front, rest, last);
        lemma_without_bound(front, rest);
        lemma_same_below(front, positions, rest);
        assert(without(list, rest).remove(last) =~= without(front, rest));
    } else {
        lemma_without_first(front, first, rest);
        assert(without(list, positions) =~= without(list, rest).remove(first as int));
    }
}

/// Only the positions that lie in the list matter.
proof fn lemma_same_below<T>(list: Seq<T>, left: Seq<usize>, right: Seq<usize>)
    requires
        forall|i: int| 0 <= i < list.len() ==> is_listed(left, i) == is_listed(right, i),
    ensures
        without(list, left) == without(list, right),
    decreases list.len(),
{
    if list.len() > 0 {
        lemma_same_below(list.drop_last(), left, right);
    }
}

/// Removes the listed positions from the list, from the last to the first.
pub fn remove_positions<T>(list: &mut Vec<T>, positions: &Vec<usize>)
    requires
        are_positions(positions@, old(list)@.len()),
    ensures
        final(list)@ == without(old(list)@, positions@),
{
    let ghost original = list@;
    let mut left: usize = positions.len();
    proof {
        lemma_without_none(original);
        assert(positions@.skip(left as int) =~= Seq::<usize>::empty());
    }
    while left > 0
        invariant
            left <= positions@.len(),
            are_positions(positions@, original.len()),
            list@ == without(original, positions@.skip(left as int)),
        decreases left,
    {
        left = left - 1;
        proof {
            let rest = positions@.skip(left + 1);
            assert forall|j: int| 0 <= j < rest.len() implies positions@[left as int]
                < #[trigger] rest[j] by {
                assert(rest[j] == positions@[left + 1 + j]);
            }
            lemma_without_first(original, positions@[left as int], rest);
            assert(positions@.skip(left as int) =~= seq![positions@[left as int]] + rest);
        }
        list.remove(positions[left]);
    }
    assert(positions@.skip(0) =~= positions@);
}

/// As many items go as positions are listed. So listing none changes nothing, and
/// listing all leaves nothing.
pub proof fn law_without_counts<T>(list: Seq<T>, positions: Seq<usize>)
    requires
        are_positions(positions, list.len()),
    ensures
        positions.len() <= list.len(),
        without(list, positions).len() == list.len() - positions.len(),
        positions.len() == 0 ==> without(list, positions) == list,
    decreases positions.len(),
{
    if positions.len() == 0 {
        assert(positions =~= Seq::empty());
        lemma_without_none(list);
    } else {
        let first = positions[0];
        let rest = positions.skip(1);
        assert forall|j: int| 0 <= j < rest.len() implies first < #[trigger] rest[j] by {
            assert(rest[j] == positions[j + 1]);
        }
        assert(positions =~= seq![first] + rest);
        assert(are_positions(rest, list.len())) by {
            assert forall|j: int, k: int| 0 <= j < k < rest.len() implies #[trigger] rest[j]
                < #[trigger] rest[k] by {
                assert(rest[j] == positions[j + 1] && rest[k] == positions[k + 1]);
            }
            assert forall|j: int| 0 <= j < rest.len() implies #[trigger] rest[j] < list.len() by {
                assert(rest[j] == positions[j + 1]);
            }
        }
        law_without_counts(list, rest);
        lemma_without_first(list, first, rest);
    }
}

/// Removing positions is removing the others and then the first: it is the item that
/// stood there from the start, and every other item stays in its order.
pub proof fn law_without_first<T>(list: Seq<T>, positions: Seq<usize>)
    requires
        are_positions(positions, list.len()),
        positions.len() > 0,
    ensures
        are_positions(positions.skip(1), list.len()),
        positions[0] < without(list, positions.skip(1)).len(),
        without(list, positions.skip(1))[positions[0] as int] == list[positions[0] as int],
        without(list, positions) == without(list, positions.skip(1)).remove(positions[0] as int),
{
    let first = positions[0];
    let rest = positions.skip(1);
    assert forall|j: int| 0 <= j < rest.len() implies first < #[trigger] rest[j] by {
        assert(rest[j] == positions[j + 1]);
    }
    assert(positions =~= seq![first] + rest);
    lemma_without_first(list, first, rest);
    lemma_without_keeps_front(list, rest, first + 1);
    assert(without(list, rest).take(first + 1)[first as int] == list.take(first + 1)[first as int]);
}

/// Any positions of the list can be removed that are named in increasing order.
pub proof fn law_positions(positions: Seq<usize>, len: nat)
    ensures
        are_positions(positions, len) <==> {
            &&& positions.len() > 0 ==> positions.last() < len
            &&& forall|j: int, k: int|
                0 <= j < k < positions.len() ==> #[trigger] positions[j] < #[trigger] positions[k]
        },
{
    if forall|j: int, k: int|
        0 <= j < k < positions.len() ==> #[trigger] positions[j] < #[trigger] positions[k] {
        if positions.len() > 0 && positions.last() < len {
            assert forall|j: int| 0 <= j < positions.len() implies #[trigger] positions[j]
                < len by {
                if j < positions.len() - 1 {
                    assert(positions[j] < positions[positions.len() - 1]);
                }
            }
        }
    }
}

} // verus!
