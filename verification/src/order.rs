//! The order in which an object hands out its keys: ascending, as `String`
//! orders them, which is character by character.

use vstd::prelude::*;

verus! {

/// Whether text `a` stands before text `b`: at the first place where they
/// differ `a` has the lesser character, or `a` ends there and `b` goes on.
pub open spec fn text_before(a: Seq<char>, b: Seq<char>) -> bool
    decreases a.len(),
{
    if b.len() == 0 {
        false
    } else if a.len() == 0 {
        true
    } else if a[0] != b[0] {
        a[0] < b[0]
    } else {
        text_before(a.skip(1), b.skip(1))
    }
}

/// Whether the texts of a list stand in strictly ascending order.
pub open spec fn ascending(list: Seq<Seq<char>>) -> bool {
    forall|i: int, j: int|
        0 <= i < j < list.len() ==> text_before(#[trigger] list[i], #[trigger] list[j])
}

/// The keys of a set in ascending order.
pub open spec fn key_order(keys: Set<Seq<char>>) -> Seq<Seq<char>> {
    choose|list: Seq<Seq<char>>| ascending(list) && list.to_set() == keys
}

/// Of two texts at most one stands before the other, and none before itself.
pub proof fn lemma_before_is_one_way(a: Seq<char>, b: Seq<char>)
    ensures
        !(text_before(a, b) && text_before(b, a)),
        !text_before(a, a),
    decreases a.len(),
{
    if a.len() > 0 && b.len() > 0 && a[0] == b[0] {
        lemma_before_is_one_way(a.skip(1), b.skip(1));
    }
    if a.len() > 0 {
        lemma_before_is_one_way(a.skip(1), a.skip(1));
    }
}

/// An ascending list holds no text twice.
pub proof fn lemma_ascending_is_distinct(list: Seq<Seq<char>>)
    requires
        ascending(list),
    ensures
        list.no_duplicates(),
{
    assert forall|i: int, j: int|
        0 <= i < list.len() && 0 <= j < list.len() && i != j implies list[i] != list[j] by {
        lemma_before_is_one_way(list[i], list[i]);
        if i < j {
            assert(text_before(list[i], list[j]));
        } else {
            assert(text_before(list[j], list[i]));
        }
    }
}

/// There is one ascending order of a set of keys: two ascending lists of the
/// same texts are the same list.
pub proof fn lemma_ascending_is_unique(one: Seq<Seq<char>>, other: Seq<Seq<char>>)
    requires
        ascending(one),
        ascending(other),
        one.to_set() == other.to_set(),
    ensures
        one == other,
    decreases one.len(),
{
    lemma_ascending_is_distinct(one);
    lemma_ascending_is_distinct(other);
    one.unique_seq_to_set();
    other.unique_seq_to_set();
    assert(one.len() == other.len());
    if one.len() == 0 {
        assert(one =~= other);
    } else {
        let n = one.len() - 1;
        let a = one[n];
        let b = other[n];
        assert(a == b) by {
            assert(one.contains(a));
            assert(one.to_set().contains(a));
            assert(other.contains(a));
            let j = choose|j: int| 0 <= j < other.len() && other[j] == a;
            assert(other.contains(b));
            assert(other.to_set().contains(b));
            assert(one.contains(b));
            let i = choose|i: int| 0 <= i < one.len() && one[i] == b;
            lemma_before_is_one_way(a, b);
            if j < n && i < n {
                assert(text_before(other[j], other[n]));
                assert(text_before(one[i], one[n]));
            }
        }
        let front = one.drop_last();
        let back = other.drop_last();
        assert(ascending(front)) by {
            assert forall|i: int, j: int| 0 <= i < j < front.len() implies text_before(
                #[trigger] front[i],
                #[trigger] front[j],
            ) by {
                assert(text_before(one[i], one[j]));
            }
        }
        assert(ascending(back)) by {
            assert forall|i: int, j: int| 0 <= i < j < back.len() implies text_before(
                #[trigger] back[i],
                #[trigger] back[j],
            ) by {
                assert(text_before(other[i], other[j]));
            }
        }
        assert(front.to_set() =~= back.to_set()) by {
            assert forall|x: Seq<char>| front.to_set().contains(x) == back.to_set().contains(
                x,
            ) by {
                lemma_before_is_one_way(x, x);
                if front.contains(x) {
                    let i = choose|i: int| 0 <= i < front.len() && front[i] == x;
                    assert(one[i] == x);
                    assert(one.contains(x));
                    assert(one.to_set().contains(x));
                    assert(other.contains(x));
                    let j = choose|j: int| 0 <= j < other.len() && other[j] == x;
                    if j == n {
                        assert(text_before(one[i], one[n]));
                    }
                    assert(back[j] == x);
                    assert(back.contains(x));
                }
                if back.contains(x) {
                    let j = choose|j: int| 0 <= j < back.len() && back[j] == x;
                    assert(other[j] == x);
                    assert(other.contains(x));
                    assert(other.to_set().contains(x));
                    assert(one.contains(x));
                    let i = choose|i: int| 0 <= i < one.len() && one[i] == x;
                    if i == n {
                        assert(text_before(other[j], other[n]));
                    }
                    assert(front[i] == x);
                    assert(front.contains(x));
                }
            }
        }
        lemma_ascending_is_unique(front, back);
        assert(one =~= front.push(a));
        assert(other =~= back.push(b));
    }
}

/// An ascending list of the keys of a set is the order of those keys.
pub proof fn lemma_key_order(list: Seq<Seq<char>>, keys: Set<Seq<char>>)
    requires
        ascending(list),
        list.to_set() == keys,
    ensures
        key_order(keys) == list,
{
    let chosen = key_order(keys);
    assert(ascending(chosen) && chosen.to_set() == keys);
    lemma_ascending_is_unique(chosen, list);
}

} // verus!
