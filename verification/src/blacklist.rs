//! The blacklist: the targets that no request may call, kept in the order
//! of their bytes, each once.

use vstd::prelude::*;
use vstd::utf8::{encode_utf8, encode_utf8_decode_utf8};
use crate::msg::texts_view;

verus! {

/// How many bytes two texts have in common at their start.
pub open spec fn common_prefix(a: Seq<u8>, b: Seq<u8>) -> int
    decreases a.len(),
{
    if a.len() == 0 || b.len() == 0 || a[0] != b[0] {
        0
    } else {
        1 + common_prefix(a.drop_first(), b.drop_first())
    }
}

/// Whether `a` comes before `b` in the order of bytes: at the first place
/// where they differ, `a` has ended or has the smaller byte.
pub open spec fn bytes_before(a: Seq<u8>, b: Seq<u8>) -> bool {
    let k = common_prefix(a, b);
    k < b.len() && (k == a.len() || a[k] < b[k])
}

/// Whether the text `a` comes before the text `b` in the order of their
/// bytes.
pub open spec fn text_before(a: Seq<char>, b: Seq<char>) -> bool {
    bytes_before(encode_utf8(a), encode_utf8(b))
}

/// Whether each text of the list comes before those behind it.
pub open spec fn ordered(list: Seq<Seq<char>>) -> bool {
    forall|i: int, j: int| 0 <= i < j < list.len() ==> text_before(list[i], list[j])
}

/// How many texts at the start of the list come before `text`: the place at
/// which `text` belongs in an ordered list.
pub open spec fn rank(list: Seq<Seq<char>>, text: Seq<char>) -> int
    decreases list.len(),
{
    if list.len() == 0 || !text_before(list[0], text) {
        0
    } else {
        1 + rank(list.drop_first(), text)
    }
}

/// The list with `target` on it: put at its place, unless it is there.
pub open spec fn with_target(list: Seq<Seq<char>>, target: Seq<char>) -> Seq<Seq<char>> {
    if list.contains(target) {
        list
    } else {
        list.insert(rank(list, target), target)
    }
}

/// The common start of two texts lies within both, they agree on it, and
/// behind it one has ended or they differ.
pub proof fn lemma_common_prefix(a: Seq<u8>, b: Seq<u8>)
    ensures
        0 <= common_prefix(a, b) <= a.len(),
        common_prefix(a, b) <= b.len(),
        forall|i: int| 0 <= i < common_prefix(a, b) ==> a[i] == b[i],
        common_prefix(a, b) == a.len() || common_prefix(a, b) == b.len() || a[common_prefix(a, b)]
            != b[common_prefix(a, b)],
    decreases a.len(),
{
    if a.len() == 0 || b.len() == 0 || a[0] != b[0] {
    } else {
        let x = a.drop_first();
        let y = b.drop_first();
        lemma_common_prefix(x, y);
        let k = common_prefix(x, y);
        assert forall|i: int| 0 <= i < k + 1 implies a[i] == b[i] by {
            if i > 0 {
                assert(a[i] == x[i - 1]);
                assert(b[i] == y[i - 1]);
            }
        }
        if k < x.len() && k < y.len() {
            assert(a[k + 1] == x[k]);
            assert(b[k + 1] == y[k]);
        }
    }
}

/// A length on which two texts agree and behind which they do not is the
/// length of their common start.
pub proof fn lemma_common_prefix_is(a: Seq<u8>, b: Seq<u8>, k: int)
    requires
        0 <= k <= a.len(),
        k <= b.len(),
        forall|i: int| 0 <= i < k ==> a[i] == b[i],
        k == a.len() || k == b.len() || a[k] != b[k],
    ensures
        common_prefix(a, b) == k,
{
    lemma_common_prefix(a, b);
}

/// The order of bytes is strict and total: no text comes before itself, the
/// order is transitive, and of two different texts one comes before the
/// other.
pub proof fn lemma_bytes_order(a: Seq<u8>, b: Seq<u8>, c: Seq<u8>)
    ensures
        !bytes_before(a, a),
        bytes_before(a, b) && bytes_before(b, c) ==> bytes_before(a, c),
        a != b ==> bytes_before(a, b) || bytes_before(b, a),
        !(bytes_before(a, b) && bytes_before(b, a)),
{
    lemma_common_prefix_is(a, a, a.len() as int);
    lemma_common_prefix(a, b);
    lemma_common_prefix(b, c);
    lemma_common_prefix(b, a);
    let k1 = common_prefix(a, b);
    let k2 = common_prefix(b, c);
    lemma_common_prefix_is(b, a, k1);
    if bytes_before(a, b) && bytes_before(b, c) {
        let k = if k1 <= k2 {
            k1
        } else {
            k2
        };
        lemma_common_prefix_is(a, c, k);
    }
    if a != b && k1 == a.len() && k1 == b.len() {
        assert(a =~= b);
    }
}

/// Texts with the same bytes are the same text.
pub proof fn lemma_same_bytes(a: Seq<char>, b: Seq<char>)
    requires
        encode_utf8(a) == encode_utf8(b),
    ensures
        a == b,
{
    encode_utf8_decode_utf8(a);
    encode_utf8_decode_utf8(b);
}

/// The order of texts is strict and total.
pub proof fn lemma_text_order(a: Seq<char>, b: Seq<char>, c: Seq<char>)
    ensures
        !text_before(a, a),
        text_before(a, b) && text_before(b, c) ==> text_before(a, c),
        a != b ==> text_before(a, b) || text_before(b, a),
        !(text_before(a, b) && text_before(b, a)),
{
    lemma_bytes_order(encode_utf8(a), encode_utf8(b), encode_utf8(c));
    if a != b && encode_utf8(a) == encode_utf8(b) {
        lemma_same_bytes(a, b);
    }
}

/// In an ordered list no text occurs twice.
pub proof fn lemma_ordered_distinct(list: Seq<Seq<char>>)
    requires
        ordered(list),
    ensures
        list.no_duplicates(),
{
    assert forall|i: int, j: int| 0 <= i < list.len() && 0 <= j < list.len() && i != j implies list[i]
        != list[j] by {
        lemma_text_order(list[i], list[j], list[i]);
        if i < j {
            assert(text_before(list[i], list[j]));
        } else {
            assert(text_before(list[j], list[i]));
        }
    }
}

/// A place before which every text comes before `text`, and at which the
/// list ends or a text does not, is the rank of `text`.
pub proof fn lemma_rank_is(list: Seq<Seq<char>>, text: Seq<char>, k: int)
    requires
        0 <= k <= list.len(),
        forall|j: int| 0 <= j < k ==> text_before(list[j], text),
        k == list.len() || !text_before(list[k], text),
    ensures
        rank(list, text) == k,
    decreases list.len(),
{
    if k > 0 {
        let rest = list.drop_first();
        assert(text_before(list[0], text));
        assert forall|j: int| 0 <= j < k - 1 implies text_before(rest[j], text) by {
            assert(rest[j] == list[j + 1]);
        }
        if k < list.len() {
            assert(rest[k - 1] == list[k]);
        }
        lemma_rank_is(rest, text, k - 1);
    }
}

/// The rank of a text lies within the list; the texts before it come before
/// the text, and the text at it, if any, does not.
pub proof fn lemma_rank(list: Seq<Seq<char>>, text: Seq<char>)
    ensures
        0 <= rank(list, text) <= list.len(),
        forall|j: int| 0 <= j < rank(list, text) ==> text_before(list[j], text),
        rank(list, text) == list.len() || !text_before(list[rank(list, text)], text),
    decreases list.len(),
{
    if list.len() == 0 || !text_before(list[0], text) {
    } else {
        let rest = list.drop_first();
        lemma_rank(rest, text);
        let k = rank(rest, text);
        assert forall|j: int| 0 <= j < k + 1 implies text_before(list[j], text) by {
            if j > 0 {
                assert(list[j] == rest[j - 1]);
            }
        }
        if k < rest.len() {
            assert(list[k + 1] == rest[k]);
        }
    }
}

/// In an ordered list, `text` is on the list exactly where it stands at its
/// rank.
pub proof fn lemma_found_at_rank(list: Seq<Seq<char>>, text: Seq<char>)
    requires
        ordered(list),
    ensures
        list.contains(text) <==> (rank(list, text) < list.len() && list[rank(list, text)] == text),
{
    lemma_rank(list, text);
    let k = rank(list, text);
    if list.contains(text) {
        let j = choose|j: int| 0 <= j < list.len() && list[j] == text;
        lemma_text_order(text, text, text);
        if j < k {
            assert(text_before(list[j], text));
        }
        if j > k {
            assert(text_before(list[k], list[j]));
        }
    }
}

/// Putting a target on an ordered list leaves it ordered.
pub proof fn lemma_with_target(list: Seq<Seq<char>>, target: Seq<char>)
    requires
        ordered(list),
    ensures
        ordered(with_target(list, target)),
        with_target(list, target).contains(target),
        forall|other: Seq<char>|
            other != target ==> (#[trigger] with_target(list, target).contains(other)
                <==> list.contains(other)),
{
    let after = with_target(list, target);
    let k = rank(list, target);
    lemma_rank(list, target);
    lemma_found_at_rank(list, target);
    if !list.contains(target) {
        assert(after[k] == target);
        assert forall|i: int, j: int| 0 <= i < j < after.len() implies text_before(after[i], after[j]) by {
            let i0 = if i < k { i } else { i - 1 };
            let j0 = if j < k { j } else { j - 1 };
            if i == k {
                // the target against a text behind it
                assert(after[j] == list[j0]);
                lemma_text_order(target, list[k], list[j0]);
                lemma_text_order(list[k], target, target);
                if j0 > k {
                    assert(text_before(list[k], list[j0]));
                }
            } else if j == k {
                assert(after[i] == list[i0]);
            } else {
                assert(after[i] == list[i0]);
                assert(after[j] == list[j0]);
            }
        }
        assert forall|other: Seq<char>| other != target implies (#[trigger] after.contains(other)
            <==> list.contains(other)) by {
            if list.contains(other) {
                let j = choose|j: int| 0 <= j < list.len() && list[j] == other;
                let j1 = if j < k { j } else { j + 1 };
                assert(after[j1] == other);
            }
            if after.contains(other) {
                let j = choose|j: int| 0 <= j < after.len() && after[j] == other;
                let j0 = if j < k { j } else { j - 1 };
                assert(list[j0] == other);
            }
        }
    }
}

/// Taking a target off an ordered list leaves it ordered.
pub proof fn lemma_without_target(list: Seq<Seq<char>>, target: Seq<char>)
    requires
        ordered(list),
    ensures
        ordered(list.remove_value(target)),
{
    list.index_of_first_ensures(target);
    match list.index_of_first(target) {
        Some(k) => {
            let rest = list.remove(k);
            assert forall|i: int, j: int| 0 <= i < j < rest.len() implies text_before(rest[i], rest[j]) by {
                let i0 = if i < k { i } else { i + 1 };
                let j0 = if j < k { j } else { j + 1 };
                assert(rest[i] == list[i0]);
                assert(rest[j] == list[j0]);
            }
        },
        None => {},
    }
}

/// Whether the text `a` comes before the text `b` in the order of their
/// bytes.
pub fn text_precedes(a: &String, b: &String) -> (before: bool)
    ensures
        before == text_before(a@, b@),
{
    let x = a.as_str().as_bytes();
    let y = b.as_str().as_bytes();
    let mut i: usize = 0;
    while i < x.len() && i < y.len() && x[i] == y[i]
        invariant
            i <= x.len(),
            i <= y.len(),
            forall|j: int| 0 <= j < i ==> x@[j] == y@[j],
        decreases x.len() - i,
    {
        i = i + 1;
    }
    proof {
        lemma_common_prefix_is(x@, y@, i as int);
    }
    i < y.len() && (i == x.len() || x[i] < y[i])
}

/// Puts `target` on an ordered list, at its place, unless it is there.
pub fn put_target(list: &mut Vec<String>, target: &String)
    requires
        ordered(texts_view(old(list)@)),
    ensures
        texts_view(final(list)@) == with_target(texts_view(old(list)@), target@),
        ordered(texts_view(final(list)@)),
{
    let ghost before = texts_view(list@);
    let mut k: usize = 0;
    while k < list.len() && text_precedes(&list[k], target)
        invariant
            k <= list.len(),
            before == texts_view(list@),
            forall|j: int| 0 <= j < k ==> text_before(before[j], target@),
        decreases list.len() - k,
    {
        k = k + 1;
    }
    proof {
        lemma_rank_is(before, target@, k as int);
        lemma_found_at_rank(before, target@);
        lemma_with_target(before, target@);
    }
    if k < list.len() && list[k] == *target {
    } else {
        list.insert(k, target.clone());
        assert(texts_view(list@) =~= before.insert(k as int, target@));
    }
}

/// Whether each text of the list comes before those behind it.
pub fn is_ordered(list: &Vec<String>) -> (in_order: bool)
    ensures
        in_order == ordered(texts_view(list@)),
{
    let ghost all = texts_view(list@);
    let mut i: usize = 1;
    while i < list.len()
        invariant
            1 <= i,
            all == texts_view(list@),
            forall|a: int, b: int| 0 <= a < b < i && b < all.len() ==> text_before(all[a], all[b]),
        decreases list.len() - i,
    {
        if !text_precedes(&list[i - 1], &list[i]) {
            assert(!text_before(all[i - 1], all[i as int]));
            return false;
        }
        assert forall|a: int, b: int| 0 <= a < b < i + 1 && b < all.len() implies text_before(
            all[a],
            all[b],
        ) by {
            if b == i && a < i - 1 {
                lemma_text_order(all[a], all[i - 1], all[i as int]);
            }
        }
        i = i + 1;
    }
    true
}

} // verus!
