//! The order of texts by their bytes, and lists of lines kept in that order
//! without repetition.

use crate::text::texts;
use vstd::prelude::*;
use vstd::string::*;
use vstd::utf8::{encode_utf8, encode_utf8_decode_utf8};

verus! {

/// Whether `left` comes before `right`, byte by byte: at the first place where
/// they differ `left` has the smaller byte, or `left` ends there and `right`
/// goes on.
pub open spec fn bytes_before(left: Seq<u8>, right: Seq<u8>) -> bool
    decreases left.len(),
{
    if right.len() == 0 {
        false
    } else if left.len() == 0 {
        true
    } else if left[0] != right[0] {
        left[0] < right[0]
    } else {
        bytes_before(left.drop_first(), right.drop_first())
    }
}

/// Whether `left` comes before `right` in the order of their UTF-8 bytes, which
/// is the order in which texts are sorted.
pub open spec fn text_before(left: Seq<char>, right: Seq<char>) -> bool {
    bytes_before(encode_utf8(left), encode_utf8(right))
}

/// Whether each line comes before all lines behind it; no line is then
/// repeated.
pub open spec fn strictly_ascending(lines: Seq<Seq<char>>) -> bool {
    forall|i: int, j: int| 0 <= i < j < lines.len() ==> text_before(lines[i], lines[j])
}

/// Whether two lists hold the same lines, whatever their order and however
/// often.
pub open spec fn same_lines(left: Seq<Seq<char>>, right: Seq<Seq<char>>) -> bool {
    forall|line: Seq<char>| left.contains(line) <==> right.contains(line)
}

/// Whether `sorted` holds the lines of `lines`, each once, in ascending order.
pub open spec fn is_ascending_of(sorted: Seq<Seq<char>>, lines: Seq<Seq<char>>) -> bool {
    strictly_ascending(sorted) && same_lines(sorted, lines)
}

/// The lines of `lines`, each once, in ascending order.
pub open spec fn ascending(lines: Seq<Seq<char>>) -> Seq<Seq<char>> {
    choose|sorted: Seq<Seq<char>>| is_ascending_of(sorted, lines)
}

/// No text comes before itself.
pub proof fn lemma_before_is_irreflexive(bytes: Seq<u8>)
    ensures
        !bytes_before(bytes, bytes),
    decreases bytes.len(),
{
    if bytes.len() > 0 {
        lemma_before_is_irreflexive(bytes.drop_first());
    }
}

/// Of two different texts one comes before the other.
pub proof fn lemma_before_is_total(left: Seq<u8>, right: Seq<u8>)
    ensures
        left == right || bytes_before(left, right) || bytes_before(right, left),
        !(bytes_before(left, right) && bytes_before(right, left)),
    decreases left.len(),
{
    if left.len() > 0 && right.len() > 0 && left[0] == right[0] {
        lemma_before_is_total(left.drop_first(), right.drop_first());
        if left.drop_first() == right.drop_first() {
            assert(left =~= seq![left[0]] + left.drop_first());
            assert(right =~= seq![right[0]] + right.drop_first());
        }
    } else if left.len() == 0 && right.len() == 0 {
        assert(left =~= right);
    }
}

/// What comes before a text comes before all that the text comes before.
pub proof fn lemma_before_is_transitive(first: Seq<u8>, second: Seq<u8>, third: Seq<u8>)
    requires
        bytes_before(first, second),
        bytes_before(second, third),
    ensures
        bytes_before(first, third),
    decreases first.len(),
{
    if first.len() > 0 && first[0] == second[0] && second[0] == third[0] {
        lemma_before_is_transitive(first.drop_first(), second.drop_first(), third.drop_first());
    }
}

/// Different texts have different bytes.
pub proof fn lemma_bytes_tell_texts_apart(left: Seq<char>, right: Seq<char>)
    requires
        left != right,
    ensures
        encode_utf8(left) != encode_utf8(right),
{
    encode_utf8_decode_utf8(left);
    encode_utf8_decode_utf8(right);
}

/// A list holds its lines in ascending order in one way only.
pub proof fn lemma_ascending_is_unique(
    left: Seq<Seq<char>>,
    right: Seq<Seq<char>>,
    lines: Seq<Seq<char>>,
)
    requires
        is_ascending_of(left, lines),
        is_ascending_of(right, lines),
    ensures
        left == right,
    decreases left.len(),
{
    if left.len() == 0 {
        if right.len() > 0 {
            assert(right.contains(right[0]));
            assert(left.contains(right[0]));
        }
        assert(left =~= right);
    } else {
        let top = left.last();
        assert(left.contains(top));
        assert(right.contains(top));
        let at = choose|i: int| 0 <= i < right.len() && right[i] == top;
        if at < right.len() - 1 {
            let above = right.last();
            assert(right.contains(above));
            assert(left.contains(above));
            let k = choose|k: int| 0 <= k < left.len() && left[k] == above;
            assert(text_before(top, above));
            if k < left.len() - 1 {
                assert(text_before(above, top));
                lemma_before_is_total(encode_utf8(top), encode_utf8(above));
            } else {
                lemma_before_is_irreflexive(encode_utf8(top));
            }
        }
        assert(right.last() == top);
        let left_rest = left.drop_last();
        let right_rest = right.drop_last();
        assert forall|line: Seq<char>| left_rest.contains(line) <==> right_rest.contains(
            line,
        ) by {
            lemma_before_is_irreflexive(encode_utf8(top));
            if left_rest.contains(line) {
                let i = choose|i: int| 0 <= i < left_rest.len() && left_rest[i] == line;
                assert(left[i] == line);
                assert(text_before(left[i], left[left.len() - 1]));
                assert(left.contains(line));
                assert(right.contains(line));
                let j = choose|j: int| 0 <= j < right.len() && right[j] == line;
                assert(right_rest[j] == line);
            }
            if right_rest.contains(line) {
                let i = choose|i: int| 0 <= i < right_rest.len() && right_rest[i] == line;
                assert(right[i] == line);
                assert(text_before(right[i], right[right.len() - 1]));
                assert(right.contains(line));
                assert(left.contains(line));
                let j = choose|j: int| 0 <= j < left.len() && left[j] == line;
                assert(left_rest[j] == line);
            }
        }
        assert(strictly_ascending(left_rest)) by {
            assert forall|i: int, j: int| 0 <= i < j < left_rest.len() implies text_before(
                left_rest[i],
                left_rest[j],
            ) by {
                assert(text_before(left[i], left[j]));
            }
        }
        assert(strictly_ascending(right_rest)) by {
            assert forall|i: int, j: int| 0 <= i < j < right_rest.len() implies text_before(
                right_rest[i],
                right_rest[j],
            ) by {
                assert(text_before(right[i], right[j]));
            }
        }
        lemma_ascending_is_unique(left_rest, right_rest, left_rest);
        assert(left =~= left_rest.push(top));
        assert(right =~= right_rest.push(top));
    }
}

/// Whether `left` comes before `right`, byte by byte.
pub fn comes_before(left: &str, right: &str) -> (before: bool)
    ensures
        before == text_before(left@, right@),
{
    let left_bytes = left.as_bytes();
    let right_bytes = right.as_bytes();
    let mut i: usize = 0;
    assert(left_bytes@.skip(0) =~= left_bytes@);
    assert(right_bytes@.skip(0) =~= right_bytes@);
    while i < left_bytes.len() && i < right_bytes.len()
        invariant
            i <= left_bytes@.len(),
            i <= right_bytes@.len(),
            left_bytes@ == encode_utf8(left@),
            right_bytes@ == encode_utf8(right@),
            bytes_before(left_bytes@, right_bytes@) == bytes_before(
                left_bytes@.skip(i as int),
                right_bytes@.skip(i as int),
            ),
        decreases left_bytes@.len() - i,
    {
        let l = left_bytes[i];
        let r = right_bytes[i];
        assert(left_bytes@.skip(i as int)[0] == l);
        assert(right_bytes@.skip(i as int)[0] == r);
        if l != r {
            return l < r;
        }
        assert(left_bytes@.skip(i as int).drop_first() =~= left_bytes@.skip(i + 1));
        assert(right_bytes@.skip(i as int).drop_first() =~= right_bytes@.skip(i + 1));
        i += 1;
    }
    i < right_bytes.len()
}

/// Puts `line` at its place in a list that is in ascending order, unless the
/// list holds the line already.
pub fn insert_line(sorted: &mut Vec<String>, line: String)
    requires
        strictly_ascending(texts(old(sorted)@)),
    ensures
        strictly_ascending(texts(final(sorted)@)),
        forall|other: Seq<char>|
            texts(final(sorted)@).contains(other) <==> (texts(old(sorted)@).contains(other)
                || other == line@),
{
    let ghost before = texts(sorted@);
    let mut at: usize = 0;
    while at < sorted.len() && comes_before(sorted[at].as_str(), line.as_str())
        invariant
            at <= sorted@.len(),
            sorted@ == old(sorted)@,
            before == texts(sorted@),
            forall|i: int| 0 <= i < at ==> text_before(#[trigger] before[i], line@),
        decreases sorted@.len() - at,
    {
        at += 1;
    }
    if at < sorted.len() && sorted[at] == line {
        assert(before[at as int] == line@);
        assert(before.contains(line@));
        return ;
    }
    proof {
        if at < sorted@.len() {
            lemma_bytes_tell_texts_apart(before[at as int], line@);
            lemma_before_is_total(encode_utf8(before[at as int]), encode_utf8(line@));
        }
    }
    sorted.insert(at, line);
    proof {
        let after = texts(sorted@);
        assert(after =~= before.insert(at as int, line@));
        assert forall|i: int, j: int| 0 <= i < j < after.len() implies text_before(
            after[i],
            after[j],
        ) by {
            if j < at {
                assert(text_before(before[i], before[j]));
            } else if j == at {
                assert(text_before(before[i], line@));
            } else if i == at {
                if j - 1 > at {
                    assert(text_before(before[at as int], before[j - 1]));
                    lemma_before_is_transitive(
                        encode_utf8(line@),
                        encode_utf8(before[at as int]),
                        encode_utf8(before[j - 1]),
                    );
                }
            } else if i < at {
                assert(text_before(before[i], before[j - 1]));
            } else {
                assert(text_before(before[i - 1], before[j - 1]));
            }
        }
        assert forall|other: Seq<char>| after.contains(other) <==> (before.contains(other)
            || other == line@) by {
            if after.contains(other) {
                let i = choose|i: int| 0 <= i < after.len() && after[i] == other;
                if i < at {
                    assert(before[i] == other);
                } else if i > at {
                    assert(before[i - 1] == other);
                }
            }
            if before.contains(other) {
                let i = choose|i: int| 0 <= i < before.len() && before[i] == other;
                if i < at {
                    assert(after[i] == other);
                } else {
                    assert(after[i + 1] == other);
                }
            }
            if other == line@ {
                assert(after[at as int] == other);
            }
        }
    }
}

/// The lines of `lines`, each once, in ascending order.
pub fn sorted_distinct(lines: Vec<String>) -> (sorted: Vec<String>)
    ensures
        texts(sorted@) == ascending(texts(lines@)),
        is_ascending_of(texts(sorted@), texts(lines@)),
{
    let mut sorted: Vec<String> = Vec::new();
    let mut lines = lines;
    let ghost all = texts(lines@);
    let mut i: usize = 0;
    while i < lines.len()
        invariant
            i <= lines@.len(),
            texts(lines@) == all,
            strictly_ascending(texts(sorted@)),
            forall|other: Seq<char>|
                texts(sorted@).contains(other) <==> all.take(i as int).contains(other),
        decreases lines@.len() - i,
    {
        let line = lines[i].clone();
        let ghost earlier = texts(sorted@);
        insert_line(&mut sorted, line);
        proof {
            let done = all.take(i as int);
            let next = all.take(i + 1);
            assert forall|other: Seq<char>| texts(sorted@).contains(other) <==> next.contains(
                other,
            ) by {
                if next.contains(other) {
                    let k = choose|k: int| 0 <= k < next.len() && next[k] == other;
                    if k < i {
                        assert(done[k] == other);
                    }
                }
                if done.contains(other) {
                    let k = choose|k: int| 0 <= k < done.len() && done[k] == other;
                    assert(next[k] == other);
                }
                if other == all[i as int] {
                    assert(next[i as int] == other);
                }
            }
        }
        i += 1;
    }
    proof {
        assert(all.take(lines@.len() as int) =~= all);
        assert(is_ascending_of(texts(sorted@), all));
        lemma_ascending_is_unique(texts(sorted@), ascending(all), all);
    }
    sorted
}

} // verus!
