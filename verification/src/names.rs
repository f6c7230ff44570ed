//! Shortening of dotted, namespaced type names to their capitalized segments.
use crate::text::{
    append_chars, chars_of, drop_first, has_char, lemma_split_on_joined, lemma_split_on_pieces,
    lemma_split_on_single, rows, split_chars, split_on, string_of, without_first,
};
use vstd::prelude::*;

verus! {

/// What `char::is_uppercase` answers for `c`: whether `c` has the Unicode
/// property `Uppercase`.
pub uninterp spec fn is_uppercase(c: char) -> bool;

/// Calls `char::is_uppercase`. Its answer depends on `c` alone and is the
/// one that the contracts of this module call `is_uppercase(c)`.
#[verifier::external_body]
fn char_is_uppercase(c: char) -> (r: bool)
    ensures
        r == is_uppercase(c),
{
    c.is_uppercase()
}

/// Whether a segment starts with an uppercase character.
pub open spec fn is_capitalized(segment: Seq<char>) -> bool {
    segment.len() > 0 && is_uppercase(segment[0])
}

/// The capitalized segments among `segments`, in order, each one preceded
/// by a dot.
pub open spec fn join_capitalized(segments: Seq<Seq<char>>) -> Seq<char>
    decreases segments.len(),
{
    if segments.len() == 0 {
        Seq::<char>::empty()
    } else {
        let before = join_capitalized(segments.drop_last());
        if is_capitalized(segments.last()) {
            before + seq!['.'] + segments.last()
        } else {
            before
        }
    }
}

/// The short form of a type name. A name without a dot is its own short
/// form. Any other name is cut at its dots; the segments that start with an
/// uppercase character are kept, each behind a dot, and the leading dot is
/// dropped. Where no segment is kept the short form is empty.
pub open spec fn shortened(name: Seq<char>) -> Seq<char> {
    if !name.contains('.') {
        name
    } else {
        without_first(join_capitalized(split_on(name, '.')))
    }
}

/// The segments among `segments` whose mark is set, in order, each one
/// preceded by a dot. A segment without a mark counts as not marked.
pub open spec fn join_marked(segments: Seq<Seq<char>>, marks: Seq<bool>) -> Seq<char>
    decreases segments.len(),
{
    if segments.len() == 0 {
        Seq::<char>::empty()
    } else {
        let before = join_marked(segments.drop_last(), marks);
        if segments.len() <= marks.len() && marks[segments.len() - 1] {
            before + seq!['.'] + segments.last()
        } else {
            before
        }
    }
}

/// Marks that say of each segment whether it is capitalized select the
/// capitalized segments.
pub proof fn lemma_join_marked_capitalized(segments: Seq<Seq<char>>, marks: Seq<bool>)
    requires
        segments.len() <= marks.len(),
        forall|i: int| 0 <= i < segments.len() ==> marks[i] == is_capitalized(segments[i]),
    ensures
        join_marked(segments, marks) == join_capitalized(segments),
    decreases segments.len(),
{
    if segments.len() > 0 {
        lemma_join_marked_capitalized(segments.drop_last(), marks);
    }
}

/// Joins the marked segments by dots: the short form of a name that was
/// cut into `parts`, of which `marks` says which to keep.
pub fn short_form(parts: &Vec<Vec<char>>, marks: &Vec<bool>) -> (r: String)
    ensures
        r@ == without_first(join_marked(rows(parts@), marks@)),
{
    let mut joined: Vec<char> = Vec::new();
    let mut k: usize = 0;
    while k < parts.len()
        invariant
            k <= parts.len(),
            joined@ == join_marked(rows(parts@).take(k as int), marks@),
        decreases parts.len() - k,
    {
        assert(rows(parts@).take(k + 1).drop_last() == rows(parts@).take(k as int));
        if k < marks.len() && marks[k] {
            joined.push('.');
            append_chars(&mut joined, &parts[k]);
        }
        k = k + 1;
    }
    assert(rows(parts@).take(parts.len() as int) == rows(parts@));
    let short = drop_first(&joined);
    string_of(&short)
}

/// For each of `parts`, whether it is capitalized.
fn capital_marks(parts: &Vec<Vec<char>>) -> (r: Vec<bool>)
    ensures
        r.len() == parts.len(),
        forall|i: int| 0 <= i < parts.len() ==> r@[i] == is_capitalized(#[trigger] parts@[i]@),
{
    let mut marks: Vec<bool> = Vec::new();
    let mut k: usize = 0;
    while k < parts.len()
        invariant
            k <= parts.len(),
            marks.len() == k,
            forall|i: int| 0 <= i < k ==> marks@[i] == is_capitalized(#[trigger] parts@[i]@),
        decreases parts.len() - k,
    {
        let part = &parts[k];
        let capital = part.len() > 0 && char_is_uppercase(part[0]);
        marks.push(capital);
        k = k + 1;
    }
    marks
}

/// Shortens a dotted type name to its capitalized segments.
pub fn shorten_type_name(long_type_name: &str) -> (r: String)
    ensures
        r@ == shortened(long_type_name@),
{
    let name = chars_of(long_type_name);
    if !has_char(&name, '.') {
        return string_of(&name);
    }
    let parts = split_chars(&name, '.');
    let marks = capital_marks(&parts);
    proof {
        lemma_join_marked_capitalized(rows(parts@), marks@);
    }
    short_form(&parts, &marks)
}

/// Joined capitalized segments either are empty or start with a dot, and
/// what follows that dot splits into capitalized segments that join to the
/// same text again.
proof fn lemma_join_capitalized_stable(segments: Seq<Seq<char>>)
    requires
        forall|i: int| 0 <= i < segments.len() ==> !(#[trigger] segments[i]).contains('.'),
    ensures
        ({
            let joined = join_capitalized(segments);
            joined.len() == 0 || (joined[0] == '.' && join_capitalized(
                split_on(joined.skip(1), '.'),
            ) == joined)
        }),
    decreases segments.len(),
{
    if segments.len() > 0 {
        let front = segments.drop_last();
        let last = segments.last();
        assert forall|i: int| 0 <= i < front.len() implies !(#[trigger] front[i]).contains(
            '.',
        ) by {}
        lemma_join_capitalized_stable(front);
        let before = join_capitalized(front);
        let joined = join_capitalized(segments);
        if is_capitalized(last) {
            lemma_split_on_single(last, '.');
            if before.len() == 0 {
                assert(joined.skip(1) == last);
                assert(join_capitalized(seq![last].drop_last()) == Seq::<char>::empty());
            } else {
                let tail = before.skip(1);
                assert(joined.skip(1) == tail + seq!['.'] + last);
                lemma_split_on_joined(tail, last, '.');
                let pieces = split_on(tail, '.').push(last);
                assert(split_on(tail, '.') + seq![last] == pieces);
                assert(pieces.drop_last() == split_on(tail, '.'));
            }
        }
    }
}

/// Shortening a name that is already short changes nothing.
pub proof fn shorten_is_idempotent(name: Seq<char>)
    ensures
        shortened(shortened(name)) == shortened(name),
{
    if name.contains('.') {
        lemma_split_on_pieces(name, '.');
        lemma_join_capitalized_stable(split_on(name, '.'));
    }
}

} // verus!
