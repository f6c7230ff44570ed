//! Character-level text operations with exact contracts over `Seq<char>`.
use vstd::prelude::*;
use vstd::std_specs::iter::IteratorSpec;

verus! {

/// Whether `pat` stands in `s` starting at index `i`.
pub open spec fn occurs_at(s: Seq<char>, i: int, pat: Seq<char>) -> bool {
    &&& 0 <= i
    &&& i + pat.len() <= s.len()
    &&& s.subrange(i, i + pat.len()) == pat
}

/// Whether `pat` stands somewhere in `s`.
pub open spec fn contains(s: Seq<char>, pat: Seq<char>) -> bool {
    exists|i: int| occurs_at(s, i, pat)
}

/// `s` with every occurrence of `from` replaced by `to`, found from left to
/// right without overlap. An empty `from` occurs nowhere.
pub open spec fn replaced(s: Seq<char>, from: Seq<char>, to: Seq<char>) -> Seq<char>
    decreases s.len(),
{
    if from.len() == 0 || s.len() < from.len() {
        s
    } else if occurs_at(s, 0, from) {
        to + replaced(s.skip(from.len() as int), from, to)
    } else {
        seq![s[0]] + replaced(s.skip(1), from, to)
    }
}

/// The pieces of `s` between occurrences of `sep`. There is always at least
/// one piece; a separator at either end leaves an empty piece there.
pub open spec fn split_on(s: Seq<char>, sep: char) -> Seq<Seq<char>>
    decreases s.len(),
{
    if s.len() == 0 {
        seq![Seq::<char>::empty()]
    } else {
        let before = split_on(s.drop_last(), sep);
        if s.last() == sep {
            before.push(Seq::<char>::empty())
        } else {
            before.drop_last().push(before.last().push(s.last()))
        }
    }
}

/// What follows the last `sep` in `s`; all of `s` where it holds none.
pub open spec fn last_segment(s: Seq<char>, sep: char) -> Seq<char> {
    split_on(s, sep).last()
}

/// `line` without one trailing carriage return.
pub open spec fn without_cr(line: Seq<char>) -> Seq<char> {
    if line.len() > 0 && line.last() == '\r' {
        line.drop_last()
    } else {
        line
    }
}

/// The lines of `s`. A line ends at a line feed, or at a carriage return
/// directly followed by one; the text after the last line feed is a line of
/// its own unless it is empty.
pub open spec fn lines(s: Seq<char>) -> Seq<Seq<char>> {
    let pieces = split_on(s, '\n');
    let ended = Seq::new((pieces.len() - 1) as nat, |i: int| without_cr(pieces[i]));
    if pieces.last().len() == 0 {
        ended
    } else {
        ended.push(pieces.last())
    }
}

/// `s` without its first character; `s` itself where it is empty.
pub open spec fn without_first(s: Seq<char>) -> Seq<char> {
    if s.len() == 0 {
        s
    } else {
        s.skip(1)
    }
}

/// The character sequences held by a sequence of character vectors.
pub open spec fn rows(v: Seq<Vec<char>>) -> Seq<Seq<char>> {
    Seq::new(v.len(), |i: int| v[i]@)
}

/// The character sequences held by a sequence of strings.
pub open spec fn texts(v: Seq<String>) -> Seq<Seq<char>> {
    Seq::new(v.len(), |i: int| v[i]@)
}

/// The text of an optional string.
pub open spec fn text_of(o: Option<String>) -> Option<Seq<char>> {
    match o {
        Some(s) => Some(s@),
        None => None,
    }
}

/// Splitting always yields at least one piece.
pub proof fn lemma_split_on_nonempty(s: Seq<char>, sep: char)
    ensures
        split_on(s, sep).len() >= 1,
    decreases s.len(),
{
    if s.len() > 0 {
        lemma_split_on_nonempty(s.drop_last(), sep);
    }
}

/// No piece of a split holds the separator.
pub proof fn lemma_split_on_pieces(s: Seq<char>, sep: char)
    ensures
        forall|i: int|
            0 <= i < split_on(s, sep).len() ==> !(#[trigger] split_on(s, sep)[i]).contains(sep),
    decreases s.len(),
{
    if s.len() > 0 {
        lemma_split_on_pieces(s.drop_last(), sep);
        lemma_split_on_nonempty(s.drop_last(), sep);
    }
}

/// A text without the separator is its own single piece.
pub proof fn lemma_split_on_single(s: Seq<char>, sep: char)
    requires
        !s.contains(sep),
    ensures
        split_on(s, sep) == seq![s],
    decreases s.len(),
{
    if s.len() > 0 {
        let front = s.drop_last();
        assert forall|i: int| 0 <= i < front.len() implies front[i] != sep by {}
        lemma_split_on_single(front, sep);
        assert(front.push(s.last()) == s);
    } else {
        assert(s == Seq::<char>::empty());
    }
}

/// Splitting two texts joined by one separator yields the pieces of the
/// first followed by the pieces of the second.
pub proof fn lemma_split_on_joined(a: Seq<char>, b: Seq<char>, sep: char)
    ensures
        split_on(a + seq![sep] + b, sep) == split_on(a, sep) + split_on(b, sep),
    decreases b.len(),
{
    let whole = a + seq![sep] + b;
    if b.len() == 0 {
        assert(whole.drop_last() == a);
    } else {
        let front = b.drop_last();
        assert(whole.drop_last() == a + seq![sep] + front);
        lemma_split_on_joined(a, front, sep);
        lemma_split_on_nonempty(front, sep);
    }
}

/// `String::push` appends one character to the end of the string.
pub assume_specification[ String::push ](s: &mut String, ch: char)
    ensures
        final(s)@ == old(s)@.push(ch),
;

/// The characters of `s`, in order.
pub fn chars_of(s: &str) -> (v: Vec<char>)
    ensures
        v@ == s@,
{
    broadcast use vstd::string::group_string_axioms;

    let mut v: Vec<char> = Vec::new();
    let mut it = s.chars();
    loop
        invariant
            it.obeys_prophetic_iter_laws(),
            it.decrease() is Some,
            v@ + it.remaining() == s@,
        ensures
            v@ == s@,
        decreases it.decrease()->0,
    {
        match it.next() {
            Some(c) => {
                v.push(c);
            },
            None => {
                break ;
            },
        }
    }
    v
}

/// The string made of the characters of `v`, in order.
pub fn string_of(v: &Vec<char>) -> (s: String)
    ensures
        s@ == v@,
{
    let mut s = String::new();
    let mut i: usize = 0;
    while i < v.len()
        invariant
            i <= v.len(),
            s@ == v@.subrange(0, i as int),
        decreases v.len() - i,
    {
        s.push(v[i]);
        i = i + 1;
    }
    s
}

/// The string of `piece` without one trailing carriage return.
pub fn line_of(piece: &Vec<char>) -> (s: String)
    ensures
        s@ == without_cr(piece@),
{
    let n: usize = if piece.len() > 0 && piece[piece.len() - 1] == '\r' {
        piece.len() - 1
    } else {
        piece.len()
    };
    let mut s = String::new();
    let mut i: usize = 0;
    while i < n
        invariant
            i <= n <= piece.len(),
            s@ == piece@.take(i as int),
        decreases n - i,
    {
        s.push(piece[i]);
        i = i + 1;
    }
    s
}

/// Appends the characters of `extra` to `out`.
pub fn append_chars(out: &mut Vec<char>, extra: &Vec<char>)
    ensures
        final(out)@ == old(out)@ + extra@,
{
    let mut i: usize = 0;
    while i < extra.len()
        invariant
            i <= extra.len(),
            out@ == old(out)@ + extra@.subrange(0, i as int),
        decreases extra.len() - i,
    {
        out.push(extra[i]);
        i = i + 1;
    }
}

/// Whether two character vectors hold the same text.
pub fn same_chars(a: &Vec<char>, b: &Vec<char>) -> (r: bool)
    ensures
        r == (a@ == b@),
{
    if a.len() != b.len() {
        return false;
    }
    let mut i: usize = 0;
    while i < a.len()
        invariant
            a.len() == b.len(),
            i <= a.len(),
            a@.subrange(0, i as int) == b@.subrange(0, i as int),
        decreases a.len() - i,
    {
        if a[i] != b[i] {
            return false;
        }
        i = i + 1;
    }
    assert(a@ == a@.subrange(0, a.len() as int));
    assert(b@ == b@.subrange(0, b.len() as int));
    true
}

/// Whether two strings hold the same text.
pub fn same_text(a: &str, b: &str) -> (r: bool)
    ensures
        r == (a@ == b@),
{
    let x = chars_of(a);
    let y = chars_of(b);
    same_chars(&x, &y)
}

/// Whether `c` is one of the characters of `s`.
pub fn has_char(s: &Vec<char>, c: char) -> (r: bool)
    ensures
        r == s@.contains(c),
{
    let mut i: usize = 0;
    while i < s.len()
        invariant
            i <= s.len(),
            forall|k: int| 0 <= k < i ==> s@[k] != c,
        decreases s.len() - i,
    {
        if s[i] == c {
            return true;
        }
        i = i + 1;
    }
    false
}

/// Whether `pat` stands in `s` at index `i`.
pub fn matches_at(s: &Vec<char>, i: usize, pat: &Vec<char>) -> (r: bool)
    ensures
        r == occurs_at(s@, i as int, pat@),
{
    if i > s.len() || pat.len() > s.len() - i {
        return false;
    }
    let mut j: usize = 0;
    while j < pat.len()
        invariant
            i + pat.len() <= s.len(),
            j <= pat.len(),
            forall|k: int| 0 <= k < j ==> s@[i + k] == pat@[k],
        decreases pat.len() - j,
    {
        if s[i + j] != pat[j] {
            return false;
        }
        j = j + 1;
    }
    assert(s@.subrange(i as int, i + pat.len()) =~= pat@);
    true
}

/// Whether `pat` stands somewhere in `s`.
pub fn contains_text(s: &str, pat: &str) -> (r: bool)
    ensures
        r == contains(s@, pat@),
{
    let text = chars_of(s);
    let wanted = chars_of(pat);
    if wanted.len() > text.len() {
        return false;
    }
    let last: usize = text.len() - wanted.len();
    let mut i: usize = 0;
    loop
        invariant
            last == text.len() - wanted.len(),
            i <= last,
            text@ == s@,
            wanted@ == pat@,
            forall|k: int| 0 <= k < i ==> !occurs_at(s@, k, pat@),
        decreases last - i,
    {
        if matches_at(&text, i, &wanted) {
            return true;
        }
        if i == last {
            return false;
        }
        i = i + 1;
    }
}

/// `s` with every occurrence of `from` replaced by `to`.
pub fn replace_text(s: &str, from: &str, to: &str) -> (r: String)
    ensures
        r@ == replaced(s@, from@, to@),
{
    let text = chars_of(s);
    let old_part = chars_of(from);
    let new_part = chars_of(to);
    let mut out: Vec<char> = Vec::new();
    let mut i: usize = 0;
    assert(s@.skip(0) == s@);
    if old_part.len() > 0 {
        while i < text.len() && old_part.len() <= text.len() - i
            invariant
                i <= text.len(),
                old_part.len() > 0,
                text@ == s@,
                old_part@ == from@,
                new_part@ == to@,
                out@ + replaced(s@.skip(i as int), from@, to@) == replaced(s@, from@, to@),
            decreases text.len() - i,
        {
            let ghost rest = s@.skip(i as int);
            assert(rest.subrange(0, from@.len() as int) == s@.subrange(
                i as int,
                i + from@.len(),
            ));
            if matches_at(&text, i, &old_part) {
                assert(rest.skip(from@.len() as int) == s@.skip(i + from@.len()));
                append_chars(&mut out, &new_part);
                i = i + old_part.len();
            } else {
                assert(rest.skip(1) == s@.skip(i + 1));
                out.push(text[i]);
                i = i + 1;
            }
        }
    }
    let ghost done = out@;
    let ghost start = i as int;
    while i < text.len()
        invariant
            0 <= start <= i <= text.len(),
            text@ == s@,
            out@ == done + s@.subrange(start, i as int),
        decreases text.len() - i,
    {
        out.push(text[i]);
        i = i + 1;
    }
    string_of(&out)
}

/// The characters of `v` without the first of them.
pub fn drop_first(v: &Vec<char>) -> (r: Vec<char>)
    ensures
        r@ == without_first(v@),
{
    let mut out: Vec<char> = Vec::new();
    let mut i: usize = 1;
    while i < v.len()
        invariant
            1 <= i,
            i <= v.len() || v.len() == 0,
            out@ == if v.len() == 0 {
                v@
            } else {
                v@.subrange(1, i as int)
            },
        decreases v.len() - i,
    {
        out.push(v[i]);
        i = i + 1;
    }
    out
}

/// The pieces of `s` between occurrences of `sep`.
pub fn split_chars(s: &Vec<char>, sep: char) -> (r: Vec<Vec<char>>)
    ensures
        rows(r@) == split_on(s@, sep),
{
    let mut done: Vec<Vec<char>> = Vec::new();
    let mut cur: Vec<char> = Vec::new();
    let mut i: usize = 0;
    while i < s.len()
        invariant
            i <= s.len(),
            rows(done@).push(cur@) == split_on(s@.take(i as int), sep),
        decreases s.len() - i,
    {
        assert(s@.take(i + 1).drop_last() == s@.take(i as int));
        if s[i] == sep {
            done.push(cur);
            cur = Vec::new();
        } else {
            cur.push(s[i]);
        }
        i = i + 1;
    }
    assert(s@.take(s.len() as int) == s@);
    done.push(cur);
    done
}

/// What follows the last `sep` in `s`.
pub fn tail_after(s: &str, sep: char) -> (r: String)
    ensures
        r@ == last_segment(s@, sep),
{
    let text = chars_of(s);
    let pieces = split_chars(&text, sep);
    proof {
        lemma_split_on_nonempty(s@, sep);
    }
    let last = &pieces[pieces.len() - 1];
    string_of(last)
}

/// The lines of `s`, without their line endings.
pub fn lines_of(s: &str) -> (r: Vec<String>)
    ensures
        texts(r@) == lines(s@),
{
    let text = chars_of(s);
    let pieces = split_chars(&text, '\n');
    proof {
        lemma_split_on_nonempty(s@, '\n');
    }
    let ended: usize = pieces.len() - 1;
    let ghost all = split_on(s@, '\n');
    let mut out: Vec<String> = Vec::new();
    let mut k: usize = 0;
    while k < ended
        invariant
            k <= ended,
            ended == pieces.len() - 1,
            rows(pieces@) == all,
            out.len() == k,
            texts(out@) == Seq::new(k as nat, |i: int| without_cr(all[i])),
        decreases ended - k,
    {
        let piece = &pieces[k];
        let line = line_of(piece);
        let ghost earlier = out@;
        out.push(line);
        assert forall|i: int| 0 <= i < k + 1 implies texts(out@)[i] == without_cr(all[i]) by {
            if i < k {
                assert(texts(earlier)[i] == without_cr(all[i]));
            }
        }
        k = k + 1;
    }
    let rest = &pieces[ended];
    if rest.len() > 0 {
        out.push(string_of(rest));
    }
    out
}

} // verus!
