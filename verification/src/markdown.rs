//! The converter from markdown to LaTeX markup.
use crate::pattern::{finds, pattern_matches, pattern_rewrites, rewrite};
use crate::text::{chars_of, lines, lines_of, texts};
use vstd::prelude::*;
use vstd::string::*;

verus! {

/// A bullet: from the start of the line any run of spaces, a dash, a
/// space, then the item.
pub const LIST_MARKDOWN: &'static str = "^ *[-] (?P<item>.*)";

/// What a bullet is rewritten to.
pub const LIST_ITEM: &'static str = "\\item $item";

/// Strong emphasis between double asterisks.
pub const STRONG_STAR: &'static str = "\\*\\*(?P<content>.*?)\\*\\*";

/// Strong emphasis between double underscores.
pub const STRONG_UNDERLINE: &'static str = "__(?P<content>.*?)__";

/// Emphasis between single asterisks.
pub const EMPH_STAR: &'static str = "\\*(?P<content>.*?)\\*";

/// Emphasis between single underscores.
pub const EMPH_UNDERLINE: &'static str = "_(?P<content>.*?)_";

/// A link: the text in square brackets, the address in round brackets,
/// with an optional quoted hover text behind the address. The text and
/// the hover text are the shortest that fit.
pub const LINK: &'static str =
    "\\[(?P<displayText>.*?)\\]\\((?P<link>https?://[A-z0-9.-_\\\\/]*)( \"(?P<hover>.*?)\")?\\)";

/// What strong emphasis is rewritten to.
pub const BOLD: &'static str = "\\textbf{$content}";

/// What emphasis is rewritten to.
pub const ITALIC: &'static str = "\\emph{$content}";

/// What a link is rewritten to; the hover text is dropped.
pub const URL: &'static str = "\\url[$displayText]{$link}";

/// The line that opens a list.
pub const LIST_OPEN: &'static str = "\\begin{itemize}\n";

/// What closes a list.
pub const LIST_CLOSE: &'static str = "\\end{itemize}";

/// The number of inline rules. They are numbered from 0 in the order of
/// their priority.
pub const RULES: usize = 5;

/// The pattern of an inline rule.
pub open spec fn rule_pattern(rule: int) -> Seq<char> {
    if rule == 0 {
        STRONG_STAR@
    } else if rule == 1 {
        STRONG_UNDERLINE@
    } else if rule == 2 {
        EMPH_STAR@
    } else if rule == 3 {
        EMPH_UNDERLINE@
    } else {
        LINK@
    }
}

/// The replacement of an inline rule.
pub open spec fn rule_replacement(rule: int) -> Seq<char> {
    if rule == 0 || rule == 1 {
        BOLD@
    } else if rule == 2 || rule == 3 {
        ITALIC@
    } else {
        URL@
    }
}

/// Whether an inline rule finds its construct in `text`.
pub open spec fn rule_applies(rule: int, text: Seq<char>) -> bool {
    pattern_matches(rule_pattern(rule), text)
}

/// The inline rule of highest priority that applies to `text`.
pub open spec fn first_rule(text: Seq<char>) -> Option<int> {
    if rule_applies(0, text) {
        Some(0)
    } else if rule_applies(1, text) {
        Some(1)
    } else if rule_applies(2, text) {
        Some(2)
    } else if rule_applies(3, text) {
        Some(3)
    } else if rule_applies(4, text) {
        Some(4)
    } else {
        None
    }
}

/// `text` after one pass of an inline rule over all its occurrences.
pub open spec fn rewritten(rule: int, text: Seq<char>) -> Seq<char> {
    pattern_rewrites(rule_pattern(rule), text, rule_replacement(rule))
}

/// Whether `c` opens or closes an inline construct.
pub open spec fn is_delimiter(c: char) -> bool {
    c == '*' || c == '_' || c == '('
}

/// The number of delimiter characters in `text`.
pub open spec fn delimiters(text: Seq<char>) -> nat
    decreases text.len(),
{
    if text.len() == 0 {
        0
    } else {
        delimiters(text.drop_last()) + if is_delimiter(text.last()) {
            1nat
        } else {
            0nat
        }
    }
}

/// One line with its inline constructs rewritten. The rule of highest
/// priority that applies is run over the line, and the result is scanned
/// from the top of the list again. A construct consumes delimiter
/// characters, so rewriting goes on for as long as a pass leaves fewer of
/// them than it found, and ends when no rule applies.
pub open spec fn inline_markup(text: Seq<char>) -> Seq<char>
    decreases delimiters(text),
{
    match first_rule(text) {
        None => text,
        Some(rule) => {
            let next = rewritten(rule, text);
            if delimiters(next) < delimiters(text) {
                inline_markup(next)
            } else {
                next
            }
        },
    }
}

/// Whether a line is a bullet of a list.
pub open spec fn is_item(line: Seq<char>) -> bool {
    pattern_matches(LIST_MARKDOWN@, line)
}

/// The markup of one line, without what opens or closes a list around it.
pub open spec fn line_markup(line: Seq<char>) -> Seq<char> {
    if is_item(line) {
        inline_markup(pattern_rewrites(LIST_MARKDOWN@, line, LIST_ITEM@))
    } else {
        inline_markup(line)
    }
}

/// What stands before a line: the opening of a list before its first
/// bullet, the closing of the list before the first line that is no
/// bullet, and nothing otherwise.
pub open spec fn list_switch(in_list: bool, item: bool) -> Seq<char> {
    if item && !in_list {
        LIST_OPEN@
    } else if !item && in_list {
        LIST_CLOSE@ + seq!['\n']
    } else {
        Seq::<char>::empty()
    }
}

/// Whether a list is open after `lines`: whether the last of them is a
/// bullet.
pub open spec fn list_open_after(lines: Seq<Seq<char>>) -> bool {
    lines.len() > 0 && is_item(lines.last())
}

/// The markup of `lines`, each followed by a line feed, with lists opened
/// and closed between them. A list that the last line leaves open is not
/// closed here.
pub open spec fn lines_markup(lines: Seq<Seq<char>>) -> Seq<char>
    decreases lines.len(),
{
    if lines.len() == 0 {
        Seq::<char>::empty()
    } else {
        let before = lines.drop_last();
        lines_markup(before) + list_switch(list_open_after(before), is_item(lines.last()))
            + line_markup(lines.last()) + seq!['\n']
    }
}

/// The LaTeX markup of a markdown text.
pub open spec fn markdown_markup(markdown: Seq<char>) -> Seq<char> {
    let all = lines(markdown);
    if list_open_after(all) {
        lines_markup(all) + LIST_CLOSE@
    } else {
        lines_markup(all)
    }
}

/// Each of `lines` followed by a line feed.
pub open spec fn joined_lines(lines: Seq<Seq<char>>) -> Seq<char>
    decreases lines.len(),
{
    if lines.len() == 0 {
        Seq::<char>::empty()
    } else {
        joined_lines(lines.drop_last()) + lines.last() + seq!['\n']
    }
}

/// Whether a line holds nothing that the converter rewrites: it is no
/// bullet and no inline rule applies to it.
pub open spec fn is_plain(line: Seq<char>) -> bool {
    !is_item(line) && first_rule(line) is None
}

/// Plain lines come out as they went in, and open no list.
pub proof fn plain_lines_are_kept(lines: Seq<Seq<char>>)
    requires
        forall|i: int| 0 <= i < lines.len() ==> is_plain(#[trigger] lines[i]),
    ensures
        lines_markup(lines) == joined_lines(lines),
        !list_open_after(lines),
    decreases lines.len(),
{
    if lines.len() > 0 {
        let before = lines.drop_last();
        assert forall|i: int| 0 <= i < before.len() implies is_plain(#[trigger] before[i]) by {}
        plain_lines_are_kept(before);
    }
}

/// A text without markdown constructs is returned as it is, but that
/// every line ends with a single line feed.
pub proof fn plain_text_is_kept(markdown: Seq<char>)
    requires
        forall|i: int| 0 <= i < lines(markdown).len() ==> is_plain(#[trigger] lines(markdown)[i]),
    ensures
        markdown_markup(markdown) == joined_lines(lines(markdown)),
{
    plain_lines_are_kept(lines(markdown));
}

/// The index of the first `true` in `hits`.
pub fn first_hit(hits: &Vec<bool>) -> (r: Option<usize>)
    ensures
        match r {
            Some(i) => i < hits.len() && hits@[i as int] && forall|j: int|
                0 <= j < i ==> !hits@[j],
            None => forall|j: int| 0 <= j < hits.len() ==> !hits@[j],
        },
{
    let mut i: usize = 0;
    while i < hits.len()
        invariant
            i <= hits.len(),
            forall|j: int| 0 <= j < i ==> !hits@[j],
        decreases hits.len() - i,
    {
        if hits[i] {
            return Some(i);
        }
        i = i + 1;
    }
    None
}

/// The number of delimiter characters in `text`.
pub fn count_delimiters(text: &str) -> (r: usize)
    ensures
        r == delimiters(text@),
{
    let chars = chars_of(text);
    let mut count: usize = 0;
    let mut i: usize = 0;
    while i < chars.len()
        invariant
            i <= chars.len(),
            chars@ == text@,
            count <= i,
            count == delimiters(text@.take(i as int)),
        decreases chars.len() - i,
    {
        assert(text@.take(i + 1).drop_last() == text@.take(i as int));
        let c = chars[i];
        if c == '*' || c == '_' || c == '(' {
            count = count + 1;
        }
        i = i + 1;
    }
    assert(text@.take(chars.len() as int) == text@);
    count
}

fn pattern_of(rule: usize) -> (r: &'static str)
    ensures
        r@ == rule_pattern(rule as int),
{
    if rule == 0 {
        STRONG_STAR
    } else if rule == 1 {
        STRONG_UNDERLINE
    } else if rule == 2 {
        EMPH_STAR
    } else if rule == 3 {
        EMPH_UNDERLINE
    } else {
        LINK
    }
}

fn replacement_of(rule: usize) -> (r: &'static str)
    ensures
        r@ == rule_replacement(rule as int),
{
    if rule == 0 || rule == 1 {
        BOLD
    } else if rule == 2 || rule == 3 {
        ITALIC
    } else {
        URL
    }
}

/// For each inline rule, whether it applies to `text`.
fn rule_hits(text: &str) -> (r: Vec<bool>)
    ensures
        r.len() == RULES,
        forall|rule: int| 0 <= rule < RULES ==> r@[rule] == rule_applies(rule, text@),
{
    let mut hits: Vec<bool> = Vec::new();
    let mut rule: usize = 0;
    while rule < RULES
        invariant
            rule <= RULES,
            hits.len() == rule,
            forall|k: int| 0 <= k < rule ==> hits@[k] == rule_applies(k, text@),
        decreases RULES - rule,
    {
        hits.push(finds(pattern_of(rule), text));
        rule = rule + 1;
    }
    hits
}

/// Rewrites the inline constructs of one line.
pub fn inner_replace(string: &str) -> (r: String)
    ensures
        r@ == inline_markup(string@),
{
    let mut current = String::from_str(string);
    let mut left: usize = count_delimiters(string);
    loop
        invariant
            left == delimiters(current@),
            inline_markup(current@) == inline_markup(string@),
        decreases left,
    {
        let hits = rule_hits(current.as_str());
        match first_hit(&hits) {
            None => {
                return current;
            },
            Some(rule) => {
                let next = rewrite(pattern_of(rule), current.as_str(), replacement_of(rule));
                let remaining = count_delimiters(next.as_str());
                if remaining >= left {
                    return next;
                }
                current = next;
                left = remaining;
            },
        }
    }
}

/// Appends one converted line to `out`. `in_list` says whether a list is
/// open before the line, `item` whether the line is a bullet, and `body`
/// is the markup of the line itself. The result says whether a list is
/// open after the line.
pub fn push_line(out: &mut String, in_list: bool, item: bool, body: &str) -> (now_in_list: bool)
    ensures
        final(out)@ == old(out)@ + list_switch(in_list, item) + body@ + seq!['\n'],
        now_in_list == item,
{
    if item && !in_list {
        out.append(LIST_OPEN);
    } else if !item && in_list {
        out.append(LIST_CLOSE);
        out.push('\n');
    }
    out.append(body);
    out.push('\n');
    item
}

/// Converts a markdown text to LaTeX markup, line by line.
pub fn markdown_to_latex(markdown: &str) -> (r: String)
    ensures
        r@ == markdown_markup(markdown@),
{
    let all = lines_of(markdown);
    let mut out = String::new();
    let mut in_list = false;
    let mut k: usize = 0;
    while k < all.len()
        invariant
            k <= all.len(),
            out@ == lines_markup(texts(all@).take(k as int)),
            in_list == list_open_after(texts(all@).take(k as int)),
        decreases all.len() - k,
    {
        assert(texts(all@).take(k + 1).drop_last() == texts(all@).take(k as int));
        let line = all[k].as_str();
        let item = finds(LIST_MARKDOWN, line);
        let body = if item {
            let bullet = rewrite(LIST_MARKDOWN, line, LIST_ITEM);
            inner_replace(bullet.as_str())
        } else {
            inner_replace(line)
        };
        in_list = push_line(&mut out, in_list, item, body.as_str());
        k = k + 1;
    }
    assert(texts(all@).take(all.len() as int) == texts(all@));
    if in_list {
        out.append(LIST_CLOSE);
    }
    out
}

} // verus!
