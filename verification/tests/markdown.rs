use rusty_swagger::markdown::{
    count_delimiters, first_hit, inner_replace, markdown_to_latex, push_line,
};
use rusty_swagger::pattern::{finds, rewrite};

#[test]
pub fn test_markdown_list() {
    let string = "- test\n- item2\n- a b c";
    assert_eq!(
        markdown_to_latex(string),
        "\\begin{itemize}\n\\item test\n\\item item2\n\\item a b c\n\\end{itemize}"
    );
}

#[test]
pub fn test_markdown_modifiers() {
    let emph = "*emph*";
    assert_eq!(markdown_to_latex(emph).trim(), "\\emph{emph}");
    let emph = "_emph_";
    assert_eq!(markdown_to_latex(emph).trim(), "\\emph{emph}");

    let strong = "**strong**";
    assert_eq!(markdown_to_latex(strong).trim(), "\\textbf{strong}");
    let strong = "__strong__";
    assert_eq!(markdown_to_latex(strong).trim(), "\\textbf{strong}");
    let strong = "***strongemph***";
    assert_eq!(markdown_to_latex(strong).trim(), "\\textbf{\\emph{strongemph}}");
    let strong = "___strongemph___";
    assert_eq!(markdown_to_latex(strong).trim(), "\\textbf{\\emph{strongemph}}");
    let strong = "**_strongemph_**";
    assert_eq!(markdown_to_latex(strong).trim(), "\\textbf{\\emph{strongemph}}");
    let strong = "__*strongemph*__";
    assert_eq!(markdown_to_latex(strong).trim(), "\\textbf{\\emph{strongemph}}");

    let url = "[test](https://www.google.ch \"Hallo Velo\")";
    assert_eq!(markdown_to_latex(url).trim(), "\\url[test]{https://www.google.ch}");
    let url = "[test](https://www.google.ch)";
    assert_eq!(markdown_to_latex(url).trim(), "\\url[test]{https://www.google.ch}");
}

#[test]
pub fn test_line_and_inline() {
    let all_in_one =
        "**strong**\n - test1\n- *emph1*\n- [test](https://www.google.ch)\n_emph_";
    assert_eq!(
        markdown_to_latex(all_in_one).trim(),
        "\\textbf{strong}\n\\begin{itemize}\n\\item test1\n\\item \\emph{emph1}\n\\item \\url[test]{https://www.google.ch}\n\\end{itemize}\n\\emph{emph}"
    );
    let all_in_one =
        "**strong**\n -test1\n- *emph1*\n- [test](https://www.google.ch)\n_emph_";
    assert_ne!(
        markdown_to_latex(all_in_one).trim(),
        "\\textbf{strong}\n\\begin{itemize}\n\\item test1\n\\item \\emph{emph1}\n\\item \\url[test]{https://www.google.ch}\n\\end{itemize}\n\\emph{emph}"
    );
}

#[test]
pub fn no_markdown() {
    let test = "hallo velo. normaler test\n";
    assert_eq!(markdown_to_latex(test), test);
}

#[test]
pub fn lazy_match() {
    let test = "*next* **n**";
    assert_eq!(markdown_to_latex(test).trim(), "\\emph{next} \\textbf{n}");
}

#[test]
fn every_line_ends_with_a_line_feed() {
    assert_eq!(markdown_to_latex("one\ntwo"), "one\ntwo\n");
    assert_eq!(markdown_to_latex("one\r\ntwo\n"), "one\ntwo\n");
    assert_eq!(markdown_to_latex(""), "");
    assert_eq!(markdown_to_latex("\n"), "\n");
}

#[test]
fn a_dash_without_a_space_is_no_bullet() {
    assert_eq!(markdown_to_latex("-test"), "-test\n");
    assert_eq!(markdown_to_latex(" -test1\n- x"), " -test1\n\\begin{itemize}\n\\item x\n\\end{itemize}");
}

#[test]
fn a_dash_in_the_middle_of_a_line_is_no_bullet() {
    assert_eq!(markdown_to_latex("a - b"), "a - b\n");
    assert_eq!(markdown_to_latex("a - b").trim(), "a - b");
    assert!(!markdown_to_latex("x\ny - z\n").contains("itemize"));
    assert_eq!(markdown_to_latex("- a - b"), "\\begin{itemize}\n\\item a - b\n\\end{itemize}");
    assert_eq!(markdown_to_latex("   - deep"), "\\begin{itemize}\n\\item deep\n\\end{itemize}");
    assert_eq!(markdown_to_latex("\t- tab"), "\t- tab\n");
}

#[test]
fn each_link_is_the_shortest_span() {
    assert_eq!(
        inner_replace("[a](http://x) and [b](http://y)"),
        "\\url[a]{http://x} and \\url[b]{http://y}"
    );
    assert_eq!(
        inner_replace("[a](http://x \"one\") and [b](https://y \"two\")"),
        "\\url[a]{http://x} and \\url[b]{https://y}"
    );
    assert_eq!(
        markdown_to_latex("- [a](http://x), [b](http://y)"),
        "\\begin{itemize}\n\\item \\url[a]{http://x}, \\url[b]{http://y}\n\\end{itemize}"
    );
}

#[test]
fn a_list_is_closed_before_the_next_plain_line() {
    assert_eq!(
        markdown_to_latex("- a\nplain\n- b\n"),
        "\\begin{itemize}\n\\item a\n\\end{itemize}\nplain\n\\begin{itemize}\n\\item b\n\\end{itemize}"
    );
}

#[test]
fn unmatched_markup_stays_as_it_is() {
    assert_eq!(markdown_to_latex("a * b"), "a * b\n");
    assert_eq!(markdown_to_latex("[text](ftp://x)"), "[text](ftp://x)\n");
    assert_eq!(inner_replace("snake_case"), "snake_case");
}

#[test]
fn inline_rules_are_tried_in_their_order() {
    assert_eq!(inner_replace("**a** _b_"), "\\textbf{a} \\emph{b}");
    assert_eq!(inner_replace("__a__ and *b*"), "\\textbf{a} and \\emph{b}");
    assert_eq!(inner_replace("plain"), "plain");
}

#[test]
fn first_hit_is_the_lowest_index() {
    assert_eq!(first_hit(&vec![false, true, true]), Some(1));
    assert_eq!(first_hit(&vec![true, false]), Some(0));
    assert_eq!(first_hit(&vec![false, false, false, false, true]), Some(4));
    assert_eq!(first_hit(&vec![false, false]), None);
    assert_eq!(first_hit(&vec![]), None);
}

#[test]
fn delimiters_are_counted() {
    assert_eq!(count_delimiters(""), 0);
    assert_eq!(count_delimiters("plain text"), 0);
    assert_eq!(count_delimiters("**a** _b_ (c)"), 7);
    assert_eq!(count_delimiters("[t](u)"), 1);
}

#[test]
fn push_line_opens_and_closes_lists() {
    let mut out = String::from("x");
    assert!(push_line(&mut out, false, true, "\\item a"));
    assert_eq!(out, "x\\begin{itemize}\n\\item a\n");
    assert!(push_line(&mut out, true, true, "\\item b"));
    assert_eq!(out, "x\\begin{itemize}\n\\item a\n\\item b\n");
    assert!(!push_line(&mut out, true, false, "end"));
    assert_eq!(out, "x\\begin{itemize}\n\\item a\n\\item b\n\\end{itemize}\nend\n");
    assert!(!push_line(&mut out, false, false, ""));
    assert_eq!(out, "x\\begin{itemize}\n\\item a\n\\item b\n\\end{itemize}\nend\n\n");
}

#[test]
fn patterns_are_matched_by_the_regex_engine() {
    assert!(finds("a+b", "xaab"));
    assert!(!finds("a+b", "xaa"));
    assert!(!finds("a(b", "a(b"));
    assert_eq!(rewrite("a+", "caaandaa", "<$0>"), "c<aaa>nd<aa>");
    assert_eq!(rewrite("(?P<x>b)", "abc", "[$x]"), "a[b]c");
    assert_eq!(rewrite("a(b", "a(b", "x"), "a(b");
    assert_eq!(rewrite("z", "abc", "x"), "abc");
}
