use tinymd::tagger::{tag_lines, TaggerState};

fn lines(items: &[&str]) -> Vec<String> {
    items.iter().map(|s| s.to_string()).collect()
}

#[test]
fn scenario_title_paragraph_blank_heading() {
    let out = tag_lines(&lines(&["# Title", "Hello world", "", "# Next"]));
    assert_eq!(
        out,
        vec![
            "\n\n<h1>Title</h1>\n".to_string(),
            "<p>Hello world</p>\n".to_string(),
            "\n\n<h1>Next</h1>\n".to_string(),
        ]
    );
}

#[test]
fn scenario_single_empty_line() {
    let out = tag_lines(&lines(&[""]));
    assert!(out.is_empty());
}

#[test]
fn scenario_bare_heading_marker() {
    let out = tag_lines(&lines(&["#"]));
    assert_eq!(out, vec!["\n\n<h1></h1>\n".to_string()]);
}

#[test]
fn empty_document() {
    assert!(tag_lines(&Vec::new()).is_empty());
}

#[test]
fn only_empty_lines_are_dropped() {
    let out = tag_lines(&lines(&["", " ", "", "\t", ""]));
    assert_eq!(out, vec!["<p> </p>\n".to_string(), "<p>\t</p>\n".to_string()]);
}

#[test]
fn kept_fragments_follow_line_order() {
    let out = tag_lines(&lines(&["a", "", "#  b", "c", "", "", "# d"]));
    assert_eq!(
        out,
        vec![
            "<p>a</p>\n".to_string(),
            "\n\n<h1> b</h1>\n".to_string(),
            "<p>c</p>\n".to_string(),
            "\n\n<h1>d</h1>\n".to_string(),
        ]
    );
}

#[test]
fn consecutive_paragraph_lines_are_separate() {
    let out = tag_lines(&lines(&["one", "two"]));
    assert_eq!(out, vec!["<p>one</p>\n".to_string(), "<p>two</p>\n".to_string()]);
}

#[test]
fn paragraph_line_is_wrapped_whole() {
    let mut st = TaggerState::new();
    assert_eq!(st.tag_line("plain text here"), "<p>plain text here</p>\n");
    assert_eq!(st.tag_line("a#b"), "<p>a#b</p>\n");
    assert_eq!(st.tag_line(" # not a heading"), "<p> # not a heading</p>\n");
}

#[test]
fn heading_drops_marker_and_next_character() {
    let mut st = TaggerState::new();
    assert_eq!(st.tag_line("# Title"), "\n\n<h1>Title</h1>\n");
    assert_eq!(st.tag_line("#xTitle"), "\n\n<h1>Title</h1>\n");
    assert_eq!(st.tag_line("## Sub"), "\n\n<h1> Sub</h1>\n");
    assert_eq!(st.tag_line("# "), "\n\n<h1></h1>\n");
}

#[test]
fn heading_offset_counts_characters() {
    let mut st = TaggerState::new();
    assert_eq!(st.tag_line("#\u{e9}x"), "\n\n<h1>x</h1>\n");
    assert_eq!(st.tag_line("# \u{e9}t\u{e9}"), "\n\n<h1>\u{e9}t\u{e9}</h1>\n");
}

#[test]
fn every_line_ends_idle() {
    let mut st = TaggerState::new();
    st.tag_line("# Head");
    assert_eq!(st, TaggerState::new());
    st.tag_line("text");
    assert!(!st.in_paragraph && !st.in_heading);
}

#[test]
fn open_paragraph_is_closed_before_heading() {
    let mut st = TaggerState { in_paragraph: true, in_heading: false };
    assert_eq!(st.tag_line("# H"), "</p>\n\n\n<h1>H</h1>\n");
    assert_eq!(st, TaggerState { in_paragraph: false, in_heading: false });
}

#[test]
fn open_heading_is_closed_before_heading() {
    let mut st = TaggerState { in_paragraph: true, in_heading: true };
    assert_eq!(st.tag_line("# H"), "</p>\n</h1>\n\n\n<h1>H</h1>\n");
}

#[test]
fn open_tags_around_a_paragraph_line() {
    let mut st = TaggerState { in_paragraph: true, in_heading: false };
    assert_eq!(st.tag_line("x"), "x</p>\n");
    let mut st = TaggerState { in_paragraph: false, in_heading: true };
    assert_eq!(st.tag_line("x"), "<p>x</p>\n</h1>\n");
}
