//! The line tagger: a single forward pass that wraps each line in the tag its
//! first character selects.
use vstd::prelude::*;
use vstd::string::*;

verus! {

/// Whether an opening `<p>` or `<h1>` tag is still unclosed.
#[derive(Clone, Copy, Debug, PartialEq, Eq, Structural)]
pub struct TaggerState {
    pub in_paragraph: bool,
    pub in_heading: bool,
}

/// A line is a heading when its first character is `#`.
pub open spec fn is_heading_line(line: Seq<char>) -> bool {
    line.len() > 0 && line[0] == '#'
}

/// The text of a heading: the line without its first two characters, empty
/// when the line is shorter than that.
pub open spec fn heading_text(line: Seq<char>) -> Seq<char> {
    if line.len() >= 2 {
        line.subrange(2, line.len() as int)
    } else {
        Seq::empty()
    }
}

/// The closing tag `tag` when `open` holds, nothing otherwise.
pub open spec fn closing(open: bool, tag: Seq<char>) -> Seq<char> {
    if open {
        tag
    } else {
        Seq::empty()
    }
}

/// What one line produces when tagging starts in state `st`.
pub open spec fn line_output(st: TaggerState, line: Seq<char>) -> Seq<char> {
    if is_heading_line(line) {
        closing(st.in_paragraph, "</p>\n"@) + closing(st.in_heading, "</h1>\n"@) + "\n\n<h1>"@
            + heading_text(line) + "</h1>\n"@
    } else {
        (if st.in_paragraph {
            Seq::empty()
        } else {
            "<p>"@
        }) + line + "</p>\n"@ + closing(st.in_heading, "</h1>\n"@)
    }
}

/// The fragment of one line: a heading or a paragraph.
pub open spec fn fragment(line: Seq<char>) -> Seq<char> {
    if is_heading_line(line) {
        "\n\n<h1>"@ + heading_text(line) + "</h1>\n"@
    } else {
        "<p>"@ + line + "</p>\n"@
    }
}

/// The fragment that an empty line produces, which is left out of the output.
pub open spec fn empty_paragraph() -> Seq<char> {
    "<p></p>\n"@
}

/// The kept fragments of a document: the fragment of each line, in order,
/// without the empty paragraphs.
pub open spec fn tagged(lines: Seq<Seq<char>>) -> Seq<Seq<char>> {
    lines.map_values(|l: Seq<char>| fragment(l)).filter(|f: Seq<char>| f != empty_paragraph())
}

impl TaggerState {
    /// No tag is open.
    pub open spec fn is_idle(self) -> bool {
        !self.in_paragraph && !self.in_heading
    }

    /// The state at the start of a document.
    pub fn new() -> (r: Self)
        ensures
            r.is_idle(),
    {
        TaggerState { in_paragraph: false, in_heading: false }
    }

    /// Tags one line: closes whatever was left open before a heading, opens
    /// the line's tag, and closes every tag again at the end of the line.
    pub fn tag_line(&mut self, line: &str) -> (r: String)
        ensures
            r@ == line_output(*old(self), line@),
            old(self).is_idle() ==> r@ == fragment(line@),
            old(self).is_idle() && !is_heading_line(line@) ==> r@ == "<p>"@ + line@ + "</p>\n"@,
            old(self).is_idle() && is_heading_line(line@) ==> r@ == "\n\n<h1>"@ + heading_text(
                line@,
            ) + "</h1>\n"@,
            final(self).is_idle(),
    {
        let mut out = String::new();
        let heading = !line.is_empty() && line.get_char(0) == '#';
        if heading {
            if self.in_paragraph {
                self.in_paragraph = false;
                out.append("</p>\n");
            }
            if self.in_heading {
                self.in_heading = false;
                out.append("</h1>\n");
            }
            self.in_heading = true;
            out.append("\n\n<h1>");
            let n: usize = line.unicode_len();
            if n >= 2 {
                out.append(line.substring_char(2, n));
            }
        } else {
            if !self.in_paragraph {
                self.in_paragraph = true;
                out.append("<p>");
            }
            out.append(line);
        }
        if self.in_paragraph {
            self.in_paragraph = false;
            out.append("</p>\n");
        }
        if self.in_heading {
            self.in_heading = false;
            out.append("</h1>\n");
        }
        out
    }
}

/// Tags every line of a document in order, starting idle, and keeps each
/// fragment but the empty paragraphs.
pub fn tag_lines(lines: &Vec<String>) -> (r: Vec<String>)
    ensures
        r.deep_view() == tagged(lines.deep_view()),
{
    let mut state = TaggerState::new();
    let mut out: Vec<String> = Vec::new();
    let blank = String::from_str("<p></p>\n");
    let mut i: usize = 0;
    while i < lines.len()
        invariant
            i <= lines.len(),
            state.is_idle(),
            blank@ == empty_paragraph(),
            out.deep_view() == tagged(lines.deep_view().take(i as int)),
        decreases lines.len() - i,
    {
        let f = state.tag_line(lines[i].as_str());
        let ghost before = out.deep_view();
        if f != blank {
            out.push(f);
            assert(out.deep_view() =~= before.push(f@));
        }
        proof {
            let frag = |l: Seq<char>| fragment(l);
            let keep = |f: Seq<char>| f != empty_paragraph();
            let done = lines.deep_view().take(i as int);
            let line = lines.deep_view()[i as int];
            assert(line == lines@[i as int]@);
            assert(lines.deep_view().take(i + 1) =~= done.push(line));
            done.lemma_push_map_commute(frag, line);
            done.map_values(frag).lemma_filter_push(f@, keep);
        }
        i = i + 1;
    }
    assert(lines.deep_view().take(i as int) =~= lines.deep_view());
    out
}

/// A line that starts in the idle state closes no earlier tag: its output is
/// its fragment alone. Since every line ends idle, the closing of a tag left
/// open by an earlier line never happens within a document.
pub proof fn lemma_idle_line_closes_nothing(st: TaggerState, line: Seq<char>)
    requires
        st.is_idle(),
    ensures
        line_output(st, line) == fragment(line),
{
    assert(closing(false, "</p>\n"@) + closing(false, "</h1>\n"@) + "\n\n<h1>"@ =~= "\n\n<h1>"@);
    assert(Seq::<char>::empty() + "<p>"@ =~= "<p>"@);
    assert(line_output(st, line) =~= fragment(line));
}

/// A fragment is an empty paragraph exactly when its line is empty: only the
/// empty line is dropped, and a line of spaces, or a bare `#`, is kept.
pub proof fn lemma_dropped_iff_empty(line: Seq<char>)
    ensures
        (fragment(line) == empty_paragraph()) <==> line.len() == 0,
{
    reveal_strlit("<p>");
    reveal_strlit("</p>\n");
    reveal_strlit("<p></p>\n");
    reveal_strlit("\n\n<h1>");
    if line.len() == 0 {
        assert(fragment(line) =~= empty_paragraph());
    } else if is_heading_line(line) {
        assert(fragment(line)[0] != empty_paragraph()[0]);
    } else {
        assert(fragment(line).len() != empty_paragraph().len());
    }
}

/// The kept fragments correspond one for one, in order, to the non-empty
/// lines of the document.
pub proof fn lemma_order_kept(lines: Seq<Seq<char>>)
    ensures
        tagged(lines) == lines.filter(|l: Seq<char>| l.len() > 0).map_values(
            |l: Seq<char>| fragment(l),
        ),
    decreases lines.len(),
{
    let frag = |l: Seq<char>| fragment(l);
    let keep = |f: Seq<char>| f != empty_paragraph();
    let nonempty = |l: Seq<char>| l.len() > 0;
    if lines.len() == 0 {
        reveal(Seq::filter);
        assert(tagged(lines) =~= Seq::empty());
        assert(lines.filter(nonempty).map_values(frag) =~= Seq::empty());
    } else {
        let rest = lines.drop_last();
        let line = lines.last();
        lemma_order_kept(rest);
        lemma_dropped_iff_empty(line);
        assert(lines =~= rest.push(line));
        rest.lemma_push_map_commute(frag, line);
        rest.map_values(frag).lemma_filter_push(fragment(line), keep);
        rest.lemma_filter_push(line, nonempty);
        rest.filter(nonempty).lemma_push_map_commute(frag, line);
    }
}

} // verus!
