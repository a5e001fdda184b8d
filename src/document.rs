//! Assembling the converted document and naming the file it is written to.
use vstd::prelude::*;
use vstd::string::*;

use crate::tagger::{tag_lines, tagged};

verus! {

/// The output path: the input path with its last three characters replaced by
/// `.html`, whatever those characters are.
pub open spec fn output_path_of(input: Seq<char>) -> Seq<char> {
    input.subrange(0, input.len() - 3) + ".html"@
}

/// Names the output file of `input`; `None` when the path has fewer than
/// three characters to replace.
pub fn output_path(input: &str) -> (r: Option<String>)
    ensures
        input@.len() < 3 <==> r is None,
        r matches Some(p) ==> p@ == output_path_of(input@),
{
    let n: usize = input.unicode_len();
    if n < 3 {
        return None;
    }
    let mut path = String::from_str(input.substring_char(0, n - 3));
    path.append(".html");
    Some(path)
}

/// The document: all fragments concatenated in order.
pub fn render_document(fragments: &Vec<String>) -> (r: String)
    ensures
        r@ == fragments.deep_view().flatten(),
{
    let mut out = String::new();
    let mut i: usize = 0;
    while i < fragments.len()
        invariant
            i <= fragments.len(),
            out@ == fragments.deep_view().take(i as int).flatten(),
        decreases fragments.len() - i,
    {
        out.append(fragments[i].as_str());
        proof {
            let done = fragments.deep_view().take(i as int);
            let f = fragments.deep_view()[i as int];
            assert(f == fragments@[i as int]@);
            assert(fragments.deep_view().take(i + 1) =~= done.push(f));
            done.lemma_flatten_push(f);
        }
        i = i + 1;
    }
    assert(fragments.deep_view().take(i as int) =~= fragments.deep_view());
    out
}

/// Converts the lines of a Markdown document to the HTML text written out.
pub fn markdown_to_html(lines: &Vec<String>) -> (r: String)
    ensures
        r@ == tagged(lines.deep_view()).flatten(),
{
    let fragments = tag_lines(lines);
    render_document(&fragments)
}

} // verus!
