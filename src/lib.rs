//! Line-oriented Markdown to HTML conversion: each input line becomes one
//! HTML fragment, a `<h1>` for a line that starts with `#` and a `<p>`
//! otherwise.
pub mod cli;
pub mod document;
pub mod tagger;
