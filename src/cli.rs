//! What an invocation asks for, and the banner text shown to the user.
use vstd::prelude::*;
use vstd::string::*;

verus! {

/// What the command line asks for.
pub enum Invocation {
    /// No argument: show the usage banner.
    Usage,
    /// One argument: convert the file at this path.
    Convert(String),
    /// More than one argument: report the mistake and show the usage banner.
    Invalid,
}

/// Decides what to do from the arguments that follow the program name.
pub fn invocation(args: &Vec<String>) -> (r: Invocation)
    ensures
        args.len() == 0 <==> r is Usage,
        args.len() == 1 <==> r is Convert,
        args.len() >= 2 <==> r is Invalid,
        r matches Invocation::Convert(p) ==> p@ == args@[0]@,
{
    if args.len() == 0 {
        Invocation::Usage
    } else if args.len() == 1 {
        Invocation::Convert(args[0].clone())
    } else {
        Invocation::Invalid
    }
}

/// The package details that the banners show.
pub struct PackageInfo {
    pub name: String,
    pub version: String,
    pub description: String,
    pub authors: String,
    pub homepage: String,
}

/// One line: name, version and description.
pub open spec fn short_banner_text(info: &PackageInfo) -> Seq<char> {
    info.name@ + " (v"@ + info.version@ + "), "@ + info.description@
}

/// The short banner, then the authors, the homepage and how to invoke the
/// program, each line ended by a newline and the whole by a blank line.
pub open spec fn usage_text(info: &PackageInfo) -> Seq<char> {
    short_banner_text(info) + "\n"@ + "Written by: "@ + info.authors@ + "\nHomepage: "@
        + info.homepage@ + "\n"@ + "Usage: tinymd <somefile>.md\n\n"@
}

/// The one-line banner, without a line end.
pub fn short_banner(info: &PackageInfo) -> (r: String)
    ensures
        r@ == short_banner_text(info),
{
    let mut out = info.name.clone();
    out.append(" (v");
    out.append(info.version.as_str());
    out.append("), ");
    out.append(info.description.as_str());
    out
}

/// The full usage banner.
pub fn usage(info: &PackageInfo) -> (r: String)
    ensures
        r@ == usage_text(info),
{
    let mut out = short_banner(info);
    out.append("\n");
    out.append("Written by: ");
    out.append(info.authors.as_str());
    out.append("\nHomepage: ");
    out.append(info.homepage.as_str());
    out.append("\n");
    out.append("Usage: tinymd <somefile>.md\n\n");
    out
}

} // verus!
