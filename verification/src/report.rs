//! The line that reports a verdict.

use crate::check::Verdict;
use colored::Colorize;
use vstd::prelude::*;

verus! {

/// The escape character that starts a terminal's colour sequences.
pub open spec fn escape() -> char {
    '\u{1b}'
}

/// The sequence that switches the foreground to green, for an available
/// image, or to red, for an unavailable one.
pub open spec fn colour_on(verdict: Verdict) -> Seq<char> {
    match verdict {
        Verdict::Available => seq![escape(), '[', '3', '2', 'm'],
        Verdict::Unavailable => seq![escape(), '[', '3', '1', 'm'],
    }
}

/// The sequence that switches all colours off.
pub open spec fn colour_off() -> Seq<char> {
    seq![escape(), '[', '0', 'm']
}

/// A name in the colour of a verdict.
pub open spec fn coloured(verdict: Verdict, name: Seq<char>) -> Seq<char> {
    colour_on(verdict) + name + colour_off()
}

/// Whether `painted` is the name itself, as it is shown where colours are
/// switched off, or the name in the verdict's colour.
pub open spec fn is_painted(verdict: Verdict, name: Seq<char>, painted: Seq<char>) -> bool {
    painted == name || painted == coloured(verdict, name)
}

/// The line that reports a verdict on `repo:tag`, with the registry's name as
/// `painted` gives it.
pub open spec fn line_text(
    verdict: Verdict,
    repo: Seq<char>,
    tag: Seq<char>,
    painted: Seq<char>,
) -> Seq<char> {
    match verdict {
        Verdict::Available => "✓ Image "@ + repo + ":"@ + tag + " is available in "@ + painted
            + "."@,
        Verdict::Unavailable => "✗ Image "@ + repo + ":"@ + tag + " is not available in "@
            + painted + "."@,
    }
}

/// Whether `line` reports a verdict on `repo:tag` at the registry `host`. The
/// host's name stands in it as the terminal shows it: for a name without an
/// escape character that is the name itself or the name in the verdict's
/// colour.
pub open spec fn is_report_line(
    line: Seq<char>,
    verdict: Verdict,
    repo: Seq<char>,
    tag: Seq<char>,
    host: Seq<char>,
) -> bool {
    &&& exists|painted: Seq<char>| line == line_text(verdict, repo, tag, painted)
    &&& !host.contains(escape()) ==> exists|painted: Seq<char>|
        is_painted(verdict, host, painted) && line == line_text(verdict, repo, tag, painted)
}

/// `Colorize::green` of the crate colored, and the text that the coloured
/// string displays as. Whether colours are on is the environment's matter. Of
/// a name without an escape character the text is either the name or the
/// name between the sequences for green and for colours off.
#[verifier::external_body]
fn paint_green(name: &str) -> (painted: String)
    ensures
        !name@.contains(escape()) ==> is_painted(Verdict::Available, name@, painted@),
{
    name.green().to_string()
}

/// `Colorize::red` of the crate colored, and the text that the coloured
/// string displays as. Whether colours are on is the environment's matter. Of
/// a name without an escape character the text is either the name or the
/// name between the sequences for red and for colours off.
#[verifier::external_body]
fn paint_red(name: &str) -> (painted: String)
    ensures
        !name@.contains(escape()) ==> is_painted(Verdict::Unavailable, name@, painted@),
{
    name.red().to_string()
}

/// The line that reports a verdict on `repo:tag`, with the registry's name as
/// `painted` gives it.
pub fn format_line(verdict: Verdict, repo: &str, tag: &str, painted: &str) -> (line: String)
    ensures
        line@ == line_text(verdict, repo@, tag@, painted@),
{
    let mut line = match verdict {
        Verdict::Available => String::from_str("✓ Image "),
        Verdict::Unavailable => String::from_str("✗ Image "),
    };
    line.append(repo);
    line.append(":");
    line.append(tag);
    match verdict {
        Verdict::Available => line.append(" is available in "),
        Verdict::Unavailable => line.append(" is not available in "),
    }
    line.append(painted);
    line.append(".");
    line
}

/// The line that reports a verdict on `repo:tag` at the registry `host`: the
/// host stands in green for an available image and in red for an unavailable
/// one, where the environment shows colours.
pub fn report_line(verdict: Verdict, repo: &str, tag: &str, host: &str) -> (line: String)
    ensures
        is_report_line(line@, verdict, repo@, tag@, host@),
{
    let painted = match verdict {
        Verdict::Available => paint_green(host),
        Verdict::Unavailable => paint_red(host),
    };
    format_line(verdict, repo, tag, painted.as_str())
}

} // verus!
