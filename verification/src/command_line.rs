//! Operator-facing decisions: which color a status line gets, and how one
//! raw answer at the human confirmation gate is classified. The printing and
//! reading themselves are outside work; only the decisions live here.

use vstd::prelude::*;
use vstd::string::StringExecFns;

verus! {

/// The kind of status line an agent emits.
#[derive(Clone, Copy, Debug, PartialEq, Eq, Structural)]
pub enum PrintCommand {
    AICall,
    UnitTest,
    Issue,
}

/// The color a statement is rendered in, as the library's own name for it.
#[derive(Clone, Copy, Debug, PartialEq, Eq, Structural)]
pub enum StatementColor {
    Cyan,
    Magenta,
    Red,
}

/// The color each kind of status line gets.
pub open spec fn statement_color_spec(c: PrintCommand) -> StatementColor {
    match c {
        PrintCommand::AICall => StatementColor::Cyan,
        PrintCommand::UnitTest => StatementColor::Magenta,
        PrintCommand::Issue => StatementColor::Red,
    }
}

impl PrintCommand {
    /// Decide the print color for this kind of status line.
    pub fn statement_color(&self) -> (r: StatementColor)
        ensures
            r == statement_color_spec(*self),
    {
        match self {
            PrintCommand::AICall => StatementColor::Cyan,
            PrintCommand::UnitTest => StatementColor::Magenta,
            PrintCommand::Issue => StatementColor::Red,
        }
    }
}

/// What one answer at the confirmation gate means.
#[derive(Clone, Copy, Debug, PartialEq, Eq, Structural)]
pub enum Confirmation {
    Approved,
    Rejected,
    Unrecognized,
}

/// How a normalized (trimmed, lowercased) answer is read: `1`, `ok` and `y`
/// approve; `2`, `no` and `n` reject; anything else is unrecognized and the
/// gate asks again.
pub open spec fn classify_spec(s: Seq<char>) -> Confirmation {
    if s == "1"@ || s == "ok"@ || s == "y"@ {
        Confirmation::Approved
    } else if s == "2"@ || s == "no"@ || s == "n"@ {
        Confirmation::Rejected
    } else {
        Confirmation::Unrecognized
    }
}

/// What `str::trim` returns: a function of the characters alone.
pub uninterp spec fn trim_of(s: Seq<char>) -> Seq<char>;

/// Relies on str::trim: removes leading and trailing whitespace; the result
/// depends on the characters alone.
#[verifier::external_body]
fn trim_input(s: &str) -> (r: String)
    ensures
        r@ == trim_of(s@),
{
    s.trim().to_string()
}

/// What `str::to_lowercase` returns: a function of the characters alone.
pub uninterp spec fn lower_of(s: Seq<char>) -> Seq<char>;

/// Relies on str::to_lowercase: the result depends on the characters alone.
#[verifier::external_body]
fn lowercase_input(s: &str) -> (r: String)
    ensures
        r@ == lower_of(s@),
{
    s.to_lowercase()
}

/// Classifies an already-normalized answer, exactly as `classify_spec` says.
pub fn classify_response(normalized: &String) -> (r: Confirmation)
    ensures
        r == classify_spec(normalized@),
{
    let one = String::from_str("1");
    let ok = String::from_str("ok");
    let yes = String::from_str("y");
    let two = String::from_str("2");
    let no = String::from_str("no");
    let nay = String::from_str("n");
    if *normalized == one || *normalized == ok || *normalized == yes {
        Confirmation::Approved
    } else if *normalized == two || *normalized == no || *normalized == nay {
        Confirmation::Rejected
    } else {
        Confirmation::Unrecognized
    }
}

/// Classifies one raw operator answer: trimmed, lowercased (so the match is
/// case-insensitive), then read as `classify_spec` says.
pub fn interpret_confirmation(input: &str) -> (r: Confirmation)
    ensures
        r == classify_spec(lower_of(trim_of(input@))),
{
    let trimmed = trim_input(input);
    let normalized = lowercase_input(trimmed.as_str());
    classify_response(&normalized)
}

} // verus!
