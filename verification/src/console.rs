//! What the host's operator types, and what the console makes of it.
//!
//! The console itself, its prompts and its reading of lines, is outside the
//! library: these functions take a line and say what it means.

use vstd::prelude::*;
use vstd::utf8::{encode_utf8, encode_utf8_decode_utf8};

verus! {

/// Whether a character is white space: what `char::is_whitespace` returns
/// for it.
pub uninterp spec fn whitespace(c: char) -> bool;

/// Asks `char::is_whitespace`, which goes by the character alone: it is true
/// of the characters that Unicode gives the property `White_Space`.
#[verifier::external_body]
fn is_whitespace(c: char) -> (r: bool)
    ensures
        r == whitespace(c),
{
    c.is_whitespace()
}

/// Whether two texts are the same, character for character.
pub fn same_text(left: &str, right: &str) -> (r: bool)
    ensures
        r == (left@ == right@),
{
    let a = left.as_bytes();
    let b = right.as_bytes();
    proof {
        encode_utf8_decode_utf8(left@);
        encode_utf8_decode_utf8(right@);
    }
    if a.len() != b.len() {
        return false;
    }
    let mut i: usize = 0;
    while i < a.len()
        invariant
            i <= a.len(),
            a@ == encode_utf8(left@),
            b@ == encode_utf8(right@),
            a@.len() == b@.len(),
            forall|j: int| 0 <= j < i ==> a@[j] == b@[j],
        decreases a.len() - i,
    {
        if a[i] != b[i] {
            return false;
        }
        i += 1;
    }
    assert(a@ =~= b@);
    true
}

// ---------------------------------------------------------------------------
// Commands
// ---------------------------------------------------------------------------

/// What a line at the prompt asks for.
#[derive(Debug, Clone, Copy, PartialEq, Eq, Structural)]
pub enum ConsoleCommand {
    /// Nothing: the line is empty or white space only. The prompt comes again.
    Blank,
    /// Upload a file to the client.
    Upload,
    /// Measure the time of one exchange with the client.
    Ping,
    /// Anything else.
    Unrecognized,
}

/// Whether a line is empty or holds white space only.
pub open spec fn blank(line: Seq<char>) -> bool {
    forall|i: int| 0 <= i < line.len() ==> whitespace(#[trigger] line[i])
}

/// What a line asks for, given whether it is blank: nothing where it is, and
/// else the command whose name it is, letter for letter.
pub open spec fn command_in(line: Seq<char>, is_blank: bool) -> ConsoleCommand {
    if is_blank {
        ConsoleCommand::Blank
    } else if line == "upload"@ {
        ConsoleCommand::Upload
    } else if line == "ping"@ {
        ConsoleCommand::Ping
    } else {
        ConsoleCommand::Unrecognized
    }
}

/// Whether `line` is empty or holds white space only.
pub fn is_blank(line: &str) -> (r: bool)
    ensures
        r == blank(line@),
{
    for c in it: line.chars()
        invariant
            it.seq() == line@,
            forall|j: int| 0 <= j < it.index() ==> whitespace(#[trigger] line@[j]),
    {
        if !is_whitespace(c) {
            return false;
        }
    }
    true
}

/// What `line` asks for, given whether it is blank.
pub fn classify(line: &str, is_blank: bool) -> (r: ConsoleCommand)
    ensures
        r == command_in(line@, is_blank),
{
    if is_blank {
        ConsoleCommand::Blank
    } else if same_text(line, "upload") {
        ConsoleCommand::Upload
    } else if same_text(line, "ping") {
        ConsoleCommand::Ping
    } else {
        ConsoleCommand::Unrecognized
    }
}

/// What `line` asks for.
pub fn parse_command(line: &str) -> (r: ConsoleCommand)
    ensures
        r == command_in(line@, blank(line@)),
{
    classify(line, is_blank(line))
}

// ---------------------------------------------------------------------------
// Confirming a destination
// ---------------------------------------------------------------------------

/// What to do with a destination path for an upload.
#[derive(Debug, Clone, Copy, PartialEq, Eq, Structural)]
pub enum DestinationCheck {
    /// Go on with the upload.
    Proceed,
    /// Give the upload up.
    Cancel,
    /// Warn that the destination has no extension, and ask whether to
    /// continue; then come back with the answer.
    Ask,
}

/// What follows for a destination, given whether it has an extension and
/// what the operator answered last, if asked already:
///
/// - with an extension, go on;
/// - without one, go on after `y` or `Y`, give up after `n` or `N`, and ask
///   (again) after anything else or before any answer.
pub open spec fn destination_check(has_extension: bool, answer: Option<Seq<char>>) -> DestinationCheck {
    if has_extension {
        DestinationCheck::Proceed
    } else {
        match answer {
            Some(text) => if text == "y"@ || text == "Y"@ {
                DestinationCheck::Proceed
            } else if text == "n"@ || text == "N"@ {
                DestinationCheck::Cancel
            } else {
                DestinationCheck::Ask
            },
            None => DestinationCheck::Ask,
        }
    }
}

/// Decides on a destination path for an upload.
pub fn validate_file_dest(has_extension: bool, answer: Option<&str>) -> (r: DestinationCheck)
    ensures
        r == destination_check(
            has_extension,
            match answer {
                Some(text) => Some(text@),
                None => None,
            },
        ),
{
    if has_extension {
        return DestinationCheck::Proceed;
    }
    match answer {
        None => DestinationCheck::Ask,
        Some(text) => if same_text(text, "y") || same_text(text, "Y") {
            DestinationCheck::Proceed
        } else if same_text(text, "n") || same_text(text, "N") {
            DestinationCheck::Cancel
        } else {
            DestinationCheck::Ask
        },
    }
}

} // verus!
