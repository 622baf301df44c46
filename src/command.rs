//! The command dispatcher's vocabulary: which submitted buffer names which
//! command.

use vstd::prelude::*;

use crate::text::chars_of;

verus! {

/// What a submitted command buffer asks for.
#[derive(Clone, Copy, Debug, PartialEq, Eq, Structural)]
pub enum Command {
    /// Put the help page on display.
    Help,
    /// End the program.
    Quit,
    /// Print the current package list and go on.
    Print,
    /// End the program, then print the current package list.
    QuitAndPrint,
    /// Put the list of commands on display.
    CommandList,
    /// Put the credits on display.
    Credits,
    /// Anything else: discarded without a word.
    Unknown,
}

/// The command that `buf` names: an exact, case-sensitive match of the
/// short or the long form, marker included.
pub open spec fn command_of(buf: Seq<char>) -> Command {
    if buf == ":help"@ || buf == ":h"@ {
        Command::Help
    } else if buf == ":quit"@ || buf == ":q"@ {
        Command::Quit
    } else if buf == ":p"@ || buf == ":print"@ {
        Command::Print
    } else if buf == ":qp"@ || buf == ":pq"@ {
        Command::QuitAndPrint
    } else if buf == ":c"@ || buf == ":commands"@ {
        Command::CommandList
    } else if buf == ":dedication"@ || buf == ":love"@ {
        Command::Credits
    } else {
        Command::Unknown
    }
}

/// Whether `buf` holds exactly the characters of `word`.
fn is_word(buf: &Vec<char>, word: &str) -> (r: bool)
    ensures
        r == (buf@ == word@),
{
    let w = chars_of(word);
    if buf.len() != w.len() {
        return false;
    }
    let mut i: usize = 0;
    while i < buf.len()
        invariant
            w@ == word@,
            buf.len() == w.len(),
            i <= buf.len(),
            forall|k: int| 0 <= k < i ==> buf@[k] == w@[k],
        decreases buf.len() - i,
    {
        if buf[i] != w[i] {
            return false;
        }
        i = i + 1;
    }
    assert(buf@ =~= w@);
    true
}

/// The command that the buffer `buf` names.
pub fn parse_command(buf: &Vec<char>) -> (r: Command)
    ensures
        r == command_of(buf@),
{
    if is_word(buf, ":help") || is_word(buf, ":h") {
        Command::Help
    } else if is_word(buf, ":quit") || is_word(buf, ":q") {
        Command::Quit
    } else if is_word(buf, ":p") || is_word(buf, ":print") {
        Command::Print
    } else if is_word(buf, ":qp") || is_word(buf, ":pq") {
        Command::QuitAndPrint
    } else if is_word(buf, ":c") || is_word(buf, ":commands") {
        Command::CommandList
    } else if is_word(buf, ":dedication") || is_word(buf, ":love") {
        Command::Credits
    } else {
        Command::Unknown
    }
}

} // verus!
