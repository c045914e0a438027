//! What the players type in reply to the questions of the game: yes or no,
//! and the choice of what to do next.

use vstd::prelude::*;
use vstd::string::StrSliceExecFns;

verus! {

/// A reply to a question that is answered with yes or no.
#[derive(Clone, Copy, Debug, PartialEq, Eq, Structural)]
pub enum Answer {
    Yes,
    No,
}

/// What a player chooses to do when it is their turn.
#[derive(Clone, Copy, Debug, PartialEq, Eq, Structural)]
pub enum Choice {
    /// Leave the game without saving it.
    Exit,
    /// Save the game and leave.
    Save,
    /// Mark a cell.
    Motion,
}

impl Answer {
    /// The reply that a line of input gives, if it gives one. The line is
    /// taken as it is: blanks around the word are not ignored.
    pub open spec fn of_text(line: Seq<char>) -> Option<Answer> {
        if line == "Yes"@ || line == "YES"@ || line == "yes"@ || line == "Y"@ || line == "y"@ {
            Some(Answer::Yes)
        } else if line == "No"@ || line == "NO"@ || line == "no"@ || line == "N"@ || line
            == "n"@ {
            Some(Answer::No)
        } else {
            None
        }
    }

    /// Reads a reply from a line of input.
    pub fn read(line: &str) -> (answer: Option<Answer>)
        ensures
            answer == Self::of_text(line@),
    {
        if same_text(line, "Yes") || same_text(line, "YES") || same_text(line, "yes") || same_text(
            line,
            "Y",
        ) || same_text(line, "y") {
            Some(Answer::Yes)
        } else if same_text(line, "No") || same_text(line, "NO") || same_text(line, "no")
            || same_text(line, "N") || same_text(line, "n") {
            Some(Answer::No)
        } else {
            None
        }
    }
}

impl Choice {
    /// The choice that a line of input makes, if it makes one. The line is
    /// taken as it is: blanks around the letter are not ignored.
    pub open spec fn of_text(line: Seq<char>) -> Option<Choice> {
        if line == "E"@ || line == "e"@ {
            Some(Choice::Exit)
        } else if line == "S"@ || line == "s"@ {
            Some(Choice::Save)
        } else if line == "M"@ || line == "m"@ {
            Some(Choice::Motion)
        } else {
            None
        }
    }

    /// Reads a choice from a line of input.
    pub fn read(line: &str) -> (choice: Option<Choice>)
        ensures
            choice == Self::of_text(line@),
    {
        if same_text(line, "E") || same_text(line, "e") {
            Some(Choice::Exit)
        } else if same_text(line, "S") || same_text(line, "s") {
            Some(Choice::Save)
        } else if same_text(line, "M") || same_text(line, "m") {
            Some(Choice::Motion)
        } else {
            None
        }
    }
}

/// Tells whether two texts are the same, character by character.
fn same_text(left: &str, right: &str) -> (same: bool)
    ensures
        same == (left@ == right@),
{
    let length = left.unicode_len();
    if length != right.unicode_len() {
        return false;
    }
    for i in 0..length
        invariant
            length == left@.len(),
            length == right@.len(),
            forall|k: int| 0 <= k < i ==> left@[k] == right@[k],
    {
        if left.get_char(i) != right.get_char(i) {
            return false;
        }
    }
    assert(left@ =~= right@);
    true
}

} // verus!
