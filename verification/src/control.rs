//! What the keys mean, and what a command does to the session.
//!
//! The caller reads the keys and draws the screen; between the two it asks this
//! module what to do.

use vstd::prelude::*;

use crate::error::PeepError;
use crate::file_utils::same_text;
use crate::models::{ModifierState, PeepFrame};
use crate::window::{backward_window, forward_window, head_window, tail_window};

verus! {

/// A key press, without modifiers.
#[derive(Clone, Copy, Debug, PartialEq, Eq, Structural)]
pub enum Key {
    Up,
    Down,
    Left,
    Right,
    /// A character key.
    Char(char),
    /// Any other key, or any other event.
    Other,
}

/// What the user can ask of the session.
#[derive(Debug)]
pub enum Command {
    PageUp,
    PageDown,
    PageLeft,
    PageRight,
    JumpHead,
    JumpTail,
    /// Run the query in the text.
    RunQuery(String),
    SampleRandom,
    Reset,
    Quit,
}

/// What a key asks for.
#[derive(Debug)]
pub enum KeyMeaning {
    /// Run the command.
    Run(Command),
    /// Ask the user for a query, line by line.
    AskQuery,
    /// The key has no meaning; the screen is drawn again all the same.
    Nothing,
}

/// How the loop goes on after a command.
#[derive(Debug)]
pub enum Outcome {
    /// The command was carried out: draw the session again.
    Done,
    /// The command failed and the session is as it was: tell the user why.
    Failed(PeepError),
    /// Leave the loop.
    Quit,
}

/// The meaning of each key: the arrows page, `t` and `h` jump to the tail and
/// the head, `r` samples, `s` asks for a query, `o` resets and `q` quits.
pub open spec fn meaning_of(key: Key) -> KeyMeaning {
    match key {
        Key::Down => KeyMeaning::Run(Command::PageDown),
        Key::Up => KeyMeaning::Run(Command::PageUp),
        Key::Left => KeyMeaning::Run(Command::PageLeft),
        Key::Right => KeyMeaning::Run(Command::PageRight),
        Key::Char(c) => if c == 't' {
            KeyMeaning::Run(Command::JumpTail)
        } else if c == 'h' {
            KeyMeaning::Run(Command::JumpHead)
        } else if c == 'r' {
            KeyMeaning::Run(Command::SampleRandom)
        } else if c == 's' {
            KeyMeaning::AskQuery
        } else if c == 'o' {
            KeyMeaning::Run(Command::Reset)
        } else if c == 'q' {
            KeyMeaning::Run(Command::Quit)
        } else {
            KeyMeaning::Nothing
        },
        Key::Other => KeyMeaning::Nothing,
    }
}

/// Computes [`meaning_of`].
pub fn key_meaning(key: Key) -> (meaning: KeyMeaning)
    ensures
        meaning == meaning_of(key),
{
    match key {
        Key::Down => KeyMeaning::Run(Command::PageDown),
        Key::Up => KeyMeaning::Run(Command::PageUp),
        Key::Left => KeyMeaning::Run(Command::PageLeft),
        Key::Right => KeyMeaning::Run(Command::PageRight),
        Key::Char(c) => {
            if c == 't' {
                KeyMeaning::Run(Command::JumpTail)
            } else if c == 'h' {
                KeyMeaning::Run(Command::JumpHead)
            } else if c == 'r' {
                KeyMeaning::Run(Command::SampleRandom)
            } else if c == 's' {
                KeyMeaning::AskQuery
            } else if c == 'o' {
                KeyMeaning::Run(Command::Reset)
            } else if c == 'q' {
                KeyMeaning::Run(Command::Quit)
            } else {
                KeyMeaning::Nothing
            }
        },
        Key::Other => KeyMeaning::Nothing,
    }
}

/// A line of text as `str::trim` leaves it: without the white space at its
/// start and at its end.
pub uninterp spec fn trim_of(line: Seq<char>) -> Seq<char>;

/// Calls `str::trim`. Trusted: the result is the text that [`trim_of`] names.
#[verifier::external_body]
fn trim<'a>(line: &'a str) -> (text: &'a str)
    ensures
        text@ == trim_of(line@),
{
    line.trim()
}

/// What a query text asks for: `q` alone leaves the prompt, anything else is a
/// query to run.
pub open spec fn is_query_for(command: Option<Command>, text: Seq<char>) -> bool {
    if text == "q"@ {
        command is None
    } else {
        command matches Some(Command::RunQuery(query)) && query@ == text
    }
}

/// Reads a query text: `None` to leave the prompt, or the query to run.
pub fn query_for_text(text: &str) -> (command: Option<Command>)
    ensures
        is_query_for(command, text@),
{
    if same_text(text, "q") {
        None
    } else {
        Some(Command::RunQuery(text.to_owned()))
    }
}

/// Reads a line typed at the query prompt: the line is trimmed, then read by
/// [`query_for_text`].
pub fn query_for_line(line: &str) -> (command: Option<Command>)
    ensures
        is_query_for(command, trim_of(line@)),
{
    query_for_text(trim(line))
}

/// The session `after` and the outcome are what the command makes of the
/// session `before`. Paging and jumping move one window and nothing else;
/// a query, a sample and a reset either take in a new dataset or fail and
/// change nothing; quitting changes nothing.
pub open spec fn carried_out(
    before: &PeepFrame,
    command: &Command,
    after: &PeepFrame,
    outcome: Outcome,
) -> bool {
    let page_rows = before.display_rows as int;
    let page_cols = before.display_cols as int;
    let rows = before.max_rows as int;
    let cols = before.max_cols as int;
    match command {
        Command::PageDown => {
            &&& outcome is Done
            &&& after.same_dataset(before)
            &&& after.col_slice_state == before.col_slice_state
            &&& after.rows() == forward_window(before.rows(), page_rows, rows)
        },
        Command::PageUp => {
            &&& outcome is Done
            &&& after.same_dataset(before)
            &&& after.col_slice_state == before.col_slice_state
            &&& after.rows() == backward_window(before.rows(), page_rows, rows)
        },
        Command::PageRight => {
            &&& outcome is Done
            &&& after.same_dataset(before)
            &&& after.row_slice_state == before.row_slice_state
            &&& after.cols() == forward_window(before.cols(), page_cols, cols)
        },
        Command::PageLeft => {
            &&& outcome is Done
            &&& after.same_dataset(before)
            &&& after.row_slice_state == before.row_slice_state
            &&& after.cols() == backward_window(before.cols(), page_cols, cols)
        },
        Command::JumpTail => {
            &&& outcome is Done
            &&& after.same_dataset(before)
            &&& after.col_slice_state == before.col_slice_state
            &&& after.rows() == tail_window(page_rows, rows)
        },
        Command::JumpHead => {
            &&& outcome is Done
            &&& after.same_dataset(before)
            &&& after.col_slice_state == before.col_slice_state
            &&& after.rows() == head_window(page_rows, rows)
        },
        Command::RunQuery(_) => {
            &&& outcome is Done ==> after.adopted(
                before,
                after.current_lazy_frame,
                after.max_rows,
                after.col_names,
                ModifierState::Queried,
            )
            &&& outcome matches Outcome::Failed(e) ==> (e is Query || e is DataAccess) && *after
                == *before
            &&& !(outcome is Quit)
        },
        Command::SampleRandom => {
            &&& outcome is Done ==> after.adopted(
                before,
                after.current_lazy_frame,
                after.max_rows,
                after.col_names,
                ModifierState::RandomRows,
            )
            &&& outcome matches Outcome::Failed(e) ==> (e is NoColumns || e is DataAccess) && *after
                == *before
            &&& before.original_col_names@.len() == 0 <==> outcome == Outcome::Failed(
                PeepError::NoColumns,
            )
            &&& !(outcome is Quit)
        },
        Command::Reset => {
            &&& outcome is Done ==> after.adopted(
                before,
                before.original_lazy_frame,
                after.max_rows,
                after.col_names,
                ModifierState::Original,
            )
            &&& outcome matches Outcome::Failed(e) ==> e is DataAccess && *after == *before
            &&& !(outcome is Quit)
        },
        Command::Quit => outcome is Quit && *after == *before,
    }
}

/// Carries out a command on the session. No failure ends the loop: only
/// quitting does.
pub fn apply(frame: &mut PeepFrame, command: &Command) -> (outcome: Outcome)
    ensures
        carried_out(old(frame), command, final(frame), outcome),
        outcome is Quit <==> command is Quit,
        old(frame).wf() ==> final(frame).wf(),
{
    match command {
        Command::PageDown => {
            frame.down();
            Outcome::Done
        },
        Command::PageUp => {
            frame.up();
            Outcome::Done
        },
        Command::PageRight => {
            frame.right();
            Outcome::Done
        },
        Command::PageLeft => {
            frame.left();
            Outcome::Done
        },
        Command::JumpTail => {
            frame.jump_to_tail();
            Outcome::Done
        },
        Command::JumpHead => {
            frame.jump_to_head();
            Outcome::Done
        },
        Command::RunQuery(query) => settled(frame.execute_sql(query.as_str())),
        Command::SampleRandom => settled(frame.shuffle_rows()),
        Command::Reset => settled(frame.reset_to_original()),
        Command::Quit => Outcome::Quit,
    }
}

/// The outcome of a command that may fail.
fn settled(result: Result<(), PeepError>) -> (outcome: Outcome)
    ensures
        result is Ok ==> outcome is Done,
        result matches Err(e) ==> outcome == Outcome::Failed(e),
{
    match result {
        Ok(()) => Outcome::Done,
        Err(e) => Outcome::Failed(e),
    }
}

} // verus!
