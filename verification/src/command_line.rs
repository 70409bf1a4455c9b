//! What is shown to the user of the terminal, and how the user's answers
//! are read.

use crate::text::{lowercase_text, text_lowercased, text_trimmed, trim_text};
use vstd::prelude::*;
use vstd::string::*;

verus! {

/// The kinds of line that an agent prints.
#[derive(Debug, Clone, Copy, PartialEq, Eq, Structural)]
pub enum PrintCommand {
    /// A call to the gateway.
    AICall,
    /// A step of the tests.
    UnitTest,
    /// Something that went wrong.
    Issue,
}

/// A colour of the terminal.
#[derive(Debug, Clone, Copy, PartialEq, Eq, Structural)]
pub enum TextColor {
    Green,
    Cyan,
    Magenta,
    Red,
}

/// The colour of an agent's statement: cyan for a call to the gateway,
/// magenta for a step of the tests, red for an issue.
pub open spec fn statement_color_of(command: PrintCommand) -> TextColor {
    match command {
        PrintCommand::AICall => TextColor::Cyan,
        PrintCommand::UnitTest => TextColor::Magenta,
        PrintCommand::Issue => TextColor::Red,
    }
}

/// The label that stands before an agent's statement.
pub open spec fn agent_label_of(agent_pos: Seq<char>) -> Seq<char> {
    "Agent: "@ + agent_pos + ": "@
}

/// An agent's statement as it is printed.
pub open spec fn statement_line_of(agent_statement: Seq<char>) -> Seq<char> {
    agent_statement + " \n"@
}

impl PrintCommand {
    /// The colour in which the label of every line is printed.
    pub fn label_color(&self) -> (color: TextColor)
        ensures
            color == TextColor::Green,
    {
        TextColor::Green
    }

    /// The colour in which the statement of a line of this kind is printed.
    pub fn statement_color(&self) -> (color: TextColor)
        ensures
            color == statement_color_of(*self),
    {
        match self {
            PrintCommand::AICall => TextColor::Cyan,
            PrintCommand::UnitTest => TextColor::Magenta,
            PrintCommand::Issue => TextColor::Red,
        }
    }
}

/// The label that stands before the statement of the agent `agent_pos`.
pub fn agent_label(agent_pos: &str) -> (label: String)
    ensures
        label@ == agent_label_of(agent_pos@),
{
    let mut label = String::from_str("Agent: ");
    label.append(agent_pos);
    label.append(": ");
    label
}

/// The statement of an agent as it is printed.
pub fn statement_line(agent_statement: &str) -> (line: String)
    ensures
        line@ == statement_line_of(agent_statement@),
{
    let mut line = String::from_str(agent_statement);
    line.append(" \n");
    line
}

/// The answers that allow the generated code to be run.
pub open spec fn is_accepted(answer: Seq<char>) -> bool {
    answer == "1"@ || answer == "ok"@ || answer == "y"@
}

/// Whether `answer`, which is trimmed and in lower case, allows the
/// generated code to be run.
pub fn accepts_answer(answer: &str) -> (allowed: bool)
    ensures
        allowed == is_accepted(answer@),
{
    let answer = String::from_str(answer);
    answer == String::from_str("1") || answer == String::from_str("ok") || answer
        == String::from_str("y")
}

/// Whether the line `response` that the user typed allows the generated code
/// to be run: the line is trimmed and put in lower case, and then has to be
/// one of `1`, `ok` and `y`.
pub fn is_confirmation(response: &str) -> (allowed: bool)
    ensures
        allowed == is_accepted(text_lowercased(text_trimmed(response@))),
{
    let trimmed = trim_text(response);
    let answer = lowercase_text(trimmed);
    accepts_answer(answer.as_str())
}

} // verus!
