//! A small shell helper: it extracts a sub-command from a process argument
//! list and resolves the path of a command-history file from the value of the
//! user's home-directory environment variable. Neither function touches the
//! file system; both are pure computations on strings.

pub mod command;
pub mod history;

use vstd::prelude::*;

verus! {

/// What one invocation of the helper should report, decided from the
/// argument list and a snapshot of the home-directory variable.
#[derive(Debug, PartialEq)]
pub enum Outcome {
    /// A command was extracted and the history path resolved: report both.
    Report { command: String, history_path: String },
    /// No command was present in the arguments; a normal, handled outcome.
    CommandNotFound,
    /// A command was present but the home-directory variable was unset.
    HistoryError { message: String },
}

/// The mathematical model of an `Outcome`, over character sequences.
pub enum OutcomeModel {
    Report { command: Seq<char>, history_path: Seq<char> },
    CommandNotFound,
    HistoryError { message: Seq<char> },
}

/// The model of an executable outcome.
pub open spec fn outcome_model(o: Outcome) -> OutcomeModel {
    match o {
        Outcome::Report { command, history_path } => (OutcomeModel::Report {
            command: command@,
            history_path: history_path@,
        }),
        Outcome::CommandNotFound => OutcomeModel::CommandNotFound,
        Outcome::HistoryError { message } => (OutcomeModel::HistoryError { message: message@ }),
    }
}

/// The outcome owed on a given argument list and environment snapshot:
/// absence of a command short-circuits, so the environment is consulted
/// only when a command is present.
pub open spec fn expected_outcome(args: Seq<Seq<char>>, home: Option<Seq<char>>) -> OutcomeModel {
    match crate::command::extracted_command(args) {
        Some(c) => match crate::history::resolved_path(home) {
            Ok(p) => (OutcomeModel::Report { command: c, history_path: p }),
            Err(m) => (OutcomeModel::HistoryError { message: m }),
        },
        None => OutcomeModel::CommandNotFound,
    }
}

/// Decide what one invocation reports, from the argument list and the value
/// of the `HOME` environment variable (`None` standing for an unset
/// variable). Pure glue around the two leaf functions: extraction decides
/// first, and only a present command asks for the history path.
pub fn run_outcome(args: &Vec<String>, home: Option<String>) -> (r: Outcome)
    ensures
        outcome_model(r) == expected_outcome(
            crate::command::arg_views(args@),
            crate::command::opt_view(home),
        ),
{
    match crate::command::_get_command(args) {
        Ok(Some(command)) => match crate::history::_get_command_history_linux(home) {
            Ok(history_path) => Outcome::Report { command, history_path },
            Err(message) => Outcome::HistoryError { message },
        },
        Ok(None) => Outcome::CommandNotFound,
        // extraction never fails; this arm is unreachable by its contract
        Err(_) => Outcome::CommandNotFound,
    }
}

} // verus!
