//! What the command line asks for, as plain values.

use vstd::prelude::*;

verus! {

/// The branch that a pull request goes to unless another one is named.
pub const DEFAULT_BRANCH: &'static str = "main";

/// The command line: one command, or none.
#[derive(Debug, Clone, PartialEq, Eq)]
pub struct Cli {
    pub command: Option<Commands>,
}

/// The commands of the tool.
#[derive(Debug, Clone, PartialEq, Eq)]
pub enum Commands {
    /// Suggest a commit message.
    Commit(CommitArgs),
    /// Suggest a description for a pull request.
    PR(PRArgs),
    /// Store the API key.
    Init,
}

/// What `commit` takes.
#[derive(Debug, Clone, PartialEq, Eq)]
pub struct CommitArgs {
    /// The context of the commit.
    pub message: Option<String>,
    /// Whether only the names of the changed files are sent.
    pub name_only: bool,
}

/// What `pr` takes.
#[derive(Debug, Clone, PartialEq, Eq)]
pub struct PRArgs {
    /// The context of the pull request.
    pub message: Option<String>,
    /// The branch that the pull request goes to.
    pub branch: String,
}

/// The context that a command was given, which is empty where it was given none.
pub open spec fn context_of(message: Option<String>) -> Seq<char> {
    match message {
        Some(text) => text@,
        None => Seq::empty(),
    }
}

/// The context that a command was given, which is empty where it was given none.
pub fn context(message: &Option<String>) -> (text: String)
    ensures
        text@ == context_of(*message),
{
    match message {
        Some(text) => text.clone(),
        None => String::new(),
    }
}

} // verus!
