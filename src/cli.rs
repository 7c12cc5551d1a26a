//! The command-line surface as plain values: credentials, project name and
//! the subcommand, with "list, pretty" as the default.
use vstd::prelude::*;
use crate::model::Status;

verus! {

/// How the story listing is printed.
#[derive(Debug, Clone, Copy, PartialEq, Eq, Structural)]
pub enum Format {
    Pretty,
    Json,
}

/// One operation on the project's stories.
#[derive(Debug)]
pub enum Command {
    /// Creates a new story.
    Create { subject: String, description: Option<String>, status: Status },
    /// Moves a story to "In progress".
    Wip { story_id: usize },
    /// Moves a story to "Done".
    Done { story_id: usize },
    /// Deletes a story.
    Delete { story_id: usize },
    /// Lists the stories.
    List { format: Format },
}

/// The operation run when none is given.
pub open spec fn default_command() -> Command {
    Command::List { format: Format::Pretty }
}

/// The command given, or the default one.
pub open spec fn chosen_command(c: Option<Command>) -> Command {
    match c {
        Some(c) => c,
        None => default_command(),
    }
}

fn duplicate_text(s: &Option<String>) -> (r: Option<String>)
    ensures
        r == *s,
{
    match s {
        Some(t) => Some(t.clone()),
        None => None,
    }
}

impl Command {
    /// A field-by-field copy.
    pub fn duplicate(&self) -> (r: Command)
        ensures
            r == *self,
    {
        match self {
            Command::Create { subject, description, status } => Command::Create {
                subject: subject.clone(),
                description: duplicate_text(description),
                status: *status,
            },
            Command::Wip { story_id } => Command::Wip { story_id: *story_id },
            Command::Done { story_id } => Command::Done { story_id: *story_id },
            Command::Delete { story_id } => Command::Delete { story_id: *story_id },
            Command::List { format } => Command::List { format: *format },
        }
    }
}

fn command_or_default(c: &Option<Command>) -> (r: Command)
    ensures
        r == chosen_command(*c),
{
    match c {
        Some(c) => c.duplicate(),
        None => Command::List { format: Format::Pretty },
    }
}

/// The arguments of the command-line tool.
#[derive(Debug)]
pub struct Cli {
    pub username: String,
    pub password: String,
    pub project_name: String,
    pub command: Option<Command>,
}

impl Cli {
    /// The subcommand to run: the one given, else listing in pretty format.
    pub fn command(&self) -> (r: Command)
        ensures
            r == chosen_command(self.command),
    {
        command_or_default(&self.command)
    }
}

/// The arguments of the standalone command-line front end.
#[derive(Debug)]
pub struct Args {
    pub username: String,
    pub password: String,
    pub project_name: String,
    pub command: Option<Command>,
}

impl Args {
    /// The subcommand to run: the one given, else listing in pretty format.
    pub fn command(&self) -> (r: Command)
        ensures
            r == chosen_command(self.command),
    {
        command_or_default(&self.command)
    }
}

} // verus!
