//! The records exchanged with the service: logical statuses, stories and
//! catalog entries.
use vstd::prelude::*;

verus! {

/// The tool's fixed set of logical statuses, independent of any project's
/// configured workflow.
#[derive(Debug, Clone, Copy, PartialEq, Eq, Structural)]
pub enum Status {
    Done,
    Wip,
    New,
}

/// The display name the service uses for a logical status.
pub open spec fn server_name(s: Status) -> Seq<char> {
    match s {
        Status::New => "New"@,
        Status::Wip => "In progress"@,
        Status::Done => "Done"@,
    }
}

/// The label this tool shows for a logical status.
pub open spec fn status_label(s: Status) -> Seq<char> {
    match s {
        Status::New => "New"@,
        Status::Wip => "In Progress"@,
        Status::Done => "Done"@,
    }
}

impl Status {
    /// Every logical status, in workflow order.
    pub fn all() -> (r: Vec<Status>)
        ensures
            r@ == seq![Status::New, Status::Wip, Status::Done],
    {
        vec![Status::New, Status::Wip, Status::Done]
    }

    /// The exact display string that the service's status catalog holds.
    pub fn server_name(&self) -> (r: &'static str)
        ensures
            r@ == server_name(*self),
    {
        match self {
            Status::New => "New",
            Status::Wip => "In progress",
            Status::Done => "Done",
        }
    }

    /// The label shown to the user.
    pub fn label(&self) -> (r: &'static str)
        ensures
            r@ == status_label(*self),
    {
        match self {
            Status::New => "New",
            Status::Wip => "In Progress",
            Status::Done => "Done",
        }
    }
}

/// Display information the service attaches to a story's status.
#[derive(Debug)]
pub struct StatusInfo {
    pub color: String,
    pub is_closed: bool,
    pub name: String,
}

/// A user story as listed by the service.
#[derive(Debug)]
pub struct UserStory {
    /// The server-internal identifier, needed by the mutation endpoints.
    pub id: usize,
    /// The public reference number users type (`#42`).
    pub reference: usize,
    pub subject: String,
    /// The numeric status identifier.
    pub status: usize,
    pub created_date: String,
    pub status_extra_info: StatusInfo,
}

/// The display name of a story's status.
pub open spec fn status_name_of(s: UserStory) -> Seq<char> {
    s.status_extra_info.name@
}

impl StatusInfo {
    /// A field-by-field copy.
    pub fn duplicate(&self) -> (r: StatusInfo)
        ensures
            r == *self,
    {
        StatusInfo { color: self.color.clone(), is_closed: self.is_closed, name: self.name.clone() }
    }
}

impl UserStory {
    /// A field-by-field copy.
    pub fn duplicate(&self) -> (r: UserStory)
        ensures
            r == *self,
    {
        UserStory {
            id: self.id,
            reference: self.reference,
            subject: self.subject.clone(),
            status: self.status,
            created_date: self.created_date.clone(),
            status_extra_info: self.status_extra_info.duplicate(),
        }
    }
}

/// One entry of a project's status catalog.
#[derive(Debug)]
pub struct StatusEntry {
    pub id: usize,
    pub name: String,
}

/// One project the current user is a member of.
#[derive(Debug)]
pub struct ProjectListEntry {
    pub id: usize,
    pub name: String,
}

} // verus!
