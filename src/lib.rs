//! Client logic for a user-story tracking service: paging through a
//! project's stories, resolving statuses and projects, classifying stories
//! for display, and mapping failures to exit codes and hints.
use vstd::prelude::*;

pub mod api;
pub mod cli;
pub mod error;
pub mod model;
pub mod stories;
pub mod text;

pub use api::{StoryPage, TaigaAPI, PAGE_SIZE, TAIGA_API_URL};
pub use cli::{Args, Cli, Command, Format};
pub use error::{Hint, TaigaAPIError};
pub use model::{ProjectListEntry, Status, StatusEntry, StatusInfo, UserStory};
pub use stories::{StatusGroup, UserStories};

verus! {

} // verus!
