//! The command-line interface: its commands, and what each task subcommand does to the store.

use vstd::prelude::*;

use crate::task::{first_index, has_id, max_id, toggled, appended_task, without_id, TaskStore};

verus! {

/// The parsed command line; with no subcommand the interactive dashboard starts.
pub struct Cli {
    pub command: Option<Commands>,
}

/// The top-level subcommands.
pub enum Commands {
    /// Manage tasks directly from the shell.
    Task { subcommand: TaskSubcommand },
}

/// The task subcommands.
pub enum TaskSubcommand {
    /// Add a new task with this title.
    Add { title: String },
    /// Flip the completion of the task with this id.
    Toggle { id: usize },
    /// Delete the task with this id.
    Delete { id: usize },
    /// List all tasks.
    List,
}

/// What a task subcommand did, for the caller to report.
#[derive(Clone, Copy, Debug, PartialEq, Eq, Structural)]
pub enum CommandOutcome {
    /// A task was added under this id.
    Added { id: usize },
    /// The task with this id is now completed or pending, as `completed` says.
    Toggled { id: usize, completed: bool },
    /// The tasks with this id were deleted.
    Deleted { id: usize },
    /// No task has this id; nothing changed.
    NotFound { id: usize },
    /// Nothing changed; the tasks are to be listed.
    Listed,
}

impl CommandOutcome {
    /// Whether the store changed, and so has to be saved.
    pub fn changed_store(&self) -> (changed: bool)
        ensures
            changed == (self is Added || self is Toggled || self is Deleted),
    {
        match self {
            CommandOutcome::Added { .. } => true,
            CommandOutcome::Toggled { .. } => true,
            CommandOutcome::Deleted { .. } => true,
            CommandOutcome::NotFound { .. } => false,
            CommandOutcome::Listed => false,
        }
    }
}

/// Carries out a task subcommand on `store`.
pub fn run_task_subcommand(store: &mut TaskStore, cmd: &TaskSubcommand) -> (outcome: CommandOutcome)
    requires
        cmd is Add ==> max_id(old(store).tasks@) < usize::MAX,
    ensures
        *cmd matches TaskSubcommand::Add { title } ==> {
            &&& outcome == CommandOutcome::Added { id: (max_id(old(store).tasks@) + 1) as usize }
            &&& appended_task(old(store).tasks@, final(store).tasks@, title@)
        },
        *cmd matches TaskSubcommand::Toggle { id } ==> {
            &&& final(store).tasks@ == toggled(old(store).tasks@, id)
            &&& outcome == if has_id(old(store).tasks@, id) {
                CommandOutcome::Toggled {
                    id,
                    completed: !old(store).tasks@[first_index(old(store).tasks@, id)].completed,
                }
            } else {
                CommandOutcome::NotFound { id }
            }
        },
        *cmd matches TaskSubcommand::Delete { id } ==> {
            &&& final(store).tasks@ == without_id(old(store).tasks@, id)
            &&& outcome == if has_id(old(store).tasks@, id) {
                CommandOutcome::Deleted { id }
            } else {
                CommandOutcome::NotFound { id }
            }
        },
        *cmd is List ==> final(store).tasks@ == old(store).tasks@ && outcome
            == CommandOutcome::Listed,
{
    match cmd {
        TaskSubcommand::Add { title } => {
            let id: usize = store.add_task(title.clone());
            CommandOutcome::Added { id }
        },
        TaskSubcommand::Toggle { id } => {
            if store.toggle_task(*id) {
                let ghost before = old(store).tasks@;
                proof {
                    crate::task::lemma_first_index(before, *id, 0);
                    crate::task::lemma_toggled_keeps_first_index(before, *id);
                }
                let i: usize = store.position_of(*id).unwrap();
                proof {
                    crate::task::lemma_first_index(store.tasks@, *id, i as int);
                }
                CommandOutcome::Toggled { id: *id, completed: store.tasks[i].completed }
            } else {
                CommandOutcome::NotFound { id: *id }
            }
        },
        TaskSubcommand::Delete { id } => {
            if store.delete_task(*id) {
                CommandOutcome::Deleted { id: *id }
            } else {
                CommandOutcome::NotFound { id: *id }
            }
        },
        TaskSubcommand::List => CommandOutcome::Listed,
    }
}

} // verus!
