use vstd::prelude::*;
use crate::collection::{
    add_task, any_named, any_with_id, copy_all, delete_first_task_name, delete_task_id,
    delete_task_name, description_set_id, determine_id, first_named, first_with_id, id_free,
    is_least_free_id, name_set_id, redescribe_first_id, rename_first_id, search_first_task_name,
    search_id, search_task_name, status_set_first_named, status_set_id, status_set_named, with_name,
    without_first_named, without_id, without_name, update_first_task_name_at, update_id_at,
    update_task_name_at,
};
use crate::status::Status;
use crate::task::Task;
use crate::timestamp::Timestamp;

verus! {

/// One request on the task collection.
#[derive(Debug)]
pub enum Command {
    /// A new task; without an id it takes the least free one, without a
    /// description it is described by its name.
    Add { name: String, id: Option<usize>, description: Option<String> },
    DeleteByName { name: String, first: bool },
    DeleteByID { id: usize },
    UpdateByName { status: Status, name: String, first: bool },
    UpdateByID { status: Status, id: usize },
    View,
    SearchByName { name: String, first: bool },
    SearchByID { id: usize },
    /// Empties the collection; without `force` the user is asked first.
    Clear { force: bool },
    EditName { id: usize, new_name: String },
    EditDescription { id: usize, new_description: String },
}

/// A parsed command line.
#[derive(Debug)]
pub struct Cli {
    pub command: Command,
}

/// What running a command came to.
#[derive(Debug)]
pub enum Outcome {
    /// The collection now holds what the command asked for: write it back.
    Saved,
    /// An explicit id of a new task is already taken; nothing changed.
    IdTaken(usize),
    /// These tasks answer the command, in collection order.
    Listing(Vec<Task>),
    /// The task that answers the command, if one does.
    Found(Option<Task>),
    /// Clearing waits for the user's confirmation; nothing changed.
    ConfirmClear,
}

/// The least positive id that no task of `s` carries.
pub open spec fn least_free_id(s: Seq<Task>) -> int {
    choose|n: int| is_least_free_id(s, n)
}

/// The id that a new task takes: the one given, or else the least free one.
pub open spec fn chosen_id(s: Seq<Task>, id: Option<usize>) -> int {
    match id {
        Some(i) => i as int,
        None => least_free_id(s),
    }
}

/// A task as added at `at`: status `Todo`, described by its name unless a
/// description is given.
pub open spec fn fresh_task(name: String, id: int, description: Option<String>, at: Timestamp) -> Task {
    Task {
        name: name,
        id: id as usize,
        status: Status::Todo,
        description: match description {
            Some(d) => d,
            None => name,
        },
        created_at: at,
        updated_at: at,
    }
}

/// The first task of `s` named `name`, if one is.
pub open spec fn first_named_opt(s: Seq<Task>, name: Seq<char>) -> Option<Task> {
    if any_named(s, name) {
        Some(s[first_named(s, name)])
    } else {
        None
    }
}

/// The first task of `s` that carries `id`, if one does.
pub open spec fn first_with_id_opt(s: Seq<Task>, id: usize) -> Option<Task> {
    if any_with_id(s, id) {
        Some(s[first_with_id(s, id)])
    } else {
        None
    }
}

/// What `cmd` leaves of the collection and what it reports, with `at` as the
/// time of every change.
pub open spec fn command_effect(
    cmd: Command,
    s: Seq<Task>,
    at: Timestamp,
    after: Seq<Task>,
    r: Outcome,
) -> bool {
    match cmd {
        Command::Add { name, id, description } => {
            let n = chosen_id(s, id);
            if id_free(s, n) {
                r == Outcome::Saved && after == s.push(fresh_task(name, n, description, at))
            } else {
                r == Outcome::IdTaken(n as usize) && after == s
            }
        },
        Command::DeleteByName { name, first } => r == Outcome::Saved && after == (if first {
            without_first_named(s, name@)
        } else {
            without_name(s, name@)
        }),
        Command::DeleteByID { id } => r == Outcome::Saved && after == without_id(s, id),
        Command::UpdateByName { status, name, first } => r == Outcome::Saved && after == (if first {
            status_set_first_named(s, name@, status, at)
        } else {
            status_set_named(s, name@, status, at)
        }),
        Command::UpdateByID { status, id } => r == Outcome::Saved && after == status_set_id(
            s,
            id,
            status,
            at,
        ),
        Command::View => after == s && (r matches Outcome::Listing(v) && v@ == s),
        Command::SearchByName { name, first } => after == s && (if first {
            r == Outcome::Found(first_named_opt(s, name@))
        } else {
            r matches Outcome::Listing(v) && v@ == with_name(s, name@)
        }),
        Command::SearchByID { id } => after == s && r == Outcome::Found(first_with_id_opt(s, id)),
        Command::Clear { force } => if force {
            r == Outcome::Saved && after == Seq::<Task>::empty()
        } else {
            r == Outcome::ConfirmClear && after == s
        },
        Command::EditName { id, new_name } => r == Outcome::Saved && after == name_set_id(
            s,
            id,
            new_name,
            at,
        ),
        Command::EditDescription { id, new_description } => r == Outcome::Saved && after
            == description_set_id(s, id, new_description, at),
    }
}

/// Runs one command on the collection, with `at` as the time of any change.
pub fn execute(cmd: Command, tasks: &mut Vec<Task>, at: Timestamp) -> (r: Outcome)
    requires
        old(tasks)@.len() < usize::MAX,
    ensures
        command_effect(cmd, old(tasks)@, at, final(tasks)@, r),
{
    match cmd {
        Command::Add { name, id, description } => {
            let n = match id {
                Some(i) => i,
                None => {
                    let d = determine_id(tasks.as_slice());
                    proof {
                        let c = least_free_id(tasks@);
                        assert(is_least_free_id(tasks@, c));
                        if c < d as int {
                            assert(!id_free(tasks@, c));
                        } else if (d as int) < c {
                            assert(!id_free(tasks@, d as int));
                        }
                    }
                    d
                },
            };
            let desc = match description {
                Some(d) => d,
                None => name.clone(),
            };
            let task = Task::new(name, n, Status::Todo, desc, at);
            if add_task(tasks, task) {
                Outcome::Saved
            } else {
                Outcome::IdTaken(n)
            }
        },
        Command::DeleteByName { name, first } => {
            if first {
                delete_first_task_name(tasks, name.as_str());
            } else {
                delete_task_name(tasks, name.as_str());
            }
            Outcome::Saved
        },
        Command::DeleteByID { id } => {
            delete_task_id(tasks, id);
            Outcome::Saved
        },
        Command::UpdateByName { status, name, first } => {
            if first {
                update_first_task_name_at(tasks, name.as_str(), &status, at);
            } else {
                update_task_name_at(tasks, name.as_str(), &status, at);
            }
            Outcome::Saved
        },
        Command::UpdateByID { status, id } => {
            update_id_at(tasks, id, &status, at);
            Outcome::Saved
        },
        Command::View => Outcome::Listing(copy_all(tasks)),
        Command::SearchByName { name, first } => {
            if first {
                Outcome::Found(search_first_task_name(tasks, name.as_str()))
            } else {
                Outcome::Listing(search_task_name(tasks, name.as_str()))
            }
        },
        Command::SearchByID { id } => Outcome::Found(search_id(tasks, id)),
        Command::Clear { force } => {
            if force {
                tasks.clear();
                Outcome::Saved
            } else {
                Outcome::ConfirmClear
            }
        },
        Command::EditName { id, new_name } => {
            rename_first_id(tasks, id, new_name, at);
            Outcome::Saved
        },
        Command::EditDescription { id, new_description } => {
            redescribe_first_id(tasks, id, new_description, at);
            Outcome::Saved
        },
    }
}

} // verus!
