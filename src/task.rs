use vstd::prelude::*;
use crate::status::Status;
use crate::timestamp::Timestamp;

verus! {

/// One trackable unit of work.
#[derive(Clone, Debug)]
pub struct Task {
    pub name: String,
    pub id: usize,
    pub status: Status,
    pub description: String,
    pub created_at: Timestamp,
    pub updated_at: Timestamp,
}

impl Task {
    /// A task first seen at `created_at`, and last changed then too.
    pub fn new(
        name: String,
        id: usize,
        status: Status,
        description: String,
        created_at: Timestamp,
    ) -> (r: Task)
        ensures
            r.name == name,
            r.id == id,
            r.status == status,
            r.description == description,
            r.created_at == created_at,
            r.updated_at == created_at,
    {
        Task { name, id, status, description, created_at, updated_at: created_at }
    }

    /// A copy of the task, field for field.
    pub fn duplicate(&self) -> (r: Task)
        ensures
            r == *self,
    {
        Task {
            name: self.name.clone(),
            id: self.id,
            status: self.status,
            description: self.description.clone(),
            created_at: self.created_at,
            updated_at: self.updated_at,
        }
    }
}

} // verus!
