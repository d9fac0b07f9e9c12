use vstd::prelude::*;

use super::object_id::{optional_id_view, ObjectId};
use super::time::Timestamp;
use crate::utils::text::optional_text_view;

verus! {

/// How far a task has come.
#[derive(Debug, Clone, Copy, PartialEq, Eq, Structural)]
pub enum TaskStatus {
    Pending,
    InProgress,
    Completed,
    Cancelled,
}

impl Default for TaskStatus {
    fn default() -> (status: TaskStatus)
        ensures
            status == TaskStatus::Pending,
    {
        TaskStatus::Pending
    }
}

/// How urgent a task is.
#[derive(Debug, Clone, Copy, PartialEq, Eq, Structural)]
pub enum TaskPriority {
    Low,
    Medium,
    High,
    Urgent,
}

impl Default for TaskPriority {
    fn default() -> (priority: TaskPriority)
        ensures
            priority == TaskPriority::Low,
    {
        TaskPriority::Low
    }
}

/// A task as it is stored.
#[derive(Debug, Clone, PartialEq, Eq)]
pub struct Task {
    pub id: Option<ObjectId>,
    pub user_id: ObjectId,
    pub title: String,
    pub description: Option<String>,
    pub due_date: Option<Timestamp>,
    pub status: TaskStatus,
    pub deleted: bool,
    pub priority: TaskPriority,
    pub created_by: Option<ObjectId>,
    pub updated_by: Option<ObjectId>,
    pub created_at: Option<Timestamp>,
    pub updated_at: Option<Timestamp>,
}

pub struct TaskView {
    pub id: Option<Seq<u8>>,
    pub user_id: Seq<u8>,
    pub title: Seq<char>,
    pub description: Option<Seq<char>>,
    pub due_date: Option<Timestamp>,
    pub status: TaskStatus,
    pub deleted: bool,
    pub priority: TaskPriority,
    pub created_by: Option<Seq<u8>>,
    pub updated_by: Option<Seq<u8>>,
    pub created_at: Option<Timestamp>,
    pub updated_at: Option<Timestamp>,
}

impl View for Task {
    type V = TaskView;

    open spec fn view(&self) -> TaskView {
        TaskView {
            id: optional_id_view(self.id),
            user_id: self.user_id@,
            title: self.title@,
            description: optional_text_view(self.description),
            due_date: self.due_date,
            status: self.status,
            deleted: self.deleted,
            priority: self.priority,
            created_by: optional_id_view(self.created_by),
            updated_by: optional_id_view(self.updated_by),
            created_at: self.created_at,
            updated_at: self.updated_at,
        }
    }
}

} // verus!
