use vstd::prelude::*;

use crate::models::task::{TaskPriority, TaskStatus};
use crate::models::time::Timestamp;
use crate::utils::text::optional_text_view;

verus! {

/// What a caller sends to create a task.
#[derive(Debug, Clone, PartialEq, Eq)]
pub struct CreateTaskRequest {
    pub user_id: String,
    pub title: String,
    pub description: Option<String>,
    pub status: TaskStatus,
    pub priority: TaskPriority,
    pub due_date: Option<Timestamp>,
}

/// What a caller sends to change a task: the fields to replace.
#[derive(Debug, Clone, PartialEq, Eq)]
pub struct UpdateTaskRequest {
    pub title: Option<String>,
    pub description: Option<String>,
    pub status: Option<TaskStatus>,
    pub priority: Option<TaskPriority>,
    pub due_date: Option<Timestamp>,
}

/// A task as it is shown: identifiers in hexadecimal.
#[derive(Debug, Clone, PartialEq, Eq)]
pub struct TaskResponse {
    pub id: String,
    pub user_id: String,
    pub title: String,
    pub description: Option<String>,
    pub status: TaskStatus,
    pub priority: TaskPriority,
    pub due_date: Option<Timestamp>,
    pub created_by: Option<String>,
    pub updated_by: Option<String>,
    pub created_at: Option<Timestamp>,
    pub updated_at: Option<Timestamp>,
}

pub struct TaskResponseView {
    pub id: Seq<char>,
    pub user_id: Seq<char>,
    pub title: Seq<char>,
    pub description: Option<Seq<char>>,
    pub status: TaskStatus,
    pub priority: TaskPriority,
    pub due_date: Option<Timestamp>,
    pub created_by: Option<Seq<char>>,
    pub updated_by: Option<Seq<char>>,
    pub created_at: Option<Timestamp>,
    pub updated_at: Option<Timestamp>,
}

impl View for TaskResponse {
    type V = TaskResponseView;

    open spec fn view(&self) -> TaskResponseView {
        TaskResponseView {
            id: self.id@,
            user_id: self.user_id@,
            title: self.title@,
            description: optional_text_view(self.description),
            status: self.status,
            priority: self.priority,
            due_date: self.due_date,
            created_by: optional_text_view(self.created_by),
            updated_by: optional_text_view(self.updated_by),
            created_at: self.created_at,
            updated_at: self.updated_at,
        }
    }
}

} // verus!
