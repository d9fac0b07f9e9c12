use vstd::prelude::*;

use crate::dtos::task_dto::{CreateTaskRequest, TaskResponse, TaskResponseView, UpdateTaskRequest};
use crate::models::object_id::{
    is_object_id_text, object_id_bytes, object_id_text, optional_hex, to_optional_hex, ObjectId,
};
use crate::models::task::{Task, TaskView};
use crate::models::time::Timestamp;
use crate::utils::errors::{fails_with, AppError, Status};
use crate::utils::result_ext::ResultExt;
use crate::utils::text::optional_text_view;

verus! {

/// How the task stored under `id` is shown.
pub open spec fn task_response_of(id: Seq<u8>, task: TaskView) -> TaskResponseView {
    TaskResponseView {
        id: object_id_text(id),
        user_id: object_id_text(task.user_id),
        title: task.title,
        description: task.description,
        status: task.status,
        priority: task.priority,
        due_date: task.due_date,
        created_by: optional_hex(task.created_by),
        updated_by: optional_hex(task.updated_by),
        created_at: task.created_at,
        updated_at: task.updated_at,
    }
}

/// Shows the task stored under `id`.
pub fn task_response(id: &ObjectId, task: Task) -> (response: TaskResponse)
    ensures
        response@ == task_response_of(id@, task@),
{
    TaskResponse {
        id: id.to_hex(),
        user_id: task.user_id.to_hex(),
        created_by: to_optional_hex(&task.created_by),
        updated_by: to_optional_hex(&task.updated_by),
        title: task.title,
        description: task.description,
        status: task.status,
        priority: task.priority,
        due_date: task.due_date,
        created_at: task.created_at,
        updated_at: task.updated_at,
    }
}

/// The record of the task that `payload` asks for at `now`, for the user
/// with the identifier `user`.
pub open spec fn new_task_of(user: Seq<u8>, payload: CreateTaskRequest, now: Timestamp) -> TaskView {
    TaskView {
        id: None,
        user_id: user,
        title: payload.title@,
        description: optional_text_view(payload.description),
        due_date: payload.due_date,
        status: payload.status,
        deleted: false,
        priority: payload.priority,
        created_by: None,
        updated_by: None,
        created_at: Some(now),
        updated_at: Some(now),
    }
}

/// Decides the creation of a task: a bad request where the user named in
/// `payload` has no well-formed identifier; else the record to store.
pub fn create_task(payload: CreateTaskRequest, now: Timestamp) -> (r: Result<Task, AppError>)
    ensures
        if is_object_id_text(payload.user_id@) {
            r matches Ok(task) && task@ == new_task_of(
                object_id_bytes(payload.user_id@),
                payload,
                now,
            )
        } else {
            fails_with(r, Status::BadRequest, "Invalid user ID"@)
        },
{
    let user_id = ObjectId::parse_str(payload.user_id.as_str()).bad_request("Invalid user ID")?;
    Ok(
        Task {
            id: None,
            user_id,
            title: payload.title,
            description: payload.description,
            due_date: payload.due_date,
            status: payload.status,
            deleted: false,
            priority: payload.priority,
            created_by: None,
            updated_by: None,
            created_at: Some(now),
            updated_at: Some(now),
        },
    )
}

/// Shows a task that was just stored, under the identifier that the store
/// gave it.
pub fn created_task_response(task: Task, inserted_id: Option<ObjectId>) -> (r: Result<
    TaskResponse,
    AppError,
>)
    ensures
        match inserted_id {
            Some(id) => r matches Ok(response) && response@ == task_response_of(id@, task@),
            None => fails_with(r, Status::InternalServerError, "Failed to get inserted task ID"@),
        },
{
    match inserted_id {
        Some(id) => Ok(task_response(&id, task)),
        None => Err(AppError::internal_error("Failed to get inserted task ID")),
    }
}

/// Answers the request for one task, given what the store found.
pub fn get_task(found: Option<Task>) -> (r: Result<TaskResponse, AppError>)
    requires
        found matches Some(task) ==> task.id is Some,
    ensures
        match found {
            Some(task) => r matches Ok(response) && response@ == task_response_of(
                task@.id->0,
                task@,
            ),
            None => fails_with(r, Status::NotFound, "Task not found"@),
        },
{
    match found {
        None => Err(AppError::not_found("Task not found")),
        Some(task) => {
            let id = task.id.unwrap();
            Ok(task_response(&id, task))
        },
    }
}

/// Answers the request for all tasks, given what the store found: each task
/// shown, in the order found.
pub fn list_tasks(found: Vec<Task>) -> (responses: Vec<TaskResponse>)
    requires
        forall|i: int| 0 <= i < found.len() ==> (#[trigger] found[i]).id is Some,
    ensures
        responses.len() == found.len(),
        forall|i: int|
            0 <= i < found.len() ==> (#[trigger] responses[i])@ == task_response_of(
                found[i]@.id->0,
                found[i]@,
            ),
{
    let mut responses: Vec<TaskResponse> = Vec::new();
    let mut i: usize = 0;
    while i < found.len()
        invariant
            i <= found.len(),
            responses.len() == i,
            forall|k: int| 0 <= k < found.len() ==> (#[trigger] found[k]).id is Some,
            forall|k: int|
                0 <= k < i ==> (#[trigger] responses[k])@ == task_response_of(
                    found[k]@.id->0,
                    found[k]@,
                ),
        decreases found.len() - i,
    {
        let task = &found[i];
        let id = task.id.unwrap();
        let response = TaskResponse {
            id: id.to_hex(),
            user_id: task.user_id.to_hex(),
            created_by: to_optional_hex(&task.created_by),
            updated_by: to_optional_hex(&task.updated_by),
            title: task.title.clone(),
            description: match &task.description {
                Some(description) => Some(description.clone()),
                None => None,
            },
            status: task.status,
            priority: task.priority,
            due_date: task.due_date,
            created_at: task.created_at,
            updated_at: task.updated_at,
        };
        responses.push(response);
        i += 1;
    }
    responses
}

/// Reads the identifier of a task from the path of a request.
pub fn parse_task_id(id: &str) -> (r: Result<ObjectId, AppError>)
    ensures
        if is_object_id_text(id@) {
            r matches Ok(task_id) && task_id@ == object_id_bytes(id@)
        } else {
            fails_with(r, Status::BadRequest, "Invalid task ID"@)
        },
{
    ObjectId::parse_str(id).bad_request("Invalid task ID")
}

/// The record of the task `id` after a change at `now`: the fields that
/// `payload` names are replaced; a description or a due date that it does not
/// name stays.
pub open spec fn updated_task_of(
    id: Seq<u8>,
    existing: TaskView,
    payload: UpdateTaskRequest,
    now: Timestamp,
) -> TaskView {
    TaskView {
        id: Some(id),
        user_id: existing.user_id,
        title: match payload.title {
            Some(title) => title@,
            None => existing.title,
        },
        description: match payload.description {
            Some(description) => Some(description@),
            None => existing.description,
        },
        due_date: match payload.due_date {
            Some(due_date) => Some(due_date),
            None => existing.due_date,
        },
        status: match payload.status {
            Some(status) => status,
            None => existing.status,
        },
        deleted: existing.deleted,
        priority: match payload.priority {
            Some(priority) => priority,
            None => existing.priority,
        },
        created_by: existing.created_by,
        updated_by: existing.updated_by,
        created_at: existing.created_at,
        updated_at: Some(now),
    }
}

/// Decides the change of the task `id`, given what the store found under it.
pub fn update_task(
    id: ObjectId,
    existing: Option<Task>,
    payload: UpdateTaskRequest,
    now: Timestamp,
) -> (r: Result<Task, AppError>)
    ensures
        match existing {
            Some(task) => r matches Ok(updated) && updated@ == updated_task_of(
                id@,
                task@,
                payload,
                now,
            ),
            None => fails_with(r, Status::NotFound, "Task not found"@),
        },
{
    let task = match existing {
        Some(task) => task,
        None => { return Err(AppError::not_found("Task not found")); },
    };
    Ok(
        Task {
            id: Some(id),
            user_id: task.user_id,
            title: match payload.title {
                Some(title) => title,
                None => task.title,
            },
            description: match payload.description {
                Some(description) => Some(description),
                None => task.description,
            },
            due_date: match payload.due_date {
                Some(due_date) => Some(due_date),
                None => task.due_date,
            },
            status: match payload.status {
                Some(status) => status,
                None => task.status,
            },
            deleted: task.deleted,
            priority: match payload.priority {
                Some(priority) => priority,
                None => task.priority,
            },
            created_by: task.created_by,
            updated_by: task.updated_by,
            created_at: task.created_at,
            updated_at: Some(now),
        },
    )
}

} // verus!
