pub mod task_handler;
pub mod user_handler;

pub use task_handler::{
    create_task, created_task_response, get_task, list_tasks, parse_task_id, update_task,
};
pub use user_handler::{
    authorize_admin, create_user, created_user_response, get_user, list_users, login, update_user,
};
