pub mod task_dto;
pub mod user_dto;

pub use task_dto::{CreateTaskRequest, TaskResponse, UpdateTaskRequest};
pub use user_dto::{
    CreateUserRequest, LoginRequest, LoginResponse, UpdateUserRequest, UserResponse,
};
