pub mod object_id;
pub mod task;
pub mod time;
pub mod user;

pub use object_id::{InvalidObjectId, ObjectId};
pub use task::{Task, TaskPriority, TaskStatus};
pub use time::Timestamp;
pub use user::User;
