pub mod errors;
pub mod result_ext;
pub mod text;

pub use errors::{AppError, ErrorResponse, Status};
pub use result_ext::ResultExt;
