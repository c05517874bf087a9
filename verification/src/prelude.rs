//! The names that most users of the model need.

pub use crate::error::ModelError;
pub use crate::grade::Grade;
pub use crate::guid::Guid;
pub use crate::id::{AnyId, ClassId, CourseId, IdRef, ResourceId, SchoolId, SessionId};
pub use crate::status::Status;
