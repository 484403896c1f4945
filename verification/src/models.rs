//! The recipient registry row, under the path that the mail code uses.
pub use crate::db::models::Email;
