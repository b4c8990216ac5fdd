//! The Gmail REST resources, one module per resource of the reference;
//! the `users` level of the API is flattened away.

pub mod drafts;
pub mod history;
pub mod labels;
pub mod messages;
pub mod users;
