//! Mailbox-wide methods of the `users` resource.

pub mod get_profile;
pub mod stop;
