//! Version 1 of the Gmail REST API (`/gmail/v1/`).

pub mod history_poll;
pub mod http;
pub mod poll_history;
pub mod query;
pub mod rest;
pub mod send;
