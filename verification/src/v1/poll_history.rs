//! Other names of the mailbox watch of [`crate::v1::history_poll`], kept for
//! existing callers.

use crate::v1::history_poll::GmailHistoryPoll;
use crate::v1::history_poll::GmailHistoryPollError;
use crate::v1::history_poll::GmailHistoryPollYield;
use vstd::prelude::*;

verus! {

/// Another name of [`GmailHistoryPoll`], kept for existing callers.
pub type GmailPollHistory = GmailHistoryPoll;

/// Another name of [`GmailHistoryPollYield`], kept for existing callers.
pub type GmailPollHistoryYield = GmailHistoryPollYield;

/// Another name of [`GmailHistoryPollError`], kept for existing callers.
pub type GmailPollHistoryError = GmailHistoryPollError;

} // verus!
