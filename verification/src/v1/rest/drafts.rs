//! Gmail drafts (`users.drafts`).

use crate::v1::rest::messages::GmailMessage;
use vstd::prelude::*;

verus! {

/// Gmail REST draft resource: an id plus its draft message.
#[derive(Debug, Default, PartialEq, Eq)]
pub struct GmailDraft {
    /// Immutable identifier of the draft.
    pub id: String,
    /// Message content of the draft.
    pub message: Option<GmailMessage>,
}

} // verus!
