//! Gmail mailbox history (`users.history`): the incremental-sync delta
//! since a given `historyId`.

use crate::v1::rest::messages::GmailMessage;
use vstd::prelude::*;

pub mod list;

verus! {

/// A Gmail history record: one change to the mailbox, possibly affecting
/// several messages in several ways.
#[derive(Debug, Default, PartialEq, Eq)]
pub struct GmailHistory {
    /// The mailbox sequence id of the record.
    pub id: String,
    /// The messages changed in this record.
    pub messages: Vec<GmailMessage>,
    /// The messages added to the mailbox.
    pub messages_added: Vec<GmailHistoryMessage>,
    /// The messages deleted (not trashed) from the mailbox.
    pub messages_deleted: Vec<GmailHistoryMessage>,
    /// The labels added to messages.
    pub labels_added: Vec<GmailHistoryLabel>,
    /// The labels removed from messages.
    pub labels_removed: Vec<GmailHistoryLabel>,
}

/// A message involved in a history addition or deletion.
#[derive(Debug, Default, PartialEq, Eq)]
pub struct GmailHistoryMessage {
    /// The affected message.
    pub message: GmailMessage,
}

/// A label change on a message in a history record.
#[derive(Debug, Default, PartialEq, Eq)]
pub struct GmailHistoryLabel {
    /// The affected message.
    pub message: GmailMessage,
    /// The ids of the labels added to or removed from the message.
    pub label_ids: Vec<String>,
}

/// Kind of change to filter the history list on (`historyTypes`).
#[derive(Debug, Clone, Copy, PartialEq, Eq)]
pub enum GmailHistoryType {
    /// A message was added to the mailbox.
    MessageAdded,
    /// A message was deleted (not trashed) from the mailbox.
    MessageDeleted,
    /// A label was added to a message.
    LabelAdded,
    /// A label was removed from a message.
    LabelRemoved,
}

impl GmailHistoryType {
    /// The wire name of the history type.
    pub open spec fn spec_name(self) -> Seq<char> {
        match self {
            GmailHistoryType::MessageAdded => "messageAdded"@,
            GmailHistoryType::MessageDeleted => "messageDeleted"@,
            GmailHistoryType::LabelAdded => "labelAdded"@,
            GmailHistoryType::LabelRemoved => "labelRemoved"@,
        }
    }

    /// Returns the wire name of the history type.
    pub fn as_str(&self) -> (r: &'static str)
        ensures
            r@ == self.spec_name(),
    {
        match self {
            GmailHistoryType::MessageAdded => "messageAdded",
            GmailHistoryType::MessageDeleted => "messageDeleted",
            GmailHistoryType::LabelAdded => "labelAdded",
            GmailHistoryType::LabelRemoved => "labelRemoved",
        }
    }
}

} // verus!
