//! Gmail labels (`users.labels`): list, get, create, patch, update,
//! delete.

use crate::v1::query::chunks_view;
use crate::v1::query::json_member;
use crate::v1::query::json_number;
use crate::v1::query::json_object;
use crate::v1::query::member;
use crate::v1::query::number;
use crate::v1::query::object;
use crate::v1::query::string;
use crate::v1::query::optional_pair;
use crate::v1::query::values_named;
use crate::v1::query::field_members;
use crate::v1::query::fields_json;
use crate::v1::query::lemma_values_named_add;
use crate::v1::query::lemma_values_named_optional;
use crate::v1::query::lemma_field_members_add;
use crate::v1::query::lemma_field_members_optional;
use crate::json::json_string;
use crate::v1::rest::messages::GmailMessageListVisibility;
use vstd::prelude::*;

pub mod create;
pub mod delete;
pub mod get;
pub mod list;
pub mod patch;
pub mod update;

verus! {

/// A Gmail label resource, categorizing messages and threads.
#[derive(Debug, Clone, Default, PartialEq, Eq)]
pub struct GmailLabel {
    /// The immutable id of the label.
    pub id: String,
    /// The display name of the label.
    pub name: String,
    /// The owner type of the label, written `type` on the wire.
    pub label_type: Option<GmailLabelType>,
    /// The visibility of messages with this label in the message list.
    pub message_list_visibility: Option<GmailMessageListVisibility>,
    /// The visibility of the label in the label list.
    pub label_list_visibility: Option<GmailLabelListVisibility>,
    /// The total number of messages with the label.
    pub messages_total: Option<u64>,
    /// The number of unread messages with the label.
    pub messages_unread: Option<u64>,
    /// The total number of threads with the label.
    pub threads_total: Option<u64>,
    /// The number of unread threads with the label.
    pub threads_unread: Option<u64>,
    /// The color of the label; only available for user labels.
    pub color: Option<GmailLabelColor>,
}

/// Text and background colors of a user label, given as hex strings.
#[derive(Debug, Clone, Default, PartialEq, Eq)]
pub struct GmailLabelColor {
    /// The text color of the label.
    pub text_color: Option<String>,
    /// The background color of the label.
    pub background_color: Option<String>,
}

/// Visibility of the label in the label list of the Gmail web client.
#[derive(Debug, Clone, Copy, PartialEq, Eq)]
pub enum GmailLabelListVisibility {
    /// The label always shows in the label list.
    LabelShow,
    /// The label shows in the label list only when unread.
    LabelShowIfUnread,
    /// The label never shows in the label list.
    LabelHide,
}

/// Owner of the label: created by Gmail or by the user.
#[derive(Debug, Clone, Copy, PartialEq, Eq)]
pub enum GmailLabelType {
    /// A label created by Gmail, like INBOX or TRASH.
    System,
    /// A label created by the user.
    User,
}

/// Response body of `users.labels.list`.
#[derive(Debug, Clone, Default, PartialEq, Eq)]
pub struct GmailLabelsListResponse {
    /// The list of labels.
    pub labels: Vec<GmailLabel>,
}

/// The other name of [`GmailLabelsListResponse`].
pub type GmailListLabelsResponse = GmailLabelsListResponse;

impl GmailLabelListVisibility {
    /// The wire name of the visibility.
    pub open spec fn spec_name(self) -> Seq<char> {
        match self {
            GmailLabelListVisibility::LabelShow => "labelShow"@,
            GmailLabelListVisibility::LabelShowIfUnread => "labelShowIfUnread"@,
            GmailLabelListVisibility::LabelHide => "labelHide"@,
        }
    }

    /// Returns the wire name of the visibility.
    pub fn as_str(&self) -> (r: &'static str)
        ensures
            r@ == self.spec_name(),
    {
        match self {
            GmailLabelListVisibility::LabelShow => "labelShow",
            GmailLabelListVisibility::LabelShowIfUnread => "labelShowIfUnread",
            GmailLabelListVisibility::LabelHide => "labelHide",
        }
    }
}

impl GmailLabelType {
    /// The wire name of the type.
    pub open spec fn spec_name(self) -> Seq<char> {
        match self {
            GmailLabelType::System => "system"@,
            GmailLabelType::User => "user"@,
        }
    }

    /// Returns the wire name of the type.
    pub fn as_str(&self) -> (r: &'static str)
        ensures
            r@ == self.spec_name(),
    {
        match self {
            GmailLabelType::System => "system",
            GmailLabelType::User => "user",
        }
    }
}

/// The member as a one-element list when present, nothing otherwise.
pub open spec fn optional(m: Option<Seq<u8>>) -> Seq<Seq<u8>> {
    match m {
        Some(m) => seq![m],
        None => Seq::empty(),
    }
}

/// A string member, left out when the string is empty.
pub open spec fn nonempty_string_member(key: Seq<char>, value: Seq<char>) -> Option<Seq<u8>> {
    if value.len() > 0 {
        Some(json_member(key, json_string(value)))
    } else {
        None
    }
}

/// An optional string member, left out when absent.
pub open spec fn optional_string_member(key: Seq<char>, value: Option<String>) -> Option<Seq<u8>> {
    match value {
        Some(v) => Some(json_member(key, json_string(v@))),
        None => None,
    }
}

/// The JSON string of an optional string, when present.
pub open spec fn optional_string_json(value: Option<String>) -> Option<Seq<u8>> {
    match value {
        Some(v) => Some(json_string(v@)),
        None => None,
    }
}

/// The JSON number of an optional number, when present.
pub open spec fn optional_number_json(value: Option<u64>) -> Option<Seq<u8>> {
    match value {
        Some(v) => Some(json_number(v as nat)),
        None => None,
    }
}

/// An optional number member, left out when absent.
pub open spec fn optional_number_member(key: Seq<char>, value: Option<u64>) -> Option<Seq<u8>> {
    match value {
        Some(v) => Some(json_member(key, json_number(v as nat))),
        None => None,
    }
}

/// The JSON object of a label color: each color left out when absent.
pub open spec fn color_json(c: GmailLabelColor) -> Seq<u8> {
    json_object(
        optional(optional_string_member("textColor"@, c.text_color)) + optional(
            optional_string_member("backgroundColor"@, c.background_color),
        ),
    )
}

/// The JSON object of a label, as Gmail takes it in request bodies:
/// camel-case member names, `type` for the label type, empty strings and
/// absent values left out, enums as their wire names.
pub open spec fn label_json(l: GmailLabel) -> Seq<u8> {
    json_object(
        optional(nonempty_string_member("id"@, l.id@))
        + optional(nonempty_string_member("name"@, l.name@))
        + optional(match l.label_type {
            Some(t) => Some(json_member("type"@, json_string(t.spec_name()))),
            None => None,
        })
        + optional(match l.message_list_visibility {
            Some(v) => Some(json_member("messageListVisibility"@, json_string(v.spec_name()))),
            None => None,
        })
        + optional(match l.label_list_visibility {
            Some(v) => Some(json_member("labelListVisibility"@, json_string(v.spec_name()))),
            None => None,
        })
        + optional(optional_number_member("messagesTotal"@, l.messages_total))
        + optional(optional_number_member("messagesUnread"@, l.messages_unread))
        + optional(optional_number_member("threadsTotal"@, l.threads_total))
        + optional(optional_number_member("threadsUnread"@, l.threads_unread))
        + optional(match l.color {
            Some(c) => Some(json_member("color"@, color_json(c))),
            None => None,
        }),
    )
}

/// The members of the color JSON, each a key and its encoded value.
pub open spec fn color_fields(c: GmailLabelColor) -> Seq<(Seq<char>, Seq<u8>)> {
    optional_pair("textColor"@, optional_string_json(c.text_color))
        + optional_pair("backgroundColor"@, optional_string_json(c.background_color))
}

/// The values the fields of `color_json` hold under `name`, field by field.
proof fn lemma_color_fields_named(c: GmailLabelColor, name: Seq<char>)
    ensures
        values_named(color_fields(c), name) == (if "textColor"@ == name {
            match (optional_string_json(c.text_color)) {
                Some(v) => seq![v],
                None => Seq::<Seq<u8>>::empty(),
            }
        } else {
            Seq::<Seq<u8>>::empty()
        })
            + (if "backgroundColor"@ == name {
            match (optional_string_json(c.background_color)) {
                Some(v) => seq![v],
                None => Seq::<Seq<u8>>::empty(),
            }
        } else {
            Seq::<Seq<u8>>::empty()
        }),
{
    let f0 = optional_pair("textColor"@, optional_string_json(c.text_color));
    let f1 = optional_pair("backgroundColor"@, optional_string_json(c.background_color));
    lemma_values_named_add(f0, f1, name);
    lemma_values_named_optional("textColor"@, optional_string_json(c.text_color), name);
    lemma_values_named_optional("backgroundColor"@, optional_string_json(c.background_color), name);
}

/// `color_json` writes the members of `color_fields`, in order.
proof fn lemma_color_json_is_fields(c: GmailLabelColor)
    ensures
        color_json(c) == fields_json(color_fields(c)),
{
    let f0 = optional_pair("textColor"@, optional_string_json(c.text_color));
    let f1 = optional_pair("backgroundColor"@, optional_string_json(c.background_color));
    lemma_field_members_add(f0, f1);
    lemma_field_members_optional("textColor"@, optional_string_json(c.text_color));
    assert(field_members(f0) == optional(optional_string_member("textColor"@, c.text_color)));
    lemma_field_members_optional("backgroundColor"@, optional_string_json(c.background_color));
    assert(field_members(f1) == optional(optional_string_member("backgroundColor"@, c.background_color)));
}

/// Each color that is set is written as a JSON string under its
/// camel-case name, whatever the other holds; an absent one is left out.
pub proof fn lemma_color_json_members(c: GmailLabelColor)
    ensures
        color_json(c) == fields_json(color_fields(c)),
        values_named(color_fields(c), "textColor"@) == match c.text_color {
            Some(v) => seq![json_string(v@)],
            None => Seq::<Seq<u8>>::empty(),
        },
        values_named(color_fields(c), "backgroundColor"@) == match c.background_color {
            Some(v) => seq![json_string(v@)],
            None => Seq::<Seq<u8>>::empty(),
        },
{
    reveal_strlit("textColor");
    reveal_strlit("backgroundColor");
    assert("textColor"@.len() == 9 && "backgroundColor"@.len() == 15);
    lemma_color_json_is_fields(c);
    assert(values_named(color_fields(c), "textColor"@) =~= match c.text_color {
            Some(v) => seq![json_string(v@)],
            None => Seq::<Seq<u8>>::empty(),
        }) by {
        lemma_color_fields_named(c, "textColor"@);
    }
    assert(values_named(color_fields(c), "backgroundColor"@) =~= match c.background_color {
            Some(v) => seq![json_string(v@)],
            None => Seq::<Seq<u8>>::empty(),
        }) by {
        lemma_color_fields_named(c, "backgroundColor"@);
    }
}

/// The members of the label JSON, each a key and its encoded value.
pub open spec fn label_fields(l: GmailLabel) -> Seq<(Seq<char>, Seq<u8>)> {
    optional_pair("id"@, if l.id@.len() > 0 { Some(json_string(l.id@)) } else { None })
        + optional_pair("name"@, if l.name@.len() > 0 { Some(json_string(l.name@)) } else { None })
        + optional_pair("type"@, match l.label_type { Some(v) => Some(json_string(v.spec_name())), None => None })
        + optional_pair("messageListVisibility"@, match l.message_list_visibility { Some(v) => Some(json_string(v.spec_name())), None => None })
        + optional_pair("labelListVisibility"@, match l.label_list_visibility { Some(v) => Some(json_string(v.spec_name())), None => None })
        + optional_pair("messagesTotal"@, optional_number_json(l.messages_total))
        + optional_pair("messagesUnread"@, optional_number_json(l.messages_unread))
        + optional_pair("threadsTotal"@, optional_number_json(l.threads_total))
        + optional_pair("threadsUnread"@, optional_number_json(l.threads_unread))
        + optional_pair("color"@, match l.color { Some(c) => Some(color_json(c)), None => None })
}

/// The values the fields of `label_json` hold under `name`, field by field.
#[verifier::rlimit(40)]
proof fn lemma_label_fields_named(l: GmailLabel, name: Seq<char>)
    ensures
        values_named(label_fields(l), name) == (if "id"@ == name {
            match (if l.id@.len() > 0 { Some(json_string(l.id@)) } else { None }) {
                Some(v) => seq![v],
                None => Seq::<Seq<u8>>::empty(),
            }
        } else {
            Seq::<Seq<u8>>::empty()
        })
            + (if "name"@ == name {
            match (if l.name@.len() > 0 { Some(json_string(l.name@)) } else { None }) {
                Some(v) => seq![v],
                None => Seq::<Seq<u8>>::empty(),
            }
        } else {
            Seq::<Seq<u8>>::empty()
        })
            + (if "type"@ == name {
            match (match l.label_type { Some(v) => Some(json_string(v.spec_name())), None => None }) {
                Some(v) => seq![v],
                None => Seq::<Seq<u8>>::empty(),
            }
        } else {
            Seq::<Seq<u8>>::empty()
        })
            + (if "messageListVisibility"@ == name {
            match (match l.message_list_visibility { Some(v) => Some(json_string(v.spec_name())), None => None }) {
                Some(v) => seq![v],
                None => Seq::<Seq<u8>>::empty(),
            }
        } else {
            Seq::<Seq<u8>>::empty()
        })
            + (if "labelListVisibility"@ == name {
            match (match l.label_list_visibility { Some(v) => Some(json_string(v.spec_name())), None => None }) {
                Some(v) => seq![v],
                None => Seq::<Seq<u8>>::empty(),
            }
        } else {
            Seq::<Seq<u8>>::empty()
        })
            + (if "messagesTotal"@ == name {
            match (optional_number_json(l.messages_total)) {
                Some(v) => seq![v],
                None => Seq::<Seq<u8>>::empty(),
            }
        } else {
            Seq::<Seq<u8>>::empty()
        })
            + (if "messagesUnread"@ == name {
            match (optional_number_json(l.messages_unread)) {
                Some(v) => seq![v],
                None => Seq::<Seq<u8>>::empty(),
            }
        } else {
            Seq::<Seq<u8>>::empty()
        })
            + (if "threadsTotal"@ == name {
            match (optional_number_json(l.threads_total)) {
                Some(v) => seq![v],
                None => Seq::<Seq<u8>>::empty(),
            }
        } else {
            Seq::<Seq<u8>>::empty()
        })
            + (if "threadsUnread"@ == name {
            match (optional_number_json(l.threads_unread)) {
                Some(v) => seq![v],
                None => Seq::<Seq<u8>>::empty(),
            }
        } else {
            Seq::<Seq<u8>>::empty()
        })
            + (if "color"@ == name {
            match (match l.color { Some(c) => Some(color_json(c)), None => None }) {
                Some(v) => seq![v],
                None => Seq::<Seq<u8>>::empty(),
            }
        } else {
            Seq::<Seq<u8>>::empty()
        }),
{
    let f0 = optional_pair("id"@, if l.id@.len() > 0 { Some(json_string(l.id@)) } else { None });
    let f1 = optional_pair("name"@, if l.name@.len() > 0 { Some(json_string(l.name@)) } else { None });
    let f2 = optional_pair("type"@, match l.label_type { Some(v) => Some(json_string(v.spec_name())), None => None });
    let f3 = optional_pair("messageListVisibility"@, match l.message_list_visibility { Some(v) => Some(json_string(v.spec_name())), None => None });
    let f4 = optional_pair("labelListVisibility"@, match l.label_list_visibility { Some(v) => Some(json_string(v.spec_name())), None => None });
    let f5 = optional_pair("messagesTotal"@, optional_number_json(l.messages_total));
    let f6 = optional_pair("messagesUnread"@, optional_number_json(l.messages_unread));
    let f7 = optional_pair("threadsTotal"@, optional_number_json(l.threads_total));
    let f8 = optional_pair("threadsUnread"@, optional_number_json(l.threads_unread));
    let f9 = optional_pair("color"@, match l.color { Some(c) => Some(color_json(c)), None => None });
    lemma_values_named_add(f0, f1, name);
    lemma_values_named_add(f0 + f1, f2, name);
    lemma_values_named_add(f0 + f1 + f2, f3, name);
    lemma_values_named_add(f0 + f1 + f2 + f3, f4, name);
    lemma_values_named_add(f0 + f1 + f2 + f3 + f4, f5, name);
    lemma_values_named_add(f0 + f1 + f2 + f3 + f4 + f5, f6, name);
    lemma_values_named_add(f0 + f1 + f2 + f3 + f4 + f5 + f6, f7, name);
    lemma_values_named_add(f0 + f1 + f2 + f3 + f4 + f5 + f6 + f7, f8, name);
    lemma_values_named_add(f0 + f1 + f2 + f3 + f4 + f5 + f6 + f7 + f8, f9, name);
    lemma_values_named_optional("id"@, if l.id@.len() > 0 { Some(json_string(l.id@)) } else { None }, name);
    lemma_values_named_optional("name"@, if l.name@.len() > 0 { Some(json_string(l.name@)) } else { None }, name);
    lemma_values_named_optional("type"@, match l.label_type { Some(v) => Some(json_string(v.spec_name())), None => None }, name);
    lemma_values_named_optional("messageListVisibility"@, match l.message_list_visibility { Some(v) => Some(json_string(v.spec_name())), None => None }, name);
    lemma_values_named_optional("labelListVisibility"@, match l.label_list_visibility { Some(v) => Some(json_string(v.spec_name())), None => None }, name);
    lemma_values_named_optional("messagesTotal"@, optional_number_json(l.messages_total), name);
    lemma_values_named_optional("messagesUnread"@, optional_number_json(l.messages_unread), name);
    lemma_values_named_optional("threadsTotal"@, optional_number_json(l.threads_total), name);
    lemma_values_named_optional("threadsUnread"@, optional_number_json(l.threads_unread), name);
    lemma_values_named_optional("color"@, match l.color { Some(c) => Some(color_json(c)), None => None }, name);
}

/// `label_json` writes the members of `label_fields`, in order.
proof fn lemma_label_json_is_fields(l: GmailLabel)
    ensures
        label_json(l) == fields_json(label_fields(l)),
{
    let f0 = optional_pair("id"@, if l.id@.len() > 0 { Some(json_string(l.id@)) } else { None });
    let f1 = optional_pair("name"@, if l.name@.len() > 0 { Some(json_string(l.name@)) } else { None });
    let f2 = optional_pair("type"@, match l.label_type { Some(v) => Some(json_string(v.spec_name())), None => None });
    let f3 = optional_pair("messageListVisibility"@, match l.message_list_visibility { Some(v) => Some(json_string(v.spec_name())), None => None });
    let f4 = optional_pair("labelListVisibility"@, match l.label_list_visibility { Some(v) => Some(json_string(v.spec_name())), None => None });
    let f5 = optional_pair("messagesTotal"@, optional_number_json(l.messages_total));
    let f6 = optional_pair("messagesUnread"@, optional_number_json(l.messages_unread));
    let f7 = optional_pair("threadsTotal"@, optional_number_json(l.threads_total));
    let f8 = optional_pair("threadsUnread"@, optional_number_json(l.threads_unread));
    let f9 = optional_pair("color"@, match l.color { Some(c) => Some(color_json(c)), None => None });
    lemma_field_members_add(f0, f1);
    lemma_field_members_add(f0 + f1, f2);
    lemma_field_members_add(f0 + f1 + f2, f3);
    lemma_field_members_add(f0 + f1 + f2 + f3, f4);
    lemma_field_members_add(f0 + f1 + f2 + f3 + f4, f5);
    lemma_field_members_add(f0 + f1 + f2 + f3 + f4 + f5, f6);
    lemma_field_members_add(f0 + f1 + f2 + f3 + f4 + f5 + f6, f7);
    lemma_field_members_add(f0 + f1 + f2 + f3 + f4 + f5 + f6 + f7, f8);
    lemma_field_members_add(f0 + f1 + f2 + f3 + f4 + f5 + f6 + f7 + f8, f9);
    lemma_field_members_optional("id"@, if l.id@.len() > 0 { Some(json_string(l.id@)) } else { None });
    assert(field_members(f0) == optional(nonempty_string_member("id"@, l.id@)));
    lemma_field_members_optional("name"@, if l.name@.len() > 0 { Some(json_string(l.name@)) } else { None });
    assert(field_members(f1) == optional(nonempty_string_member("name"@, l.name@)));
    lemma_field_members_optional("type"@, match l.label_type { Some(v) => Some(json_string(v.spec_name())), None => None });
    assert(field_members(f2) == optional(match l.label_type { Some(v) => Some(json_member("type"@, json_string(v.spec_name()))), None => None }));
    lemma_field_members_optional("messageListVisibility"@, match l.message_list_visibility { Some(v) => Some(json_string(v.spec_name())), None => None });
    assert(field_members(f3) == optional(match l.message_list_visibility { Some(v) => Some(json_member("messageListVisibility"@, json_string(v.spec_name()))), None => None }));
    lemma_field_members_optional("labelListVisibility"@, match l.label_list_visibility { Some(v) => Some(json_string(v.spec_name())), None => None });
    assert(field_members(f4) == optional(match l.label_list_visibility { Some(v) => Some(json_member("labelListVisibility"@, json_string(v.spec_name()))), None => None }));
    lemma_field_members_optional("messagesTotal"@, optional_number_json(l.messages_total));
    assert(field_members(f5) == optional(optional_number_member("messagesTotal"@, l.messages_total)));
    lemma_field_members_optional("messagesUnread"@, optional_number_json(l.messages_unread));
    assert(field_members(f6) == optional(optional_number_member("messagesUnread"@, l.messages_unread)));
    lemma_field_members_optional("threadsTotal"@, optional_number_json(l.threads_total));
    assert(field_members(f7) == optional(optional_number_member("threadsTotal"@, l.threads_total)));
    lemma_field_members_optional("threadsUnread"@, optional_number_json(l.threads_unread));
    assert(field_members(f8) == optional(optional_number_member("threadsUnread"@, l.threads_unread)));
    lemma_field_members_optional("color"@, match l.color { Some(c) => Some(color_json(c)), None => None });
    assert(field_members(f9) == optional(match l.color { Some(c) => Some(json_member("color"@, color_json(c))), None => None }));
}

/// Every field of a label that is set is written under its wire name,
/// whatever the other fields hold: the id and the name when not empty,
/// `type` and the two visibilities as the JSON strings of their wire
/// names exactly when they are set (for every variant), each count as a
/// number when present, and the color as its object when present.
#[verifier::rlimit(40)]
pub proof fn lemma_label_json_members(l: GmailLabel)
    ensures
        label_json(l) == fields_json(label_fields(l)),
        values_named(label_fields(l), "id"@) == if l.id@.len() > 0 {
            seq![json_string(l.id@)]
        } else {
            Seq::<Seq<u8>>::empty()
        },
        values_named(label_fields(l), "name"@) == if l.name@.len() > 0 {
            seq![json_string(l.name@)]
        } else {
            Seq::<Seq<u8>>::empty()
        },
        values_named(label_fields(l), "type"@) == match l.label_type {
            Some(v) => seq![json_string(v.spec_name())],
            None => Seq::<Seq<u8>>::empty(),
        },
        values_named(label_fields(l), "messageListVisibility"@) == match l.message_list_visibility {
            Some(v) => seq![json_string(v.spec_name())],
            None => Seq::<Seq<u8>>::empty(),
        },
        values_named(label_fields(l), "labelListVisibility"@) == match l.label_list_visibility {
            Some(v) => seq![json_string(v.spec_name())],
            None => Seq::<Seq<u8>>::empty(),
        },
        values_named(label_fields(l), "messagesTotal"@) == match l.messages_total {
            Some(n) => seq![json_number(n as nat)],
            None => Seq::<Seq<u8>>::empty(),
        },
        values_named(label_fields(l), "messagesUnread"@) == match l.messages_unread {
            Some(n) => seq![json_number(n as nat)],
            None => Seq::<Seq<u8>>::empty(),
        },
        values_named(label_fields(l), "threadsTotal"@) == match l.threads_total {
            Some(n) => seq![json_number(n as nat)],
            None => Seq::<Seq<u8>>::empty(),
        },
        values_named(label_fields(l), "threadsUnread"@) == match l.threads_unread {
            Some(n) => seq![json_number(n as nat)],
            None => Seq::<Seq<u8>>::empty(),
        },
        values_named(label_fields(l), "color"@) == match l.color {
            Some(c) => seq![color_json(c)],
            None => Seq::<Seq<u8>>::empty(),
        },
{
    reveal_strlit("id");
    reveal_strlit("name");
    reveal_strlit("type");
    reveal_strlit("messageListVisibility");
    reveal_strlit("labelListVisibility");
    reveal_strlit("messagesTotal");
    reveal_strlit("messagesUnread");
    reveal_strlit("threadsTotal");
    reveal_strlit("threadsUnread");
    reveal_strlit("color");
    assert("id"@.len() == 2 && "name"@.len() == 4 && "type"@.len() == 4);
    assert("messageListVisibility"@.len() == 21 && "labelListVisibility"@.len() == 19 && "messagesTotal"@.len() == 13);
    assert("messagesUnread"@.len() == 14 && "threadsTotal"@.len() == 12 && "threadsUnread"@.len() == 13);
    assert("color"@.len() == 5);
    assert("name"@[0] == 'n' && "type"@[0] == 't');
    assert("messagesTotal"@[0] == 'm' && "threadsUnread"@[0] == 't');
    lemma_label_json_is_fields(l);
    assert(values_named(label_fields(l), "id"@) =~= if l.id@.len() > 0 {
            seq![json_string(l.id@)]
        } else {
            Seq::<Seq<u8>>::empty()
        }) by {
        lemma_label_fields_named(l, "id"@);
    }
    assert(values_named(label_fields(l), "name"@) =~= if l.name@.len() > 0 {
            seq![json_string(l.name@)]
        } else {
            Seq::<Seq<u8>>::empty()
        }) by {
        lemma_label_fields_named(l, "name"@);
    }
    assert(values_named(label_fields(l), "type"@) =~= match l.label_type {
            Some(v) => seq![json_string(v.spec_name())],
            None => Seq::<Seq<u8>>::empty(),
        }) by {
        lemma_label_fields_named(l, "type"@);
    }
    assert(values_named(label_fields(l), "messageListVisibility"@) =~= match l.message_list_visibility {
            Some(v) => seq![json_string(v.spec_name())],
            None => Seq::<Seq<u8>>::empty(),
        }) by {
        lemma_label_fields_named(l, "messageListVisibility"@);
    }
    assert(values_named(label_fields(l), "labelListVisibility"@) =~= match l.label_list_visibility {
            Some(v) => seq![json_string(v.spec_name())],
            None => Seq::<Seq<u8>>::empty(),
        }) by {
        lemma_label_fields_named(l, "labelListVisibility"@);
    }
    assert(values_named(label_fields(l), "messagesTotal"@) =~= match l.messages_total {
            Some(n) => seq![json_number(n as nat)],
            None => Seq::<Seq<u8>>::empty(),
        }) by {
        lemma_label_fields_named(l, "messagesTotal"@);
    }
    assert(values_named(label_fields(l), "messagesUnread"@) =~= match l.messages_unread {
            Some(n) => seq![json_number(n as nat)],
            None => Seq::<Seq<u8>>::empty(),
        }) by {
        lemma_label_fields_named(l, "messagesUnread"@);
    }
    assert(values_named(label_fields(l), "threadsTotal"@) =~= match l.threads_total {
            Some(n) => seq![json_number(n as nat)],
            None => Seq::<Seq<u8>>::empty(),
        }) by {
        lemma_label_fields_named(l, "threadsTotal"@);
    }
    assert(values_named(label_fields(l), "threadsUnread"@) =~= match l.threads_unread {
            Some(n) => seq![json_number(n as nat)],
            None => Seq::<Seq<u8>>::empty(),
        }) by {
        lemma_label_fields_named(l, "threadsUnread"@);
    }
    assert(values_named(label_fields(l), "color"@) =~= match l.color {
            Some(c) => seq![color_json(c)],
            None => Seq::<Seq<u8>>::empty(),
        }) by {
        lemma_label_fields_named(l, "color"@);
    }
}




/// Appends the member when present.
pub fn push_optional(members: &mut Vec<Vec<u8>>, m: Option<Vec<u8>>)
    ensures
        chunks_view(final(members)@) == chunks_view(old(members)@) + optional(
            match m {
                Some(v) => Some(v@),
                None => None,
            },
        ),
{
    match m {
        Some(v) => {
            members.push(v);
        },
        None => {},
    }
    assert(chunks_view(members@) =~= chunks_view(old(members)@) + optional(
        match m {
            Some(v) => Some(v@),
            None => None,
        },
    ));
}

fn optional_string(key: &str, value: &Option<String>) -> (r: Option<Vec<u8>>)
    ensures
        match r {
            Some(v) => optional_string_member(key@, *value) == Some(v@),
            None => optional_string_member(key@, *value) is None,
        },
{
    match value {
        Some(v) => Some(member(key, string(v.as_str()))),
        None => None,
    }
}

fn optional_number(key: &str, value: Option<u64>) -> (r: Option<Vec<u8>>)
    ensures
        match r {
            Some(v) => optional_number_member(key@, value) == Some(v@),
            None => optional_number_member(key@, value) is None,
        },
{
    match value {
        Some(v) => Some(member(key, number(v))),
        None => None,
    }
}

fn nonempty_string(key: &str, value: &String) -> (r: Option<Vec<u8>>)
    ensures
        match r {
            Some(v) => nonempty_string_member(key@, value@) == Some(v@),
            None => nonempty_string_member(key@, value@) is None,
        },
{
    if value.as_str().is_empty() {
        None
    } else {
        Some(member(key, string(value.as_str())))
    }
}

impl GmailLabelColor {
    /// Writes the color as the JSON object [`color_json`] describes.
    pub fn to_json(&self) -> (r: Vec<u8>)
        ensures
            r@ == color_json(*self),
    {
        let mut ms: Vec<Vec<u8>> = Vec::new();
        push_optional(&mut ms, optional_string("textColor", &self.text_color));
        push_optional(&mut ms, optional_string("backgroundColor", &self.background_color));
        object(&ms)
    }
}

impl GmailLabel {
    /// Writes the label as the JSON object [`label_json`] describes.
    pub fn to_json(&self) -> (r: Vec<u8>)
        ensures
            r@ == label_json(*self),
    {
        let mut ms: Vec<Vec<u8>> = Vec::new();
        push_optional(&mut ms, nonempty_string("id", &self.id));
        push_optional(&mut ms, nonempty_string("name", &self.name));
        let t = match &self.label_type {
            Some(t) => Some(member("type", string(t.as_str()))),
            None => None,
        };
        push_optional(&mut ms, t);
        let v = match &self.message_list_visibility {
            Some(v) => Some(member("messageListVisibility", string(v.as_str()))),
            None => None,
        };
        push_optional(&mut ms, v);
        let v = match &self.label_list_visibility {
            Some(v) => Some(member("labelListVisibility", string(v.as_str()))),
            None => None,
        };
        push_optional(&mut ms, v);
        push_optional(&mut ms, optional_number("messagesTotal", self.messages_total));
        push_optional(&mut ms, optional_number("messagesUnread", self.messages_unread));
        push_optional(&mut ms, optional_number("threadsTotal", self.threads_total));
        push_optional(&mut ms, optional_number("threadsUnread", self.threads_unread));
        let c = match &self.color {
            Some(c) => Some(member("color", c.to_json())),
            None => None,
        };
        push_optional(&mut ms, c);
        object(&ms)
    }
}

} // verus!
