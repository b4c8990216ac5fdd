//! Add and remove labels on a Gmail message (`users.messages.modify`).

use crate::coroutine::GmailCoroutine;
use crate::coroutine::GmailCoroutineState;
use crate::coroutine::GmailYield;
use crate::v1::http::url_join;
use crate::v1::query::chunks_view;
use crate::v1::query::json_member;
use crate::v1::query::json_object;
use crate::v1::query::member;
use crate::v1::query::object;
use crate::v1::query::field_members;
use crate::v1::query::fields_json;
use crate::v1::query::values_named;
use crate::v1::rest::messages::strings_json;
use crate::v1::rest::messages::strings_to_json;
use crate::v1::http::http11_finished;
use crate::v1::http::input_view;
use crate::v1::send::exchange_step;
use crate::v1::send::exchange_outcome;
use crate::v1::send::api_url;
use crate::v1::send::is_gmail_request;
use crate::v1::send::GmailRequestSpec;
use crate::v1::send::GmailSend;
use crate::v1::send::GmailSendError;
use crate::v1::send::GmailSendOutput;
use crate::v1::send::GMAIL_API_BASE;
use crate::v1::http::GmailBearer;
use vstd::prelude::*;

verus! {

/// The body of `users.messages.modify`: the label ids to add and to
/// remove.
pub open spec fn modify_json(add_label_ids: Seq<String>, remove_label_ids: Seq<String>) -> Seq<u8> {
    json_object(
        seq![
            json_member("addLabelIds"@, strings_json(add_label_ids)),
            json_member("removeLabelIds"@, strings_json(remove_label_ids)),
        ],
    )
}

/// The members of the modify body, each a key and its encoded value.
pub open spec fn modify_fields(add_label_ids: Seq<String>, remove_label_ids: Seq<String>) -> Seq<(Seq<char>, Seq<u8>)> {
    seq![("addLabelIds"@, strings_json(add_label_ids)), ("removeLabelIds"@, strings_json(remove_label_ids))]
}

/// The modify body is the object of exactly two members: `addLabelIds`
/// holds the array of the label ids to add and `removeLabelIds` the array
/// of those to remove, each as given, whatever the other list holds.
pub proof fn lemma_modify_json_members(add_label_ids: Seq<String>, remove_label_ids: Seq<String>)
    ensures
        modify_json(add_label_ids, remove_label_ids) == fields_json(modify_fields(add_label_ids, remove_label_ids)),
        modify_fields(add_label_ids, remove_label_ids).len() == 2,
        values_named(modify_fields(add_label_ids, remove_label_ids), "addLabelIds"@) == seq![strings_json(add_label_ids)],
        values_named(modify_fields(add_label_ids, remove_label_ids), "removeLabelIds"@) == seq![strings_json(remove_label_ids)],
{
    reveal_strlit("addLabelIds");
    reveal_strlit("removeLabelIds");
    let f = modify_fields(add_label_ids, remove_label_ids);
    assert(field_members(f) =~= seq![
        json_member("addLabelIds"@, strings_json(add_label_ids)),
        json_member("removeLabelIds"@, strings_json(remove_label_ids)),
    ]);
    assert("addLabelIds"@.len() == 11 && "removeLabelIds"@.len() == 14);
    assert(f.drop_last() =~= seq![("addLabelIds"@, strings_json(add_label_ids))]);
    assert(f.drop_last().drop_last() =~= Seq::<(Seq<char>, Seq<u8>)>::empty());
    let empty = Seq::<Seq<u8>>::empty();
    assert(values_named(f.drop_last().drop_last(), "addLabelIds"@) == empty);
    assert(values_named(f.drop_last().drop_last(), "removeLabelIds"@) == empty);
    assert(values_named(f.drop_last(), "addLabelIds"@) =~= seq![strings_json(add_label_ids)]);
    assert(values_named(f.drop_last(), "removeLabelIds"@) =~= empty);
    assert(values_named(f, "removeLabelIds"@) =~= seq![strings_json(remove_label_ids)]);
}

/// I/O-free coroutine adding and removing labels on a Gmail message
/// (`users.messages.modify`).
pub struct GmailMessageModify {
    send: GmailSend,
}

impl GmailMessageModify {
    /// The request this coroutine sends.
    pub closed spec fn request(&self) -> GmailRequestSpec {
        self.send.request()
    }

    /// The bytes this coroutine has been resumed with so far, in order.
    pub closed spec fn inputs(&self) -> Seq<Option<Seq<u8>>> {
        self.send.inputs()
    }

    /// Whether the exchange has stopped on a reply it would not read on.
    pub closed spec fn halted(&self) -> bool {
        self.send.halted()
    }

    /// Builds the `POST users/{user_id}/messages/{id}/modify` request; a
    /// modification that neither adds nor removes a label is refused.
    pub fn new(
        auth: &GmailBearer,
        user_id: &str,
        id: &str,
        add_label_ids: &[String],
        remove_label_ids: &[String],
    ) -> (r: Result<Self, GmailSendError>)
        ensures
            add_label_ids@.len() == 0 && remove_label_ids@.len() == 0 ==> (r matches Err(
                GmailSendError::InvalidRequest(m),
            ) && m@ == "modify requires at least one label update"@),
            add_label_ids@.len() != 0 || remove_label_ids@.len() != 0 ==> (match url_join(
                GMAIL_API_BASE@,
                "users/"@ + user_id@ + "/messages/"@ + id@ + "/modify"@,
            ) {
                Some(u) => r matches Ok(c) && c.inputs() == Seq::<Option<Seq<u8>>>::empty() && !c.halted() && is_gmail_request(
                    c.request(),
                    auth@,
                    "POST"@,
                    u,
                    Some("application/json"@),
                    modify_json(add_label_ids@, remove_label_ids@),
                ),
                None => r matches Err(GmailSendError::ParseUrl(_)),
            }),
    {
        if add_label_ids.len() == 0 && remove_label_ids.len() == 0 {
            return Err(GmailSendError::InvalidRequest("modify requires at least one label update".to_string()));
        }
        let mut path = "users/".to_string();
        path.append(user_id);
        path.append("/messages/");
        path.append(id);
        path.append("/modify");
        let url = api_url(path.as_str())?;
        let mut ms: Vec<Vec<u8>> = Vec::new();
        ms.push(member("addLabelIds", strings_to_json(add_label_ids)));
        ms.push(member("removeLabelIds", strings_to_json(remove_label_ids)));
        assert(chunks_view(ms@) =~= seq![
            json_member("addLabelIds"@, strings_json(add_label_ids@)),
            json_member("removeLabelIds"@, strings_json(remove_label_ids@)),
        ]);
        let body = object(&ms);
        Ok(GmailMessageModify { send: GmailSend::post_json(auth, url, body) })
    }
}

impl GmailCoroutine for GmailMessageModify {
    type Yield = GmailYield;

    type Return = Result<GmailSendOutput<Vec<u8>>, GmailSendError>;

    /// Whether the exchange has ended, or stopped.
    open spec fn completed(&self) -> bool {
        http11_finished(self.request(), self.inputs()) || self.halted()
    }

    /// Advances the exchange; on success the response is the JSON message.
    fn resume(&mut self, arg: Option<&[u8]>) -> (r: GmailCoroutineState<
        GmailYield,
        Result<GmailSendOutput<Vec<u8>>, GmailSendError>,
    >)
        ensures
            final(self).request() == old(self).request(),
            exchange_step(
                old(self).request(),
                old(self).inputs(),
                input_view(arg),
                final(self).inputs(),
                final(self).halted(),
                r,
            ),
            exchange_outcome(r),
    {
        self.send.resume(arg)
    }
}

} // verus!
