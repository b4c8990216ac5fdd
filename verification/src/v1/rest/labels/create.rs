//! Create a Gmail label (`users.labels.create`).

use crate::coroutine::GmailCoroutine;
use crate::coroutine::GmailCoroutineState;
use crate::coroutine::GmailYield;
use crate::v1::http::url_join;
use crate::v1::http::http11_finished;
use crate::v1::http::input_view;
use crate::v1::send::exchange_step;
use crate::v1::send::exchange_outcome;
use crate::v1::send::api_url;
use crate::v1::send::is_gmail_request;
use crate::v1::send::GmailRequestSpec;
use crate::v1::send::GmailSend;
use crate::v1::send::GmailSendError;
use crate::v1::send::GmailSendOutput;
use crate::v1::send::GMAIL_API_BASE;
use crate::text::is_blank;
use crate::text::is_blank_spec;
use crate::v1::rest::labels::label_json;
use crate::v1::rest::labels::GmailLabel;
use crate::v1::http::GmailBearer;
use vstd::prelude::*;

verus! {

/// I/O-free coroutine for `users.labels.create`.
pub struct GmailLabelCreate {
    send: GmailSend,
}

impl GmailLabelCreate {
    /// The request this coroutine sends.
    pub closed spec fn request(&self) -> GmailRequestSpec {
        self.send.request()
    }

    /// The bytes this coroutine has been resumed with so far, in order.
    pub closed spec fn inputs(&self) -> Seq<Option<Seq<u8>>> {
        self.send.inputs()
    }

    /// Whether the exchange has stopped on a reply it would not read on.
    pub closed spec fn halted(&self) -> bool {
        self.send.halted()
    }

    /// Builds the `POST` request carrying the label as JSON.
    pub fn new(auth: &GmailBearer, user_id: &str, label: &GmailLabel) -> (r: Result<Self, GmailSendError>)
        ensures
            is_blank_spec(label.name@) ==> (r matches Err(GmailSendError::InvalidRequest(m)) && m@
                == "label name cannot be empty"@),
            !is_blank_spec(label.name@) ==> (match url_join(GMAIL_API_BASE@, "users/"@ + user_id@ + "/labels"@) {
                Some(u) => r matches Ok(c) && c.inputs() == Seq::<Option<Seq<u8>>>::empty() && !c.halted() && is_gmail_request(
                    c.request(),
                    auth@,
                    "POST"@,
                    u,
                    Some("application/json"@),
                    label_json(*label),
                ),
                None => r matches Err(GmailSendError::ParseUrl(_)),
            }),
    {
        if is_blank(label.name.as_str()) {
            return Err(GmailSendError::InvalidRequest("label name cannot be empty".to_string()));
        }
        let mut path = "users/".to_string();
        path.append(user_id);
        path.append("/labels");
        let url = api_url(path.as_str())?;
        let body = label.to_json();
        Ok(GmailLabelCreate { send: GmailSend::post_json(auth, url, body) })
    }
}

impl GmailCoroutine for GmailLabelCreate {
    type Yield = GmailYield;

    type Return = Result<GmailSendOutput<Vec<u8>>, GmailSendError>;

    /// Whether the exchange has ended, or stopped.
    open spec fn completed(&self) -> bool {
        http11_finished(self.request(), self.inputs()) || self.halted()
    }

    /// Advances the exchange; on success the response is the JSON label.
    fn resume(&mut self, arg: Option<&[u8]>) -> (r: GmailCoroutineState<
        GmailYield,
        Result<GmailSendOutput<Vec<u8>>, GmailSendError>,
    >)
        ensures
            final(self).request() == old(self).request(),
            exchange_step(
                old(self).request(),
                old(self).inputs(),
                input_view(arg),
                final(self).inputs(),
                final(self).halted(),
                r,
            ),
            exchange_outcome(r),
    {
        self.send.resume(arg)
    }
}

} // verus!
