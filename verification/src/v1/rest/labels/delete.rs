//! Delete a Gmail label (`users.labels.delete`).

use crate::coroutine::GmailCoroutine;
use crate::coroutine::GmailCoroutineState;
use crate::coroutine::GmailYield;
use crate::v1::http::url_join;
use crate::v1::http::http11_finished;
use crate::v1::http::input_view;
use crate::v1::send::no_response_exchange_step;
use crate::v1::send::no_response_outcome;
use crate::v1::send::api_url;
use crate::v1::send::is_gmail_request;
use crate::v1::send::GmailRequestSpec;
use crate::v1::send::GmailSend;
use crate::v1::send::GmailNoResponse;
use crate::v1::send::GmailSendError;
use crate::v1::send::GmailSendOutput;
use crate::v1::send::GMAIL_API_BASE;
use crate::v1::http::GmailBearer;
use vstd::prelude::*;

verus! {

/// I/O-free coroutine deleting a Gmail label by id (`users.labels.delete`).
pub struct GmailDeleteLabel {
    send: GmailSend,
}

/// The name the crate's client uses for [`GmailDeleteLabel`].
pub type GmailLabelDelete = GmailDeleteLabel;

impl GmailDeleteLabel {
    /// The request this coroutine sends.
    pub closed spec fn request(&self) -> GmailRequestSpec {
        self.send.request()
    }

    /// The bytes this coroutine has been resumed with so far, in order.
    pub closed spec fn inputs(&self) -> Seq<Option<Seq<u8>>> {
        self.send.inputs()
    }

    /// Whether the exchange has stopped on a reply it would not read on.
    pub closed spec fn halted(&self) -> bool {
        self.send.halted()
    }

    /// Builds the `DELETE users/{user_id}/labels/{id}` request.
    pub fn new(auth: &GmailBearer, user_id: &str, id: &str) -> (r: Result<Self, GmailSendError>)
        ensures
            match url_join(GMAIL_API_BASE@, "users/"@ + user_id@ + "/labels/"@ + id@) {
                Some(u) => r matches Ok(c) && c.inputs() == Seq::<Option<Seq<u8>>>::empty() && !c.halted() && is_gmail_request(c.request(), auth@, "DELETE"@, u, None, Seq::empty()),
                None => r matches Err(GmailSendError::ParseUrl(_)),
            },
    {
        let mut path = "users/".to_string();
        path.append(user_id);
        path.append("/labels/");
        path.append(id);
        let url = api_url(path.as_str())?;
        Ok(GmailDeleteLabel { send: GmailSend::delete(auth, url) })
    }
}

impl GmailCoroutine for GmailDeleteLabel {
    type Yield = GmailYield;

    type Return = Result<GmailSendOutput<GmailNoResponse>, GmailSendError>;

    /// Whether the exchange has ended, or stopped.
    open spec fn completed(&self) -> bool {
        http11_finished(self.request(), self.inputs()) || self.halted()
    }

    /// Advances the exchange; on success the reply body must be a JSON
    /// document (or empty), and is dropped.
    fn resume(&mut self, arg: Option<&[u8]>) -> (r: GmailCoroutineState<
        GmailYield,
        Result<GmailSendOutput<GmailNoResponse>, GmailSendError>,
    >)
        ensures
            final(self).request() == old(self).request(),
            no_response_exchange_step(
                old(self).request(),
                old(self).inputs(),
                input_view(arg),
                final(self).inputs(),
                final(self).halted(),
                r,
            ),
            no_response_outcome(r),
    {
        match self.send.resume(arg) {
            GmailCoroutineState::Yielded(y) => GmailCoroutineState::Yielded(y),
            GmailCoroutineState::Complete(Err(err)) => GmailCoroutineState::Complete(Err(err)),
            GmailCoroutineState::Complete(Ok(out)) => GmailCoroutineState::Complete(out.into_no_response()),
        }
    }
}

} // verus!
