//! Get a Gmail message (`users.messages.get`).

use crate::coroutine::GmailCoroutine;
use crate::coroutine::GmailCoroutineState;
use crate::coroutine::GmailYield;
use crate::v1::http::append_query;
use crate::v1::http::url_join;
use crate::v1::http::url_with_query;
use crate::v1::query::push_pair;
use crate::v1::query::pairs_view;
use crate::v1::query::optional_pair;
use crate::v1::query::repeated_pairs;
use crate::v1::query::values_named;
use crate::v1::query::lemma_values_named_add;
use crate::v1::query::lemma_values_named_optional;
use crate::v1::query::lemma_values_named_repeated;
use crate::v1::rest::messages::GmailMessageFormat;
use crate::v1::http::http11_finished;
use crate::v1::http::input_view;
use crate::v1::send::exchange_step;
use crate::v1::send::exchange_outcome;
use crate::v1::send::api_url;
use crate::v1::send::is_gmail_request;
use crate::v1::send::GmailRequestSpec;
use crate::v1::send::GmailSend;
use crate::v1::send::GmailSendError;
use crate::v1::send::GmailSendOutput;
use crate::v1::send::GMAIL_API_BASE;
use crate::v1::http::GmailBearer;
use vstd::prelude::*;

verus! {

/// The query of `users.messages.get`: the format, then, for the
/// metadata format only, one `metadataHeaders` pair per header name.
pub open spec fn message_get_query(format: GmailMessageFormat, metadata_headers: Seq<&str>) -> Seq<(Seq<char>, Seq<char>)> {
    seq![("format"@, format.spec_name())] + if format is Metadata {
        metadata_headers.map_values(|h: &str| ("metadataHeaders"@, h@))
    } else {
        Seq::empty()
    }
}

/// The format is sent once, as its wire name, under `format`; the header
/// names are sent under `metadataHeaders`, one pair each and in order,
/// exactly when the format is the metadata one.
pub proof fn lemma_message_get_query_names(format: GmailMessageFormat, metadata_headers: Seq<&str>)
    ensures
        values_named(message_get_query(format, metadata_headers), "format"@) == seq![format.spec_name()],
        values_named(message_get_query(format, metadata_headers), "metadataHeaders"@) == if format is Metadata {
            metadata_headers.map_values(|h: &str| h@)
        } else {
            Seq::<Seq<char>>::empty()
        },
{
    reveal_strlit("format");
    reveal_strlit("metadataHeaders");
    assert("format"@.len() == 6 && "metadataHeaders"@.len() == 15);
    let headers = if format is Metadata {
        metadata_headers.map_values(|h: &str| h@)
    } else {
        Seq::<Seq<char>>::empty()
    };
    let first = optional_pair("format"@, Some(format.spec_name()));
    let rest = repeated_pairs("metadataHeaders"@, headers);
    assert(message_get_query(format, metadata_headers) =~= first + rest);
    lemma_values_named_add(first, rest, "format"@);
    lemma_values_named_add(first, rest, "metadataHeaders"@);
    lemma_values_named_optional("format"@, Some(format.spec_name()), "format"@);
    lemma_values_named_optional("format"@, Some(format.spec_name()), "metadataHeaders"@);
    lemma_values_named_repeated("metadataHeaders"@, headers, "format"@);
    lemma_values_named_repeated("metadataHeaders"@, headers, "metadataHeaders"@);
    assert(values_named(first + rest, "format"@) =~= seq![format.spec_name()]);
    assert(values_named(first + rest, "metadataHeaders"@) =~= headers);
}

/// I/O-free coroutine getting a Gmail message (`users.messages.get`).
pub struct GmailMessageGet {
    send: GmailSend,
}

impl GmailMessageGet {
    /// The request this coroutine sends.
    pub closed spec fn request(&self) -> GmailRequestSpec {
        self.send.request()
    }

    /// The bytes this coroutine has been resumed with so far, in order.
    pub closed spec fn inputs(&self) -> Seq<Option<Seq<u8>>> {
        self.send.inputs()
    }

    /// Whether the exchange has stopped on a reply it would not read on.
    pub closed spec fn halted(&self) -> bool {
        self.send.halted()
    }

    /// Builds the `GET users/{user_id}/messages/{id}` request in the given
    /// format, asking for the given headers when the format is metadata.
    pub fn new(
        auth: &GmailBearer,
        user_id: &str,
        id: &str,
        format: GmailMessageFormat,
        metadata_headers: &[&str],
    ) -> (r: Result<Self, GmailSendError>)
        ensures
            match url_join(GMAIL_API_BASE@, "users/"@ + user_id@ + "/messages/"@ + id@) {
                Some(u) => r matches Ok(c) && c.inputs() == Seq::<Option<Seq<u8>>>::empty() && !c.halted() && is_gmail_request(
                    c.request(),
                    auth@,
                    "GET"@,
                    url_with_query(u, message_get_query(format, metadata_headers@)),
                    None,
                    Seq::empty(),
                ),
                None => r matches Err(GmailSendError::ParseUrl(_)),
            },
    {
        let mut path = "users/".to_string();
        path.append(user_id);
        path.append("/messages/");
        path.append(id);
        let url = api_url(path.as_str())?;
        let mut pairs: Vec<(String, String)> = Vec::new();
        push_pair(&mut pairs, "format", format.as_str());
        if matches!(format, GmailMessageFormat::Metadata) {
            let mut i: usize = 0;
            while i < metadata_headers.len()
                invariant
                    i <= metadata_headers@.len(),
                    format is Metadata,
                    pairs_view(pairs@) == seq![("format"@, format.spec_name())]
                        + metadata_headers@.subrange(0, i as int).map_values(|h: &str| ("metadataHeaders"@, h@)),
                decreases metadata_headers@.len() - i,
            {
                push_pair(&mut pairs, "metadataHeaders", metadata_headers[i]);
                assert(metadata_headers@.subrange(0, i + 1) =~= metadata_headers@.subrange(0, i as int).push(metadata_headers@[i as int]));
                assert(pairs_view(pairs@) =~= seq![("format"@, format.spec_name())]
                    + metadata_headers@.subrange(0, i + 1).map_values(|h: &str| ("metadataHeaders"@, h@)));
                i = i + 1;
            }
            assert(metadata_headers@.subrange(0, metadata_headers@.len() as int) =~= metadata_headers@);
        }
        assert(pairs_view(pairs@) =~= message_get_query(format, metadata_headers@));
        let url = append_query(url, &pairs);
        Ok(GmailMessageGet { send: GmailSend::get(auth, url) })
    }
}

impl GmailCoroutine for GmailMessageGet {
    type Yield = GmailYield;

    type Return = Result<GmailSendOutput<Vec<u8>>, GmailSendError>;

    /// Whether the exchange has ended, or stopped.
    open spec fn completed(&self) -> bool {
        http11_finished(self.request(), self.inputs()) || self.halted()
    }

    /// Advances the exchange; on success the response is the JSON message.
    fn resume(&mut self, arg: Option<&[u8]>) -> (r: GmailCoroutineState<
        GmailYield,
        Result<GmailSendOutput<Vec<u8>>, GmailSendError>,
    >)
        ensures
            final(self).request() == old(self).request(),
            exchange_step(
                old(self).request(),
                old(self).inputs(),
                input_view(arg),
                final(self).inputs(),
                final(self).halted(),
                r,
            ),
            exchange_outcome(r),
    {
        self.send.resume(arg)
    }
}

} // verus!
