//! List the Gmail messages (`users.messages.list`).

use crate::coroutine::GmailCoroutine;
use crate::coroutine::GmailCoroutineState;
use crate::coroutine::GmailYield;
use crate::v1::http::append_query;
use crate::v1::http::url_join;
use crate::v1::http::url_with_query;
use crate::v1::query::decimal;
use crate::v1::query::decimal_string;
use crate::v1::query::optional_pair;
use crate::v1::query::push_pair;
use crate::v1::query::pairs_view;
use crate::v1::query::repeated_pairs;
use crate::v1::query::values_named;
use crate::v1::query::lemma_values_named_add;
use crate::v1::query::lemma_values_named_optional;
use crate::v1::query::lemma_values_named_repeated;
use crate::v1::rest::messages::GmailMessageId;
use crate::v1::http::http11_finished;
use crate::v1::http::input_view;
use crate::v1::send::exchange_step;
use crate::v1::send::exchange_outcome;
use crate::v1::send::api_url;
use crate::v1::send::is_gmail_request;
use crate::v1::send::GmailRequestSpec;
use crate::v1::send::GmailSend;
use crate::v1::send::GmailSendError;
use crate::v1::send::GmailSendOutput;
use crate::v1::send::GMAIL_API_BASE;
use crate::v1::http::GmailBearer;
use vstd::prelude::*;

verus! {

/// Query parameters for listing messages (`users.messages.list`).
#[derive(Debug, Clone, Default, PartialEq, Eq)]
pub struct GmailMessagesListParams<'a> {
    /// The search query, in the Gmail search box syntax.
    pub q: Option<&'a str>,
    /// The label ids the returned messages must all carry.
    pub label_ids: &'a [String],
    /// The maximum number of messages per page.
    pub max_results: Option<u32>,
    /// The page token from a previous list response.
    pub page_token: Option<&'a str>,
    /// Whether to include messages from SPAM and TRASH.
    pub include_spam_trash: bool,
}

/// One page of message ids (`users.messages.list` response).
#[derive(Debug, Clone, Default, PartialEq, Eq)]
pub struct GmailMessagesListResponse {
    /// The messages of the page, each with only its ids.
    pub messages: Vec<GmailMessageId>,
    /// The token of the next page, absent on the last page.
    pub next_page_token: Option<String>,
    /// The estimated total number of results.
    pub result_size_estimate: Option<u64>,
}

/// The view of an optional string.
pub open spec fn opt_view(s: Option<&str>) -> Option<Seq<char>> {
    match s {
        Some(s) => Some(s@),
        None => None,
    }
}

/// The query pairs of the parameters, in field order: `q`, one
/// `labelIds` pair per label id, `maxResults`, `pageToken`, and
/// `includeSpamTrash=true` only when set; absent values are left out.
pub open spec fn messages_list_query(p: GmailMessagesListParams) -> Seq<(Seq<char>, Seq<char>)> {
    optional_pair("q"@, opt_view(p.q))
        + repeated_pairs("labelIds"@, p.label_ids@.map_values(|s: String| s@))
        + optional_pair("maxResults"@, match p.max_results {
            Some(n) => Some(decimal(n as nat)),
            None => None,
        })
        + optional_pair("pageToken"@, opt_view(p.page_token))
        + if p.include_spam_trash {
            seq![("includeSpamTrash"@, "true"@)]
        } else {
            Seq::empty()
        }
}

/// The values the list query holds under `name`, parameter by parameter.
proof fn lemma_messages_list_query_named(p: GmailMessagesListParams, name: Seq<char>)
    ensures
        values_named(messages_list_query(p), name) == (if "q"@ == name {
            match opt_view(p.q) {
                Some(q) => seq![q],
                None => Seq::<Seq<char>>::empty(),
            }
        } else {
            Seq::<Seq<char>>::empty()
        }) + (if "labelIds"@ == name {
            p.label_ids@.map_values(|s: String| s@)
        } else {
            Seq::<Seq<char>>::empty()
        }) + (if "maxResults"@ == name {
            match p.max_results {
                Some(n) => seq![decimal(n as nat)],
                None => Seq::<Seq<char>>::empty(),
            }
        } else {
            Seq::<Seq<char>>::empty()
        }) + (if "pageToken"@ == name {
            match opt_view(p.page_token) {
                Some(t) => seq![t],
                None => Seq::<Seq<char>>::empty(),
            }
        } else {
            Seq::<Seq<char>>::empty()
        }) + (if "includeSpamTrash"@ == name && p.include_spam_trash {
            seq!["true"@]
        } else {
            Seq::<Seq<char>>::empty()
        }),
{
    let q = optional_pair("q"@, opt_view(p.q));
    let labels = repeated_pairs("labelIds"@, p.label_ids@.map_values(|s: String| s@));
    let max = optional_pair("maxResults"@, match p.max_results {
        Some(n) => Some(decimal(n as nat)),
        None => None,
    });
    let token = optional_pair("pageToken"@, opt_view(p.page_token));
    let spam = optional_pair("includeSpamTrash"@, if p.include_spam_trash {
        Some("true"@)
    } else {
        None
    });
    assert(spam =~= if p.include_spam_trash {
        seq![("includeSpamTrash"@, "true"@)]
    } else {
        Seq::<(Seq<char>, Seq<char>)>::empty()
    });
    lemma_values_named_add(q, labels, name);
    lemma_values_named_add(q + labels, max, name);
    lemma_values_named_add(q + labels + max, token, name);
    lemma_values_named_add(q + labels + max + token, spam, name);
    lemma_values_named_optional("q"@, opt_view(p.q), name);
    lemma_values_named_repeated("labelIds"@, p.label_ids@.map_values(|s: String| s@), name);
    lemma_values_named_optional("maxResults"@, match p.max_results {
        Some(n) => Some(decimal(n as nat)),
        None => None,
    }, name);
    lemma_values_named_optional("pageToken"@, opt_view(p.page_token), name);
    lemma_values_named_optional("includeSpamTrash"@, if p.include_spam_trash {
        Some("true"@)
    } else {
        None
    }, name);
}

/// Each parameter is sent under its own name, whatever the others hold:
/// the search query once under `q`, one `labelIds` pair per label id, in
/// order, the page size once under `maxResults` as a decimal numeral, the
/// page token once under `pageToken`, and `includeSpamTrash=true` only
/// when spam and trash are included; an absent parameter is not sent.
pub proof fn lemma_messages_list_query_names(p: GmailMessagesListParams)
    ensures
        values_named(messages_list_query(p), "q"@) == match p.q {
            Some(q) => seq![q@],
            None => Seq::<Seq<char>>::empty(),
        },
        values_named(messages_list_query(p), "labelIds"@) == p.label_ids@.map_values(|s: String| s@),
        values_named(messages_list_query(p), "maxResults"@) == match p.max_results {
            Some(n) => seq![decimal(n as nat)],
            None => Seq::<Seq<char>>::empty(),
        },
        values_named(messages_list_query(p), "pageToken"@) == match p.page_token {
            Some(t) => seq![t@],
            None => Seq::<Seq<char>>::empty(),
        },
        values_named(messages_list_query(p), "includeSpamTrash"@) == if p.include_spam_trash {
            seq!["true"@]
        } else {
            Seq::<Seq<char>>::empty()
        },
{
    reveal_strlit("q");
    reveal_strlit("labelIds");
    reveal_strlit("maxResults");
    reveal_strlit("pageToken");
    reveal_strlit("includeSpamTrash");
    assert("q"@.len() == 1 && "labelIds"@.len() == 8 && "maxResults"@.len() == 10);
    assert("pageToken"@.len() == 9 && "includeSpamTrash"@.len() == 16);
    let none = Seq::<Seq<char>>::empty();
    assert(values_named(messages_list_query(p), "q"@) =~= match p.q {
        Some(q) => seq![q@],
        None => none,
    }) by {
        lemma_messages_list_query_named(p, "q"@);
    }
    assert(values_named(messages_list_query(p), "labelIds"@) =~= p.label_ids@.map_values(
        |s: String| s@,
    )) by {
        lemma_messages_list_query_named(p, "labelIds"@);
    }
    assert(values_named(messages_list_query(p), "maxResults"@) =~= match p.max_results {
        Some(n) => seq![decimal(n as nat)],
        None => none,
    }) by {
        lemma_messages_list_query_named(p, "maxResults"@);
    }
    assert(values_named(messages_list_query(p), "pageToken"@) =~= match p.page_token {
        Some(t) => seq![t@],
        None => none,
    }) by {
        lemma_messages_list_query_named(p, "pageToken"@);
    }
    assert(values_named(messages_list_query(p), "includeSpamTrash"@) =~= if p.include_spam_trash {
        seq!["true"@]
    } else {
        none
    }) by {
        lemma_messages_list_query_named(p, "includeSpamTrash"@);
    }
}

/// Appends the pair `(name, value)` when the value is present.
pub fn push_optional_pair(pairs: &mut Vec<(String, String)>, name: &str, value: Option<&str>)
    ensures
        pairs_view(final(pairs)@) == pairs_view(old(pairs)@) + optional_pair(name@, opt_view(value)),
{
    match value {
        Some(v) => push_pair(pairs, name, v),
        None => {
            assert(pairs_view(pairs@) =~= pairs_view(old(pairs)@) + optional_pair(name@, opt_view(value)));
        },
    }
}

/// Appends one `(name, value)` pair per value.
pub fn push_repeated_pairs(pairs: &mut Vec<(String, String)>, name: &str, values: &[String])
    ensures
        pairs_view(final(pairs)@) == pairs_view(old(pairs)@) + repeated_pairs(
            name@,
            values@.map_values(|s: String| s@),
        ),
{
    let ghost start = pairs_view(pairs@);
    let mut i: usize = 0;
    while i < values.len()
        invariant
            i <= values@.len(),
            pairs_view(pairs@) == start + repeated_pairs(name@, values@.subrange(0, i as int).map_values(|s: String| s@)),
        decreases values@.len() - i,
    {
        push_pair(pairs, name, values[i].as_str());
        assert(values@.subrange(0, i + 1) =~= values@.subrange(0, i as int).push(values@[i as int]));
        assert(pairs_view(pairs@) =~= start + repeated_pairs(name@, values@.subrange(0, i + 1).map_values(|s: String| s@)));
        i = i + 1;
    }
    assert(values@.subrange(0, values@.len() as int) =~= values@);
}

impl<'a> GmailMessagesListParams<'a> {
    /// Flattens the parameters into query pairs, as
    /// [`messages_list_query`] lists them.
    pub fn to_query_pairs(&self) -> (r: Vec<(String, String)>)
        ensures
            pairs_view(r@) == messages_list_query(*self),
    {
        let mut pairs: Vec<(String, String)> = Vec::new();
        push_optional_pair(&mut pairs, "q", self.q);
        push_repeated_pairs(&mut pairs, "labelIds", self.label_ids);
        match self.max_results {
            Some(n) => {
                let d = decimal_string(n as u64);
                push_pair(&mut pairs, "maxResults", d.as_str());
            },
            None => {},
        }
        push_optional_pair(&mut pairs, "pageToken", self.page_token);
        if self.include_spam_trash {
            push_pair(&mut pairs, "includeSpamTrash", "true");
        }
        assert(pairs_view(pairs@) =~= messages_list_query(*self));
        pairs
    }
}

/// I/O-free coroutine listing one page of message ids
/// (`users.messages.list`).
pub struct GmailMessagesList {
    send: GmailSend,
}

impl GmailMessagesList {
    /// The request this coroutine sends.
    pub closed spec fn request(&self) -> GmailRequestSpec {
        self.send.request()
    }

    /// The bytes this coroutine has been resumed with so far, in order.
    pub closed spec fn inputs(&self) -> Seq<Option<Seq<u8>>> {
        self.send.inputs()
    }

    /// Whether the exchange has stopped on a reply it would not read on.
    pub closed spec fn halted(&self) -> bool {
        self.send.halted()
    }

    /// Builds the `GET users/{user_id}/messages` request from the query
    /// parameters.
    pub fn new(auth: &GmailBearer, user_id: &str, params: &GmailMessagesListParams) -> (r: Result<Self, GmailSendError>)
        ensures
            match url_join(GMAIL_API_BASE@, "users/"@ + user_id@ + "/messages"@) {
                Some(u) => r matches Ok(c) && c.inputs() == Seq::<Option<Seq<u8>>>::empty() && !c.halted() && is_gmail_request(
                    c.request(),
                    auth@,
                    "GET"@,
                    url_with_query(u, messages_list_query(*params)),
                    None,
                    Seq::empty(),
                ),
                None => r matches Err(GmailSendError::ParseUrl(_)),
            },
    {
        let mut path = "users/".to_string();
        path.append(user_id);
        path.append("/messages");
        let url = api_url(path.as_str())?;
        let pairs = params.to_query_pairs();
        let url = append_query(url, &pairs);
        Ok(GmailMessagesList { send: GmailSend::get(auth, url) })
    }
}

impl GmailCoroutine for GmailMessagesList {
    type Yield = GmailYield;

    type Return = Result<GmailSendOutput<Vec<u8>>, GmailSendError>;

    /// Whether the exchange has ended, or stopped.
    open spec fn completed(&self) -> bool {
        http11_finished(self.request(), self.inputs()) || self.halted()
    }

    /// Advances the exchange; on success the response is the JSON page of message ids.
    fn resume(&mut self, arg: Option<&[u8]>) -> (r: GmailCoroutineState<
        GmailYield,
        Result<GmailSendOutput<Vec<u8>>, GmailSendError>,
    >)
        ensures
            final(self).request() == old(self).request(),
            exchange_step(
                old(self).request(),
                old(self).inputs(),
                input_view(arg),
                final(self).inputs(),
                final(self).halted(),
                r,
            ),
            exchange_outcome(r),
    {
        self.send.resume(arg)
    }
}

} // verus!
