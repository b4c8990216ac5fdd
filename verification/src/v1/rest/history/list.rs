//! List the Gmail history records (`users.history.list`).

use crate::coroutine::GmailCoroutine;
use crate::coroutine::GmailCoroutineState;
use crate::coroutine::GmailYield;
use crate::v1::http::append_query;
use crate::v1::http::url_join;
use crate::v1::http::url_with_query;
use crate::v1::query::values_named;
use crate::v1::query::lemma_values_named_add;
use crate::v1::query::lemma_values_named_optional;
use crate::v1::query::lemma_values_named_repeated;
use crate::v1::query::decimal;
use crate::v1::query::decimal_string;
use crate::v1::query::optional_pair;
use crate::v1::query::push_pair;
use crate::v1::query::pairs_view;
use crate::v1::query::repeated_pairs;
use crate::v1::rest::history::GmailHistory;
use crate::v1::rest::history::GmailHistoryType;
use crate::v1::rest::messages::list::opt_view;
use crate::v1::rest::messages::list::push_optional_pair;
use crate::v1::http::http11_finished;
use crate::v1::http::input_view;
use crate::v1::send::exchange_step;
use crate::v1::send::exchange_outcome;
use crate::v1::send::api_url;
use crate::v1::send::is_gmail_request;
use crate::v1::send::GmailRequestSpec;
use crate::v1::send::GmailSend;
use crate::v1::send::GmailSendError;
use crate::v1::send::GmailSendOutput;
use crate::v1::send::GMAIL_API_BASE;
use crate::v1::http::GmailBearer;
use vstd::prelude::*;

verus! {

/// Query parameters for listing history records (`users.history.list`).
#[derive(Debug, Clone, Default, PartialEq, Eq)]
pub struct GmailHistoryListParams<'a> {
    /// The history id to start listing changes after.
    pub start_history_id: &'a str,
    /// The label id to restrict history records to.
    pub label_id: Option<&'a str>,
    /// The history types to return.
    pub history_types: &'a [GmailHistoryType],
    /// The maximum number of records per page.
    pub max_results: Option<u32>,
    /// The page token of a specific page of results.
    pub page_token: Option<&'a str>,
}

/// Response of `users.history.list`.
#[derive(Debug, Default, PartialEq, Eq)]
pub struct GmailHistoryListResponse {
    /// The history records of the page.
    pub history: Vec<GmailHistory>,
    /// The token of the next page, absent on the last page.
    pub next_page_token: Option<String>,
    /// The id of the current history record of the mailbox.
    pub history_id: Option<String>,
}

/// The query pairs of the parameters, in field order: `startHistoryId`,
/// `labelId`, one `historyTypes` pair per type, `maxResults`,
/// `pageToken`; absent values are left out.
pub open spec fn history_list_query(p: GmailHistoryListParams) -> Seq<(Seq<char>, Seq<char>)> {
    seq![("startHistoryId"@, p.start_history_id@)]
        + optional_pair("labelId"@, opt_view(p.label_id))
        + repeated_pairs("historyTypes"@, p.history_types@.map_values(|t: GmailHistoryType| t.spec_name()))
        + optional_pair("maxResults"@, match p.max_results {
            Some(n) => Some(decimal(n as nat)),
            None => None,
        })
        + optional_pair("pageToken"@, opt_view(p.page_token))
}

/// The values the history list query holds under `name`, parameter by
/// parameter.
proof fn lemma_history_list_query_named(p: GmailHistoryListParams, name: Seq<char>)
    ensures
        values_named(history_list_query(p), name) == (if "startHistoryId"@ == name {
            seq![p.start_history_id@]
        } else {
            Seq::<Seq<char>>::empty()
        }) + (if "labelId"@ == name {
            match opt_view(p.label_id) {
                Some(l) => seq![l],
                None => Seq::<Seq<char>>::empty(),
            }
        } else {
            Seq::<Seq<char>>::empty()
        }) + (if "historyTypes"@ == name {
            p.history_types@.map_values(|t: GmailHistoryType| t.spec_name())
        } else {
            Seq::<Seq<char>>::empty()
        }) + (if "maxResults"@ == name {
            match p.max_results {
                Some(n) => seq![decimal(n as nat)],
                None => Seq::<Seq<char>>::empty(),
            }
        } else {
            Seq::<Seq<char>>::empty()
        }) + (if "pageToken"@ == name {
            match opt_view(p.page_token) {
                Some(t) => seq![t],
                None => Seq::<Seq<char>>::empty(),
            }
        } else {
            Seq::<Seq<char>>::empty()
        }),
{
    let start = optional_pair("startHistoryId"@, Some(p.start_history_id@));
    let label = optional_pair("labelId"@, opt_view(p.label_id));
    let types = repeated_pairs("historyTypes"@, p.history_types@.map_values(|t: GmailHistoryType| t.spec_name()));
    let max = optional_pair("maxResults"@, match p.max_results {
        Some(n) => Some(decimal(n as nat)),
        None => None,
    });
    let token = optional_pair("pageToken"@, opt_view(p.page_token));
    assert(start =~= seq![("startHistoryId"@, p.start_history_id@)]);
    lemma_values_named_add(start, label, name);
    lemma_values_named_add(start + label, types, name);
    lemma_values_named_add(start + label + types, max, name);
    lemma_values_named_add(start + label + types + max, token, name);
    lemma_values_named_optional("startHistoryId"@, Some(p.start_history_id@), name);
    lemma_values_named_optional("labelId"@, opt_view(p.label_id), name);
    lemma_values_named_repeated("historyTypes"@, p.history_types@.map_values(|t: GmailHistoryType| t.spec_name()), name);
    lemma_values_named_optional("maxResults"@, match p.max_results {
        Some(n) => Some(decimal(n as nat)),
        None => None,
    }, name);
    lemma_values_named_optional("pageToken"@, opt_view(p.page_token), name);
}

/// Each parameter is sent under its own name, whatever the others hold:
/// the start history id once under `startHistoryId`, the label id once
/// under `labelId`, one `historyTypes` pair per history type, as its wire
/// name and in order, the page size once under `maxResults` as a decimal
/// numeral and the page token once under `pageToken`; an absent parameter
/// is not sent.
pub proof fn lemma_history_list_query_names(p: GmailHistoryListParams)
    ensures
        values_named(history_list_query(p), "startHistoryId"@) == seq![p.start_history_id@],
        values_named(history_list_query(p), "labelId"@) == match p.label_id {
            Some(l) => seq![l@],
            None => Seq::<Seq<char>>::empty(),
        },
        values_named(history_list_query(p), "historyTypes"@) == p.history_types@.map_values(
            |t: GmailHistoryType| t.spec_name(),
        ),
        values_named(history_list_query(p), "maxResults"@) == match p.max_results {
            Some(n) => seq![decimal(n as nat)],
            None => Seq::<Seq<char>>::empty(),
        },
        values_named(history_list_query(p), "pageToken"@) == match p.page_token {
            Some(t) => seq![t@],
            None => Seq::<Seq<char>>::empty(),
        },
{
    reveal_strlit("startHistoryId");
    reveal_strlit("labelId");
    reveal_strlit("historyTypes");
    reveal_strlit("maxResults");
    reveal_strlit("pageToken");
    assert("startHistoryId"@.len() == 14 && "labelId"@.len() == 7 && "historyTypes"@.len() == 12);
    assert("maxResults"@.len() == 10 && "pageToken"@.len() == 9);
    let none = Seq::<Seq<char>>::empty();
    assert(values_named(history_list_query(p), "startHistoryId"@) =~= seq![p.start_history_id@]) by {
        lemma_history_list_query_named(p, "startHistoryId"@);
    }
    assert(values_named(history_list_query(p), "labelId"@) =~= match p.label_id {
        Some(l) => seq![l@],
        None => none,
    }) by {
        lemma_history_list_query_named(p, "labelId"@);
    }
    assert(values_named(history_list_query(p), "historyTypes"@) =~= p.history_types@.map_values(
        |t: GmailHistoryType| t.spec_name(),
    )) by {
        lemma_history_list_query_named(p, "historyTypes"@);
    }
    assert(values_named(history_list_query(p), "maxResults"@) =~= match p.max_results {
        Some(n) => seq![decimal(n as nat)],
        None => none,
    }) by {
        lemma_history_list_query_named(p, "maxResults"@);
    }
    assert(values_named(history_list_query(p), "pageToken"@) =~= match p.page_token {
        Some(t) => seq![t@],
        None => none,
    }) by {
        lemma_history_list_query_named(p, "pageToken"@);
    }
}

impl<'a> GmailHistoryListParams<'a> {
    /// Flattens the parameters into query pairs, as
    /// [`history_list_query`] lists them.
    pub fn to_query_pairs(&self) -> (r: Vec<(String, String)>)
        ensures
            pairs_view(r@) == history_list_query(*self),
    {
        let mut pairs: Vec<(String, String)> = Vec::new();
        push_pair(&mut pairs, "startHistoryId", self.start_history_id);
        push_optional_pair(&mut pairs, "labelId", self.label_id);
        let ghost start = pairs_view(pairs@);
        let mut i: usize = 0;
        while i < self.history_types.len()
            invariant
                i <= self.history_types@.len(),
                pairs_view(pairs@) == start + repeated_pairs(
                    "historyTypes"@,
                    self.history_types@.subrange(0, i as int).map_values(|t: GmailHistoryType| t.spec_name()),
                ),
            decreases self.history_types@.len() - i,
        {
            push_pair(&mut pairs, "historyTypes", self.history_types[i].as_str());
            assert(self.history_types@.subrange(0, i + 1) =~= self.history_types@.subrange(0, i as int).push(
                self.history_types@[i as int],
            ));
            assert(pairs_view(pairs@) =~= start + repeated_pairs(
                "historyTypes"@,
                self.history_types@.subrange(0, i + 1).map_values(|t: GmailHistoryType| t.spec_name()),
            ));
            i = i + 1;
        }
        assert(self.history_types@.subrange(0, self.history_types@.len() as int) =~= self.history_types@);
        match self.max_results {
            Some(n) => {
                let d = decimal_string(n as u64);
                push_pair(&mut pairs, "maxResults", d.as_str());
            },
            None => {},
        }
        push_optional_pair(&mut pairs, "pageToken", self.page_token);
        assert(pairs_view(pairs@) =~= history_list_query(*self));
        pairs
    }
}

/// I/O-free coroutine listing Gmail history records
/// (`users.history.list`).
pub struct GmailHistoryList {
    send: GmailSend,
}

impl GmailHistoryList {
    /// The request this coroutine sends.
    pub closed spec fn request(&self) -> GmailRequestSpec {
        self.send.request()
    }

    /// The bytes this coroutine has been resumed with so far, in order.
    pub closed spec fn inputs(&self) -> Seq<Option<Seq<u8>>> {
        self.send.inputs()
    }

    /// Whether the exchange has stopped on a reply it would not read on.
    pub closed spec fn halted(&self) -> bool {
        self.send.halted()
    }

    /// Builds the `GET users/{user_id}/history` request from the query
    /// parameters.
    pub fn new(auth: &GmailBearer, user_id: &str, params: &GmailHistoryListParams) -> (r: Result<Self, GmailSendError>)
        ensures
            match url_join(GMAIL_API_BASE@, "users/"@ + user_id@ + "/history"@) {
                Some(u) => r matches Ok(c) && c.inputs() == Seq::<Option<Seq<u8>>>::empty() && !c.halted() && is_gmail_request(
                    c.request(),
                    auth@,
                    "GET"@,
                    url_with_query(u, history_list_query(*params)),
                    None,
                    Seq::empty(),
                ),
                None => r matches Err(GmailSendError::ParseUrl(_)),
            },
    {
        let mut path = "users/".to_string();
        path.append(user_id);
        path.append("/history");
        let url = api_url(path.as_str())?;
        let pairs = params.to_query_pairs();
        let url = append_query(url, &pairs);
        Ok(GmailHistoryList { send: GmailSend::get(auth, url) })
    }
}

impl GmailCoroutine for GmailHistoryList {
    type Yield = GmailYield;

    type Return = Result<GmailSendOutput<Vec<u8>>, GmailSendError>;

    /// Whether the exchange has ended, or stopped.
    open spec fn completed(&self) -> bool {
        http11_finished(self.request(), self.inputs()) || self.halted()
    }

    /// Advances the exchange; on success the response is the JSON
    /// history list response.
    fn resume(&mut self, arg: Option<&[u8]>) -> (r: GmailCoroutineState<
        GmailYield,
        Result<GmailSendOutput<Vec<u8>>, GmailSendError>,
    >)
        ensures
            final(self).request() == old(self).request(),
            exchange_step(
                old(self).request(),
                old(self).inputs(),
                input_view(arg),
                final(self).inputs(),
                final(self).halted(),
                r,
            ),
            exchange_outcome(r),
    {
        self.send.resume(arg)
    }
}

} // verus!
