//! Infinite polling watch over a mailbox, built on the history API.
//!
//! The watch baselines its history cursor with `users.getProfile`, then
//! lists `users.history.list` from that cursor every [`POLL_SECONDS`]
//! seconds and emits one raw [`GmailHistoryDiff`] per tick. When Gmail
//! answers that the cursor has expired (404), it baselines again.
//!
//! [`GmailHistoryPoll`] holds the decisions only: [`GmailHistoryPoll::step`]
//! takes what became of the last action (an exchange's decoded result,
//! or the end of a sleep) and returns the next action. Performing the
//! exchanges, decoding their JSON bodies and sleeping is the caller's.
//!
//! Gmail sync guide: <https://developers.google.com/gmail/api/guides/sync>

use crate::v1::http::GmailBearer;
use crate::v1::http::url_join;
use crate::v1::http::url_with_query;
use crate::v1::query::optional_pair;
use crate::v1::query::values_named;
use crate::v1::query::lemma_values_named_add;
use crate::v1::query::lemma_values_named_optional;
use crate::v1::rest::history::list::GmailHistoryList;
use crate::v1::rest::history::list::GmailHistoryListParams;
use crate::v1::rest::history::list::GmailHistoryListResponse;
use crate::v1::rest::history::list::history_list_query;
use crate::v1::rest::history::GmailHistory;
use crate::v1::rest::history::GmailHistoryLabel;
use crate::v1::rest::history::GmailHistoryMessage;
use crate::v1::rest::history::GmailHistoryType;
use crate::v1::rest::messages::get::message_get_query;
use crate::v1::rest::messages::get::GmailMessageGet;
use crate::v1::rest::messages::GmailMessage;
use crate::v1::rest::messages::GmailMessageFormat;
use crate::v1::rest::messages::GmailMessageId;
use crate::v1::rest::users::get_profile::GmailProfile;
use crate::v1::rest::users::get_profile::GmailProfileGet;
use crate::v1::send::is_gmail_request;
use crate::v1::send::GmailRequestSpec;
use crate::v1::send::GmailSendError;
use crate::v1::send::GMAIL_API_BASE;
use core::time::Duration;
use vstd::prelude::*;

verus! {

/// Seconds the watch sleeps between two polls.
pub const POLL_SECONDS: u64 = 30;

/// Errors that can end the watch.
#[derive(Debug)]
pub enum GmailHistoryPollError {
    /// One of the underlying Gmail exchanges failed.
    Send(GmailSendError),
}

impl From<GmailSendError> for GmailHistoryPollError {
    /// A failed Gmail exchange.
    fn from(err: GmailSendError) -> (r: Self) {
        GmailHistoryPollError::Send(err)
    }
}

impl vstd::std_specs::convert::FromSpecImpl<GmailSendError> for GmailHistoryPollError {
    open spec fn obeys_from_spec() -> bool {
        true
    }

    open spec fn from_spec(err: GmailSendError) -> Self {
        GmailHistoryPollError::Send(err)
    }
}

/// One tick's worth of mailbox changes, Gmail-native.
///
/// Consumers map it onto their own change representation; the
/// library does not interpret it further.
#[derive(Debug, Default)]
pub struct GmailHistoryDiff {
    /// The history cursor after this diff, to persist for resuming.
    pub history_id: String,
    /// Messages added to the mailbox since the last tick.
    pub added: Vec<GmailMessage>,
    /// Messages removed from the mailbox since the last tick.
    pub removed: Vec<GmailMessageId>,
    /// Label additions on individual messages.
    pub labels_added: Vec<GmailHistoryLabel>,
    /// Label removals on individual messages.
    pub labels_removed: Vec<GmailHistoryLabel>,
}

/// I/O request or event yielded by a watch driven over a stream.
#[derive(Debug)]
pub enum GmailHistoryPollYield {
    /// The watch wants bytes read from the stream.
    WantsRead,
    /// The watch wants the given bytes written to the stream.
    WantsWrite(Vec<u8>),
    /// Asks the caller to sleep until the next poll.
    WantsSleep(Duration),
    /// One tick's worth of changes; the watch then goes back to sleep.
    Diff(GmailHistoryDiff),
}

/// The changes gathered during one tick, as values.
pub struct GmailHistoryCycle {
    /// Ids of the messages added, still to be fetched.
    pub added_ids: Seq<String>,
    /// Messages added and fetched.
    pub added: Seq<GmailMessage>,
    /// Messages deleted.
    pub removed: Seq<GmailMessageId>,
    /// Label additions.
    pub labels_added: Seq<GmailHistoryLabel>,
    /// Label removals.
    pub labels_removed: Seq<GmailHistoryLabel>,
    /// The history id the last page of the listing reported.
    pub new_history_id: Option<String>,
}

/// The ids of the messages the records add, record by record.
pub open spec fn added_ids_of(records: Seq<GmailHistory>) -> Seq<String>
    decreases records.len(),
{
    if records.len() == 0 {
        Seq::empty()
    } else {
        added_ids_of(records.drop_last()) + records.last().messages_added@.map_values(
            |m: GmailHistoryMessage| m.message.id,
        )
    }
}

/// The id of a deleted message, as a diff reports it.
pub open spec fn deleted_id(m: GmailHistoryMessage) -> GmailMessageId {
    GmailMessageId { id: m.message.id, thread_id: m.message.thread_id }
}

/// The ids of the messages the records delete, record by record.
pub open spec fn removed_of(records: Seq<GmailHistory>) -> Seq<GmailMessageId>
    decreases records.len(),
{
    if records.len() == 0 {
        Seq::empty()
    } else {
        removed_of(records.drop_last()) + records.last().messages_deleted@.map_values(
            |m: GmailHistoryMessage| deleted_id(m),
        )
    }
}

/// The label additions of the records, record by record.
pub open spec fn labels_added_of(records: Seq<GmailHistory>) -> Seq<GmailHistoryLabel>
    decreases records.len(),
{
    if records.len() == 0 {
        Seq::empty()
    } else {
        labels_added_of(records.drop_last()) + records.last().labels_added@
    }
}

/// The label removals of the records, record by record.
pub open spec fn labels_removed_of(records: Seq<GmailHistory>) -> Seq<GmailHistoryLabel>
    decreases records.len(),
{
    if records.len() == 0 {
        Seq::empty()
    } else {
        labels_removed_of(records.drop_last()) + records.last().labels_removed@
    }
}

impl GmailHistoryCycle {
    /// The cycle of a tick that has gathered nothing yet.
    pub open spec fn empty() -> GmailHistoryCycle {
        GmailHistoryCycle {
            added_ids: Seq::empty(),
            added: Seq::empty(),
            removed: Seq::empty(),
            labels_added: Seq::empty(),
            labels_removed: Seq::empty(),
            new_history_id: None,
        }
    }

    /// The cycle after gathering the changes of the records of one page.
    pub open spec fn absorb(self, records: Seq<GmailHistory>) -> GmailHistoryCycle {
        GmailHistoryCycle {
            added_ids: self.added_ids + added_ids_of(records),
            removed: self.removed + removed_of(records),
            labels_added: self.labels_added + labels_added_of(records),
            labels_removed: self.labels_removed + labels_removed_of(records),
            ..self
        }
    }
}

/// What one record contributes is what it holds.
proof fn lemma_single_record(r: GmailHistory)
    ensures
        added_ids_of(seq![r]) == r.messages_added@.map_values(|m: GmailHistoryMessage| m.message.id),
        removed_of(seq![r]) == r.messages_deleted@.map_values(|m: GmailHistoryMessage| deleted_id(m)),
        labels_added_of(seq![r]) == r.labels_added@,
        labels_removed_of(seq![r]) == r.labels_removed@,
{
    let one = seq![r];
    assert(one.drop_last() =~= Seq::<GmailHistory>::empty());
    assert(one.last() == r);
    assert(added_ids_of(one.drop_last()) =~= Seq::<String>::empty());
    assert(removed_of(one.drop_last()) =~= Seq::<GmailMessageId>::empty());
    assert(labels_added_of(one.drop_last()) =~= Seq::<GmailHistoryLabel>::empty());
    assert(labels_removed_of(one.drop_last()) =~= Seq::<GmailHistoryLabel>::empty());
    assert(added_ids_of(one) =~= r.messages_added@.map_values(|m: GmailHistoryMessage| m.message.id));
    assert(removed_of(one) =~= r.messages_deleted@.map_values(|m: GmailHistoryMessage| deleted_id(m)));
    assert(labels_added_of(one) =~= r.labels_added@);
    assert(labels_removed_of(one) =~= r.labels_removed@);
}

/// Gathering one more record after a page is gathering it last.
proof fn lemma_absorb_push(c: GmailHistoryCycle, records: Seq<GmailHistory>, r: GmailHistory)
    ensures
        c.absorb(records.push(r)) == c.absorb(records).absorb(seq![r]),
{
    lemma_single_record(r);
    assert(records.push(r).drop_last() =~= records);
    assert(records.push(r).last() == r);
    assert(c.absorb(records.push(r)).added_ids =~= c.absorb(records).absorb(seq![r]).added_ids);
    assert(c.absorb(records.push(r)).removed =~= c.absorb(records).absorb(seq![r]).removed);
    assert(c.absorb(records.push(r)).labels_added =~= c.absorb(records).absorb(seq![r]).labels_added);
    assert(c.absorb(records.push(r)).labels_removed =~= c.absorb(records).absorb(seq![r]).labels_removed);
}

/// Gathering a record appends, field by field, what the record holds:
/// the ids of the messages it adds, the ids of those it deletes, its label
/// additions and its label removals, each after what was gathered before;
/// the fetched messages and the history id are left as they were.
pub proof fn lemma_absorb_record(c: GmailHistoryCycle, r: GmailHistory)
    ensures
        c.absorb(seq![r]).added_ids == c.added_ids + r.messages_added@.map_values(
            |m: GmailHistoryMessage| m.message.id,
        ),
        c.absorb(seq![r]).removed == c.removed + r.messages_deleted@.map_values(
            |m: GmailHistoryMessage| GmailMessageId { id: m.message.id, thread_id: m.message.thread_id },
        ),
        c.absorb(seq![r]).labels_added == c.labels_added + r.labels_added@,
        c.absorb(seq![r]).labels_removed == c.labels_removed + r.labels_removed@,
        c.absorb(seq![r]).added == c.added,
        c.absorb(seq![r]).new_history_id == c.new_history_id,
{
    lemma_single_record(r);
    assert(r.messages_deleted@.map_values(|m: GmailHistoryMessage| deleted_id(m)) =~= r.messages_deleted@.map_values(
        |m: GmailHistoryMessage| GmailMessageId { id: m.message.id, thread_id: m.message.thread_id },
    ));
}

/// Gathering no record changes nothing.
pub proof fn lemma_absorb_nothing(c: GmailHistoryCycle)
    ensures
        c.absorb(Seq::empty()) == c,
{
    assert(c.absorb(Seq::empty()) =~= c);
}

/// The changes of records listed one after the other are those of the
/// first, then those of the second.
proof fn lemma_changes_add(a: Seq<GmailHistory>, b: Seq<GmailHistory>)
    ensures
        labels_removed_of(a + b) == labels_removed_of(a) + labels_removed_of(b),
        labels_added_of(a + b) == labels_added_of(a) + labels_added_of(b),
        removed_of(a + b) == removed_of(a) + removed_of(b),
        added_ids_of(a + b) == added_ids_of(a) + added_ids_of(b),
{
    let e = GmailHistoryCycle::empty();
    lemma_absorb_pages(e, a, b);
    assert(e.absorb(a + b).added_ids =~= added_ids_of(a + b));
    assert(e.absorb(a).absorb(b).added_ids =~= added_ids_of(a) + added_ids_of(b));
    assert(e.absorb(a + b).labels_removed =~= labels_removed_of(a + b));
    assert(e.absorb(a).absorb(b).labels_removed =~= labels_removed_of(a) + labels_removed_of(b));
    assert(e.absorb(a + b).labels_added =~= labels_added_of(a + b));
    assert(e.absorb(a).absorb(b).labels_added =~= labels_added_of(a) + labels_added_of(b));
    assert(e.absorb(a + b).removed =~= removed_of(a + b));
    assert(e.absorb(a).absorb(b).removed =~= removed_of(a) + removed_of(b));
}

/// The changes gathered during one tick.
struct Cycle {
    added_ids: Vec<String>,
    added: Vec<GmailMessage>,
    removed: Vec<GmailMessageId>,
    labels_added: Vec<GmailHistoryLabel>,
    labels_removed: Vec<GmailHistoryLabel>,
    new_history_id: Option<String>,
}

impl View for Cycle {
    type V = GmailHistoryCycle;

    closed spec fn view(&self) -> GmailHistoryCycle {
        GmailHistoryCycle {
            added_ids: self.added_ids@,
            added: self.added@,
            removed: self.removed@,
            labels_added: self.labels_added@,
            labels_removed: self.labels_removed@,
            new_history_id: self.new_history_id,
        }
    }
}

impl Cycle {
    fn new() -> (r: Cycle)
        ensures
            r@ == GmailHistoryCycle::empty(),
    {
        Cycle {
            added_ids: Vec::new(),
            added: Vec::new(),
            removed: Vec::new(),
            labels_added: Vec::new(),
            labels_removed: Vec::new(),
            new_history_id: None,
        }
    }

    /// Gathers the changes of one record.
    fn absorb_record(&mut self, record: GmailHistory)
        ensures
            final(self)@ == old(self)@.absorb(seq![record]),
    {
        let GmailHistory { messages_added, messages_deleted, labels_added, labels_removed, .. } =
            record;
        let ghost start = self@;
        let ghost added = messages_added@;
        for m in it: messages_added.into_iter()
            invariant
                it.seq() == added,
                self@ == (GmailHistoryCycle {
                    added_ids: start.added_ids + added.subrange(0, it.index() as int).map_values(
                        |m: GmailHistoryMessage| m.message.id,
                    ),
                    ..start
                }),
        {
            let ghost i = it.index();
            self.added_ids.push(m.message.id);
            assert(added.subrange(0, i + 1).map_values(|m: GmailHistoryMessage| m.message.id)
                =~= added.subrange(0, i as int).map_values(|m: GmailHistoryMessage| m.message.id).push(
                m.message.id,
            ));
        }
        assert(added.subrange(0, added.len() as int) =~= added);
        let ghost start = self@;
        let ghost deleted = messages_deleted@;
        for m in it: messages_deleted.into_iter()
            invariant
                it.seq() == deleted,
                self@ == (GmailHistoryCycle {
                    removed: start.removed + deleted.subrange(0, it.index() as int).map_values(
                        |m: GmailHistoryMessage| deleted_id(m),
                    ),
                    ..start
                }),
        {
            let ghost i = it.index();
            let ghost d = deleted_id(m);
            self.removed.push(GmailMessageId { id: m.message.id, thread_id: m.message.thread_id });
            assert(deleted.subrange(0, i + 1).map_values(|m: GmailHistoryMessage| deleted_id(m))
                =~= deleted.subrange(0, i as int).map_values(|m: GmailHistoryMessage| deleted_id(m)).push(d));
        }
        assert(deleted.subrange(0, deleted.len() as int) =~= deleted);
        let ghost start = self@;
        let ghost gained = labels_added@;
        for l in it: labels_added.into_iter()
            invariant
                it.seq() == gained,
                self@ == (GmailHistoryCycle {
                    labels_added: start.labels_added + gained.subrange(0, it.index() as int),
                    ..start
                }),
        {
            let ghost i = it.index();
            self.labels_added.push(l);
            assert(gained.subrange(0, i + 1) =~= gained.subrange(0, i as int).push(l));
        }
        assert(gained.subrange(0, gained.len() as int) =~= gained);
        let ghost start = self@;
        let ghost lost = labels_removed@;
        for l in it: labels_removed.into_iter()
            invariant
                it.seq() == lost,
                self@ == (GmailHistoryCycle {
                    labels_removed: start.labels_removed + lost.subrange(0, it.index() as int),
                    ..start
                }),
        {
            let ghost i = it.index();
            self.labels_removed.push(l);
            assert(lost.subrange(0, i + 1) =~= lost.subrange(0, i as int).push(l));
        }
        assert(lost.subrange(0, lost.len() as int) =~= lost);
        proof {
            lemma_single_record(record);
        }
    }

    /// Gathers the changes of the records of one page, in order.
    fn absorb(&mut self, records: Vec<GmailHistory>)
        ensures
            final(self)@ == old(self)@.absorb(records@),
    {
        let ghost start = self@;
        let ghost all = records@;
        for record in it: records.into_iter()
            invariant
                it.seq() == all,
                self@ == start.absorb(all.subrange(0, it.index() as int)),
        {
            let ghost i = it.index();
            let ghost before = self@;
            self.absorb_record(record);
            proof {
                assert(all.subrange(0, i + 1) =~= all.subrange(0, i as int).push(record));
                lemma_absorb_push(start, all.subrange(0, i as int), record);
            }
        }
        assert(all.subrange(0, all.len() as int) =~= all);
    }
}

/// Where the watch stands.
pub enum GmailHistoryPollPhase {
    /// Built; the first step hands out the profile request.
    Starting,
    /// Waiting for the profile that sets the history cursor.
    Baseline,
    /// A diff was handed out; the next step goes back to sleep.
    Sleeping,
    /// Asleep; the next step hands out the first list request.
    Waking,
    /// Waiting for a page of history records.
    Listing,
    /// Waiting for an added message.
    Fetching,
    /// Failed; the watch is over.
    Done,
}

/// What became of the last action of the watch.
#[derive(Debug)]
pub enum GmailHistoryPollEvent {
    /// Nothing to report: the watch was just built, a sleep ended, or a
    /// diff was taken.
    Resumed,
    /// The profile exchange ended, with the decoded profile or its error.
    ProfileFetched(Result<GmailProfile, GmailSendError>),
    /// A history list exchange ended, with the decoded page or its error.
    HistoryListed(Result<GmailHistoryListResponse, GmailSendError>),
    /// A message get exchange ended, with the decoded message or its error.
    MessageFetched(Result<GmailMessage, GmailSendError>),
}

/// What the watch asks of its caller next.
pub enum GmailHistoryPollAction {
    /// Run this profile exchange and report it as
    /// [`GmailHistoryPollEvent::ProfileFetched`].
    GetProfile(GmailProfileGet),
    /// Sleep this many seconds, then report
    /// [`GmailHistoryPollEvent::Resumed`].
    Sleep(u64),
    /// Run this history list exchange and report it as
    /// [`GmailHistoryPollEvent::HistoryListed`].
    ListHistory(GmailHistoryList),
    /// Run this message get exchange and report it as
    /// [`GmailHistoryPollEvent::MessageFetched`].
    GetMessage(GmailMessageGet),
    /// Hand this diff on, then report [`GmailHistoryPollEvent::Resumed`].
    Diff(GmailHistoryDiff),
    /// The watch failed and is over.
    Fail(GmailHistoryPollError),
}

impl GmailHistoryPollPhase {
    /// Whether the watch, in this phase, can take the event.
    pub open spec fn accepts(self, event: GmailHistoryPollEvent) -> bool {
        match event {
            GmailHistoryPollEvent::Resumed => self is Starting || self is Sleeping || self is Waking,
            GmailHistoryPollEvent::ProfileFetched(_) => self is Baseline,
            GmailHistoryPollEvent::HistoryListed(_) => self is Listing,
            GmailHistoryPollEvent::MessageFetched(_) => self is Fetching,
        }
    }
}

/// The watch as values.
pub struct GmailHistoryPollView {
    /// Where the watch stands.
    pub phase: GmailHistoryPollPhase,
    /// The user whose mailbox is watched.
    pub user_id: Seq<char>,
    /// The label the history is restricted to.
    pub mailbox: Seq<char>,
    /// The bearer token every request of the watch carries.
    pub token: Seq<char>,
    /// The history cursor, once a profile or a diff has set it.
    pub cursor: Option<Seq<char>>,
    /// What the current tick has gathered (listing and fetching).
    pub cycle: GmailHistoryCycle,
    /// The ids of the added messages to fetch (fetching).
    pub fetch_ids: Seq<String>,
    /// The position of the message being fetched (fetching).
    pub fetch_index: int,
    /// The request the next step hands out (starting and waking).
    pub pending: GmailRequestSpec,
    /// The inputs the exchange it hands out has been resumed with.
    pub pending_inputs: Seq<Option<Seq<u8>>>,
    /// Whether the exchange it hands out has stopped.
    pub pending_halted: bool,
}

/// The view of an optional string.
pub open spec fn string_opt_view(s: Option<String>) -> Option<Seq<char>> {
    match s {
        Some(s) => Some(s@),
        None => None,
    }
}

/// The path of `users.getProfile`.
pub open spec fn profile_path(user_id: Seq<char>) -> Seq<char> {
    "users/"@ + user_id + "/profile"@
}

/// The path of `users.history.list`.
pub open spec fn history_path(user_id: Seq<char>) -> Seq<char> {
    "users/"@ + user_id + "/history"@
}

/// The path of `users.messages.get`.
pub open spec fn message_path(user_id: Seq<char>, id: Seq<char>) -> Seq<char> {
    "users/"@ + user_id + "/messages/"@ + id
}

/// The query of every list request of the watch: the cursor (empty
/// while there is none), the watched label, and the page token of a
/// following page.
pub open spec fn poll_list_query(
    cursor: Option<Seq<char>>,
    mailbox: Seq<char>,
    page_token: Option<Seq<char>>,
) -> Seq<(Seq<char>, Seq<char>)> {
    seq![
        ("startHistoryId"@, match cursor {
            Some(c) => c,
            None => Seq::empty(),
        }),
        ("labelId"@, mailbox),
    ] + optional_pair("pageToken"@, page_token)
}

/// Every list request of the watch sends the cursor once under
/// `startHistoryId` (empty while there is none), the watched label once
/// under `labelId`, and the page token once under `pageToken` exactly
/// when a following page is asked for.
pub proof fn lemma_poll_list_query_names(
    cursor: Option<Seq<char>>,
    mailbox: Seq<char>,
    page_token: Option<Seq<char>>,
)
    ensures
        values_named(poll_list_query(cursor, mailbox, page_token), "startHistoryId"@) == seq![
            match cursor {
                Some(c) => c,
                None => Seq::<char>::empty(),
            },
        ],
        values_named(poll_list_query(cursor, mailbox, page_token), "labelId"@) == seq![mailbox],
        values_named(poll_list_query(cursor, mailbox, page_token), "pageToken"@) == match page_token {
            Some(t) => seq![t],
            None => Seq::<Seq<char>>::empty(),
        },
{
    reveal_strlit("startHistoryId");
    reveal_strlit("labelId");
    reveal_strlit("pageToken");
    assert("startHistoryId"@.len() == 14 && "labelId"@.len() == 7 && "pageToken"@.len() == 9);
    let c = match cursor {
        Some(c) => c,
        None => Seq::<char>::empty(),
    };
    let a = optional_pair("startHistoryId"@, Some(c));
    let b = optional_pair("labelId"@, Some(mailbox));
    let t = optional_pair("pageToken"@, page_token);
    assert(poll_list_query(cursor, mailbox, page_token) =~= a + b + t);
    let none = Seq::<Seq<char>>::empty();
    assert(values_named(a + b + t, "startHistoryId"@) =~= seq![c]) by {
        lemma_values_named_add(a, b, "startHistoryId"@);
        lemma_values_named_add(a + b, t, "startHistoryId"@);
        lemma_values_named_optional("startHistoryId"@, Some(c), "startHistoryId"@);
        lemma_values_named_optional("labelId"@, Some(mailbox), "startHistoryId"@);
        lemma_values_named_optional("pageToken"@, page_token, "startHistoryId"@);
    }
    assert(values_named(a + b + t, "labelId"@) =~= seq![mailbox]) by {
        lemma_values_named_add(a, b, "labelId"@);
        lemma_values_named_add(a + b, t, "labelId"@);
        lemma_values_named_optional("startHistoryId"@, Some(c), "labelId"@);
        lemma_values_named_optional("labelId"@, Some(mailbox), "labelId"@);
        lemma_values_named_optional("pageToken"@, page_token, "labelId"@);
    }
    assert(values_named(a + b + t, "pageToken"@) =~= match page_token {
        Some(p) => seq![p],
        None => none,
    }) by {
        lemma_values_named_add(a, b, "pageToken"@);
        lemma_values_named_add(a + b, t, "pageToken"@);
        lemma_values_named_optional("startHistoryId"@, Some(c), "pageToken"@);
        lemma_values_named_optional("labelId"@, Some(mailbox), "pageToken"@);
        lemma_values_named_optional("pageToken"@, page_token, "pageToken"@);
    }
}

/// The history id a diff reports: the one the last page gave, else the
/// cursor, else empty.
pub open spec fn diff_cursor(new_history_id: Option<String>, cursor: Option<Seq<char>>) -> Seq<char> {
    match new_history_id {
        Some(h) => h@,
        None => match cursor {
            Some(c) => c,
            None => Seq::empty(),
        },
    }
}

/// Whether `a` ends the watch with the error `e`.
pub open spec fn fails_with(t: GmailHistoryPollView, a: GmailHistoryPollAction, e: GmailSendError) -> bool {
    &&& a matches GmailHistoryPollAction::Fail(GmailHistoryPollError::Send(x)) && x == e
    &&& t.phase is Done
}

/// Whether `a` ends the watch because a request URL cannot be built.
pub open spec fn fails_on_url(t: GmailHistoryPollView, a: GmailHistoryPollAction) -> bool {
    &&& a matches GmailHistoryPollAction::Fail(GmailHistoryPollError::Send(GmailSendError::ParseUrl(_)))
    &&& t.phase is Done
}

/// Whether `a` asks for the profile of the user and the watch then waits
/// for it.
pub open spec fn asks_profile(t: GmailHistoryPollView, a: GmailHistoryPollAction, user_id: Seq<char>, token: Seq<char>) -> bool {
    match url_join(GMAIL_API_BASE@, profile_path(user_id)) {
        Some(u) => {
            &&& a matches GmailHistoryPollAction::GetProfile(p) && p.inputs() == Seq::<Option<Seq<u8>>>::empty()
                && !p.halted() && is_gmail_request(
                p.request(),
                token,
                "GET"@,
                u,
                None,
                Seq::empty(),
            )
            &&& t.phase is Baseline
        },
        None => fails_on_url(t, a),
    }
}

/// Whether `a` is the sleep between two polls, the watch holding the list
/// request with the given query for when it wakes.
pub open spec fn sleeps_then_lists(
    t: GmailHistoryPollView,
    a: GmailHistoryPollAction,
    user_id: Seq<char>,
    token: Seq<char>,
    query: Seq<(Seq<char>, Seq<char>)>,
) -> bool {
    match url_join(GMAIL_API_BASE@, history_path(user_id)) {
        Some(u) => {
            &&& a matches GmailHistoryPollAction::Sleep(secs) && secs == POLL_SECONDS
            &&& t.phase is Waking
            &&& is_gmail_request(t.pending, token, "GET"@, url_with_query(u, query), None, Seq::empty())
            &&& t.pending_inputs == Seq::<Option<Seq<u8>>>::empty()
            &&& !t.pending_halted
        },
        None => fails_on_url(t, a),
    }
}

/// Whether `a` asks for the page of history with the given query and the
/// watch then waits for it.
pub open spec fn lists_history(
    t: GmailHistoryPollView,
    a: GmailHistoryPollAction,
    user_id: Seq<char>,
    token: Seq<char>,
    query: Seq<(Seq<char>, Seq<char>)>,
) -> bool {
    match url_join(GMAIL_API_BASE@, history_path(user_id)) {
        Some(u) => {
            &&& a matches GmailHistoryPollAction::ListHistory(l) && l.inputs() == Seq::<Option<Seq<u8>>>::empty()
                && !l.halted() && is_gmail_request(
                l.request(),
                token,
                "GET"@,
                url_with_query(u, query),
                None,
                Seq::empty(),
            )
            &&& t.phase is Listing
        },
        None => fails_on_url(t, a),
    }
}

/// Whether `a` asks for the metadata of the message and the watch then
/// waits for it.
pub open spec fn fetches_message(
    t: GmailHistoryPollView,
    a: GmailHistoryPollAction,
    user_id: Seq<char>,
    token: Seq<char>,
    id: Seq<char>,
) -> bool {
    match url_join(GMAIL_API_BASE@, message_path(user_id, id)) {
        Some(u) => {
            &&& a matches GmailHistoryPollAction::GetMessage(g) && g.inputs() == Seq::<Option<Seq<u8>>>::empty()
                && !g.halted() && is_gmail_request(
                g.request(),
                token,
                "GET"@,
                url_with_query(u, message_get_query(GmailMessageFormat::Metadata, Seq::empty())),
                None,
                Seq::empty(),
            )
            &&& t.phase is Fetching
        },
        None => fails_on_url(t, a),
    }
}

/// Whether `a` hands out the diff of the cycle, the watch keeping the
/// diff's history id as its cursor and going back to sleep.
pub open spec fn emits_diff(
    t: GmailHistoryPollView,
    a: GmailHistoryPollAction,
    c: GmailHistoryCycle,
    cursor: Option<Seq<char>>,
) -> bool {
    &&& a matches GmailHistoryPollAction::Diff(d) && {
        &&& d.history_id@ == diff_cursor(c.new_history_id, cursor)
        &&& d.added@ == c.added
        &&& d.removed@ == c.removed
        &&& d.labels_added@ == c.labels_added
        &&& d.labels_removed@ == c.labels_removed
    }
    &&& t.phase is Sleeping
    &&& t.cursor == Some(diff_cursor(c.new_history_id, cursor))
}

/// The step that takes a page of history records: the records are
/// gathered into the cycle; then the next page is asked for, or the added
/// messages are fetched one by one, or the diff is handed out.
pub open spec fn takes_page(
    user_id: Seq<char>,
    token: Seq<char>,
    mailbox: Seq<char>,
    cursor: Option<Seq<char>>,
    cycle: GmailHistoryCycle,
    page: GmailHistoryListResponse,
    t: GmailHistoryPollView,
    a: GmailHistoryPollAction,
) -> bool {
    let c = cycle.absorb(page.history@);
    match page.next_page_token {
        Some(next) => {
            &&& t.cursor == cursor
            &&& lists_history(t, a, user_id, token, poll_list_query(cursor, mailbox, Some(next@)))
            &&& t.phase is Listing ==> t.cycle == c
        },
        None => {
            let c = GmailHistoryCycle { new_history_id: page.history_id, ..c };
            if c.added_ids.len() == 0 {
                emits_diff(t, a, c, cursor)
            } else {
                &&& t.cursor == cursor
                &&& fetches_message(t, a, user_id, token, c.added_ids[0]@)
                &&& t.phase is Fetching ==> {
                    &&& t.cycle == GmailHistoryCycle { added_ids: Seq::empty(), ..c }
                    &&& t.fetch_ids == c.added_ids
                    &&& t.fetch_index == 0
                }
            }
        },
    }
}

/// The step that takes the result of fetching the added message at
/// `index`: the message is kept (a failed fetch is skipped), then the
/// next one is fetched or the diff is handed out.
pub open spec fn takes_message(
    user_id: Seq<char>,
    token: Seq<char>,
    cursor: Option<Seq<char>>,
    cycle: GmailHistoryCycle,
    ids: Seq<String>,
    index: int,
    result: Result<GmailMessage, GmailSendError>,
    t: GmailHistoryPollView,
    a: GmailHistoryPollAction,
) -> bool {
    let c = match result {
        Ok(m) => GmailHistoryCycle { added: cycle.added.push(m), ..cycle },
        Err(_) => cycle,
    };
    if index + 1 < ids.len() {
        &&& t.cursor == cursor
        &&& fetches_message(t, a, user_id, token, ids[index + 1]@)
        &&& t.phase is Fetching ==> {
            &&& t.cycle == c
            &&& t.fetch_ids == ids
            &&& t.fetch_index == index + 1
        }
    } else {
        emits_diff(t, a, c, cursor)
    }
}

/// One step of the watch: from `s`, taking `e`, it comes to `t` and asks
/// for `a`.
pub open spec fn poll_step(
    s: GmailHistoryPollView,
    e: GmailHistoryPollEvent,
    t: GmailHistoryPollView,
    a: GmailHistoryPollAction,
) -> bool {
    &&& t.user_id == s.user_id
    &&& t.mailbox == s.mailbox
    &&& t.token == s.token
    &&& match e {
        GmailHistoryPollEvent::Resumed => match s.phase {
            GmailHistoryPollPhase::Starting => {
                &&& a matches GmailHistoryPollAction::GetProfile(p) && p.request() == s.pending
                    && p.inputs() == s.pending_inputs && p.halted() == s.pending_halted
                &&& t.phase is Baseline
                &&& t.cursor == s.cursor
            },
            GmailHistoryPollPhase::Waking => {
                &&& a matches GmailHistoryPollAction::ListHistory(l) && l.request() == s.pending
                    && l.inputs() == s.pending_inputs && l.halted() == s.pending_halted
                &&& t.phase is Listing
                &&& t.cycle == GmailHistoryCycle::empty()
                &&& t.cursor == s.cursor
            },
            _ => {
                &&& t.cursor == s.cursor
                &&& sleeps_then_lists(t, a, s.user_id, s.token, poll_list_query(s.cursor, s.mailbox, None))
            },
        },
        GmailHistoryPollEvent::ProfileFetched(Ok(profile)) => {
            &&& t.cursor == string_opt_view(profile.history_id)
            &&& sleeps_then_lists(t, a, s.user_id, s.token, poll_list_query(t.cursor, s.mailbox, None))
        },
        GmailHistoryPollEvent::ProfileFetched(Err(err)) => fails_with(t, a, err),
        GmailHistoryPollEvent::HistoryListed(Err(err)) => if err.spec_status() == Some(404u16) {
            match url_join(GMAIL_API_BASE@, profile_path(s.user_id)) {
                Some(_) => t.cursor == None::<Seq<char>> && asks_profile(t, a, s.user_id, s.token),
                None => fails_on_url(t, a),
            }
        } else {
            fails_with(t, a, err)
        },
        GmailHistoryPollEvent::HistoryListed(Ok(page)) => takes_page(
            s.user_id,
            s.token,
            s.mailbox,
            s.cursor,
            s.cycle,
            page,
            t,
            a,
        ),
        GmailHistoryPollEvent::MessageFetched(result) => takes_message(
            s.user_id,
            s.token,
            s.cursor,
            s.cycle,
            s.fetch_ids,
            s.fetch_index,
            result,
            t,
            a,
        ),
    }
}

/// The watch never completes successfully: every step asks for an
/// action, and a step ends the watch exactly when it fails.
pub proof fn lemma_poll_ends_only_on_failure(
    s: GmailHistoryPollView,
    e: GmailHistoryPollEvent,
    t: GmailHistoryPollView,
    a: GmailHistoryPollAction,
)
    requires
        s.phase.accepts(e),
        poll_step(s, e, t, a),
    ensures
        a is Fail <==> t.phase is Done,
{
}

/// After a diff the watch sleeps, and the list request it wakes with
/// starts from the diff's history id.
pub proof fn lemma_poll_resumes_from_diff(
    s0: GmailHistoryPollView,
    e0: GmailHistoryPollEvent,
    s1: GmailHistoryPollView,
    d: GmailHistoryDiff,
    s2: GmailHistoryPollView,
    a2: GmailHistoryPollAction,
)
    requires
        s0.phase.accepts(e0),
        poll_step(s0, e0, s1, GmailHistoryPollAction::Diff(d)),
        poll_step(s1, GmailHistoryPollEvent::Resumed, s2, a2),
    ensures
        s1.phase is Sleeping,
        s1.cursor == Some(d.history_id@),
        match url_join(GMAIL_API_BASE@, history_path(s0.user_id)) {
            Some(u) => {
                &&& a2 matches GmailHistoryPollAction::Sleep(secs) && secs == POLL_SECONDS
                &&& is_gmail_request(
                    s2.pending,
                    s0.token,
                    "GET"@,
                    url_with_query(u, poll_list_query(Some(d.history_id@), s0.mailbox, None)),
                    None,
                    Seq::empty(),
                )
            },
            None => fails_on_url(s2, a2),
        },
{
}

/// A diff only ends a listing or a fetching: from its start, a baseline
/// or a sleep the watch never hands one out, so two diffs are always
/// separated by a sleep, and a re-baseline is followed by a sleep before
/// the next diff.
pub proof fn lemma_poll_diff_only_after_listing(
    s: GmailHistoryPollView,
    e: GmailHistoryPollEvent,
    t: GmailHistoryPollView,
    a: GmailHistoryPollAction,
)
    requires
        s.phase.accepts(e),
        poll_step(s, e, t, a),
        !(s.phase is Listing),
        !(s.phase is Fetching),
    ensures
        !(a is Diff),
        s.phase is Baseline || s.phase is Sleeping ==> (a is Sleep || a is Fail),
{
}

/// Whether the views, events and actions are a run of the watch: each
/// step taken from a view by an event it accepts, to the next view.
pub open spec fn poll_run(
    views: Seq<GmailHistoryPollView>,
    events: Seq<GmailHistoryPollEvent>,
    actions: Seq<GmailHistoryPollAction>,
) -> bool {
    &&& views.len() == events.len() + 1
    &&& actions.len() == events.len()
    &&& forall|i: int|
        #![trigger events[i]]
        0 <= i < events.len() ==> views[i].phase.accepts(events[i]) && poll_step(
            views[i],
            events[i],
            views[i + 1],
            actions[i],
        )
}

/// The history id that the last page of history among the events
/// reported, if any page was listed.
pub open spec fn last_page_id(events: Seq<GmailHistoryPollEvent>) -> Option<String>
    decreases events.len(),
{
    if events.len() == 0 {
        None
    } else {
        match events.last() {
            GmailHistoryPollEvent::HistoryListed(Ok(page)) => page.history_id,
            _ => last_page_id(events.drop_last()),
        }
    }
}

/// Every sleep lasts [`POLL_SECONDS`], comes right after a fetched
/// profile or a diff, and holds the list request (not yet resumed) that
/// the watch wakes with.
pub proof fn lemma_poll_sleeps(
    s: GmailHistoryPollView,
    e: GmailHistoryPollEvent,
    t: GmailHistoryPollView,
    a: GmailHistoryPollAction,
)
    requires
        s.phase.accepts(e),
        poll_step(s, e, t, a),
        a is Sleep,
    ensures
        a matches GmailHistoryPollAction::Sleep(secs) && secs == POLL_SECONDS,
        s.phase is Baseline || s.phase is Sleeping,
        t.phase is Waking,
        t.pending_inputs == Seq::<Option<Seq<u8>>>::empty(),
        !t.pending_halted,
{
}

/// Between two sleeps of a run, with no sleep between them, a diff can
/// only come right before the second sleep, so there is at most one; and
/// there is none when the watch baselined again in between.
pub proof fn lemma_poll_one_diff_between_sleeps(
    views: Seq<GmailHistoryPollView>,
    events: Seq<GmailHistoryPollEvent>,
    actions: Seq<GmailHistoryPollAction>,
    i: int,
    j: int,
)
    requires
        poll_run(views, events, actions),
        0 <= i < j < actions.len(),
        actions[i] is Sleep,
        actions[j] is Sleep,
        forall|k: int| i < k < j ==> !(#[trigger] actions[k] is Sleep),
    ensures
        forall|k: int| i < k < j && #[trigger] actions[k] is Diff ==> k == j - 1,
        (exists|g: int| i < g < j && #[trigger] actions[g] is GetProfile) ==> forall|k: int|
            i < k < j ==> !(#[trigger] actions[k] is Diff),
{
    assert forall|k: int| i < k < j && #[trigger] actions[k] is Diff implies k == j - 1 by {
        let _ = events[k];
        let _ = events[k + 1];
        if k + 1 < j {
            let _ = events[k + 2];
        }
    }
    if exists|g: int| i < g < j && #[trigger] actions[g] is GetProfile {
        let g = choose|g: int| i < g < j && #[trigger] actions[g] is GetProfile;
        let _ = events[g];
        let _ = events[g + 1];
        if g + 1 < j {
            let _ = events[g + 2];
        }
        assert(g == j - 1);
        assert forall|k: int| i < k < j implies !(#[trigger] actions[k] is Diff) by {
            if actions[k] is Diff {
                let _ = events[k];
                let _ = events[k + 1];
                if k + 1 < j {
                    let _ = events[k + 2];
                }
            }
        }
    }
}

/// The history records of the pages listed among the events, page after
/// page and record after record.
pub open spec fn listed_records(events: Seq<GmailHistoryPollEvent>) -> Seq<GmailHistory>
    decreases events.len(),
{
    if events.len() == 0 {
        Seq::empty()
    } else {
        listed_records(events.drop_last()) + match events.last() {
            GmailHistoryPollEvent::HistoryListed(Ok(page)) => page.history@,
            _ => Seq::empty(),
        }
    }
}

/// The messages that the fetches among the events brought back, in
/// order; a failed fetch brings none.
pub open spec fn fetched_messages(events: Seq<GmailHistoryPollEvent>) -> Seq<GmailMessage>
    decreases events.len(),
{
    if events.len() == 0 {
        Seq::empty()
    } else {
        fetched_messages(events.drop_last()) + match events.last() {
            GmailHistoryPollEvent::MessageFetched(Ok(m)) => seq![m],
            _ => Seq::empty(),
        }
    }
}

/// How many fetches the events report, failed or not.
pub open spec fn fetch_count(events: Seq<GmailHistoryPollEvent>) -> nat
    decreases events.len(),
{
    if events.len() == 0 {
        0
    } else {
        fetch_count(events.drop_last()) + if events.last() is MessageFetched {
            1nat
        } else {
            0nat
        }
    }
}

/// What holds along a tick before its diff: the cursor is the one the
/// tick started from; while listing or fetching, the deletions and label
/// changes gathered are those of the records listed so far and the
/// messages gathered are those fetched so far; while listing, the ids to
/// fetch are those the records listed so far add, and nothing has been
/// fetched; while fetching, the ids being fetched are those of all the
/// records listed, the position is the number of fetches so far, and the
/// history id the diff will carry is the one the last page listed so far
/// reported.
pub open spec fn tick_holds(v: GmailHistoryPollView, events: Seq<GmailHistoryPollEvent>, cursor: Option<Seq<char>>) -> bool {
    &&& v.cursor == cursor
    &&& v.phase is Waking || v.phase is Listing || v.phase is Fetching
    &&& v.phase is Waking ==> {
        &&& listed_records(events).len() == 0
        &&& fetched_messages(events).len() == 0
        &&& fetch_count(events) == 0
    }
    &&& v.phase is Listing || v.phase is Fetching ==> {
        &&& v.cycle.removed == removed_of(listed_records(events))
        &&& v.cycle.labels_added == labels_added_of(listed_records(events))
        &&& v.cycle.labels_removed == labels_removed_of(listed_records(events))
        &&& v.cycle.added == fetched_messages(events)
    }
    &&& v.phase is Listing ==> {
        &&& v.cycle.added_ids == added_ids_of(listed_records(events))
        &&& fetch_count(events) == 0
    }
    &&& v.phase is Fetching ==> {
        &&& v.fetch_ids == added_ids_of(listed_records(events))
        &&& v.fetch_index == fetch_count(events)
        &&& v.fetch_index < v.fetch_ids.len()
        &&& v.cycle.new_history_id == last_page_id(events)
    }
}

/// The records listed up to an event are those listed before it, then
/// those of the page it brings, if it brings one.
proof fn lemma_listed_records_step(events: Seq<GmailHistoryPollEvent>, m: int)
    requires
        0 < m <= events.len(),
    ensures
        listed_records(events.subrange(0, m)) == listed_records(events.subrange(0, m - 1)) + match events[m - 1] {
            GmailHistoryPollEvent::HistoryListed(Ok(page)) => page.history@,
            _ => Seq::<GmailHistory>::empty(),
        },
        events[m - 1] matches GmailHistoryPollEvent::HistoryListed(Ok(page)) ==> {
            &&& labels_removed_of(listed_records(events.subrange(0, m))) == labels_removed_of(
                listed_records(events.subrange(0, m - 1)),
            ) + labels_removed_of(page.history@)
            &&& labels_added_of(listed_records(events.subrange(0, m))) == labels_added_of(
                listed_records(events.subrange(0, m - 1)),
            ) + labels_added_of(page.history@)
            &&& removed_of(listed_records(events.subrange(0, m))) == removed_of(
                listed_records(events.subrange(0, m - 1)),
            ) + removed_of(page.history@)
            &&& added_ids_of(listed_records(events.subrange(0, m))) == added_ids_of(
                listed_records(events.subrange(0, m - 1)),
            ) + added_ids_of(page.history@)
        },
        fetched_messages(events.subrange(0, m)) == fetched_messages(events.subrange(0, m - 1)) + match events[m - 1] {
            GmailHistoryPollEvent::MessageFetched(Ok(msg)) => seq![msg],
            _ => Seq::<GmailMessage>::empty(),
        },
        fetch_count(events.subrange(0, m)) == fetch_count(events.subrange(0, m - 1)) + if events[m - 1] is MessageFetched {
            1nat
        } else {
            0nat
        },
        !(events[m - 1] is HistoryListed) ==> listed_records(events.subrange(0, m)) == listed_records(
            events.subrange(0, m - 1),
        ),
        !(events[m - 1] is MessageFetched) ==> fetched_messages(events.subrange(0, m)) == fetched_messages(
            events.subrange(0, m - 1),
        ),
{
    assert(events.subrange(0, m).drop_last() =~= events.subrange(0, m - 1));
    assert(events.subrange(0, m).last() == events[m - 1]);
    if let GmailHistoryPollEvent::HistoryListed(Ok(page)) = events[m - 1] {
        lemma_changes_add(listed_records(events.subrange(0, m - 1)), page.history@);
    } else {
        assert(listed_records(events.subrange(0, m)) =~= listed_records(events.subrange(0, m - 1)));
    }
    if !(events[m - 1] matches GmailHistoryPollEvent::MessageFetched(Ok(_))) {
        assert(fetched_messages(events.subrange(0, m)) =~= fetched_messages(events.subrange(0, m - 1)));
    }
}

proof fn lemma_tick_prefix(
    views: Seq<GmailHistoryPollView>,
    events: Seq<GmailHistoryPollEvent>,
    actions: Seq<GmailHistoryPollAction>,
    m: int,
)
    requires
        poll_run(views, events, actions),
        0 <= m < events.len(),
        views[0].phase is Waking,
        forall|k: int|
            0 <= k < m ==> !(#[trigger] actions[k] is Diff) && !(actions[k] is Fail)
                && !(actions[k] is GetProfile),
    ensures
        tick_holds(views[m], events.subrange(0, m), views[0].cursor),
    decreases m,
{
    if m == 0 {
        assert(events.subrange(0, 0) =~= Seq::<GmailHistoryPollEvent>::empty());
    } else {
        lemma_tick_prefix(views, events, actions, m - 1);
        let _ = events[m - 1];
        let _ = actions[m - 1];
        assert(events.subrange(0, m).drop_last() =~= events.subrange(0, m - 1));
        assert(events.subrange(0, m).last() == events[m - 1]);
        lemma_listed_records_step(events, m);
        if views[m - 1].phase is Waking {
            assert(listed_records(events.subrange(0, m)) =~= Seq::<GmailHistory>::empty());
            assert(fetched_messages(events.subrange(0, m)) =~= Seq::<GmailMessage>::empty());
        }
        if let GmailHistoryPollEvent::MessageFetched(Ok(msg)) = events[m - 1] {
            assert(views[m - 1].cycle.added.push(msg) =~= fetched_messages(events.subrange(0, m - 1)) + seq![msg]);
        }
    }
}

/// A tick that starts from the cursor `c` and, without baselining again
/// or failing, ends in a diff, hands out a diff whose history id is the
/// one the last page of the tick reported (the history ids of earlier
/// pages are ignored), else `c`; that id is the cursor the next tick
/// lists from. The diff reports every deletion, label addition and label
/// removal of every record of every page of the tick, in the order the
/// pages and their records came; the tick fetches once per message that
/// its records add, and the diff's added messages are those the fetches
/// brought back, in order (a failed fetch is skipped).
pub proof fn lemma_poll_tick_cursor(
    views: Seq<GmailHistoryPollView>,
    events: Seq<GmailHistoryPollEvent>,
    actions: Seq<GmailHistoryPollAction>,
    d: GmailHistoryDiff,
)
    requires
        poll_run(views, events, actions),
        events.len() >= 1,
        views[0].phase is Waking,
        actions.last() == GmailHistoryPollAction::Diff(d),
        forall|k: int|
            0 <= k < events.len() - 1 ==> !(#[trigger] actions[k] is Diff) && !(actions[k] is Fail)
                && !(actions[k] is GetProfile),
    ensures
        d.history_id@ == diff_cursor(last_page_id(events), views[0].cursor),
        views.last().cursor == Some(d.history_id@),
        views.last().phase is Sleeping,
        d.removed@ == removed_of(listed_records(events)),
        d.labels_added@ == labels_added_of(listed_records(events)),
        d.labels_removed@ == labels_removed_of(listed_records(events)),
        d.added@ == fetched_messages(events),
        fetch_count(events) == added_ids_of(listed_records(events)).len(),
{
    let n = events.len() - 1;
    lemma_tick_prefix(views, events, actions, n);
    let _ = events[n];
    assert(events.subrange(0, n) =~= events.drop_last());
    assert(actions[n] == actions.last());
    lemma_listed_records_step(events, n + 1);
    assert(events.subrange(0, n + 1) =~= events);
    if let GmailHistoryPollEvent::MessageFetched(Ok(msg)) = events[n] {
        assert(views[n].cycle.added.push(msg) =~= fetched_messages(events.subrange(0, n)) + seq![msg]);
    }
}

/// Within a tick, each message request asks for the next id that the
/// records listed so far add: the request that follows `j` fetches asks
/// for the id at position `j` among them, so the tick fetches the added
/// messages one by one, in the order the records add them.
pub proof fn lemma_poll_tick_fetch_order(
    views: Seq<GmailHistoryPollView>,
    events: Seq<GmailHistoryPollEvent>,
    actions: Seq<GmailHistoryPollAction>,
    k: int,
)
    requires
        poll_run(views, events, actions),
        views[0].phase is Waking,
        0 <= k < events.len(),
        actions[k] is GetMessage,
        forall|j: int|
            0 <= j < k ==> !(#[trigger] actions[j] is Diff) && !(actions[j] is Fail)
                && !(actions[j] is GetProfile),
    ensures
        fetch_count(events.subrange(0, k + 1)) < added_ids_of(listed_records(events.subrange(0, k + 1))).len(),
        fetches_message(
            views[k + 1],
            actions[k],
            views[k].user_id,
            views[k].token,
            added_ids_of(listed_records(events.subrange(0, k + 1)))[fetch_count(events.subrange(0, k + 1)) as int]@,
        ),
{
    lemma_tick_prefix(views, events, actions, k);
    let _ = events[k];
    lemma_listed_records_step(events, k + 1);
    assert(events.subrange(0, k + 1).drop_last() =~= events.subrange(0, k));
}

/// When the cursor has expired (404), the watch asks for the profile
/// again, and the fresh profile's history id becomes the cursor.
pub proof fn lemma_poll_rebaselines_on_expired_cursor(
    s0: GmailHistoryPollView,
    err: GmailSendError,
    s1: GmailHistoryPollView,
    a1: GmailHistoryPollAction,
    profile: GmailProfile,
    s2: GmailHistoryPollView,
    a2: GmailHistoryPollAction,
)
    requires
        s0.phase is Listing,
        err.spec_status() == Some(404u16),
        poll_step(s0, GmailHistoryPollEvent::HistoryListed(Err(err)), s1, a1),
        s1.phase is Baseline,
        poll_step(s1, GmailHistoryPollEvent::ProfileFetched(Ok(profile)), s2, a2),
    ensures
        a1 is GetProfile,
        s1.cursor == None::<Seq<char>>,
        s2.cursor == string_opt_view(profile.history_id),
{
}

/// A message that can no longer be fetched is skipped: it does not end
/// the watch (only a request URL that cannot be built does) and leaves
/// the gathered changes as they were.
pub proof fn lemma_poll_skips_unfetchable_message(
    s: GmailHistoryPollView,
    err: GmailSendError,
    t: GmailHistoryPollView,
    a: GmailHistoryPollAction,
)
    requires
        s.phase is Fetching,
        poll_step(s, GmailHistoryPollEvent::MessageFetched(Err(err)), t, a),
    ensures
        a is Fail ==> a matches GmailHistoryPollAction::Fail(
            GmailHistoryPollError::Send(GmailSendError::ParseUrl(_)),
        ),
        t.phase is Fetching ==> t.cycle == s.cycle,
        a matches GmailHistoryPollAction::Diff(d) ==> d.added@ == s.cycle.added,
{
}

/// Paging does not change what a tick gathers: two pages gathered one
/// after the other give what their records gathered as one page give.
pub proof fn lemma_absorb_pages(c: GmailHistoryCycle, first: Seq<GmailHistory>, second: Seq<GmailHistory>)
    ensures
        c.absorb(first).absorb(second) == c.absorb(first + second),
    decreases second.len(),
{
    if second.len() == 0 {
        assert(first + second =~= first);
        assert(c.absorb(first).absorb(second) =~= c.absorb(first));
    } else {
        let rest = second.drop_last();
        let r = second.last();
        lemma_absorb_pages(c, first, rest);
        lemma_absorb_push(c.absorb(first), rest, r);
        lemma_absorb_push(c, first + rest, r);
        assert(rest.push(r) =~= second);
        assert((first + rest).push(r) =~= first + second);
    }
}

enum State {
    Starting(GmailProfileGet),
    Baseline,
    Sleeping,
    Waking(GmailHistoryList),
    Listing(Cycle),
    Fetching { ids: Vec<String>, index: usize, cycle: Cycle },
    Done,
}

/// I/O-free watch over a mailbox, polling `users.history.list`.
///
/// It never completes successfully: it hands out one
/// [`GmailHistoryDiff`] per tick and baselines itself again when the
/// server reports an expired history cursor; only a failure ends it.
pub struct GmailHistoryPoll {
    state: State,
    auth: GmailBearer,
    user_id: String,
    mailbox: String,
    history_id: Option<String>,
}

impl View for GmailHistoryPoll {
    type V = GmailHistoryPollView;

    closed spec fn view(&self) -> GmailHistoryPollView {
        GmailHistoryPollView {
            phase: match self.state {
                State::Starting(_) => GmailHistoryPollPhase::Starting,
                State::Baseline => GmailHistoryPollPhase::Baseline,
                State::Sleeping => GmailHistoryPollPhase::Sleeping,
                State::Waking(_) => GmailHistoryPollPhase::Waking,
                State::Listing(_) => GmailHistoryPollPhase::Listing,
                State::Fetching { .. } => GmailHistoryPollPhase::Fetching,
                State::Done => GmailHistoryPollPhase::Done,
            },
            user_id: self.user_id@,
            mailbox: self.mailbox@,
            token: self.auth@,
            cursor: string_opt_view(self.history_id),
            cycle: match self.state {
                State::Listing(c) => c@,
                State::Fetching { cycle, .. } => cycle@,
                _ => GmailHistoryCycle::empty(),
            },
            fetch_ids: match self.state {
                State::Fetching { ids, .. } => ids@,
                _ => Seq::empty(),
            },
            fetch_index: match self.state {
                State::Fetching { index, .. } => index as int,
                _ => 0,
            },
            pending: match self.state {
                State::Starting(p) => p.request(),
                State::Waking(l) => l.request(),
                _ => GmailRequestSpec {
                    method: Seq::empty(),
                    url: Seq::empty(),
                    headers: Seq::empty(),
                    body: Seq::empty(),
                },
            },
            pending_inputs: match self.state {
                State::Starting(p) => p.inputs(),
                State::Waking(l) => l.inputs(),
                _ => Seq::empty(),
            },
            pending_halted: match self.state {
                State::Starting(p) => p.halted(),
                State::Waking(l) => l.halted(),
                _ => false,
            },
        }
    }
}

impl GmailHistoryPoll {
    /// Whether the watch is in a state its own steps reach.
    pub closed spec fn wf(&self) -> bool {
        match self.state {
            State::Fetching { ids, index, .. } => index < ids.len(),
            _ => true,
        }
    }

    /// Builds the watch over the given mailbox label; its first step asks
    /// for the profile that sets the history cursor.
    pub fn new(auth: &GmailBearer, user_id: &str, mailbox: &str) -> (r: Result<Self, GmailHistoryPollError>)
        ensures
            match url_join(GMAIL_API_BASE@, profile_path(user_id@)) {
                Some(u) => r matches Ok(p) && {
                    &&& p.wf()
                    &&& p@.phase is Starting
                    &&& p@.user_id == user_id@
                    &&& p@.mailbox == mailbox@
                    &&& p@.token == auth@
                    &&& p@.cursor == None::<Seq<char>>
                    &&& is_gmail_request(p@.pending, auth@, "GET"@, u, None, Seq::empty())
                    &&& p@.pending_inputs == Seq::<Option<Seq<u8>>>::empty()
                    &&& !p@.pending_halted
                },
                None => r matches Err(GmailHistoryPollError::Send(GmailSendError::ParseUrl(_))),
            },
    {
        match GmailProfileGet::new(auth, user_id) {
            Ok(profile) => Ok(GmailHistoryPoll {
                state: State::Starting(profile),
                auth: GmailBearer::new(auth.token()),
                user_id: user_id.to_string(),
                mailbox: mailbox.to_string(),
                history_id: None,
            }),
            Err(err) => Err(GmailHistoryPollError::Send(err)),
        }
    }

    /// Returns whether the watch can take the event now.
    pub fn expects(&self, event: &GmailHistoryPollEvent) -> (r: bool)
        ensures
            r == self@.phase.accepts(*event),
    {
        match event {
            GmailHistoryPollEvent::Resumed => match self.state {
                State::Starting(_) | State::Sleeping | State::Waking(_) => true,
                _ => false,
            },
            GmailHistoryPollEvent::ProfileFetched(_) => matches!(self.state, State::Baseline),
            GmailHistoryPollEvent::HistoryListed(_) => matches!(self.state, State::Listing(_)),
            GmailHistoryPollEvent::MessageFetched(_) => matches!(self.state, State::Fetching { .. }),
        }
    }

    /// The list request of the watch, from its cursor, for the first page
    /// or the page with the given token.
    fn list_history(&self, page_token: Option<&str>) -> (r: Result<GmailHistoryList, GmailSendError>)
        ensures
            match url_join(GMAIL_API_BASE@, history_path(self@.user_id)) {
                Some(u) => r matches Ok(l) && l.inputs() == Seq::<Option<Seq<u8>>>::empty() && !l.halted()
                    && is_gmail_request(
                    l.request(),
                    self@.token,
                    "GET"@,
                    url_with_query(
                        u,
                        poll_list_query(
                            self@.cursor,
                            self@.mailbox,
                            match page_token {
                                Some(t) => Some(t@),
                                None => None,
                            },
                        ),
                    ),
                    None,
                    Seq::empty(),
                ),
                None => r matches Err(GmailSendError::ParseUrl(_)),
            },
    {
        let start: &str = match &self.history_id {
            Some(h) => h.as_str(),
            None => "",
        };
        proof {
            reveal_strlit("");
        }
        let types: Vec<GmailHistoryType> = Vec::new();
        let params = GmailHistoryListParams {
            start_history_id: start,
            label_id: Some(self.mailbox.as_str()),
            history_types: types.as_slice(),
            max_results: None,
            page_token,
        };
        assert(start@ == match self@.cursor {
            Some(c) => c,
            None => Seq::<char>::empty(),
        });
        assert(params.history_types@.map_values(|t: GmailHistoryType| t.spec_name()) =~= Seq::<Seq<char>>::empty());
        assert(history_list_query(params) =~= poll_list_query(
            self@.cursor,
            self@.mailbox,
            match page_token {
                Some(t) => Some(t@),
                None => None,
            },
        ));
        GmailHistoryList::new(&self.auth, self.user_id.as_str(), &params)
    }

    /// The request for the metadata of the message.
    fn get_message(&self, id: &str) -> (r: Result<GmailMessageGet, GmailSendError>)
        ensures
            match url_join(GMAIL_API_BASE@, message_path(self@.user_id, id@)) {
                Some(u) => r matches Ok(g) && g.inputs() == Seq::<Option<Seq<u8>>>::empty() && !g.halted()
                    && is_gmail_request(
                    g.request(),
                    self@.token,
                    "GET"@,
                    url_with_query(u, message_get_query(GmailMessageFormat::Metadata, Seq::empty())),
                    None,
                    Seq::empty(),
                ),
                None => r matches Err(GmailSendError::ParseUrl(_)),
            },
    {
        let headers: Vec<&str> = Vec::new();
        GmailMessageGet::new(&self.auth, self.user_id.as_str(), id, GmailMessageFormat::Metadata, headers.as_slice())
    }

    /// Goes to sleep holding the first list request from the cursor.
    fn sleep(&mut self) -> (r: GmailHistoryPollAction)
        ensures
            final(self).wf(),
            final(self)@.user_id == old(self)@.user_id,
            final(self)@.mailbox == old(self)@.mailbox,
            final(self)@.token == old(self)@.token,
            final(self)@.cursor == old(self)@.cursor,
            sleeps_then_lists(
                final(self)@,
                r,
                old(self)@.user_id, old(self)@.token,
                poll_list_query(old(self)@.cursor, old(self)@.mailbox, None),
            ),
    {
        match self.list_history(None) {
            Ok(list) => {
                self.state = State::Waking(list);
                GmailHistoryPollAction::Sleep(POLL_SECONDS)
            },
            Err(err) => {
                self.state = State::Done;
                GmailHistoryPollAction::Fail(GmailHistoryPollError::Send(err))
            },
        }
    }

    /// Starts fetching the added message at `index`, or fails.
    fn fetch(&mut self, ids: Vec<String>, index: usize, cycle: Cycle) -> (r: GmailHistoryPollAction)
        requires
            index < ids.len(),
        ensures
            final(self).wf(),
            final(self)@.user_id == old(self)@.user_id,
            final(self)@.mailbox == old(self)@.mailbox,
            final(self)@.token == old(self)@.token,
            final(self)@.cursor == old(self)@.cursor,
            fetches_message(final(self)@, r, old(self)@.user_id, old(self)@.token, ids@[index as int]@),
            final(self)@.phase is Fetching ==> {
                &&& final(self)@.cycle == cycle@
                &&& final(self)@.fetch_ids == ids@
                &&& final(self)@.fetch_index == index
            },
    {
        match self.get_message(ids[index].as_str()) {
            Ok(get) => {
                self.state = State::Fetching { ids, index, cycle };
                GmailHistoryPollAction::GetMessage(get)
            },
            Err(err) => {
                self.state = State::Done;
                GmailHistoryPollAction::Fail(GmailHistoryPollError::Send(err))
            },
        }
    }

    /// Ends the tick: the diff of the cycle, whose history id becomes the
    /// cursor, and back to sleep.
    fn finalize(&mut self, cycle: Cycle) -> (r: GmailHistoryDiff)
        ensures
            final(self).wf(),
            final(self)@.user_id == old(self)@.user_id,
            final(self)@.mailbox == old(self)@.mailbox,
            final(self)@.token == old(self)@.token,
            final(self)@.phase is Sleeping,
            final(self)@.cursor == Some(diff_cursor(cycle@.new_history_id, old(self)@.cursor)),
            r.history_id@ == diff_cursor(cycle@.new_history_id, old(self)@.cursor),
            r.added@ == cycle@.added,
            r.removed@ == cycle@.removed,
            r.labels_added@ == cycle@.labels_added,
            r.labels_removed@ == cycle@.labels_removed,
    {
        let Cycle { added, removed, labels_added, labels_removed, new_history_id, .. } = cycle;
        let history_id = match new_history_id {
            Some(h) => h,
            None => match &self.history_id {
                Some(h) => h.clone(),
                None => String::new(),
            },
        };
        self.history_id = Some(history_id.clone());
        self.state = State::Sleeping;
        GmailHistoryDiff { history_id, added, removed, labels_added, labels_removed }
    }

    /// Takes a page of history: gathers it, then asks for the next page,
    /// or fetches the added messages, or hands out the diff.
    fn listed(&mut self, cycle: Cycle, page: GmailHistoryListResponse) -> (r: GmailHistoryPollAction)
        ensures
            final(self).wf(),
            final(self)@.user_id == old(self)@.user_id,
            final(self)@.mailbox == old(self)@.mailbox,
            final(self)@.token == old(self)@.token,
            takes_page(old(self)@.user_id, old(self)@.token, old(self)@.mailbox, old(self)@.cursor, cycle@, page, final(self)@, r),
    {
        let ghost records = page.history@;
        let ghost last_id = page.history_id;
        let GmailHistoryListResponse { history, next_page_token, history_id } = page;
        let mut cycle = cycle;
        cycle.absorb(history);
        match next_page_token {
            Some(token) => match self.list_history(Some(token.as_str())) {
                Ok(list) => {
                    self.state = State::Listing(cycle);
                    GmailHistoryPollAction::ListHistory(list)
                },
                Err(err) => {
                    self.state = State::Done;
                    GmailHistoryPollAction::Fail(GmailHistoryPollError::Send(err))
                },
            },
            None => {
                cycle.new_history_id = history_id;
                if cycle.added_ids.len() == 0 {
                    GmailHistoryPollAction::Diff(self.finalize(cycle))
                } else {
                    let mut ids: Vec<String> = Vec::new();
                    core::mem::swap(&mut ids, &mut cycle.added_ids);
                    self.fetch(ids, 0, cycle)
                }
            },
        }
    }

    /// Takes the result of fetching an added message: keeps the message,
    /// or skips it when the fetch failed, then fetches the next one or
    /// hands out the diff.
    fn fetched(
        &mut self,
        ids: Vec<String>,
        index: usize,
        cycle: Cycle,
        result: Result<GmailMessage, GmailSendError>,
    ) -> (r: GmailHistoryPollAction)
        requires
            index < ids.len(),
        ensures
            final(self).wf(),
            final(self)@.user_id == old(self)@.user_id,
            final(self)@.mailbox == old(self)@.mailbox,
            final(self)@.token == old(self)@.token,
            takes_message(old(self)@.user_id, old(self)@.token, old(self)@.cursor, cycle@, ids@, index as int, result, final(self)@, r),
    {
        let mut cycle = cycle;
        match result {
            Ok(message) => cycle.added.push(message),
            // A just-added message may be gone by the time it is fetched:
            // it is skipped rather than ending the watch.
            Err(_) => {},
        }
        let next = index + 1;
        if next < ids.len() {
            self.fetch(ids, next, cycle)
        } else {
            GmailHistoryPollAction::Diff(self.finalize(cycle))
        }
    }

    /// Takes what became of the last action and returns the next one.
    pub fn step(&mut self, event: GmailHistoryPollEvent) -> (r: GmailHistoryPollAction)
        requires
            old(self).wf(),
            old(self)@.phase.accepts(event),
        ensures
            final(self).wf(),
            poll_step(old(self)@, event, final(self)@, r),
    {
        let mut state = State::Done;
        core::mem::swap(&mut state, &mut self.state);
        match state {
            State::Starting(profile) => {
                self.state = State::Baseline;
                GmailHistoryPollAction::GetProfile(profile)
            },
            State::Baseline => match event {
                GmailHistoryPollEvent::ProfileFetched(Ok(profile)) => {
                    self.history_id = profile.history_id;
                    self.sleep()
                },
                GmailHistoryPollEvent::ProfileFetched(Err(err)) => GmailHistoryPollAction::Fail(
                    GmailHistoryPollError::Send(err),
                ),
                _ => GmailHistoryPollAction::Sleep(POLL_SECONDS),
            },
            State::Sleeping => self.sleep(),
            State::Waking(list) => {
                self.state = State::Listing(Cycle::new());
                GmailHistoryPollAction::ListHistory(list)
            },
            State::Listing(cycle) => match event {
                GmailHistoryPollEvent::HistoryListed(Ok(page)) => self.listed(cycle, page),
                GmailHistoryPollEvent::HistoryListed(Err(err)) => {
                    let expired = match err.status() {
                        Some(status) => status == 404,
                        None => false,
                    };
                    if expired {
                        match GmailProfileGet::new(&self.auth, self.user_id.as_str()) {
                            Ok(profile) => {
                                self.history_id = None;
                                self.state = State::Baseline;
                                GmailHistoryPollAction::GetProfile(profile)
                            },
                            Err(err) => GmailHistoryPollAction::Fail(GmailHistoryPollError::Send(err)),
                        }
                    } else {
                        GmailHistoryPollAction::Fail(GmailHistoryPollError::Send(err))
                    }
                },
                _ => GmailHistoryPollAction::Sleep(POLL_SECONDS),
            },
            State::Fetching { ids, index, cycle } => match event {
                GmailHistoryPollEvent::MessageFetched(result) => self.fetched(ids, index, cycle, result),
                _ => GmailHistoryPollAction::Sleep(POLL_SECONDS),
            },
            State::Done => GmailHistoryPollAction::Sleep(POLL_SECONDS),
        }
    }
}

} // verus!
