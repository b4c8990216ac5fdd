use io_gmail::coroutine::GmailCoroutine;
use io_gmail::coroutine::GmailCoroutineState;
use io_gmail::coroutine::GmailYield;
use io_gmail::v1::history_poll::GmailHistoryPoll;
use io_gmail::v1::history_poll::GmailHistoryPollAction;
use io_gmail::v1::history_poll::GmailHistoryPollError;
use io_gmail::v1::history_poll::GmailHistoryPollEvent;
use io_gmail::v1::history_poll::POLL_SECONDS;
use io_gmail::v1::rest::history::list::GmailHistoryListResponse;
use io_gmail::v1::rest::history::GmailHistory;
use io_gmail::v1::rest::history::GmailHistoryLabel;
use io_gmail::v1::rest::history::GmailHistoryMessage;
use io_gmail::v1::rest::messages::GmailMessage;
use io_gmail::v1::rest::messages::GmailMessageId;
use io_gmail::v1::rest::users::get_profile::GmailProfile;
use io_gmail::v1::send::GmailSendError;
use io_gmail::v1::http::GmailBearer;

fn written<R, C: GmailCoroutine<Yield = GmailYield, Return = R>>(c: &mut C) -> String {
    match c.resume(None) {
        GmailCoroutineState::Yielded(GmailYield::WantsWrite(bytes)) => {
            let text = String::from_utf8(bytes).unwrap();
            text.lines().next().unwrap().to_string()
        }
        _ => panic!("the first resume must write the request"),
    }
}

fn message(id: &str) -> GmailMessage {
    GmailMessage { id: id.to_string(), thread_id: Some(format!("t-{id}")), ..GmailMessage::default() }
}

fn record(added: &[&str], deleted: &[&str], labelled: &[&str]) -> GmailHistory {
    GmailHistory {
        id: "1".to_string(),
        messages: Vec::new(),
        messages_added: added.iter().map(|id| GmailHistoryMessage { message: message(id) }).collect(),
        messages_deleted: deleted.iter().map(|id| GmailHistoryMessage { message: message(id) }).collect(),
        labels_added: labelled
            .iter()
            .map(|id| GmailHistoryLabel { message: message(id), label_ids: vec!["STARRED".to_string()] })
            .collect(),
        labels_removed: Vec::new(),
    }
}

fn page(history: Vec<GmailHistory>, next: Option<&str>, history_id: Option<&str>) -> GmailHistoryPollEvent {
    GmailHistoryPollEvent::HistoryListed(Ok(GmailHistoryListResponse {
        history,
        next_page_token: next.map(str::to_string),
        history_id: history_id.map(str::to_string),
    }))
}

fn profile(history_id: Option<&str>) -> GmailHistoryPollEvent {
    GmailHistoryPollEvent::ProfileFetched(Ok(GmailProfile {
        email_address: "me@example.com".to_string(),
        messages_total: None,
        threads_total: None,
        history_id: history_id.map(str::to_string),
    }))
}

fn api_error(status: u16) -> GmailSendError {
    GmailSendError::ApiError { status, message: "x".to_string() }
}

fn step(poll: &mut GmailHistoryPoll, event: GmailHistoryPollEvent) -> GmailHistoryPollAction {
    assert!(poll.expects(&event), "the watch must expect {event:?}");
    poll.step(event)
}

/// Runs the watch up to its first list request, after a profile with the
/// given history id; returns the request line of that list.
fn to_first_list(poll: &mut GmailHistoryPoll, history_id: Option<&str>) -> String {
    match step(poll, GmailHistoryPollEvent::Resumed) {
        GmailHistoryPollAction::GetProfile(mut p) => assert_eq!(written(&mut p), "GET /gmail/v1/users/me/profile HTTP/1.1"),
        _ => panic!("the watch must start with the profile"),
    }
    assert!(matches!(step(poll, profile(history_id)), GmailHistoryPollAction::Sleep(s) if s == POLL_SECONDS));
    match step(poll, GmailHistoryPollEvent::Resumed) {
        GmailHistoryPollAction::ListHistory(mut l) => written(&mut l),
        _ => panic!("the watch must list after its sleep"),
    }
}

#[test]
fn poll_sleeps_then_lists_from_the_profile_cursor() {
    let mut poll = GmailHistoryPoll::new(&GmailBearer::new("t"), "me", "INBOX").unwrap();
    assert_eq!(POLL_SECONDS, 30);
    assert_eq!(
        to_first_list(&mut poll, Some("100")),
        "GET /gmail/v1/users/me/history?startHistoryId=100&labelId=INBOX HTTP/1.1"
    );
}

#[test]
fn poll_without_cursor_lists_from_empty() {
    let mut poll = GmailHistoryPoll::new(&GmailBearer::new("t"), "me", "INBOX").unwrap();
    assert_eq!(
        to_first_list(&mut poll, None),
        "GET /gmail/v1/users/me/history?startHistoryId=&labelId=INBOX HTTP/1.1"
    );
}

#[test]
fn poll_quiet_tick_hands_out_an_empty_diff_and_keeps_the_cursor() {
    let mut poll = GmailHistoryPoll::new(&GmailBearer::new("t"), "me", "INBOX").unwrap();
    to_first_list(&mut poll, Some("100"));
    match step(&mut poll, page(Vec::new(), None, None)) {
        GmailHistoryPollAction::Diff(d) => {
            assert_eq!(d.history_id, "100");
            assert!(d.added.is_empty() && d.removed.is_empty());
            assert!(d.labels_added.is_empty() && d.labels_removed.is_empty());
        }
        _ => panic!("a quiet tick must hand out a diff"),
    }
    assert!(matches!(step(&mut poll, GmailHistoryPollEvent::Resumed), GmailHistoryPollAction::Sleep(30)));
    match step(&mut poll, GmailHistoryPollEvent::Resumed) {
        GmailHistoryPollAction::ListHistory(mut l) => assert_eq!(
            written(&mut l),
            "GET /gmail/v1/users/me/history?startHistoryId=100&labelId=INBOX HTTP/1.1"
        ),
        _ => panic!("the watch must list again"),
    }
}

#[test]
fn poll_gathers_pages_fetches_added_messages_and_moves_the_cursor() {
    let mut poll = GmailHistoryPoll::new(&GmailBearer::new("t"), "me", "INBOX").unwrap();
    to_first_list(&mut poll, Some("100"));
    match step(&mut poll, page(vec![record(&["m1"], &["d1"], &["l1"])], Some("p2"), Some("104"))) {
        GmailHistoryPollAction::ListHistory(mut l) => assert_eq!(
            written(&mut l),
            "GET /gmail/v1/users/me/history?startHistoryId=100&labelId=INBOX&pageToken=p2 HTTP/1.1"
        ),
        _ => panic!("a page with a token must ask for the next page"),
    }
    match step(&mut poll, page(vec![record(&["m2", "m3"], &["d2"], &[])], None, Some("105"))) {
        GmailHistoryPollAction::GetMessage(mut g) => assert_eq!(
            written(&mut g),
            "GET /gmail/v1/users/me/messages/m1?format=METADATA HTTP/1.1"
        ),
        _ => panic!("added messages must be fetched"),
    }
    match step(&mut poll, GmailHistoryPollEvent::MessageFetched(Ok(message("m1")))) {
        GmailHistoryPollAction::GetMessage(mut g) => {
            assert_eq!(written(&mut g), "GET /gmail/v1/users/me/messages/m2?format=METADATA HTTP/1.1")
        }
        _ => panic!("the next added message must be fetched"),
    }
    match step(&mut poll, GmailHistoryPollEvent::MessageFetched(Err(api_error(404)))) {
        GmailHistoryPollAction::GetMessage(mut g) => {
            assert_eq!(written(&mut g), "GET /gmail/v1/users/me/messages/m3?format=METADATA HTTP/1.1")
        }
        _ => panic!("a message gone in the meantime must be skipped"),
    }
    match step(&mut poll, GmailHistoryPollEvent::MessageFetched(Ok(message("m3")))) {
        GmailHistoryPollAction::Diff(d) => {
            assert_eq!(d.history_id, "105");
            assert_eq!(d.added.iter().map(|m| m.id.as_str()).collect::<Vec<_>>(), vec!["m1", "m3"]);
            assert_eq!(
                d.removed,
                vec![
                    GmailMessageId { id: "d1".to_string(), thread_id: Some("t-d1".to_string()) },
                    GmailMessageId { id: "d2".to_string(), thread_id: Some("t-d2".to_string()) },
                ]
            );
            assert_eq!(d.labels_added.len(), 1);
            assert_eq!(d.labels_added[0].message.id, "l1");
            assert_eq!(d.labels_added[0].label_ids, vec!["STARRED".to_string()]);
            assert!(d.labels_removed.is_empty());
        }
        _ => panic!("the last fetch must end the tick"),
    }
    assert!(matches!(step(&mut poll, GmailHistoryPollEvent::Resumed), GmailHistoryPollAction::Sleep(30)));
    match step(&mut poll, GmailHistoryPollEvent::Resumed) {
        GmailHistoryPollAction::ListHistory(mut l) => assert_eq!(
            written(&mut l),
            "GET /gmail/v1/users/me/history?startHistoryId=105&labelId=INBOX HTTP/1.1"
        ),
        _ => panic!("the next tick must start from the diff's history id"),
    }
}

#[test]
fn poll_rebaselines_when_the_cursor_expired() {
    let mut poll = GmailHistoryPoll::new(&GmailBearer::new("t"), "me", "INBOX").unwrap();
    to_first_list(&mut poll, Some("100"));
    match step(&mut poll, GmailHistoryPollEvent::HistoryListed(Err(api_error(404)))) {
        GmailHistoryPollAction::GetProfile(mut p) => assert_eq!(written(&mut p), "GET /gmail/v1/users/me/profile HTTP/1.1"),
        _ => panic!("an expired cursor must re-baseline"),
    }
    assert!(matches!(step(&mut poll, profile(Some("900"))), GmailHistoryPollAction::Sleep(30)));
    match step(&mut poll, GmailHistoryPollEvent::Resumed) {
        GmailHistoryPollAction::ListHistory(mut l) => assert_eq!(
            written(&mut l),
            "GET /gmail/v1/users/me/history?startHistoryId=900&labelId=INBOX HTTP/1.1"
        ),
        _ => panic!("the watch must list from the fresh cursor"),
    }
}

#[test]
fn poll_ends_on_other_list_errors() {
    let mut poll = GmailHistoryPoll::new(&GmailBearer::new("t"), "me", "INBOX").unwrap();
    to_first_list(&mut poll, Some("100"));
    match step(&mut poll, GmailHistoryPollEvent::HistoryListed(Err(api_error(500)))) {
        GmailHistoryPollAction::Fail(GmailHistoryPollError::Send(GmailSendError::ApiError { status, .. })) => {
            assert_eq!(status, 500)
        }
        _ => panic!("a server error must end the watch"),
    }
    assert!(!poll.expects(&GmailHistoryPollEvent::Resumed));
}

#[test]
fn poll_ends_when_the_profile_fails() {
    let mut poll = GmailHistoryPoll::new(&GmailBearer::new("t"), "me", "INBOX").unwrap();
    assert!(matches!(step(&mut poll, GmailHistoryPollEvent::Resumed), GmailHistoryPollAction::GetProfile(_)));
    let event = GmailHistoryPollEvent::ProfileFetched(Err(api_error(401)));
    assert!(matches!(
        step(&mut poll, event),
        GmailHistoryPollAction::Fail(GmailHistoryPollError::Send(GmailSendError::ApiError { status: 401, .. }))
    ));
}

#[test]
fn poll_expects_only_the_answer_to_its_last_action() {
    let mut poll = GmailHistoryPoll::new(&GmailBearer::new("t"), "me", "INBOX").unwrap();
    assert!(poll.expects(&GmailHistoryPollEvent::Resumed));
    assert!(!poll.expects(&profile(None)));
    step(&mut poll, GmailHistoryPollEvent::Resumed);
    assert!(!poll.expects(&GmailHistoryPollEvent::Resumed));
    assert!(poll.expects(&profile(None)));
    assert!(!poll.expects(&page(Vec::new(), None, None)));
    assert!(!poll.expects(&GmailHistoryPollEvent::MessageFetched(Ok(message("m")))));
}
