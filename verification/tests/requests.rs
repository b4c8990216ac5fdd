use io_gmail::coroutine::GmailCoroutine;
use io_gmail::coroutine::GmailCoroutineState;
use io_gmail::coroutine::GmailYield;
use io_gmail::v1::rest::history::list::GmailHistoryList;
use io_gmail::v1::rest::history::list::GmailHistoryListParams;
use io_gmail::v1::rest::history::GmailHistoryType;
use io_gmail::v1::rest::labels::create::GmailLabelCreate;
use io_gmail::v1::rest::labels::delete::GmailDeleteLabel;
use io_gmail::v1::rest::labels::get::GmailLabelGet;
use io_gmail::v1::rest::labels::list::GmailLabelsList;
use io_gmail::v1::rest::labels::patch::GmailLabelPatch;
use io_gmail::v1::rest::labels::update::GmailLabelUpdate;
use io_gmail::v1::rest::labels::GmailLabel;
use io_gmail::v1::rest::labels::GmailLabelColor;
use io_gmail::v1::rest::labels::GmailLabelListVisibility;
use io_gmail::v1::rest::labels::GmailLabelType;
use io_gmail::v1::rest::messages::delete::GmailMessageDelete;
use io_gmail::v1::rest::messages::get::GmailMessageGet;
use io_gmail::v1::rest::messages::list::GmailMessagesList;
use io_gmail::v1::rest::messages::list::GmailMessagesListParams;
use io_gmail::v1::rest::messages::modify::GmailMessageModify;
use io_gmail::v1::rest::messages::send::GmailMessageSend;
use io_gmail::v1::rest::messages::trash::GmailMessageTrash;
use io_gmail::v1::rest::messages::untrash::GmailMessageUntrash;
use io_gmail::v1::rest::messages::GmailMessage;
use io_gmail::v1::rest::messages::GmailMessageFormat;
use io_gmail::v1::rest::messages::GmailMessageListVisibility;
use io_gmail::v1::rest::users::get_profile::GmailProfileGet;
use io_gmail::v1::rest::users::stop::GmailStop;
use io_gmail::v1::send::GmailSendError;
use io_gmail::v1::http::GmailBearer;

fn auth() -> GmailBearer {
    GmailBearer::new("ya29.token")
}

fn request_text<R, C: GmailCoroutine<Yield = GmailYield, Return = R>>(c: &mut C) -> String {
    match c.resume(None) {
        GmailCoroutineState::Yielded(GmailYield::WantsWrite(bytes)) => String::from_utf8(bytes).unwrap(),
        _ => panic!("the first resume must write the request"),
    }
}

fn expected(method: &str, target: &str, content_type: Option<&str>, body: &str) -> String {
    let mut out = format!(
        "{method} {target} HTTP/1.1\r\nHost: gmail.googleapis.com\r\nAccept: application/json\r\nAuthorization: Bearer ya29.token\r\n"
    );
    if let Some(c) = content_type {
        out.push_str(&format!("Content-Type: {c}\r\n"));
    }
    out.push_str(&format!("content-length: {}\r\n\r\n{}", body.len(), body));
    out
}

fn work_label() -> GmailLabel {
    GmailLabel {
        id: String::new(),
        name: "Work".to_string(),
        label_type: None,
        message_list_visibility: Some(GmailMessageListVisibility::Show),
        label_list_visibility: Some(GmailLabelListVisibility::LabelShow),
        messages_total: None,
        messages_unread: None,
        threads_total: None,
        threads_unread: None,
        color: None,
    }
}

#[test]
fn profile_get_request() {
    let mut c = GmailProfileGet::new(&auth(), "me").unwrap();
    assert_eq!(request_text(&mut c), expected("GET", "/gmail/v1/users/me/profile", None, ""));
}

#[test]
fn stop_request_has_no_body() {
    let mut c = GmailStop::new(&auth(), "me").unwrap();
    assert_eq!(request_text(&mut c), expected("POST", "/gmail/v1/users/me/stop", None, ""));
}

#[test]
fn labels_list_request() {
    let mut c = GmailLabelsList::new(&auth(), "me").unwrap();
    assert_eq!(request_text(&mut c), expected("GET", "/gmail/v1/users/me/labels", None, ""));
}

#[test]
fn label_get_request() {
    let mut c = GmailLabelGet::new(&auth(), "me", "Label_1").unwrap();
    assert_eq!(request_text(&mut c), expected("GET", "/gmail/v1/users/me/labels/Label_1", None, ""));
}

#[test]
fn label_delete_request() {
    let mut c = GmailDeleteLabel::new(&auth(), "me", "Label_1").unwrap();
    assert_eq!(request_text(&mut c), expected("DELETE", "/gmail/v1/users/me/labels/Label_1", None, ""));
}

#[test]
fn label_create_request_carries_the_label() {
    let mut c = GmailLabelCreate::new(&auth(), "me", &work_label()).unwrap();
    let body = r#"{"name":"Work","messageListVisibility":"show","labelListVisibility":"labelShow"}"#;
    assert_eq!(
        request_text(&mut c),
        expected("POST", "/gmail/v1/users/me/labels", Some("application/json"), body)
    );
}

#[test]
fn label_create_refuses_a_blank_name() {
    let mut label = work_label();
    label.name = " \t ".to_string();
    match GmailLabelCreate::new(&auth(), "me", &label) {
        Err(GmailSendError::InvalidRequest(m)) => assert_eq!(m, "label name cannot be empty"),
        _ => panic!("a blank name must be refused"),
    }
}

#[test]
fn label_update_puts_the_whole_label() {
    let mut label = work_label();
    label.id = "Label_7".to_string();
    label.label_type = Some(GmailLabelType::User);
    label.color = Some(GmailLabelColor {
        text_color: Some("#000000".to_string()),
        background_color: Some("#ffffff".to_string()),
    });
    let mut c = GmailLabelUpdate::new(&auth(), "me", &label).unwrap();
    let body = "{\"id\":\"Label_7\",\"name\":\"Work\",\"type\":\"user\",\"messageListVisibility\":\"show\",\"labelListVisibility\":\"labelShow\",\"color\":{\"textColor\":\"#000000\",\"backgroundColor\":\"#ffffff\"}}";
    assert_eq!(
        request_text(&mut c),
        expected("PUT", "/gmail/v1/users/me/labels/Label_7", Some("application/json"), body)
    );
}

#[test]
fn label_update_refuses_a_blank_name() {
    let mut label = work_label();
    label.id = "Label_7".to_string();
    label.name = String::new();
    assert!(matches!(
        GmailLabelUpdate::new(&auth(), "me", &label),
        Err(GmailSendError::InvalidRequest(_))
    ));
}

#[test]
fn label_patch_sends_only_what_is_set() {
    let label = GmailLabel {
        id: "Label_7".to_string(),
        name: String::new(),
        label_type: None,
        message_list_visibility: None,
        label_list_visibility: Some(GmailLabelListVisibility::LabelHide),
        messages_total: None,
        messages_unread: None,
        threads_total: None,
        threads_unread: None,
        color: None,
    };
    let mut c = GmailLabelPatch::new(&auth(), "me", &label).unwrap();
    let body = r#"{"id":"Label_7","labelListVisibility":"labelHide"}"#;
    assert_eq!(
        request_text(&mut c),
        expected("PATCH", "/gmail/v1/users/me/labels/Label_7", Some("application/json"), body)
    );
}

#[test]
fn messages_list_request_query() {
    let labels = vec!["INBOX".to_string(), "UNREAD".to_string()];
    let params = GmailMessagesListParams {
        q: Some("from:alice is:unread"),
        label_ids: &labels,
        max_results: Some(50),
        page_token: Some("tok"),
        include_spam_trash: true,
    };
    let mut c = GmailMessagesList::new(&auth(), "me", &params).unwrap();
    let target = "/gmail/v1/users/me/messages?q=from%3Aalice+is%3Aunread&labelIds=INBOX&labelIds=UNREAD&maxResults=50&pageToken=tok&includeSpamTrash=true";
    assert_eq!(request_text(&mut c), expected("GET", target, None, ""));
}

#[test]
fn messages_list_leaves_out_absent_parameters() {
    let params = GmailMessagesListParams {
        q: None,
        label_ids: &[],
        max_results: None,
        page_token: None,
        include_spam_trash: false,
    };
    let mut c = GmailMessagesList::new(&auth(), "me", &params).unwrap();
    assert_eq!(request_text(&mut c), expected("GET", "/gmail/v1/users/me/messages?", None, ""));
}

#[test]
fn message_get_metadata_request() {
    let mut c = GmailMessageGet::new(&auth(), "me", "m1", GmailMessageFormat::Metadata, &["Subject", "From"]).unwrap();
    let target = "/gmail/v1/users/me/messages/m1?format=METADATA&metadataHeaders=Subject&metadataHeaders=From";
    assert_eq!(request_text(&mut c), expected("GET", target, None, ""));
}

#[test]
fn message_get_ignores_headers_outside_metadata() {
    let mut c = GmailMessageGet::new(&auth(), "me", "m1", GmailMessageFormat::Raw, &["Subject"]).unwrap();
    assert_eq!(request_text(&mut c), expected("GET", "/gmail/v1/users/me/messages/m1?format=RAW", None, ""));
}

#[test]
fn message_modify_request() {
    let add = vec!["STARRED".to_string()];
    let remove = vec!["UNREAD".to_string(), "INBOX".to_string()];
    let mut c = GmailMessageModify::new(&auth(), "me", "m1", &add, &remove).unwrap();
    let body = r#"{"addLabelIds":["STARRED"],"removeLabelIds":["UNREAD","INBOX"]}"#;
    assert_eq!(
        request_text(&mut c),
        expected("POST", "/gmail/v1/users/me/messages/m1/modify", Some("application/json"), body)
    );
}

#[test]
fn message_modify_refuses_an_empty_change() {
    match GmailMessageModify::new(&auth(), "me", "m1", &[], &[]) {
        Err(GmailSendError::InvalidRequest(m)) => assert_eq!(m, "modify requires at least one label update"),
        _ => panic!("an empty modification must be refused"),
    }
}

#[test]
fn message_send_request_carries_the_raw_message() {
    let message = GmailMessage { raw: Some("aGVsbG8".to_string()), ..GmailMessage::default() };
    let mut c = GmailMessageSend::new(&auth(), "me", &message).unwrap();
    assert_eq!(
        request_text(&mut c),
        expected("POST", "/gmail/v1/users/me/messages/send", Some("application/json"), r#"{"raw":"aGVsbG8"}"#)
    );
}

#[test]
fn message_trash_untrash_delete_requests() {
    let mut t = GmailMessageTrash::new(&auth(), "me", "m1").unwrap();
    assert_eq!(request_text(&mut t), expected("POST", "/gmail/v1/users/me/messages/m1/trash", None, ""));
    let mut u = GmailMessageUntrash::new(&auth(), "me", "m1").unwrap();
    assert_eq!(request_text(&mut u), expected("POST", "/gmail/v1/users/me/messages/m1/untrash", None, ""));
    let mut d = GmailMessageDelete::new(&auth(), "me", "m1").unwrap();
    assert_eq!(request_text(&mut d), expected("DELETE", "/gmail/v1/users/me/messages/m1", None, ""));
}

#[test]
fn history_list_request_query() {
    let types = [GmailHistoryType::MessageAdded, GmailHistoryType::LabelRemoved];
    let params = GmailHistoryListParams {
        start_history_id: "1234",
        label_id: Some("INBOX"),
        history_types: &types,
        max_results: Some(100),
        page_token: None,
    };
    let mut c = GmailHistoryList::new(&auth(), "me", &params).unwrap();
    let target = "/gmail/v1/users/me/history?startHistoryId=1234&labelId=INBOX&historyTypes=messageAdded&historyTypes=labelRemoved&maxResults=100";
    assert_eq!(request_text(&mut c), expected("GET", target, None, ""));
}

#[test]
fn user_id_with_special_characters_is_escaped_in_the_path() {
    let mut c = GmailProfileGet::new(&auth(), "a b@example.com").unwrap();
    assert_eq!(
        request_text(&mut c),
        expected("GET", "/gmail/v1/users/a%20b@example.com/profile", None, "")
    );
}
