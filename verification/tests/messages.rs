use io_gmail::error::GmailError;
use io_gmail::v1::send::GmailSendError;
use io_gmail::v1::rest::messages::decode_raw;
use io_gmail::v1::rest::messages::encode_raw;
use io_gmail::v1::rest::messages::GmailMessage;
use io_gmail::v1::rest::messages::GmailMessageFormat;
use io_gmail::v1::rest::messages::GmailMessageHeader;
use io_gmail::v1::rest::messages::GmailMessagePartBody;
use io_gmail::v1::rest::messages::GmailMessagePayload;
use io_gmail::v1::rest::messages::GmailInternalDateSource;
use io_gmail::v1::rest::messages::GmailMessageListVisibility;
use io_gmail::v1::rest::messages::strings_to_json;
use io_gmail::v1::rest::history::GmailHistoryType;
use io_gmail::v1::rest::labels::GmailLabelListVisibility;
use io_gmail::v1::rest::labels::GmailLabelType;
use io_gmail::v1::query::decimal_string;
use io_gmail::text::is_blank;
use io_gmail::text::trim;

fn header(name: &str, value: &str) -> GmailMessageHeader {
    GmailMessageHeader { name: name.to_string(), value: value.to_string() }
}

fn payload(headers: Vec<GmailMessageHeader>) -> GmailMessagePayload {
    GmailMessagePayload {
        part_id: None,
        mime_type: None,
        body: None,
        filename: String::new(),
        headers,
        parts: Vec::new(),
    }
}

#[test]
fn header_lookup_ignores_ascii_case() {
    let p = payload(vec![header("Subject", "Hello"), header("From", "alice@example.com")]);
    assert_eq!(p.header("subject"), Some("Hello"));
    assert_eq!(p.header("FROM"), Some("alice@example.com"));
    assert_eq!(p.header("To"), None);
}

#[test]
fn header_lookup_returns_the_first_match() {
    let p = payload(vec![header("Received", "first"), header("received", "second")]);
    assert_eq!(p.header("RECEIVED"), Some("first"));
    assert_eq!(payload(Vec::new()).header("Subject"), None);
}

#[test]
fn encode_raw_is_url_safe_without_padding() {
    assert_eq!(encode_raw(b"hello"), "aGVsbG8");
    assert_eq!(encode_raw(b""), "");
    assert_eq!(encode_raw(&[0xfb, 0xff]), "-_8");
}

#[test]
fn decode_raw_reads_padded_and_unpadded_text() {
    assert_eq!(decode_raw("aGVsbG8").unwrap(), b"hello".to_vec());
    assert_eq!(decode_raw("aGVsbG8=").unwrap(), b"hello".to_vec());
    assert_eq!(decode_raw(" aGVs\r\nbG8 \t").unwrap(), b"hello".to_vec());
    assert_eq!(decode_raw("-_8").unwrap(), vec![0xfb, 0xff]);
    assert_eq!(decode_raw("").unwrap(), Vec::<u8>::new());
}

#[test]
fn decode_raw_refuses_other_alphabets() {
    assert!(decode_raw("+/8").is_err());
    assert!(decode_raw("a+/A").is_err());
    assert!(decode_raw("aG=k").is_err());
    assert!(decode_raw("a").is_err());
    assert!(decode_raw("aGVsbG9").is_err());
    assert!(decode_raw("!!!!").is_err());
}

#[test]
fn raw_round_trip() {
    for bytes in [b"".to_vec(), b"a".to_vec(), b"ab".to_vec(), b"abc".to_vec(), (0u8..=255).collect()] {
        assert_eq!(decode_raw(&encode_raw(&bytes)).unwrap(), bytes);
    }
}

#[test]
fn message_json_leaves_out_what_is_unset() {
    assert_eq!(GmailMessage::default().to_json(), b"{}".to_vec());
    let m = GmailMessage {
        id: "m1".to_string(),
        thread_id: Some("t1".to_string()),
        label_ids: vec!["INBOX".to_string()],
        size_estimate: Some(42),
        ..GmailMessage::default()
    };
    assert_eq!(
        String::from_utf8(m.to_json()).unwrap(),
        r#"{"id":"m1","threadId":"t1","labelIds":["INBOX"],"sizeEstimate":42}"#
    );
}

#[test]
fn payload_json_nests_its_parts() {
    let child = GmailMessagePayload {
        part_id: Some("0".to_string()),
        mime_type: Some("text/plain".to_string()),
        body: Some(GmailMessagePartBody { attachment_id: None, size: 5, data: Some("aGVsbG8".to_string()) }),
        filename: String::new(),
        headers: vec![header("Content-Type", "text/plain")],
        parts: Vec::new(),
    };
    let mut parent = payload(Vec::new());
    parent.mime_type = Some("multipart/mixed".to_string());
    parent.parts.push(child);
    assert_eq!(
        String::from_utf8(parent.to_json()).unwrap(),
        r#"{"partId":null,"mimeType":"multipart/mixed","body":null,"filename":"","headers":[],"parts":[{"partId":"0","mimeType":"text/plain","body":{"attachmentId":null,"size":5,"data":"aGVsbG8"},"filename":"","headers":[{"name":"Content-Type","value":"text/plain"}],"parts":[]}]}"#
    );
}

#[test]
fn strings_are_escaped_in_json() {
    assert_eq!(
        String::from_utf8(strings_to_json(&["a\"b".to_string(), "line\nbreak".to_string(), "é".to_string()])).unwrap(),
        r#"["a\"b","line\nbreak","é"]"#
    );
    assert_eq!(strings_to_json(&[]), b"[]".to_vec());
    assert_eq!(
        String::from_utf8(strings_to_json(&["\u{1}\u{8}\t\\/\u{7f}".to_string()])).unwrap(),
        "[\"\\u0001\\b\\t\\\\/\u{7f}\"]"
    );
}

#[test]
fn wire_names() {
    assert_eq!(GmailMessageFormat::Minimal.as_str(), "MINIMAL");
    assert_eq!(GmailMessageFormat::Full.as_str(), "FULL");
    assert_eq!(GmailMessageFormat::Raw.as_str(), "RAW");
    assert_eq!(GmailMessageFormat::Metadata.as_str(), "METADATA");
    assert_eq!(GmailMessageListVisibility::Hide.as_str(), "hide");
    assert_eq!(GmailInternalDateSource::ReceivedTime.as_str(), "RECEIVED_TIME");
    assert_eq!(GmailInternalDateSource::DateHeader.as_str(), "DATE_HEADER");
    assert_eq!(GmailHistoryType::MessageDeleted.as_str(), "messageDeleted");
    assert_eq!(GmailHistoryType::LabelAdded.as_str(), "labelAdded");
    assert_eq!(GmailLabelListVisibility::LabelShowIfUnread.as_str(), "labelShowIfUnread");
    assert_eq!(GmailLabelType::System.as_str(), "system");
}

#[test]
fn decimal_strings() {
    assert_eq!(decimal_string(0), "0");
    assert_eq!(decimal_string(7), "7");
    assert_eq!(decimal_string(1234567890), "1234567890");
    assert_eq!(decimal_string(u64::MAX), "18446744073709551615");
}

#[test]
fn trim_and_blank() {
    assert_eq!(trim("  a b \n"), "a b");
    assert_eq!(trim("\u{3000}x\u{a0}"), "x");
    assert_eq!(trim(""), "");
    assert!(is_blank(" \t\r\n"));
    assert!(is_blank(""));
    assert!(!is_blank(" x "));
}

#[test]
fn errors_convert_into_the_crate_error() {
    assert!(matches!(
        GmailError::from(GmailSendError::UnexpectedRedirect),
        GmailError::Send(GmailSendError::UnexpectedRedirect)
    ));
    let err = decode_raw("a").unwrap_err();
    assert!(matches!(GmailError::from(err), GmailError::DecodeRaw(_)));
}
