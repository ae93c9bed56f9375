use expo_server_sdk::error::DecodeError;
use expo_server_sdk::message::{PushMessage, PushToken};
use expo_server_sdk::notifier::{read_receipts, read_ticket, read_tickets};
use expo_server_sdk::request::{make_headers, HttpResponse};
use expo_server_sdk::response::{PushReceipt, PushReceiptId, PushTicket};
use expo_server_sdk::{ExpoNotificationError, GzipPolicy, PushNotifier};
use std::io::Read;

fn header(name: &str, value: &str) -> (String, String) {
    (name.to_string(), value.to_string())
}

fn message(body: &str) -> PushMessage {
    PushMessage::new(PushToken::try_from("ExponentPushToken[abc]".to_string()).unwrap())
        .body(body.to_string())
}

fn ok(body: &str) -> Option<HttpResponse> {
    Some(HttpResponse { status: 200, body: body.as_bytes().to_vec() })
}

#[test]
fn defaults_of_a_notifier() {
    let notifier = PushNotifier::new();
    assert_eq!(notifier.url, "https://exp.host/--/api/v2/push/send");
    assert_eq!(notifier.receipts_url, "https://exp.host/--/api/v2/push/getReceipts");
    assert_eq!(notifier.authorization, None);
    assert_eq!(notifier.gzip, GzipPolicy::ZipGreaterThanTreshold(1024));
    assert_eq!(notifier.chunk_size, 100);
}

#[test]
fn builders_of_a_notifier() {
    let notifier = PushNotifier::new()
        .url("http://localhost/send".to_string())
        .receipts_url("http://localhost/receipts".to_string())
        .authorization(Some("secret".to_string()))
        .gzip(GzipPolicy::Never)
        .chunk_size(7);
    assert_eq!(notifier.url, "http://localhost/send");
    assert_eq!(notifier.receipts_url, "http://localhost/receipts");
    assert_eq!(notifier.authorization, Some("secret".to_string()));
    assert_eq!(notifier.gzip, GzipPolicy::Never);
    assert_eq!(notifier.chunk_size, 7);
    assert_eq!(notifier.authorization(None).authorization, None);
}

#[test]
fn headers_without_credential_or_compression() {
    assert_eq!(
        make_headers(None, false),
        vec![
            header("Accept", "application/json"),
            header("Accept-Encoding", "gzip"),
            header("Accept-Encoding", "deflate"),
            header("Content-Type", "application/json"),
        ]
    );
}

#[test]
fn headers_with_credential_and_compression() {
    let token = "t0ken".to_string();
    assert_eq!(
        make_headers(Some(&token), true),
        vec![
            header("Accept", "application/json"),
            header("Accept-Encoding", "gzip"),
            header("Accept-Encoding", "deflate"),
            header("Content-Type", "application/json"),
            header("Authorization", "Bearer t0ken"),
            header("Content-Encoding", "gzip"),
        ]
    );
    assert_eq!(make_headers(Some(&token), false).len(), 5);
    assert_eq!(make_headers(None, true)[4], header("Content-Encoding", "gzip"));
}

#[test]
fn small_request_goes_out_uncompressed() {
    let notifier = PushNotifier::new();
    let request = notifier.build_request(&[message("hi")]).unwrap();
    assert_eq!(request.url, "https://exp.host/--/api/v2/push/send");
    assert_eq!(request.headers, make_headers(None, false));
    assert_eq!(
        String::from_utf8(request.body).unwrap(),
        "[{\"body\":\"hi\",\"to\":\"ExponentPushToken[abc]\"}]"
    );
}

#[test]
fn large_request_goes_out_compressed() {
    let notifier = PushNotifier::new().authorization(Some("k".to_string()));
    let messages: Vec<PushMessage> = (0..40).map(|i| message(&format!("{}", i))).collect();
    let plain = expo_server_sdk::message::serialize_messages(&messages).unwrap();
    assert!(plain.len() > 1024);
    let request = notifier.build_request(&messages).unwrap();
    assert_eq!(request.headers, make_headers(Some(&"k".to_string()), true));
    let mut decoded = Vec::new();
    flate2::read::GzDecoder::new(&request.body[..]).read_to_end(&mut decoded).unwrap();
    assert_eq!(decoded, plain);
}

#[test]
fn policy_never_and_always_on_requests() {
    let messages: Vec<PushMessage> = (0..40).map(|i| message(&format!("{}", i))).collect();
    let never = PushNotifier::new().gzip(GzipPolicy::Never).build_request(&messages).unwrap();
    assert_eq!(never.headers, make_headers(None, false));
    assert_eq!(never.body, expo_server_sdk::message::serialize_messages(&messages).unwrap());
    let always = PushNotifier::new().gzip(GzipPolicy::Always).build_request(&[message("x")]).unwrap();
    assert_eq!(always.headers, make_headers(None, true));
    assert_eq!(&always.body[..2], &[0x1f, 0x8b]);
}

#[test]
fn receipts_request() {
    let notifier = PushNotifier::new().receipts_url("http://h/r".to_string());
    let ids = vec![PushReceiptId::new("x".to_string()), PushReceiptId::new("y".to_string())];
    let request = notifier.build_receipts_request(&ids).unwrap();
    assert_eq!(request.url, "http://h/r");
    assert_eq!(request.headers, make_headers(None, false));
    assert_eq!(String::from_utf8(request.body).unwrap(), "{\"ids\":[\"x\",\"y\"]}");
}

#[test]
fn success_is_200_to_299() {
    for (status, success) in [
        (100u16, false),
        (199, false),
        (200, true),
        (204, true),
        (299, true),
        (300, false),
        (301, false),
        (400, false),
        (404, false),
        (500, false),
        (u16::MAX, false),
        (0, false),
    ] {
        assert_eq!(HttpResponse { status, body: Vec::new() }.is_success(), success);
    }
}

#[test]
fn tickets_of_a_response() {
    let tickets = read_tickets(
        2,
        ok("{\"data\":[{\"status\":\"ok\",\"id\":\"a\"},{\"status\":\"ok\",\"id\":\"b\"}]}"),
    )
    .unwrap();
    assert_eq!(
        tickets,
        vec![
            PushTicket::Accepted { id: PushReceiptId::new("a".to_string()) },
            PushTicket::Accepted { id: PushReceiptId::new("b".to_string()) },
        ]
    );
    assert_eq!(read_tickets(0, ok("{\"data\":[]}")), Ok(Vec::new()));
}

#[test]
fn failed_exchange_is_a_request_error() {
    assert_eq!(read_tickets(1, None), Err(ExpoNotificationError::Request { status: None }));
    let body = "{\"data\":[{\"status\":\"ok\",\"id\":\"a\"}]}".as_bytes().to_vec();
    for status in [199u16, 300, 400, 401, 429, 500, 503] {
        assert_eq!(
            read_tickets(1, Some(HttpResponse { status, body: body.clone() })),
            Err(ExpoNotificationError::Request { status: Some(status) })
        );
    }
    assert_eq!(read_receipts(None).err(), Some(ExpoNotificationError::Request { status: None }));
    assert_eq!(
        read_receipts(Some(HttpResponse { status: 500, body: b"{\"data\":{}}".to_vec() })).err(),
        Some(ExpoNotificationError::Request { status: Some(500) })
    );
}

#[test]
fn bad_body_is_a_decode_error() {
    assert_eq!(
        read_tickets(1, ok("oops")),
        Err(ExpoNotificationError::Decode(DecodeError::InvalidJson))
    );
    assert_eq!(
        read_tickets(1, ok("{\"data\":[{\"status\":\"maybe\"}]}")),
        Err(ExpoNotificationError::Decode(DecodeError::UnknownStatus))
    );
    assert_eq!(
        read_receipts(ok("{\"data\":7}")).err(),
        Some(ExpoNotificationError::Decode(DecodeError::MissingData))
    );
}

#[test]
fn wrong_number_of_tickets_is_refused() {
    let one = "{\"data\":[{\"status\":\"ok\",\"id\":\"a\"}]}";
    assert_eq!(
        read_tickets(2, ok(one)),
        Err(ExpoNotificationError::TicketCount { sent: 2, received: 1 })
    );
    assert_eq!(
        read_tickets(0, ok(one)),
        Err(ExpoNotificationError::TicketCount { sent: 0, received: 1 })
    );
    assert_eq!(
        read_tickets(3, ok("{\"data\":[]}")),
        Err(ExpoNotificationError::TicketCount { sent: 3, received: 0 })
    );
}

#[test]
fn error_ticket_is_no_failure_of_the_call() {
    let tickets = read_tickets(1, ok("{\"data\":[{\"status\":\"error\",\"message\":\"no\"}]}")).unwrap();
    assert_eq!(tickets, vec![PushTicket::Error { message: "no".to_string(), details: None }]);
}

#[test]
fn single_ticket() {
    assert_eq!(
        read_ticket(ok("{\"data\":[{\"status\":\"ok\",\"id\":\"only\"}]}")),
        Ok(PushTicket::Accepted { id: PushReceiptId::new("only".to_string()) })
    );
    assert_eq!(
        read_ticket(ok("{\"data\":[]}")),
        Err(ExpoNotificationError::TicketCount { sent: 1, received: 0 })
    );
    assert_eq!(
        read_ticket(ok(
            "{\"data\":[{\"status\":\"ok\",\"id\":\"a\"},{\"status\":\"ok\",\"id\":\"b\"}]}"
        )),
        Err(ExpoNotificationError::TicketCount { sent: 1, received: 2 })
    );
    assert_eq!(read_ticket(None), Err(ExpoNotificationError::Request { status: None }));
}

#[test]
fn receipts_of_a_response() {
    let receipts = read_receipts(ok("{\"data\":{\"a\":{\"status\":\"ok\"}}}")).unwrap();
    assert_eq!(receipts.get(&PushReceiptId::new("a".to_string())), Some(&PushReceipt::Delivered {}));
    assert_eq!(receipts.get(&PushReceiptId::new("b".to_string())), None);
}
