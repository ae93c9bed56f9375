use expo_server_sdk::dispatch::Action;
use expo_server_sdk::error::DecodeError;
use expo_server_sdk::message::{Priority, PushMessage, PushToken, Sound};
use expo_server_sdk::notifier::{read_receipts, read_ticket};
use expo_server_sdk::request::{HttpResponse, PushRequest};
use expo_server_sdk::response::{PushReceipt, PushReceiptId, PushTicket};
use expo_server_sdk::{ExpoNotificationError, GzipPolicy, PushNotifier};
use std::io::Read;

/// The body of a request as the server reads it.
fn plain_body(request: &PushRequest) -> Vec<u8> {
    let gzipped = request.headers.iter().any(|(name, value)| name == "Content-Encoding" && value == "gzip");
    if gzipped {
        let mut out = Vec::new();
        flate2::read::GzDecoder::new(&request.body[..]).read_to_end(&mut out).unwrap();
        out
    } else {
        request.body.clone()
    }
}

/// A server that accepts every message, and names each ticket after the
/// body of its message.
fn accept_all(request: &PushRequest) -> Option<HttpResponse> {
    let doc: serde_json::Value = serde_json::from_slice(&plain_body(request)).unwrap();
    let tickets: Vec<String> = doc
        .as_array()
        .unwrap()
        .iter()
        .map(|m| {
            let body = m.get("body").and_then(|b| b.as_str()).unwrap_or("none");
            format!("{{\"status\":\"ok\",\"id\":\"id-{}\"}}", body)
        })
        .collect();
    Some(HttpResponse {
        status: 200,
        body: format!("{{\"data\":[{}]}}", tickets.join(",")).into_bytes(),
    })
}

/// A server that resolves every id it is asked for.
fn resolve_all(request: &PushRequest) -> Option<HttpResponse> {
    let doc: serde_json::Value = serde_json::from_slice(&plain_body(request)).unwrap();
    let receipts: Vec<String> = doc
        .get("ids")
        .unwrap()
        .as_array()
        .unwrap()
        .iter()
        .map(|id| format!("\"{}\":{{\"status\":\"ok\"}}", id.as_str().unwrap()))
        .collect();
    Some(HttpResponse {
        status: 200,
        body: format!("{{\"data\":{{{}}}}}", receipts.join(",")).into_bytes(),
    })
}

/// Runs a dispatch against a server, and counts the requests.
fn send_all(
    notifier: &PushNotifier,
    messages: &[PushMessage],
    server: &mut dyn FnMut(&PushRequest) -> Option<HttpResponse>,
) -> (Result<Vec<PushTicket>, ExpoNotificationError>, usize) {
    let mut requests = 0;
    let mut action = notifier.begin(messages);
    loop {
        match action {
            Action::Send { request, dispatch } => {
                requests += 1;
                action = dispatch.resume(server(&request));
            }
            Action::Finish(tickets) => return (Ok(tickets), requests),
            Action::Fail(e) => return (Err(e), requests),
        }
    }
}

fn create_push_message() -> PushMessage {
    PushMessage {
        to: PushToken::try_from("ExponentPushToken[xxxxxxxxxxxxxxxxxxxxxx]".to_string()).unwrap(),
        data: None,
        title: Some("hello".to_owned()),
        body: None,
        sound: Some(Sound::default()),
        ttl: None,
        expiration: None,
        priority: Some(Priority::default()),
        badge: None,
    }
}

fn create_client() -> PushNotifier {
    PushNotifier::new().authorization(None)
}

fn unwrap_ticket(ticket: PushTicket) -> PushReceiptId {
    match ticket {
        PushTicket::Accepted { id } => id,
        PushTicket::Error { message, details } => {
            panic!("push ticket gives an error {message} {details:?}");
        }
    }
}

fn unwrap_receipt(receipt: PushReceipt) {
    match receipt {
        PushReceipt::Delivered {} => {}
        PushReceipt::Error { message, details } => {
            panic!("push receipt gives an error {message} {details:?}");
        }
    }
}

fn send_push_notifications(client: PushNotifier) {
    let n = 10;
    let msgs: Vec<PushMessage> = (0..n)
        .map(|i: i32| {
            let mut msg = create_push_message();
            msg.body = Some(i.to_string());
            msg
        })
        .collect();
    let (result, _) = send_all(&client, &msgs, &mut accept_all);
    match result {
        Ok(receipts) => {
            assert_eq!(n, receipts.len() as i32);
            receipts.into_iter().for_each(|t| {
                unwrap_ticket(t);
            });
        }
        Err(e) => {
            panic!("push notifier encountered an error {e:?}");
        }
    }
}

#[test]
fn send_push_notification() {
    let msg = create_push_message();
    let client = create_client();
    let request = client.build_request(&[msg]).unwrap();
    let result = read_ticket(accept_all(&request));
    match result {
        Ok(ticket) => {
            unwrap_ticket(ticket);
        }
        Err(e) => {
            panic!("push notifier encountered an error {e:?}");
        }
    }
}

#[test]
fn send_push_notifications_gzip() {
    let client = create_client().gzip(GzipPolicy::Always);
    send_push_notifications(client);
}

#[test]
fn send_push_notifications_no_gzip() {
    let client = create_client().gzip(GzipPolicy::Never);
    send_push_notifications(client);
}

#[test]
fn send_and_check_receipts() {
    let client = create_client();
    let request = client.build_request(&[create_push_message()]).unwrap();
    let ticket = read_ticket(accept_all(&request)).unwrap();
    let id = unwrap_ticket(ticket);
    let query = client.build_receipts_request(&[id.clone()]).unwrap();
    let receipts = read_receipts(resolve_all(&query)).unwrap();
    let receipt = receipts.get(&id).unwrap().clone();
    unwrap_receipt(receipt);
}

#[test]
fn one_message_gives_one_ticket_and_later_a_receipt() {
    let notifier = PushNotifier::new();
    let msg = PushMessage::new(PushToken::try_from("ExponentPushToken[abc]".to_string()).unwrap())
        .body("hi".to_string());
    let (result, requests) = send_all(&notifier, &[msg], &mut accept_all);
    assert_eq!(requests, 1);
    let tickets = result.unwrap();
    assert_eq!(tickets, vec![PushTicket::Accepted { id: PushReceiptId::new("id-hi".to_string()) }]);
    let id = PushReceiptId::new("id-hi".to_string());
    let query = notifier.build_receipts_request(&[id.clone()]).unwrap();
    assert_eq!(query.url, "https://exp.host/--/api/v2/push/getReceipts");
    let receipts = read_receipts(resolve_all(&query)).unwrap();
    assert_eq!(receipts.get(&id), Some(&PushReceipt::Delivered {}));
    let failed = read_receipts(Some(HttpResponse {
        status: 200,
        body: b"{\"data\":{\"id-hi\":{\"status\":\"error\",\"message\":\"gone\",\
                \"details\":{\"error\":\"SomethingNew\"}}}}"
            .to_vec(),
    }))
    .unwrap();
    assert!(matches!(failed.get(&id), Some(PushReceipt::Error { .. })));
}

#[test]
fn ten_messages_in_chunks_of_two() {
    let notifier = PushNotifier::new().chunk_size(2);
    let msgs: Vec<PushMessage> = (0..10)
        .map(|i| {
            PushMessage::new(PushToken::try_from("ExpoPushToken[a]".to_string()).unwrap())
                .body(format!("{}", i))
        })
        .collect();
    let mut bodies: Vec<String> = Vec::new();
    let mut server = |request: &PushRequest| {
        bodies.push(String::from_utf8(plain_body(request)).unwrap());
        accept_all(request)
    };
    let (result, requests) = send_all(&notifier, &msgs, &mut server);
    assert_eq!(requests, 5);
    let tickets = result.unwrap();
    assert_eq!(tickets.len(), 10);
    for (i, ticket) in tickets.into_iter().enumerate() {
        assert_eq!(ticket, PushTicket::Accepted { id: PushReceiptId::new(format!("id-{}", i)) });
    }
    assert_eq!(bodies.len(), 5);
    for (k, body) in bodies.iter().enumerate() {
        assert_eq!(
            *body,
            format!(
                "[{{\"body\":\"{}\",\"to\":\"ExpoPushToken[a]\"}},{{\"body\":\"{}\",\"to\":\"ExpoPushToken[a]\"}}]",
                2 * k,
                2 * k + 1
            )
        );
    }
}

#[test]
fn three_messages_in_one_chunk_keep_their_order() {
    let notifier = PushNotifier::new();
    let msgs: Vec<PushMessage> = ["A", "B", "C"]
        .iter()
        .map(|b| {
            PushMessage::new(PushToken::try_from("ExpoPushToken[a]".to_string()).unwrap())
                .body(b.to_string())
        })
        .collect();
    let (result, requests) = send_all(&notifier, &msgs, &mut accept_all);
    assert_eq!(requests, 1);
    assert_eq!(
        result.unwrap(),
        vec![
            PushTicket::Accepted { id: PushReceiptId::new("id-A".to_string()) },
            PushTicket::Accepted { id: PushReceiptId::new("id-B".to_string()) },
            PushTicket::Accepted { id: PushReceiptId::new("id-C".to_string()) },
        ]
    );
}

#[test]
fn last_chunk_of_a_dispatch_may_be_shorter() {
    let notifier = PushNotifier::new().chunk_size(3);
    let msgs: Vec<PushMessage> = (0..7)
        .map(|i| {
            PushMessage::new(PushToken::try_from("ExpoPushToken[a]".to_string()).unwrap())
                .body(format!("{}", i))
        })
        .collect();
    let mut sizes: Vec<usize> = Vec::new();
    let mut server = |request: &PushRequest| {
        let doc: serde_json::Value = serde_json::from_slice(&plain_body(request)).unwrap();
        sizes.push(doc.as_array().unwrap().len());
        accept_all(request)
    };
    let (result, requests) = send_all(&notifier, &msgs, &mut server);
    assert_eq!(requests, 3);
    assert_eq!(result.unwrap().len(), 7);
    assert_eq!(sizes, vec![3, 3, 1]);
}

#[test]
fn no_message_needs_no_request() {
    let notifier = PushNotifier::new();
    let (result, requests) = send_all(&notifier, &[], &mut accept_all);
    assert_eq!(requests, 0);
    assert_eq!(result, Ok(Vec::new()));
}

#[test]
fn chunk_size_zero_fails_the_dispatch() {
    let notifier = PushNotifier::new().chunk_size(0);
    let (result, requests) = send_all(&notifier, &[create_push_message()], &mut accept_all);
    assert_eq!(requests, 0);
    assert_eq!(result, Err(ExpoNotificationError::ChunkSize));
    let (empty, _) = send_all(&notifier, &[], &mut accept_all);
    assert_eq!(empty, Err(ExpoNotificationError::ChunkSize));
}

#[test]
fn first_failure_ends_the_dispatch() {
    let notifier = PushNotifier::new().chunk_size(2);
    let msgs: Vec<PushMessage> = (0..10).map(|_| create_push_message()).collect();
    let mut seen = 0;
    let mut server = |request: &PushRequest| {
        seen += 1;
        if seen == 3 {
            Some(HttpResponse { status: 503, body: Vec::new() })
        } else {
            accept_all(request)
        }
    };
    let (result, requests) = send_all(&notifier, &msgs, &mut server);
    assert_eq!(requests, 3);
    assert_eq!(result, Err(ExpoNotificationError::Request { status: Some(503) }));
}

#[test]
fn lost_connection_ends_the_dispatch() {
    let notifier = PushNotifier::new().chunk_size(1);
    let msgs: Vec<PushMessage> = (0..3).map(|_| create_push_message()).collect();
    let mut server = |_: &PushRequest| None;
    let (result, requests) = send_all(&notifier, &msgs, &mut server);
    assert_eq!(requests, 1);
    assert_eq!(result, Err(ExpoNotificationError::Request { status: None }));
}

#[test]
fn short_answer_ends_the_dispatch() {
    let notifier = PushNotifier::new().chunk_size(2);
    let msgs: Vec<PushMessage> = (0..4).map(|_| create_push_message()).collect();
    let mut server = |_: &PushRequest| {
        Some(HttpResponse { status: 200, body: b"{\"data\":[{\"status\":\"ok\",\"id\":\"a\"}]}".to_vec() })
    };
    let (result, requests) = send_all(&notifier, &msgs, &mut server);
    assert_eq!(requests, 1);
    assert_eq!(result, Err(ExpoNotificationError::TicketCount { sent: 2, received: 1 }));
}

#[test]
fn unreadable_answer_ends_the_dispatch() {
    let notifier = PushNotifier::new();
    let mut server = |_: &PushRequest| Some(HttpResponse { status: 200, body: b"<html>".to_vec() });
    let (result, requests) = send_all(&notifier, &[create_push_message()], &mut server);
    assert_eq!(requests, 1);
    assert_eq!(result, Err(ExpoNotificationError::Decode(DecodeError::InvalidJson)));
}

#[test]
fn awaited_is_the_size_of_the_chunk_in_flight() {
    let notifier = PushNotifier::new().chunk_size(2);
    let msgs: Vec<PushMessage> = (0..3).map(|_| create_push_message()).collect();
    let first = match notifier.begin(&msgs) {
        Action::Send { request, dispatch } => {
            assert_eq!(dispatch.awaited(), 2);
            dispatch.resume(accept_all(&request))
        }
        _ => panic!("nothing was sent"),
    };
    match first {
        Action::Send { dispatch, .. } => assert_eq!(dispatch.awaited(), 1),
        _ => panic!("the second chunk was not sent"),
    }
}

#[test]
fn requests_of_a_dispatch_carry_the_configuration() {
    let notifier = PushNotifier::new()
        .url("http://localhost:1/send".to_string())
        .authorization(Some("secret".to_string()))
        .gzip(GzipPolicy::Always);
    let msgs = vec![create_push_message()];
    match notifier.begin(&msgs) {
        Action::Send { request, .. } => {
            assert_eq!(request.url, "http://localhost:1/send");
            assert!(request.headers.contains(&("Authorization".to_string(), "Bearer secret".to_string())));
            assert!(request.headers.contains(&("Content-Encoding".to_string(), "gzip".to_string())));
            assert_eq!(
                String::from_utf8(plain_body(&request)).unwrap(),
                "[{\"priority\":\"default\",\"sound\":\"default\",\"title\":\"hello\",\
                 \"to\":\"ExponentPushToken[xxxxxxxxxxxxxxxxxxxxxx]\"}]"
            );
        }
        _ => panic!("nothing was sent"),
    }
}
