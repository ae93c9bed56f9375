use expo_server_sdk::error::DecodeError;
use expo_server_sdk::message::PushToken;
use expo_server_sdk::response::{
    decode_receipt_response, decode_ticket_response, receipts_query_to_json,
    serialize_receipts_query, PushReceipt, PushReceiptErrorDetails, PushReceiptId, PushReceipts,
    PushTicket,
};
use serde_json::Value;

fn json(text: &str) -> Value {
    serde_json::from_str(text).unwrap()
}

fn id(text: &str) -> PushReceiptId {
    PushReceiptId::new(text.to_string())
}

#[test]
fn ticket_ok_carries_its_id() {
    let ticket = PushTicket::from_json(&json("{\"status\":\"ok\",\"id\":\"abc-123\"}")).unwrap();
    assert_eq!(ticket, PushTicket::Accepted { id: id("abc-123") });
}

#[test]
fn ticket_error_with_known_details() {
    let ticket = PushTicket::from_json(&json(
        "{\"status\":\"error\",\"message\":\"not registered\",\
         \"details\":{\"error\":\"DeviceNotRegistered\",\"expoPushToken\":\"ExpoPushToken[x]\"}}",
    ))
    .unwrap();
    assert_eq!(
        ticket,
        PushTicket::Error {
            message: "not registered".to_string(),
            details: Some(PushReceiptErrorDetails::DeviceNotRegistered {
                expo_push_token: PushToken::try_from("ExpoPushToken[x]".to_string()).unwrap(),
            }),
        }
    );
}

#[test]
fn ticket_error_without_details() {
    let missing = PushTicket::from_json(&json("{\"status\":\"error\",\"message\":\"m\"}")).unwrap();
    let null = PushTicket::from_json(&json(
        "{\"status\":\"error\",\"message\":\"m\",\"details\":null}",
    ))
    .unwrap();
    let expected = PushTicket::Error { message: "m".to_string(), details: None };
    assert_eq!(missing, expected);
    assert_eq!(null, expected);
}

#[test]
fn unknown_status_is_refused() {
    assert_eq!(
        PushTicket::from_json(&json("{\"status\":\"pending\",\"id\":\"a\"}")),
        Err(DecodeError::UnknownStatus)
    );
    assert_eq!(
        PushTicket::from_json(&json("{\"status\":\"OK\",\"id\":\"a\"}")),
        Err(DecodeError::UnknownStatus)
    );
    assert_eq!(
        PushReceipt::from_json(&json("{\"status\":\"queued\"}")),
        Err(DecodeError::UnknownStatus)
    );
}

#[test]
fn missing_parts_of_a_ticket_are_refused() {
    assert_eq!(PushTicket::from_json(&json("{\"id\":\"a\"}")), Err(DecodeError::MissingStatus));
    assert_eq!(PushTicket::from_json(&json("{\"status\":1}")), Err(DecodeError::MissingStatus));
    assert_eq!(PushTicket::from_json(&json("[]")), Err(DecodeError::MissingStatus));
    assert_eq!(PushTicket::from_json(&json("\"ok\"")), Err(DecodeError::MissingStatus));
    assert_eq!(PushTicket::from_json(&json("{\"status\":\"ok\"}")), Err(DecodeError::MissingId));
    assert_eq!(
        PushTicket::from_json(&json("{\"status\":\"ok\",\"id\":7}")),
        Err(DecodeError::MissingId)
    );
    assert_eq!(
        PushTicket::from_json(&json("{\"status\":\"error\"}")),
        Err(DecodeError::MissingMessage)
    );
    assert_eq!(
        PushTicket::from_json(&json("{\"status\":\"error\",\"message\":null}")),
        Err(DecodeError::MissingMessage)
    );
}

#[test]
fn other_members_of_a_ticket_are_ignored() {
    let ticket = PushTicket::from_json(&json(
        "{\"status\":\"ok\",\"id\":\"a\",\"message\":\"x\",\"details\":{},\"more\":1}",
    ))
    .unwrap();
    assert_eq!(ticket, PushTicket::Accepted { id: id("a") });
}

#[test]
fn known_causes() {
    assert_eq!(
        PushReceiptErrorDetails::from_json(&json("{\"error\":\"InvalidCredentials\"}")),
        PushReceiptErrorDetails::InvalidCredentials {}
    );
    assert_eq!(
        PushReceiptErrorDetails::from_json(&json("{\"error\":\"MessageTooBig\",\"x\":1}")),
        PushReceiptErrorDetails::MessageTooBig {}
    );
    assert_eq!(
        PushReceiptErrorDetails::from_json(&json("{\"error\":\"MessageRateExceeded\"}")),
        PushReceiptErrorDetails::MessageRateExceeded {}
    );
    assert_eq!(
        PushReceiptErrorDetails::from_json(&json(
            "{\"error\":\"DeviceNotRegistered\",\"expoPushToken\":\"ExponentPushToken[q]\"}"
        )),
        PushReceiptErrorDetails::DeviceNotRegistered {
            expo_push_token: PushToken::try_from("ExponentPushToken[q]".to_string()).unwrap(),
        }
    );
}

#[test]
fn unknown_causes_are_kept_as_they_came() {
    for text in [
        "{\"error\":\"SomethingNew\",\"hint\":[1,2]}",
        "{\"fault\":\"InvalidCredentials\"}",
        "{\"error\":5}",
        "{\"error\":\"DeviceNotRegistered\"}",
        "{\"error\":\"DeviceNotRegistered\",\"expoPushToken\":\"not a token\"}",
        "{\"error\":\"DeviceNotRegistered\",\"expoPushToken\":12}",
        "{\"error\":\"invalidcredentials\"}",
        "{}",
        "[1,2,3]",
        "\"text\"",
        "17",
        "true",
    ] {
        let raw = json(text);
        assert_eq!(
            PushReceiptErrorDetails::from_json(&raw),
            PushReceiptErrorDetails::UnknownError(raw.clone())
        );
    }
}

#[test]
fn unknown_details_do_not_fail_a_ticket() {
    let ticket = PushTicket::from_json(&json(
        "{\"status\":\"error\",\"message\":\"m\",\"details\":{\"error\":\"Later\",\"n\":1}}",
    ))
    .unwrap();
    assert_eq!(
        ticket,
        PushTicket::Error {
            message: "m".to_string(),
            details: Some(PushReceiptErrorDetails::UnknownError(json(
                "{\"error\":\"Later\",\"n\":1}"
            ))),
        }
    );
    let odd = PushTicket::from_json(&json("{\"status\":\"error\",\"message\":\"m\",\"details\":3}"))
        .unwrap();
    assert_eq!(
        odd,
        PushTicket::Error {
            message: "m".to_string(),
            details: Some(PushReceiptErrorDetails::UnknownError(json("3"))),
        }
    );
}

#[test]
fn details_entry_reads_what_is_under_details() {
    assert_eq!(PushReceiptErrorDetails::from_entry(&json("{}")), None);
    assert_eq!(PushReceiptErrorDetails::from_entry(&json("{\"details\":null}")), None);
    assert_eq!(PushReceiptErrorDetails::from_entry(&json("[]")), None);
    assert_eq!(
        PushReceiptErrorDetails::from_entry(&json("{\"details\":{\"error\":\"MessageTooBig\"}}")),
        Some(PushReceiptErrorDetails::MessageTooBig {})
    );
}

#[test]
fn tickets_come_in_the_order_of_the_response() {
    let tickets = decode_ticket_response(
        b"{\"data\":[{\"status\":\"ok\",\"id\":\"A\"},\
          {\"status\":\"error\",\"message\":\"B\"},\
          {\"status\":\"ok\",\"id\":\"C\"}]}",
    )
    .unwrap();
    assert_eq!(
        tickets,
        vec![
            PushTicket::Accepted { id: id("A") },
            PushTicket::Error { message: "B".to_string(), details: None },
            PushTicket::Accepted { id: id("C") },
        ]
    );
}

#[test]
fn ticket_list_from_a_document() {
    let doc = json("{\"data\":[{\"status\":\"ok\",\"id\":\"1\"}],\"errors\":[]}");
    assert_eq!(PushTicket::list_from_json(&doc), Ok(vec![PushTicket::Accepted { id: id("1") }]));
    assert_eq!(PushTicket::list_from_json(&json("{\"data\":[]}")), Ok(Vec::new()));
}

#[test]
fn ticket_response_without_a_data_array_is_refused() {
    assert_eq!(decode_ticket_response(b"{}"), Err(DecodeError::MissingData));
    assert_eq!(decode_ticket_response(b"{\"data\":{}}"), Err(DecodeError::MissingData));
    assert_eq!(decode_ticket_response(b"{\"data\":null}"), Err(DecodeError::MissingData));
    assert_eq!(decode_ticket_response(b"[{\"status\":\"ok\",\"id\":\"a\"}]"), Err(DecodeError::MissingData));
    assert_eq!(decode_ticket_response(b"{\"errors\":[{\"code\":\"x\"}]}"), Err(DecodeError::MissingData));
}

#[test]
fn ticket_response_that_is_no_json_is_refused() {
    assert_eq!(decode_ticket_response(b""), Err(DecodeError::InvalidJson));
    assert_eq!(decode_ticket_response(b"<html>"), Err(DecodeError::InvalidJson));
    assert_eq!(decode_ticket_response(b"{\"data\":[]} trailing"), Err(DecodeError::InvalidJson));
    assert_eq!(decode_ticket_response(&[0xff, 0xfe]), Err(DecodeError::InvalidJson));
}

#[test]
fn first_bad_ticket_decides_the_error() {
    assert_eq!(
        decode_ticket_response(
            b"{\"data\":[{\"status\":\"ok\",\"id\":\"a\"},{\"status\":\"ok\"},{\"status\":\"what\"}]}"
        ),
        Err(DecodeError::MissingId)
    );
    assert_eq!(
        decode_ticket_response(b"{\"data\":[{\"status\":\"what\"},{\"status\":\"ok\"}]}"),
        Err(DecodeError::UnknownStatus)
    );
    assert_eq!(decode_ticket_response(b"{\"data\":[1]}"), Err(DecodeError::MissingStatus));
}

#[test]
fn receipt_ok_and_error() {
    assert_eq!(PushReceipt::from_json(&json("{\"status\":\"ok\"}")), Ok(PushReceipt::Delivered {}));
    assert_eq!(
        PushReceipt::from_json(&json("{\"status\":\"ok\",\"id\":\"ignored\"}")),
        Ok(PushReceipt::Delivered {})
    );
    assert_eq!(
        PushReceipt::from_json(&json(
            "{\"status\":\"error\",\"message\":\"too big\",\"details\":{\"error\":\"MessageTooBig\"}}"
        )),
        Ok(PushReceipt::Error {
            message: "too big".to_string(),
            details: Some(PushReceiptErrorDetails::MessageTooBig {}),
        })
    );
    assert_eq!(PushReceipt::from_json(&json("{}")), Err(DecodeError::MissingStatus));
    assert_eq!(
        PushReceipt::from_json(&json("{\"status\":\"error\"}")),
        Err(DecodeError::MissingMessage)
    );
}

#[test]
fn receipts_are_found_by_id() {
    let receipts = decode_receipt_response(
        b"{\"data\":{\"one\":{\"status\":\"ok\"},\
          \"two\":{\"status\":\"error\",\"message\":\"gone\",\
          \"details\":{\"error\":\"DeviceNotRegistered\",\"expoPushToken\":\"ExpoPushToken[z]\"}}}}",
    )
    .unwrap();
    assert_eq!(receipts.get(&id("one")), Some(&PushReceipt::Delivered {}));
    assert_eq!(
        receipts.get(&id("two")),
        Some(&PushReceipt::Error {
            message: "gone".to_string(),
            details: Some(PushReceiptErrorDetails::DeviceNotRegistered {
                expo_push_token: PushToken::try_from("ExpoPushToken[z]".to_string()).unwrap(),
            }),
        })
    );
    let mut entries = receipts.into_entries();
    entries.sort_by(|a, b| a.0.as_str().cmp(b.0.as_str()));
    assert_eq!(entries.len(), 2);
    assert_eq!(entries[0].0, id("one"));
    assert_eq!(entries[1].0, id("two"));
}

#[test]
fn unresolved_id_has_no_receipt() {
    let receipts =
        decode_receipt_response(b"{\"data\":{\"known\":{\"status\":\"ok\"}}}").unwrap();
    assert_eq!(receipts.get(&id("pending")), None);
    assert_eq!(receipts.get(&id("")), None);
    assert_eq!(receipts.get(&id("Known")), None);
    let none = decode_receipt_response(b"{\"data\":{}}").unwrap();
    assert_eq!(none.get(&id("known")), None);
    assert_eq!(none.into_entries().len(), 0);
}

#[test]
fn receipts_from_a_document() {
    let receipts =
        PushReceipts::from_json(&json("{\"data\":{\"a\":{\"status\":\"ok\"}},\"more\":1}")).unwrap();
    assert_eq!(receipts.get(&id("a")), Some(&PushReceipt::Delivered {}));
}

#[test]
fn repeated_id_in_a_response_keeps_the_last_receipt() {
    let receipts = decode_receipt_response(
        b"{\"data\":{\"a\":{\"status\":\"error\",\"message\":\"first\"},\"a\":{\"status\":\"ok\"}}}",
    )
    .unwrap();
    assert_eq!(receipts.get(&id("a")), Some(&PushReceipt::Delivered {}));
    assert_eq!(receipts.into_entries().len(), 1);
}

#[test]
fn bad_receipt_responses_are_refused() {
    assert_eq!(decode_receipt_response(b"nope").err(), Some(DecodeError::InvalidJson));
    assert_eq!(decode_receipt_response(b"{}").err(), Some(DecodeError::MissingData));
    assert_eq!(decode_receipt_response(b"{\"data\":[]}").err(), Some(DecodeError::MissingData));
    assert_eq!(
        decode_receipt_response(b"{\"data\":{\"a\":{\"status\":\"later\"}}}").err(),
        Some(DecodeError::UnknownStatus)
    );
    assert_eq!(
        decode_receipt_response(b"{\"data\":{\"a\":{\"status\":\"ok\"},\"b\":7}}").err(),
        Some(DecodeError::MissingStatus)
    );
}

#[test]
fn receipt_id_keeps_its_text() {
    let one = id("abc");
    assert_eq!(one.as_str(), "abc");
    assert_eq!(one.clone(), one);
    assert_ne!(one, id("abd"));
}

#[test]
fn receipts_query_holds_the_ids_in_order() {
    let ids = vec![id("b"), id("a"), id("b")];
    assert_eq!(receipts_query_to_json(&ids), json("{\"ids\":[\"b\",\"a\",\"b\"]}"));
    assert_eq!(
        String::from_utf8(serialize_receipts_query(&ids).unwrap()).unwrap(),
        "{\"ids\":[\"b\",\"a\",\"b\"]}"
    );
    assert_eq!(
        String::from_utf8(serialize_receipts_query(&[]).unwrap()).unwrap(),
        "{\"ids\":[]}"
    );
}
