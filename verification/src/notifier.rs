//! The client's configuration, the requests it makes and how it reads the
//! responses.

use crate::chunk::DEFAULT_CHUNK_SIZE;
use crate::compress::{encode_body, encoded_body};
use crate::error::{DecodeError, ExpoNotificationError};
use crate::gzip_policy::{GzipPolicy, DEFAULT_GZIP_THRESHOLD};
use crate::message::{batch_text, serialize_messages, text_of, PushMessage};
use crate::request::{
    is_success, make_headers, outcome_view, request_headers, HttpResponse, HttpResponseView,
    PushRequest, PushRequestView,
};
use crate::response::{
    decode_receipt_response, decode_ticket_response, reads_receipt_response, receipts_query_text,
    serialize_receipts_query, ticket_response, tickets_view, PushReceiptId, PushReceipts,
    PushTicket, ReceiptView, TicketView,
};
use vstd::prelude::*;

verus! {

/// The configuration of a client: where requests go, the credential, the
/// compression policy and the chunk size.
#[derive(Debug, PartialEq, Eq)]
pub struct PushNotifier {
    /// Where messages are sent.
    pub url: String,
    /// Where receipts are asked for.
    pub receipts_url: String,
    /// The access token, where enhanced push security is enabled.
    pub authorization: Option<String>,
    pub gzip: GzipPolicy,
    /// The most messages that go into one request. The server takes up to 100.
    pub chunk_size: usize,
}

/// What a configuration holds.
pub struct PushNotifierView {
    pub url: Seq<char>,
    pub receipts_url: Seq<char>,
    pub authorization: Option<Seq<char>>,
    pub gzip: GzipPolicy,
    pub chunk_size: usize,
}

impl View for PushNotifier {
    type V = PushNotifierView;

    open spec fn view(&self) -> PushNotifierView {
        PushNotifierView {
            url: self.url@,
            receipts_url: self.receipts_url@,
            authorization: text_of(self.authorization),
            gzip: self.gzip,
            chunk_size: self.chunk_size,
        }
    }
}

impl PushNotifierView {
    /// The request that carries a serialized body to `url`, where there is a
    /// body and it can be encoded.
    pub open spec fn request(self, url: Seq<char>, text: Option<Seq<u8>>) -> Option<PushRequestView> {
        match text {
            None => None,
            Some(plain) => match encoded_body(self.gzip, plain) {
                None => None,
                Some((bytes, gzipped)) => Some(
                    PushRequestView {
                        url,
                        headers: request_headers(self.authorization, gzipped),
                        body: bytes,
                    },
                ),
            },
        }
    }

    /// The request that sends a batch of messages.
    pub open spec fn push_request(self, messages: Seq<PushMessage>) -> Option<PushRequestView> {
        self.request(self.url, batch_text(messages))
    }

    /// The request that asks for the receipts of some ids.
    pub open spec fn receipts_request(self, ids: Seq<PushReceiptId>) -> Option<PushRequestView> {
        self.request(self.receipts_url, receipts_query_text(ids))
    }
}

/// What the outcome of sending `sent` messages in one request amounts to.
/// Without a response, or with a status that is no success, the exchange
/// failed. A body that holds no list of tickets is refused, and so is a list
/// with another number of tickets than messages were sent.
pub open spec fn tickets_outcome(sent: usize, outcome: Option<HttpResponseView>) -> Result<
    Seq<TicketView>,
    ExpoNotificationError,
> {
    match outcome {
        None => Err(ExpoNotificationError::Request { status: None }),
        Some(response) => if !is_success(response.status) {
            Err(ExpoNotificationError::Request { status: Some(response.status) })
        } else {
            match ticket_response(response.body) {
                Err(e) => Err(ExpoNotificationError::Decode(e)),
                Ok(tickets) => if tickets.len() == sent {
                    Ok(tickets)
                } else {
                    Err(
                        ExpoNotificationError::TicketCount {
                            sent,
                            received: tickets.len() as usize,
                        },
                    )
                },
            }
        },
    }
}

/// The body of a response to a query for receipts, where the exchange
/// succeeded, and else the failure.
pub open spec fn receipts_body(outcome: Option<HttpResponseView>) -> Result<Seq<u8>, ExpoNotificationError> {
    match outcome {
        None => Err(ExpoNotificationError::Request { status: None }),
        Some(response) => if !is_success(response.status) {
            Err(ExpoNotificationError::Request { status: Some(response.status) })
        } else {
            Ok(response.body)
        },
    }
}

impl PushNotifier {
    /// A client for the Expo push notification server, with the default
    /// policy and the chunk size that the server takes.
    pub fn new() -> (notifier: PushNotifier)
        ensures
            notifier@ == (PushNotifierView {
                url: "https://exp.host/--/api/v2/push/send"@,
                receipts_url: "https://exp.host/--/api/v2/push/getReceipts"@,
                authorization: None,
                gzip: GzipPolicy::ZipGreaterThanTreshold(DEFAULT_GZIP_THRESHOLD),
                chunk_size: DEFAULT_CHUNK_SIZE,
            }),
    {
        PushNotifier {
            url: "https://exp.host/--/api/v2/push/send".to_owned(),
            receipts_url: "https://exp.host/--/api/v2/push/getReceipts".to_owned(),
            authorization: None,
            gzip: GzipPolicy::ZipGreaterThanTreshold(DEFAULT_GZIP_THRESHOLD),
            chunk_size: DEFAULT_CHUNK_SIZE,
        }
    }

    /// Sets the URL to which messages are sent.
    pub fn url(self, url: String) -> (notifier: PushNotifier)
        ensures
            notifier@ == (PushNotifierView { url: url@, ..self@ }),
    {
        let mut notifier = self;
        notifier.url = url;
        notifier
    }

    /// Sets the URL at which receipts are asked for.
    pub fn receipts_url(self, url: String) -> (notifier: PushNotifier)
        ensures
            notifier@ == (PushNotifierView { receipts_url: url@, ..self@ }),
    {
        let mut notifier = self;
        notifier.receipts_url = url;
        notifier
    }

    /// Sets the access token, or takes it away.
    pub fn authorization(self, token: Option<String>) -> (notifier: PushNotifier)
        ensures
            notifier@ == (PushNotifierView { authorization: text_of(token), ..self@ }),
    {
        let mut notifier = self;
        notifier.authorization = token;
        notifier
    }

    /// Sets the policy under which request bodies are compressed.
    pub fn gzip(self, gzip: GzipPolicy) -> (notifier: PushNotifier)
        ensures
            notifier@ == (PushNotifierView { gzip, ..self@ }),
    {
        let mut notifier = self;
        notifier.gzip = gzip;
        notifier
    }

    /// Sets the most messages that go into one request.
    pub fn chunk_size(self, chunk_size: usize) -> (notifier: PushNotifier)
        ensures
            notifier@ == (PushNotifierView { chunk_size, ..self@ }),
    {
        let mut notifier = self;
        notifier.chunk_size = chunk_size;
        notifier
    }

    /// Makes the request that carries a serialized body to `url`.
    fn make_request(&self, url: &String, text: Option<Vec<u8>>) -> (res: Result<
        PushRequest,
        ExpoNotificationError,
    >)
        ensures
            match res {
                Ok(request) => self@.request(
                    url@,
                    match text {
                        Some(plain) => Some(plain@),
                        None => None,
                    },
                ) == Some(request@),
                Err(e) => e == ExpoNotificationError::Io && self@.request(
                    url@,
                    match text {
                        Some(plain) => Some(plain@),
                        None => None,
                    },
                ) is None,
            },
    {
        let plain = match text {
            Some(plain) => plain,
            None => {
                return Err(ExpoNotificationError::Io);
            },
        };
        let body = encode_body(self.gzip, plain)?;
        Ok(
            PushRequest {
                url: url.clone(),
                headers: make_headers(self.authorization.as_ref(), body.gzipped),
                body: body.bytes,
            },
        )
    }

    /// Makes the one request that sends a batch of messages: the batch is
    /// serialized as an array in the order given, and compressed where the
    /// policy says so. The call fails, with `Io`, exactly where the body
    /// cannot be serialized or compressed.
    pub fn build_request(&self, messages: &[PushMessage]) -> (res: Result<
        PushRequest,
        ExpoNotificationError,
    >)
        ensures
            match res {
                Ok(request) => self@.push_request(messages@) == Some(request@),
                Err(e) => e == ExpoNotificationError::Io && self@.push_request(messages@) is None,
            },
    {
        self.make_request(&self.url, serialize_messages(messages))
    }

    /// Makes the request that asks for the receipts of some ids. The call
    /// fails, with `Io`, exactly where the body cannot be serialized or
    /// compressed.
    pub fn build_receipts_request(&self, ids: &[PushReceiptId]) -> (res: Result<
        PushRequest,
        ExpoNotificationError,
    >)
        ensures
            match res {
                Ok(request) => self@.receipts_request(ids@) == Some(request@),
                Err(e) => e == ExpoNotificationError::Io && self@.receipts_request(ids@) is None,
            },
    {
        self.make_request(&self.receipts_url, serialize_receipts_query(ids))
    }
}

/// Reads the tickets for `sent` messages from the outcome of the exchange
/// that sent them. The tickets come in the order of the messages.
pub fn read_tickets(sent: usize, outcome: Option<HttpResponse>) -> (res: Result<
    Vec<PushTicket>,
    ExpoNotificationError,
>)
    ensures
        match res {
            Ok(tickets) => tickets_outcome(sent, outcome_view(outcome)) == Ok::<
                Seq<TicketView>,
                ExpoNotificationError,
            >(tickets_view(tickets@)),
            Err(e) => tickets_outcome(sent, outcome_view(outcome)) == Err::<
                Seq<TicketView>,
                ExpoNotificationError,
            >(e),
        },
{
    let response = match outcome {
        Some(response) => response,
        None => {
            return Err(ExpoNotificationError::Request { status: None });
        },
    };
    if !response.is_success() {
        return Err(ExpoNotificationError::Request { status: Some(response.status) });
    }
    match decode_ticket_response(response.body.as_slice()) {
        Err(e) => Err(ExpoNotificationError::Decode(e)),
        Ok(tickets) => {
            if tickets.len() == sent {
                Ok(tickets)
            } else {
                Err(ExpoNotificationError::TicketCount { sent, received: tickets.len() })
            }
        },
    }
}

/// Reads the ticket of a single message from the outcome of the exchange
/// that sent it alone.
pub fn read_ticket(outcome: Option<HttpResponse>) -> (res: Result<PushTicket, ExpoNotificationError>)
    ensures
        match res {
            Ok(ticket) => tickets_outcome(1, outcome_view(outcome)) == Ok::<
                Seq<TicketView>,
                ExpoNotificationError,
            >(seq![ticket@]),
            Err(e) => tickets_outcome(1, outcome_view(outcome)) == Err::<
                Seq<TicketView>,
                ExpoNotificationError,
            >(e),
        },
{
    let mut tickets = read_tickets(1, outcome)?;
    let ghost all = tickets@;
    match tickets.pop() {
        Some(ticket) => {
            proof {
                assert(tickets_view(all) =~= seq![ticket@]);
            }
            Ok(ticket)
        },
        None => Err(ExpoNotificationError::TicketCount { sent: 1, received: 0 }),
    }
}

/// Reads the receipts from the outcome of a query. Without a response, or
/// with a status that is no success, the exchange failed. Else the result is
/// a reading of the body: the receipts that it holds, each under its id, or
/// why it holds none. An id that the server did not answer for has no receipt.
pub fn read_receipts(outcome: Option<HttpResponse>) -> (res: Result<PushReceipts, ExpoNotificationError>)
    ensures
        match receipts_body(outcome_view(outcome)) {
            Err(failure) => res matches Err(e) && e == failure,
            Ok(body) => match res {
                Ok(receipts) => reads_receipt_response(
                    body,
                    Ok::<Map<Seq<char>, ReceiptView>, DecodeError>(receipts@),
                ),
                Err(e) => e matches ExpoNotificationError::Decode(cause) && reads_receipt_response(
                    body,
                    Err::<Map<Seq<char>, ReceiptView>, DecodeError>(cause),
                ),
            },
        },
{
    let response = match outcome {
        Some(response) => response,
        None => {
            return Err(ExpoNotificationError::Request { status: None });
        },
    };
    if !response.is_success() {
        return Err(ExpoNotificationError::Request { status: Some(response.status) });
    }
    match decode_receipt_response(response.body.as_slice()) {
        Ok(receipts) => Ok(receipts),
        Err(e) => Err(ExpoNotificationError::Decode(e)),
    }
}

} // verus!
