//! Tickets and receipts, and how they are read from the server's responses.
//!
//! A ticket is the server's immediate answer for one message; a receipt is
//! the final outcome of a message that was given a ticket. Both are tagged by
//! a `status` of `ok` or `error`. Any other status is refused. The details of
//! an error are never refused: a shape that is not known is kept as it came.

use crate::error::DecodeError;
use crate::json::{
    array_value, get_field, get_items, get_members, get_text_field, is_null, json_of, json_seq,
    json_text, lists_object, object_value, parse, parsed_json, print, push_member, text_value, Json,
};
use crate::message::{is_push_token, PushToken};
use crate::text::same_text;
use serde_json::Value;
use vstd::prelude::*;

verus! {

/// The identifier of a receipt, issued by the server with a ticket.
#[derive(Debug, PartialEq, Eq, Hash)]
pub struct PushReceiptId(String);

impl View for PushReceiptId {
    type V = Seq<char>;

    closed spec fn view(&self) -> Seq<char> {
        self.0@
    }
}

impl PushReceiptId {
    /// The identifier with the given text.
    pub fn new(id: String) -> (res: PushReceiptId)
        ensures
            res@ == id@,
    {
        PushReceiptId(id)
    }

    /// The identifier's text.
    pub fn as_str(&self) -> (s: &str)
        ensures
            s@ == self@,
    {
        self.0.as_str()
    }
}

impl Clone for PushReceiptId {
    fn clone(&self) -> (res: Self)
        ensures
            res@ == self@,
    {
        PushReceiptId(self.0.clone())
    }
}

/// Why a message could not be delivered.
#[derive(Debug, PartialEq)]
pub enum PushReceiptErrorDetails {
    /// The device can no longer receive notifications.
    DeviceNotRegistered { expo_push_token: PushToken },
    /// The push credentials are not valid.
    InvalidCredentials {  },
    /// The message is too large.
    MessageTooBig {  },
    /// Messages are sent too fast.
    MessageRateExceeded {  },
    /// A cause that is not known here, as the server sent it.
    UnknownError(Value),
}

/// The server's immediate answer for one message.
#[derive(Debug, PartialEq)]
pub enum PushTicket {
    /// The server took the message, and will answer for it under `id`.
    Accepted { id: PushReceiptId },
    /// The server refused the message.
    Error { message: String, details: Option<PushReceiptErrorDetails> },
}

/// The final outcome of the delivery of one message.
#[derive(Debug, PartialEq)]
pub enum PushReceipt {
    /// The message was delivered.
    Delivered {  },
    /// The message could not be delivered.
    Error { message: String, details: Option<PushReceiptErrorDetails> },
}

/// What the details of an error hold.
pub enum ErrorDetailsView {
    DeviceNotRegistered { expo_push_token: Seq<char> },
    InvalidCredentials,
    MessageTooBig,
    MessageRateExceeded,
    UnknownError(Json),
}

/// What a ticket holds.
pub enum TicketView {
    Accepted { id: Seq<char> },
    Error { message: Seq<char>, details: Option<ErrorDetailsView> },
}

/// What a receipt holds.
pub enum ReceiptView {
    Delivered,
    Error { message: Seq<char>, details: Option<ErrorDetailsView> },
}

impl View for PushReceiptErrorDetails {
    type V = ErrorDetailsView;

    open spec fn view(&self) -> ErrorDetailsView {
        match *self {
            PushReceiptErrorDetails::DeviceNotRegistered { expo_push_token } => {
                ErrorDetailsView::DeviceNotRegistered { expo_push_token: expo_push_token@ }
            },
            PushReceiptErrorDetails::InvalidCredentials {  } => ErrorDetailsView::InvalidCredentials,
            PushReceiptErrorDetails::MessageTooBig {  } => ErrorDetailsView::MessageTooBig,
            PushReceiptErrorDetails::MessageRateExceeded {  } => ErrorDetailsView::MessageRateExceeded,
            PushReceiptErrorDetails::UnknownError(raw) => ErrorDetailsView::UnknownError(json_of(raw)),
        }
    }
}

/// What details hold that may be absent.
pub open spec fn details_view(details: Option<PushReceiptErrorDetails>) -> Option<ErrorDetailsView> {
    match details {
        Some(details) => Some(details@),
        None => None,
    }
}

impl View for PushTicket {
    type V = TicketView;

    open spec fn view(&self) -> TicketView {
        match *self {
            PushTicket::Accepted { id } => TicketView::Accepted { id: id@ },
            PushTicket::Error { message, details } => TicketView::Error {
                message: message@,
                details: details_view(details),
            },
        }
    }
}

impl View for PushReceipt {
    type V = ReceiptView;

    open spec fn view(&self) -> ReceiptView {
        match *self {
            PushReceipt::Delivered {  } => ReceiptView::Delivered,
            PushReceipt::Error { message, details } => ReceiptView::Error {
                message: message@,
                details: details_view(details),
            },
        }
    }
}

impl Clone for PushReceiptErrorDetails {
    fn clone(&self) -> (res: Self)
        ensures
            res@ == self@,
    {
        match self {
            PushReceiptErrorDetails::DeviceNotRegistered { expo_push_token } => {
                PushReceiptErrorDetails::DeviceNotRegistered {
                    expo_push_token: expo_push_token.clone(),
                }
            },
            PushReceiptErrorDetails::InvalidCredentials {  } => {
                PushReceiptErrorDetails::InvalidCredentials {  }
            },
            PushReceiptErrorDetails::MessageTooBig {  } => PushReceiptErrorDetails::MessageTooBig {  },
            PushReceiptErrorDetails::MessageRateExceeded {  } => {
                PushReceiptErrorDetails::MessageRateExceeded {  }
            },
            PushReceiptErrorDetails::UnknownError(raw) => PushReceiptErrorDetails::UnknownError(
                raw.clone(),
            ),
        }
    }
}

/// Copies details that may be absent.
fn clone_details(details: &Option<PushReceiptErrorDetails>) -> (res: Option<PushReceiptErrorDetails>)
    ensures
        details_view(res) == details_view(*details),
{
    match details {
        Some(details) => Some(details.clone()),
        None => None,
    }
}

impl Clone for PushTicket {
    fn clone(&self) -> (res: Self)
        ensures
            res@ == self@,
    {
        match self {
            PushTicket::Accepted { id } => PushTicket::Accepted { id: id.clone() },
            PushTicket::Error { message, details } => PushTicket::Error {
                message: message.clone(),
                details: clone_details(details),
            },
        }
    }
}

impl Clone for PushReceipt {
    fn clone(&self) -> (res: Self)
        ensures
            res@ == self@,
    {
        match self {
            PushReceipt::Delivered {  } => PushReceipt::Delivered {  },
            PushReceipt::Error { message, details } => PushReceipt::Error {
                message: message.clone(),
                details: clone_details(details),
            },
        }
    }
}

/// What a list of tickets holds, in order.
pub open spec fn tickets_view(tickets: Seq<PushTicket>) -> Seq<TicketView> {
    tickets.map_values(|t: PushTicket| t@)
}

/// The details that a document describes. A known cause is an object whose
/// `error` member names it; `DeviceNotRegistered` also needs a push token
/// under `expoPushToken`. Anything else is kept as it is.
pub open spec fn details_of(doc: Json) -> ErrorDetailsView {
    if !doc.has_text_field("error"@) {
        ErrorDetailsView::UnknownError(doc)
    } else if doc.text_field("error"@) == "DeviceNotRegistered"@ {
        if doc.has_text_field("expoPushToken"@) && is_push_token(doc.text_field("expoPushToken"@)) {
            ErrorDetailsView::DeviceNotRegistered { expo_push_token: doc.text_field("expoPushToken"@) }
        } else {
            ErrorDetailsView::UnknownError(doc)
        }
    } else if doc.text_field("error"@) == "InvalidCredentials"@ {
        ErrorDetailsView::InvalidCredentials
    } else if doc.text_field("error"@) == "MessageTooBig"@ {
        ErrorDetailsView::MessageTooBig
    } else if doc.text_field("error"@) == "MessageRateExceeded"@ {
        ErrorDetailsView::MessageRateExceeded
    } else {
        ErrorDetailsView::UnknownError(doc)
    }
}

/// The details of an entry: those under `details`, unless that member is
/// missing or `null`.
pub open spec fn details_member(entry: Json) -> Option<ErrorDetailsView> {
    if entry.has_field("details"@) && !(entry.field("details"@) is Null) {
        Some(details_of(entry.field("details"@)))
    } else {
        None
    }
}

/// The ticket that a document describes, or why it describes none.
pub open spec fn ticket_of(doc: Json) -> Result<TicketView, DecodeError> {
    if !doc.has_text_field("status"@) {
        Err(DecodeError::MissingStatus)
    } else if doc.text_field("status"@) == "ok"@ {
        if doc.has_text_field("id"@) {
            Ok(TicketView::Accepted { id: doc.text_field("id"@) })
        } else {
            Err(DecodeError::MissingId)
        }
    } else if doc.text_field("status"@) == "error"@ {
        if doc.has_text_field("message"@) {
            Ok(
                TicketView::Error {
                    message: doc.text_field("message"@),
                    details: details_member(doc),
                },
            )
        } else {
            Err(DecodeError::MissingMessage)
        }
    } else {
        Err(DecodeError::UnknownStatus)
    }
}

/// The receipt that a document describes, or why it describes none.
pub open spec fn receipt_of(doc: Json) -> Result<ReceiptView, DecodeError> {
    if !doc.has_text_field("status"@) {
        Err(DecodeError::MissingStatus)
    } else if doc.text_field("status"@) == "ok"@ {
        Ok(ReceiptView::Delivered)
    } else if doc.text_field("status"@) == "error"@ {
        if doc.has_text_field("message"@) {
            Ok(
                ReceiptView::Error {
                    message: doc.text_field("message"@),
                    details: details_member(doc),
                },
            )
        } else {
            Err(DecodeError::MissingMessage)
        }
    } else {
        Err(DecodeError::UnknownStatus)
    }
}

/// The tickets that a sequence of documents describes, in the same order, or
/// the error of the first document that describes none.
pub open spec fn tickets_of_items(items: Seq<Json>) -> Result<Seq<TicketView>, DecodeError>
    decreases items.len(),
{
    if items.len() == 0 {
        Ok(Seq::empty())
    } else {
        match tickets_of_items(items.drop_last()) {
            Err(e) => Err(e),
            Ok(front) => match ticket_of(items.last()) {
                Err(e) => Err(e),
                Ok(ticket) => Ok(front.push(ticket)),
            },
        }
    }
}

/// The tickets that a response document holds: those of the array under `data`.
pub open spec fn tickets_of(doc: Json) -> Result<Seq<TicketView>, DecodeError> {
    if doc.has_field("data"@) && doc.field("data"@) is Array {
        tickets_of_items(doc.field("data"@)->Array_0)
    } else {
        Err(DecodeError::MissingData)
    }
}

/// The tickets that the body of a response holds.
pub open spec fn ticket_response(body: Seq<u8>) -> Result<Seq<TicketView>, DecodeError> {
    match parsed_json(body) {
        Some(doc) => tickets_of(doc),
        None => Err(DecodeError::InvalidJson),
    }
}

/// Tickets come in the order of the entries they are read from, one for
/// each entry, and a list is read exactly when each of its entries is.
pub proof fn lemma_tickets_follow_entries(items: Seq<Json>)
    ensures
        tickets_of_items(items) is Ok <==> forall|i: int|
            0 <= i < items.len() ==> (#[trigger] ticket_of(items[i])) is Ok,
        tickets_of_items(items) matches Ok(tickets) ==> tickets.len() == items.len() && forall|
            i: int,
        |
            0 <= i < items.len() ==> #[trigger] ticket_of(items[i]) == Ok::<TicketView, DecodeError>(
                tickets[i],
            ),
    decreases items.len(),
{
    if items.len() > 0 {
        let front = items.drop_last();
        lemma_tickets_follow_entries(front);
        assert forall|i: int| 0 <= i < front.len() implies #[trigger] front[i] == items[i] by {}
        if tickets_of_items(items) is Ok {
            assert forall|i: int| 0 <= i < items.len() implies (#[trigger] ticket_of(items[i])) is Ok by {
                if i < front.len() {
                    assert(ticket_of(front[i]) is Ok);
                }
            }
        }
        if forall|i: int| 0 <= i < items.len() ==> (#[trigger] ticket_of(items[i])) is Ok {
            assert forall|i: int| 0 <= i < front.len() implies (#[trigger] ticket_of(front[i])) is Ok by {
                assert(ticket_of(items[i]) is Ok);
            }
            assert(ticket_of(items[items.len() - 1]) is Ok);
        }
        if let Ok(tickets) = tickets_of_items(items) {
            let front_tickets = tickets_of_items(front)->Ok_0;
            assert forall|i: int| 0 <= i < items.len() implies #[trigger] ticket_of(items[i]) == Ok::<
                TicketView,
                DecodeError,
            >(tickets[i]) by {
                if i < front.len() {
                    assert(ticket_of(front[i]) == Ok::<TicketView, DecodeError>(front_tickets[i]));
                }
            }
        }
    }
}

impl PushReceiptErrorDetails {
    /// Reads the details of an error. Nothing is refused: what has no known
    /// shape is kept as it came.
    pub fn from_json(v: &Value) -> (details: PushReceiptErrorDetails)
        ensures
            details@ == details_of(json_of(*v)),
    {
        match get_text_field(v, "error") {
            None => PushReceiptErrorDetails::UnknownError(v.clone()),
            Some(cause) => {
                if same_text(cause, "DeviceNotRegistered") {
                    match get_text_field(v, "expoPushToken") {
                        None => PushReceiptErrorDetails::UnknownError(v.clone()),
                        Some(text) => match PushToken::try_from(text.to_owned()) {
                            Ok(expo_push_token) => PushReceiptErrorDetails::DeviceNotRegistered {
                                expo_push_token,
                            },
                            Err(_) => PushReceiptErrorDetails::UnknownError(v.clone()),
                        },
                    }
                } else if same_text(cause, "InvalidCredentials") {
                    PushReceiptErrorDetails::InvalidCredentials {  }
                } else if same_text(cause, "MessageTooBig") {
                    PushReceiptErrorDetails::MessageTooBig {  }
                } else if same_text(cause, "MessageRateExceeded") {
                    PushReceiptErrorDetails::MessageRateExceeded {  }
                } else {
                    PushReceiptErrorDetails::UnknownError(v.clone())
                }
            },
        }
    }

    /// Reads the details of an entry, which may have none.
    pub fn from_entry(entry: &Value) -> (details: Option<PushReceiptErrorDetails>)
        ensures
            details_view(details) == details_member(json_of(*entry)),
    {
        match get_field(entry, "details") {
            None => None,
            Some(member) => {
                if is_null(member) {
                    None
                } else {
                    Some(PushReceiptErrorDetails::from_json(member))
                }
            },
        }
    }
}

impl PushTicket {
    /// Reads one ticket.
    pub fn from_json(v: &Value) -> (res: Result<PushTicket, DecodeError>)
        ensures
            match res {
                Ok(ticket) => ticket_of(json_of(*v)) == Ok::<TicketView, DecodeError>(ticket@),
                Err(e) => ticket_of(json_of(*v)) == Err::<TicketView, DecodeError>(e),
            },
    {
        let status = match get_text_field(v, "status") {
            Some(status) => status,
            None => {
                return Err(DecodeError::MissingStatus);
            },
        };
        if same_text(status, "ok") {
            match get_text_field(v, "id") {
                Some(id) => Ok(PushTicket::Accepted { id: PushReceiptId::new(id.to_owned()) }),
                None => Err(DecodeError::MissingId),
            }
        } else if same_text(status, "error") {
            match get_text_field(v, "message") {
                Some(message) => Ok(
                    PushTicket::Error {
                        message: message.to_owned(),
                        details: PushReceiptErrorDetails::from_entry(v),
                    },
                ),
                None => Err(DecodeError::MissingMessage),
            }
        } else {
            Err(DecodeError::UnknownStatus)
        }
    }

    /// Reads the tickets of a response document, in the order of its `data`.
    pub fn list_from_json(doc: &Value) -> (res: Result<Vec<PushTicket>, DecodeError>)
        ensures
            match res {
                Ok(tickets) => tickets_of(json_of(*doc)) == Ok::<Seq<TicketView>, DecodeError>(
                    tickets_view(tickets@),
                ),
                Err(e) => tickets_of(json_of(*doc)) == Err::<Seq<TicketView>, DecodeError>(e),
            },
    {
        let items = match get_field(doc, "data") {
            Some(data) => match get_items(data) {
                Some(items) => items,
                None => {
                    return Err(DecodeError::MissingData);
                },
            },
            None => {
                return Err(DecodeError::MissingData);
            },
        };
        let ghost docs = json_seq(items@);
        let mut tickets: Vec<PushTicket> = Vec::new();
        let mut i: usize = 0;
        proof {
            assert(tickets_view(tickets@) =~= Seq::empty());
            assert(docs.take(0).len() == 0);
        }
        while i < items.len()
            invariant
                i <= items.len(),
                docs == json_seq(items@),
                tickets_of(json_of(*doc)) == tickets_of_items(docs),
                tickets_of_items(docs.take(i as int)) == Ok::<Seq<TicketView>, DecodeError>(
                    tickets_view(tickets@),
                ),
            decreases items.len() - i,
        {
            proof {
                assert(docs.take(i + 1).drop_last() =~= docs.take(i as int));
                assert(docs.take(i + 1).last() == json_of(items[i as int]));
            }
            match PushTicket::from_json(&items[i]) {
                Ok(ticket) => {
                    let ghost before = tickets@;
                    tickets.push(ticket);
                    proof {
                        assert(tickets_view(tickets@) =~= tickets_view(before).push(ticket@));
                    }
                },
                Err(e) => {
                    proof {
                        lemma_first_failure_decides(docs, i as int);
                    }
                    return Err(e);
                },
            }
            i += 1;
        }
        proof {
            assert(docs.take(i as int) =~= docs);
        }
        Ok(tickets)
    }
}

/// Where the entries before `i` are read and entry `i` is not, the list
/// fails with the error of entry `i`.
proof fn lemma_first_failure_decides(items: Seq<Json>, i: int)
    requires
        0 <= i < items.len(),
        tickets_of_items(items.take(i)) is Ok,
        ticket_of(items[i]) is Err,
    ensures
        tickets_of_items(items) == Err::<Seq<TicketView>, DecodeError>(ticket_of(items[i])->Err_0),
{
    assert(items.take(i + 1).drop_last() =~= items.take(i));
    assert(items.take(i + 1).last() == items[i]);
    lemma_failure_stays(items, i + 1);
}

/// A list whose beginning fails fails with the same error.
proof fn lemma_failure_stays(items: Seq<Json>, n: int)
    requires
        0 <= n <= items.len(),
        tickets_of_items(items.take(n)) is Err,
    ensures
        tickets_of_items(items) == tickets_of_items(items.take(n)),
    decreases items.len() - n,
{
    if n == items.len() {
        assert(items.take(n) =~= items);
    } else {
        assert(items.take(n + 1).drop_last() =~= items.take(n));
        lemma_failure_stays(items, n + 1);
    }
}

/// Reads the tickets from the body of a response.
pub fn decode_ticket_response(body: &[u8]) -> (res: Result<Vec<PushTicket>, DecodeError>)
    ensures
        match res {
            Ok(tickets) => ticket_response(body@) == Ok::<Seq<TicketView>, DecodeError>(
                tickets_view(tickets@),
            ),
            Err(e) => ticket_response(body@) == Err::<Seq<TicketView>, DecodeError>(e),
        },
{
    match parse(body) {
        Ok(doc) => PushTicket::list_from_json(&doc),
        Err(_) => Err(DecodeError::InvalidJson),
    }
}

/// Whether every member of an object describes a receipt.
pub open spec fn receipts_readable(members: Map<Seq<char>, Json>) -> bool {
    forall|id: Seq<char>| members.contains_key(id) ==> (#[trigger] receipt_of(members[id])) is Ok
}

/// The receipts that the members of an object describe, under the same names.
pub open spec fn receipts_of_members(members: Map<Seq<char>, Json>) -> Map<Seq<char>, ReceiptView> {
    Map::new(|id: Seq<char>| members.contains_key(id), |id: Seq<char>| receipt_of(members[id])->Ok_0)
}

/// Whether a response document holds an object under `data`.
pub open spec fn has_receipt_data(doc: Json) -> bool {
    doc.has_field("data"@) && doc.field("data"@) is Object
}

/// The members of the object under `data`, which are named by receipt ids.
pub open spec fn receipt_data(doc: Json) -> Map<Seq<char>, Json>
    recommends
        has_receipt_data(doc),
{
    doc.field("data"@)->Object_0
}

/// An id that the server's answer does not name has no receipt.
pub proof fn lemma_unresolved_id_has_no_receipt(members: Map<Seq<char>, Json>, id: Seq<char>)
    requires
        !members.contains_key(id),
    ensures
        !receipts_of_members(members).contains_key(id),
{
}

/// Whether `res` is a reading of the receipts of a response document. A
/// document is read exactly where it holds an object under `data` and each
/// member of that object describes a receipt; the receipts are then those
/// of the members, under the same names. Where it is not read for want of
/// such an object, the error is `MissingData`; else the error is that of a
/// member that describes no receipt.
pub open spec fn reads_receipts(doc: Json, res: Result<Map<Seq<char>, ReceiptView>, DecodeError>) -> bool {
    match res {
        Ok(receipts) => has_receipt_data(doc) && receipts_readable(receipt_data(doc)) && receipts
            == receipts_of_members(receipt_data(doc)),
        Err(e) => if has_receipt_data(doc) {
            exists|id: Seq<char>|
                receipt_data(doc).contains_key(id) && #[trigger] receipt_of(receipt_data(doc)[id])
                    == Err::<ReceiptView, DecodeError>(e)
        } else {
            e == DecodeError::MissingData
        },
    }
}

/// Whether `res` is a reading of the receipts in the body of a response: a
/// reading of the document that the body holds, or `InvalidJson` where it
/// holds none.
pub open spec fn reads_receipt_response(
    body: Seq<u8>,
    res: Result<Map<Seq<char>, ReceiptView>, DecodeError>,
) -> bool {
    match parsed_json(body) {
        Some(doc) => reads_receipts(doc, res),
        None => res == Err::<Map<Seq<char>, ReceiptView>, DecodeError>(DecodeError::InvalidJson),
    }
}

/// What the result of reading receipts holds.
pub open spec fn receipts_result_view(res: Result<PushReceipts, DecodeError>) -> Result<
    Map<Seq<char>, ReceiptView>,
    DecodeError,
> {
    match res {
        Ok(receipts) => Ok(receipts@),
        Err(e) => Err(e),
    }
}

/// The receipts that a list of pairs holds: a later pair replaces an earlier
/// one with the same id.
pub open spec fn receipts_map(entries: Seq<(PushReceiptId, PushReceipt)>) -> Map<Seq<char>, ReceiptView>
    decreases entries.len(),
{
    if entries.len() == 0 {
        Map::empty()
    } else {
        receipts_map(entries.drop_last()).insert(entries.last().0@, entries.last().1@)
    }
}

/// The receipts of a query, by receipt id. An id of the query for which the
/// server has no receipt yet has no entry.
#[derive(Debug)]
pub struct PushReceipts {
    entries: Vec<(PushReceiptId, PushReceipt)>,
}

impl View for PushReceipts {
    type V = Map<Seq<char>, ReceiptView>;

    closed spec fn view(&self) -> Map<Seq<char>, ReceiptView> {
        receipts_map(self.entries@)
    }
}

impl PushReceipts {
    /// The receipt for an id, where there is one.
    pub fn get(&self, id: &PushReceiptId) -> (res: Option<&PushReceipt>)
        ensures
            match res {
                Some(receipt) => self@.contains_key(id@) && self@[id@] == receipt@,
                None => !self@.contains_key(id@),
            },
    {
        let mut i: usize = self.entries.len();
        proof {
            assert(self.entries@.take(i as int) =~= self.entries@);
        }
        while i > 0
            invariant
                i <= self.entries.len(),
                receipts_map(self.entries@).contains_key(id@) <==> receipts_map(
                    self.entries@.take(i as int),
                ).contains_key(id@),
                receipts_map(self.entries@).contains_key(id@) ==> receipts_map(self.entries@)[id@]
                    == receipts_map(self.entries@.take(i as int))[id@],
            decreases i,
        {
            proof {
                assert(self.entries@.take(i as int).drop_last() =~= self.entries@.take(i - 1));
                assert(self.entries@.take(i as int).last() == self.entries@[i - 1]);
            }
            i -= 1;
            if self.entries[i].0.0 == id.0 {
                return Some(&self.entries[i].1);
            }
        }
        proof {
            assert(self.entries@.take(0).len() == 0);
        }
        None
    }

    /// The ids that have a receipt, each with its receipt.
    pub fn into_entries(self) -> (entries: Vec<(PushReceiptId, PushReceipt)>)
        ensures
            receipts_map(entries@) == self@,
    {
        self.entries
    }

    /// Reads the receipts of a response document: one for each member of the
    /// object under `data`, under the member's name. The call fails where
    /// `data` is missing or no object, or where some member describes no
    /// receipt; the error is then that of one such member.
    pub fn from_json(doc: &Value) -> (res: Result<PushReceipts, DecodeError>)
        ensures
            reads_receipts(json_of(*doc), receipts_result_view(res)),
    {
        let listing = match get_field(doc, "data") {
            Some(data) => match get_members(data) {
                Some(listing) => listing,
                None => {
                    return Err(DecodeError::MissingData);
                },
            },
            None => {
                return Err(DecodeError::MissingData);
            },
        };
        let ghost members = receipt_data(json_of(*doc));
        let mut entries: Vec<(PushReceiptId, PushReceipt)> = Vec::new();
        let mut i: usize = 0;
        while i < listing.len()
            invariant
                i <= listing.len(),
                has_receipt_data(json_of(*doc)),
                members == receipt_data(json_of(*doc)),
                lists_object(listing@, members),
                entries.len() == i,
                forall|k: int|
                    0 <= k < i ==> (#[trigger] entries[k]).0@ == listing[k].0@ && receipt_of(
                        members[listing[k].0@],
                    ) == Ok::<ReceiptView, DecodeError>(entries[k].1@),
            decreases listing.len() - i,
        {
            let (name, member) = listing[i];
            match PushReceipt::from_json(member) {
                Ok(receipt) => {
                    entries.push((PushReceiptId::new(name.clone()), receipt));
                },
                Err(e) => {
                    proof {
                        assert(members.contains_key(listing[i as int].0@));
                        assert(receipt_of(members[listing[i as int].0@]) == Err::<
                            ReceiptView,
                            DecodeError,
                        >(e));
                    }
                    return Err(e);
                },
            }
            i += 1;
        }
        proof {
            lemma_receipts_map_names(entries@);
            assert forall|id: Seq<char>| members.contains_key(id) implies (#[trigger] receipt_of(
                members[id],
            )) is Ok by {
                let k = choose|k: int| 0 <= k < listing@.len() && (#[trigger] listing@[k]).0@ == id;
                assert(entries[k].0@ == id);
            }
            assert(receipts_map(entries@) =~= receipts_of_members(members)) by {
                assert forall|id: Seq<char>| #[trigger]
                    receipts_map(entries@).contains_key(id) implies members.contains_key(id) by {
                    let k = choose|k: int| 0 <= k < entries@.len() && (#[trigger] entries@[k]).0@ == id;
                    assert(listing@[k].0@ == id);
                }
                assert forall|id: Seq<char>| members.contains_key(id) implies #[trigger] receipts_map(
                    entries@,
                ).contains_key(id) && receipts_map(entries@)[id] == receipt_of(members[id])->Ok_0 by {
                    let k = choose|k: int| 0 <= k < listing@.len() && (#[trigger] listing@[k]).0@ == id;
                    assert(entries@[k].0@ == id);
                    lemma_receipts_map_value(entries@, k);
                }
            }
        }
        Ok(PushReceipts { entries })
    }
}

/// The ids of the receipts that a list of pairs holds are the ids in the list.
proof fn lemma_receipts_map_names(entries: Seq<(PushReceiptId, PushReceipt)>)
    ensures
        forall|id: Seq<char>| #[trigger]
            receipts_map(entries).contains_key(id) <==> exists|k: int|
                0 <= k < entries.len() && (#[trigger] entries[k]).0@ == id,
    decreases entries.len(),
{
    if entries.len() > 0 {
        let front = entries.drop_last();
        lemma_receipts_map_names(front);
        assert forall|id: Seq<char>| #[trigger]
            receipts_map(entries).contains_key(id) implies exists|k: int|
            0 <= k < entries.len() && (#[trigger] entries[k]).0@ == id by {
            if id == entries.last().0@ {
                assert(entries[entries.len() - 1].0@ == id);
            } else {
                assert(receipts_map(front).contains_key(id));
                let k = choose|k: int| 0 <= k < front.len() && (#[trigger] front[k]).0@ == id;
                assert(entries[k].0@ == id);
            }
        }
        assert forall|id: Seq<char>|
            (exists|k: int|
                0 <= k < entries.len() && (#[trigger] entries[k]).0@ == id) implies #[trigger] receipts_map(
            entries,
        ).contains_key(id) by {
            let k = choose|k: int| 0 <= k < entries.len() && (#[trigger] entries[k]).0@ == id;
            if k < entries.len() - 1 {
                assert(front[k].0@ == id);
                assert(receipts_map(front).contains_key(id));
            } else {
                assert(entries.last().0@ == id);
            }
        }
    }
}

/// In a list without a repeated id, each pair's receipt is the one held
/// under its id.
proof fn lemma_receipts_map_value(entries: Seq<(PushReceiptId, PushReceipt)>, k: int)
    requires
        0 <= k < entries.len(),
        forall|i: int, j: int|
            0 <= i < j < entries.len() ==> (#[trigger] entries[i]).0@ != (#[trigger] entries[j]).0@,
    ensures
        receipts_map(entries).contains_key(entries[k].0@),
        receipts_map(entries)[entries[k].0@] == entries[k].1@,
    decreases entries.len(),
{
    let front = entries.drop_last();
    if k < entries.len() - 1 {
        assert(front[k] == entries[k]);
        assert forall|i: int, j: int| 0 <= i < j < front.len() implies (#[trigger] front[i]).0@ != (
        #[trigger] front[j]).0@ by {
            assert(front[i] == entries[i]);
            assert(front[j] == entries[j]);
        }
        lemma_receipts_map_value(front, k);
        assert(entries[k].0@ != entries[entries.len() - 1].0@);
    }
}

impl PushReceipt {
    /// Reads one receipt.
    pub fn from_json(v: &Value) -> (res: Result<PushReceipt, DecodeError>)
        ensures
            match res {
                Ok(receipt) => receipt_of(json_of(*v)) == Ok::<ReceiptView, DecodeError>(receipt@),
                Err(e) => receipt_of(json_of(*v)) == Err::<ReceiptView, DecodeError>(e),
            },
    {
        let status = match get_text_field(v, "status") {
            Some(status) => status,
            None => {
                return Err(DecodeError::MissingStatus);
            },
        };
        if same_text(status, "ok") {
            Ok(PushReceipt::Delivered {  })
        } else if same_text(status, "error") {
            match get_text_field(v, "message") {
                Some(message) => Ok(
                    PushReceipt::Error {
                        message: message.to_owned(),
                        details: PushReceiptErrorDetails::from_entry(v),
                    },
                ),
                None => Err(DecodeError::MissingMessage),
            }
        } else {
            Err(DecodeError::UnknownStatus)
        }
    }
}

/// Reads the receipts from the body of a response: those of the document
/// that the body holds. A body that is no JSON document is refused.
pub fn decode_receipt_response(body: &[u8]) -> (res: Result<PushReceipts, DecodeError>)
    ensures
        reads_receipt_response(body@, receipts_result_view(res)),
{
    match parse(body) {
        Ok(doc) => PushReceipts::from_json(&doc),
        Err(_) => Err(DecodeError::InvalidJson),
    }
}

/// The document that asks for the receipts of some ids: an object that
/// holds the ids, in their order, under `ids`.
pub open spec fn receipts_query_json(ids: Seq<PushReceiptId>) -> Json {
    Json::Object(map!["ids"@ => Json::Array(ids.map_values(|id: PushReceiptId| Json::Text(id@)))])
}

/// The text of the query for some receipts, where it can be written.
pub open spec fn receipts_query_text(ids: Seq<PushReceiptId>) -> Option<Seq<u8>> {
    json_text(receipts_query_json(ids))
}

/// Makes the document that asks for the receipts of some ids.
pub fn receipts_query_to_json(ids: &[PushReceiptId]) -> (v: Value)
    ensures
        json_of(v) == receipts_query_json(ids@),
{
    let mut items: Vec<Value> = Vec::new();
    let mut i: usize = 0;
    while i < ids.len()
        invariant
            i <= ids.len(),
            items.len() == i,
            forall|k: int| 0 <= k < i ==> json_of(#[trigger] items[k]) == Json::Text(ids[k]@),
        decreases ids.len() - i,
    {
        items.push(text_value(ids[i].as_str().to_owned()));
        i += 1;
    }
    proof {
        assert(json_seq(items@) =~= ids@.map_values(|id: PushReceiptId| Json::Text(id@)));
    }
    let mut members: Vec<(String, Value)> = Vec::new();
    push_member(&mut members, "ids", Some(array_value(items)));
    object_value(members)
}

/// Serializes the query for some receipts. Whether that succeeds rests with
/// the serializer alone.
pub fn serialize_receipts_query(ids: &[PushReceiptId]) -> (res: Option<Vec<u8>>)
    ensures
        match res {
            Some(bytes) => receipts_query_text(ids@) == Some(bytes@),
            None => receipts_query_text(ids@) is None,
        },
{
    let v = receipts_query_to_json(ids);
    match print(&v) {
        Ok(bytes) => Some(bytes),
        Err(_) => None,
    }
}

} // verus!
