//! Sending any number of messages, chunk by chunk.
//!
//! The decisions are made here; the exchange with the server is made by the
//! caller. [`PushNotifier::begin`] chunks the messages and says what to do
//! first. As long as the answer is [`Action::Send`], the caller performs the
//! request and hands the outcome to [`Dispatch::resume`], which says what to
//! do next. One request is in flight at a time, the chunks go out in order,
//! and the first failure ends the dispatch: the tickets of the chunks before
//! it are dropped.

use crate::chunk::{
    chunk, chunk_at, chunk_count, chunk_end, chunks_of, lemma_chunk_count_is_ceiling,
    lemma_chunk_lengths, slices_view,
};
use crate::error::ExpoNotificationError;
use crate::message::PushMessage;
use crate::notifier::{read_tickets, tickets_outcome, PushNotifier, PushNotifierView};
use crate::request::{outcome_view, HttpResponse, HttpResponseView, PushRequest, PushRequestView};
use crate::response::{tickets_view, PushTicket, TicketView};
use vstd::prelude::*;

verus! {

/// A dispatch with a request in flight: the chunks before `next` have their
/// tickets, and the request for chunk `next` awaits its outcome.
#[derive(Debug)]
pub struct Dispatch<'a> {
    notifier: &'a PushNotifier,
    messages: &'a [PushMessage],
    chunks: Vec<&'a [PushMessage]>,
    next: usize,
    tickets: Vec<PushTicket>,
}

/// What a dispatch holds.
pub struct DispatchView {
    pub notifier: PushNotifierView,
    /// All the messages of the dispatch.
    pub messages: Seq<PushMessage>,
    /// The number of the chunk in flight, from zero.
    pub next: nat,
    /// The tickets of the chunks before `next`, in the order of their messages.
    pub tickets: Seq<TicketView>,
}

/// What to do next.
#[derive(Debug)]
pub enum Action<'a> {
    /// Perform the request, and resume the dispatch with its outcome.
    Send { request: PushRequest, dispatch: Dispatch<'a> },
    /// The dispatch is over: these are the tickets, one for each message,
    /// in the order of the messages.
    Finish(Vec<PushTicket>),
    /// The dispatch is over: it failed.
    Fail(ExpoNotificationError),
}

/// What an action holds.
pub enum ActionView {
    Send { request: PushRequestView, dispatch: DispatchView },
    Finish(Seq<TicketView>),
    Fail(ExpoNotificationError),
}

impl DispatchView {
    /// The number of chunks of the dispatch.
    pub open spec fn chunks(self) -> nat {
        chunk_count(self.messages.len(), self.notifier.chunk_size as nat)
    }

    /// The chunk in flight.
    pub open spec fn current(self) -> Seq<PushMessage> {
        chunk_at(self.messages, self.notifier.chunk_size as nat, self.next as int)
    }

    /// Whether the dispatch is in order: a chunk is in flight, and there is
    /// one ticket for each message of the chunks before it.
    pub open spec fn wf(self) -> bool {
        &&& self.notifier.chunk_size > 0
        &&& self.next < self.chunks()
        &&& self.tickets.len() == self.next * self.notifier.chunk_size
    }

    /// The action that sends the chunk in flight: the request for it, or a
    /// failure where that request cannot be made.
    pub open spec fn send(self) -> ActionView {
        match self.notifier.push_request(self.current()) {
            Some(request) => ActionView::Send { request, dispatch: self },
            None => ActionView::Fail(ExpoNotificationError::Io),
        }
    }

    /// The action that follows the outcome of the request in flight. A
    /// failed exchange, or tickets that cannot be read or are not one for
    /// each message of the chunk, fail the dispatch. Else the tickets are
    /// added to those at hand, and the next chunk is sent, or the dispatch
    /// finishes where this chunk was the last.
    pub open spec fn resume(self, outcome: Option<HttpResponseView>) -> ActionView {
        match tickets_outcome(self.current().len() as usize, outcome) {
            Err(e) => ActionView::Fail(e),
            Ok(received) => if self.next + 1 == self.chunks() {
                ActionView::Finish(self.tickets + received)
            } else {
                (DispatchView { next: self.next + 1, tickets: self.tickets + received, ..self }).send()
            },
        }
    }
}

impl PushNotifierView {
    /// The first action of a dispatch. A chunk size of zero fails it. With
    /// no message there is nothing to send, and it finishes at once with no
    /// ticket. Else the first chunk is sent.
    pub open spec fn begin(self, messages: Seq<PushMessage>) -> ActionView {
        if self.chunk_size == 0 {
            ActionView::Fail(ExpoNotificationError::ChunkSize)
        } else if messages.len() == 0 {
            ActionView::Finish(Seq::empty())
        } else {
            (DispatchView { notifier: self, messages, next: 0, tickets: Seq::empty() }).send()
        }
    }
}

/// A dispatch of at least one message, at a chunk size above zero, starts
/// in order.
pub proof fn lemma_begin_is_in_order(notifier: PushNotifierView, messages: Seq<PushMessage>)
    requires
        notifier.chunk_size > 0,
        messages.len() > 0,
    ensures
        (DispatchView { notifier, messages, next: 0, tickets: Seq::empty() }).wf(),
{
    lemma_chunk_count_is_ceiling(messages.len(), notifier.chunk_size as nat);
}

/// The tickets of the chunk in flight complete those of the chunks before
/// it: together they are one for each message up to the end of the chunk,
/// which is the end of the messages where the chunk is the last. Where it is
/// not the last, the dispatch is in order again with the next chunk in flight.
pub proof fn lemma_tickets_keep_pace(dispatch: DispatchView, received: Seq<TicketView>)
    requires
        dispatch.wf(),
        received.len() == dispatch.current().len(),
    ensures
        dispatch.next + 1 == dispatch.chunks() ==> (dispatch.tickets + received).len()
            == dispatch.messages.len(),
        dispatch.next + 1 != dispatch.chunks() ==> (DispatchView {
            next: dispatch.next + 1,
            tickets: dispatch.tickets + received,
            ..dispatch
        }).wf(),
{
    let size = dispatch.notifier.chunk_size as nat;
    let len = dispatch.messages.len();
    lemma_chunk_lengths(dispatch.messages, size, dispatch.next as int);
    lemma_chunk_count_is_ceiling(len, size);
    assert((dispatch.next + 1) * size == dispatch.next * size + size) by (nonlinear_arith);
    if dispatch.next + 1 == dispatch.chunks() {
        assert((dispatch.chunks() - 1 + 1) * size == dispatch.chunks() * size);
        assert(chunk_end(len, size, dispatch.next as int) == len);
    }
}

/// A dispatch that is in order stays in order, and moves on by one chunk,
/// as long as it sends; and where it finishes, it has sent every chunk and
/// holds one ticket for each message. The tickets at hand are never changed:
/// new ones are added behind them.
pub proof fn lemma_resume_keeps_order(dispatch: DispatchView, outcome: Option<HttpResponseView>)
    requires
        dispatch.wf(),
    ensures
        match dispatch.resume(outcome) {
            ActionView::Send { request, dispatch: after } => {
                &&& after.wf()
                &&& after.notifier == dispatch.notifier
                &&& after.messages == dispatch.messages
                &&& after.next == dispatch.next + 1
                &&& dispatch.tickets.is_prefix_of(after.tickets)
                &&& dispatch.notifier.push_request(after.current()) == Some(request)
            },
            ActionView::Finish(tickets) => {
                &&& dispatch.next + 1 == dispatch.chunks()
                &&& tickets.len() == dispatch.messages.len()
                &&& dispatch.tickets.is_prefix_of(tickets)
            },
            ActionView::Fail(_) => true,
        },
{
    if let Ok(received) = tickets_outcome(dispatch.current().len() as usize, outcome) {
        lemma_chunk_lengths(
            dispatch.messages,
            dispatch.notifier.chunk_size as nat,
            dispatch.next as int,
        );
        lemma_tickets_keep_pace(dispatch, received);
        assert(dispatch.tickets.is_prefix_of(dispatch.tickets + received));
    }
}

/// The action that follows an action and the outcome of its request. An
/// action that sends nothing is the end, and stays.
pub open spec fn step(action: ActionView, outcome: Option<HttpResponseView>) -> ActionView {
    match action {
        ActionView::Send { dispatch, .. } => dispatch.resume(outcome),
        _ => action,
    }
}

/// The action at which a dispatch stands after a sequence of outcomes, each
/// the outcome of the request of the action before it.
pub open spec fn after(action: ActionView, outcomes: Seq<Option<HttpResponseView>>) -> ActionView
    decreases outcomes.len(),
{
    if outcomes.len() == 0 {
        action
    } else {
        step(after(action, outcomes.drop_last()), outcomes.last())
    }
}

/// A dispatch that has finished or failed stays as it is, whatever comes
/// after: the first failure is the result, and nothing is sent after it.
pub proof fn lemma_end_is_final(action: ActionView, outcomes: Seq<Option<HttpResponseView>>)
    requires
        !(action is Send),
    ensures
        after(action, outcomes) == action,
    decreases outcomes.len(),
{
    if outcomes.len() > 0 {
        lemma_end_is_final(action, outcomes.drop_last());
    }
}

/// The state of a dispatch in which chunk `next` is in flight and the
/// chunks before it were answered with `answers`.
pub open spec fn state_at(
    notifier: PushNotifierView,
    messages: Seq<PushMessage>,
    answers: Seq<Seq<TicketView>>,
    next: nat,
) -> DispatchView {
    DispatchView { notifier, messages, next, tickets: answers.take(next as int).flatten_alt() }
}

/// Whether each chunk of the messages is answered by the outcome of its
/// number, with the tickets of that number.
pub open spec fn answered_in_turn(
    notifier: PushNotifierView,
    messages: Seq<PushMessage>,
    outcomes: Seq<Option<HttpResponseView>>,
    answers: Seq<Seq<TicketView>>,
) -> bool {
    &&& outcomes.len() == chunk_count(messages.len(), notifier.chunk_size as nat)
    &&& answers.len() == outcomes.len()
    &&& forall|i: int|
        0 <= i < outcomes.len() ==> tickets_outcome(
            chunk_at(messages, notifier.chunk_size as nat, i).len() as usize,
            #[trigger] outcomes[i],
        ) == Ok::<Seq<TicketView>, ExpoNotificationError>(answers[i])
}

/// Whether the request for each chunk of the messages can be made.
pub open spec fn requests_can_be_made(notifier: PushNotifierView, messages: Seq<PushMessage>) -> bool {
    forall|i: int|
        0 <= i < chunk_count(messages.len(), notifier.chunk_size as nat) ==> (
        #[trigger] notifier.push_request(chunk_at(messages, notifier.chunk_size as nat, i))) is Some
}

/// Whether an action sends the request for chunk `next` of the messages.
pub open spec fn sends_chunk(
    action: ActionView,
    notifier: PushNotifierView,
    messages: Seq<PushMessage>,
    next: int,
) -> bool {
    match action {
        ActionView::Send { request, dispatch } => dispatch.next == next && Some(request)
            == notifier.push_request(chunk_at(messages, notifier.chunk_size as nat, next)),
        _ => false,
    }
}

/// After the first `next` chunks were answered, chunk `next` is in flight.
proof fn lemma_dispatch_reaches_chunk(
    notifier: PushNotifierView,
    messages: Seq<PushMessage>,
    outcomes: Seq<Option<HttpResponseView>>,
    answers: Seq<Seq<TicketView>>,
    next: nat,
)
    requires
        notifier.chunk_size > 0,
        answered_in_turn(notifier, messages, outcomes, answers),
        requests_can_be_made(notifier, messages),
        next < outcomes.len(),
    ensures
        state_at(notifier, messages, answers, next).wf(),
        after(notifier.begin(messages), outcomes.take(next as int)) == state_at(
            notifier,
            messages,
            answers,
            next,
        ).send(),
        state_at(notifier, messages, answers, next).send() is Send,
    decreases next,
{
    let size = notifier.chunk_size as nat;
    let here = state_at(notifier, messages, answers, next);
    lemma_chunk_count_is_ceiling(messages.len(), size);
    assert(notifier.push_request(chunk_at(messages, size, next as int)) is Some);
    if next == 0 {
        assert(answers.take(0).flatten_alt() =~= Seq::empty());
        assert(outcomes.take(0).len() == 0);
        lemma_begin_is_in_order(notifier, messages);
    } else {
        let before = state_at(notifier, messages, answers, (next - 1) as nat);
        lemma_dispatch_reaches_chunk(notifier, messages, outcomes, answers, (next - 1) as nat);
        assert(outcomes.take(next as int).drop_last() =~= outcomes.take(next - 1));
        assert(outcomes.take(next as int).last() == outcomes[next - 1]);
        assert(answers.take(next as int).drop_last() =~= answers.take(next - 1));
        assert(answers.take(next as int).last() == answers[next - 1]);
        lemma_chunk_lengths(messages, size, next - 1);
        lemma_tickets_keep_pace(before, answers[next - 1]);
        assert(before.resume(outcomes[next - 1]) == here.send());
    }
}

/// A dispatch whose chunks are each answered with one ticket for each of
/// their messages sends the chunks in order, one request for each chunk and
/// no other, and finishes with the tickets of all the answers, in the order
/// of the chunks: one ticket for each message, in the order of the messages.
pub proof fn lemma_dispatch_sends_chunk_by_chunk(
    notifier: PushNotifierView,
    messages: Seq<PushMessage>,
    outcomes: Seq<Option<HttpResponseView>>,
    answers: Seq<Seq<TicketView>>,
)
    requires
        notifier.chunk_size > 0,
        answered_in_turn(notifier, messages, outcomes, answers),
        requests_can_be_made(notifier, messages),
    ensures
        forall|next: int|
            0 <= next < outcomes.len() ==> sends_chunk(
                #[trigger] after(notifier.begin(messages), outcomes.take(next)),
                notifier,
                messages,
                next,
            ),
        after(notifier.begin(messages), outcomes) == ActionView::Finish(answers.flatten()),
        answers.flatten().len() == messages.len(),
{
    let size = notifier.chunk_size as nat;
    let count = outcomes.len();
    lemma_chunk_count_is_ceiling(messages.len(), size);
    answers.lemma_flatten_and_flatten_alt_are_equivalent();
    assert forall|next: int| 0 <= next < outcomes.len() implies sends_chunk(
        #[trigger] after(notifier.begin(messages), outcomes.take(next)),
        notifier,
        messages,
        next,
    ) by {
        lemma_dispatch_reaches_chunk(notifier, messages, outcomes, answers, next as nat);
    }
    if count == 0 {
        assert(answers.flatten_alt() =~= Seq::<TicketView>::empty());
    } else {
        let last = state_at(notifier, messages, answers, (count - 1) as nat);
        lemma_dispatch_reaches_chunk(notifier, messages, outcomes, answers, (count - 1) as nat);
        assert(outcomes.drop_last() =~= outcomes.take(count - 1));
        assert(answers.drop_last() =~= answers.take(count - 1));
        lemma_chunk_lengths(messages, size, count - 1);
        lemma_tickets_keep_pace(last, answers[count - 1]);
        assert(last.resume(outcomes[count - 1]) == ActionView::Finish(answers.flatten_alt()));
    }
}

impl<'a> View for Dispatch<'a> {
    type V = DispatchView;

    closed spec fn view(&self) -> DispatchView {
        DispatchView {
            notifier: self.notifier@,
            messages: self.messages@,
            next: self.next as nat,
            tickets: tickets_view(self.tickets@),
        }
    }
}

impl<'a> View for Action<'a> {
    type V = ActionView;

    open spec fn view(&self) -> ActionView {
        match *self {
            Action::Send { request, dispatch } => ActionView::Send {
                request: request@,
                dispatch: dispatch@,
            },
            Action::Finish(tickets) => ActionView::Finish(tickets_view(tickets@)),
            Action::Fail(e) => ActionView::Fail(e),
        }
    }
}

impl<'a> Dispatch<'a> {
    #[verifier::type_invariant]
    spec fn in_order(self) -> bool {
        &&& self@.wf()
        &&& slices_view(self.chunks@) == chunks_of(self.messages@, self.notifier.chunk_size as nat)
    }

    /// Sends the chunk in flight.
    fn send(self) -> (action: Action<'a>)
        ensures
            action@ == self@.send(),
    {
        proof {
            use_type_invariant(&self);
            assert(slices_view(self.chunks@).len() == self.chunks@.len());
            assert(chunks_of(self.messages@, self.notifier.chunk_size as nat).len() == self@.chunks());
            assert(slices_view(self.chunks@)[self.next as int] == self.chunks@[self.next as int]@);
        }
        match self.notifier.build_request(self.chunks[self.next]) {
            Ok(request) => Action::Send { request, dispatch: self },
            Err(e) => Action::Fail(e),
        }
    }

    /// The number of messages in the request in flight.
    pub fn awaited(&self) -> (sent: usize)
        ensures
            sent == self@.current().len(),
            self@.wf(),
    {
        proof {
            use_type_invariant(self);
            assert(slices_view(self.chunks@).len() == self.chunks@.len());
            assert(chunks_of(self.messages@, self.notifier.chunk_size as nat).len() == self@.chunks());
            assert(slices_view(self.chunks@)[self.next as int] == self.chunks@[self.next as int]@);
        }
        self.chunks[self.next].len()
    }

    /// Takes the outcome of the request in flight, and says what to do next.
    pub fn resume(self, outcome: Option<HttpResponse>) -> (action: Action<'a>)
        ensures
            self@.wf(),
            action@ == self@.resume(outcome_view(outcome)),
    {
        proof {
            use_type_invariant(&self);
            assert(slices_view(self.chunks@).len() == self.chunks@.len());
            assert(chunks_of(self.messages@, self.notifier.chunk_size as nat).len() == self@.chunks());
            assert(slices_view(self.chunks@)[self.next as int] == self.chunks@[self.next as int]@);
            assert(self.next < self.chunks@.len());
        }
        let ghost before = self@;
        let Dispatch { notifier, messages, chunks, next, tickets } = self;
        assert(next < chunks.len());
        match read_tickets(chunks[next].len(), outcome) {
            Err(e) => Action::Fail(e),
            Ok(received) => {
                let mut tickets = tickets;
                let mut received = received;
                let ghost added = tickets_view(received@);
                proof {
                    lemma_tickets_keep_pace(before, added);
                    assert(tickets_view(tickets@ + received@) =~= before.tickets + added);
                }
                tickets.append(&mut received);
                if next + 1 == chunks.len() {
                    Action::Finish(tickets)
                } else {
                    (Dispatch { notifier, messages, chunks, next: next + 1, tickets }).send()
                }
            },
        }
    }
}

impl PushNotifier {
    /// Starts the dispatch of some messages, and says what to do first.
    pub fn begin<'a>(&'a self, messages: &'a [PushMessage]) -> (action: Action<'a>)
        ensures
            action@ == self@.begin(messages@),
    {
        let chunks = match chunk(messages, self.chunk_size) {
            Ok(chunks) => chunks,
            Err(e) => {
                return Action::Fail(e);
            },
        };
        let tickets: Vec<PushTicket> = Vec::new();
        proof {
            lemma_chunk_count_is_ceiling(messages@.len(), self.chunk_size as nat);
            assert(slices_view(chunks@).len() == chunks@.len());
            assert(chunks_of(messages@, self.chunk_size as nat).len() == chunk_count(
                messages@.len(),
                self.chunk_size as nat,
            ));
            assert(tickets_view(tickets@) =~= Seq::empty());
        }
        if chunks.len() == 0 {
            return Action::Finish(tickets);
        }
        (Dispatch { notifier: self, messages, chunks, next: 0, tickets }).send()
    }
}

} // verus!
