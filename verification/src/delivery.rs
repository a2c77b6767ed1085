//! Waiting for a message to be delivered.
//!
//! The provider is asked again and again for the message resource until its
//! status is neither `queued` nor `sent`. This module holds the decisions of
//! that exchange: when to ask again, what to ask, what an answer changes and
//! how the exchange ends. It performs no request itself. A caller with a
//! transport takes each [`PollStep::Fetch`], performs it and hands the answer
//! to [`DeliveryPoll::observe`]; [`replay`] does the same against answers
//! that were recorded beforehand.
//!
//! The provider may leave a message `queued` or `sent` for as long as it
//! likes. An exchange can therefore be given a limit: after that many fetches
//! it ends with the status that was seen last.

use crate::error::{Failure, TWRSError};
use crate::reply::{decode_bytes, TwilioReply};
use crate::request::{fetch_request, get_of, resource_url, HttpRequest};
use crate::text::same_text;
use vstd::prelude::*;

verus! {

/// Whether a status asks for another look: only `queued` and `sent` do.
pub open spec fn pending(status: Seq<char>) -> bool {
    status == "queued"@ || status == "sent"@
}

/// How a status that is final is told to the caller: `delivered` is the one
/// success, every other status is an error that carries it.
pub open spec fn verdict(status: Seq<char>) -> Result<Seq<char>, Failure> {
    if status == "delivered"@ {
        Ok("delivered"@)
    } else {
        Err(Failure::NotDelivered(status))
    }
}

/// The end of an exchange, as a mathematical value.
pub open spec fn outcome_view(
    outcome: Result<&'static str, TWRSError>,
) -> Result<Seq<char>, Failure> {
    match outcome {
        Ok(word) => Ok(word@),
        Err(e) => Err(e@),
    }
}

/// Whether a status asks for another look.
pub fn is_pending(status: &str) -> (r: bool)
    ensures
        r == pending(status@),
{
    same_text(status, "queued") || same_text(status, "sent")
}

/// Tells a final status to the caller.
pub fn classify(status: String) -> (r: Result<&'static str, TWRSError>)
    ensures
        outcome_view(r) == verdict(status@),
{
    if same_text(status.as_str(), "delivered") {
        Ok("delivered")
    } else {
        Err(TWRSError::NotDelivered(status))
    }
}

/// What came back from a request, as a mathematical value.
pub enum EventView {
    Reply(Seq<u8>),
    TransportFailure(Seq<char>),
}

/// What came back from a request.
#[derive(Debug)]
pub enum PollEvent {
    /// The body of the response.
    Reply(Vec<u8>),
    /// No response: the transport's report of what went wrong.
    TransportFailure(String),
}

impl View for PollEvent {
    type V = EventView;

    open spec fn view(&self) -> EventView {
        match self {
            PollEvent::Reply(body) => EventView::Reply(body@),
            PollEvent::TransportFailure(report) => EventView::TransportFailure(report@),
        }
    }
}

/// What an answer tells: the status that the message now has, or the error
/// that ends the exchange.
pub open spec fn observed(event: EventView) -> Result<Seq<char>, Failure> {
    match event {
        EventView::Reply(body) => match decode_bytes(body) {
            Ok(reply) => Ok(reply.status),
            Err(cause) => Err(Failure::Decode(cause)),
        },
        EventView::TransportFailure(report) => Err(Failure::Transport(report)),
    }
}

/// The state of an exchange, as a mathematical value.
pub struct PollView {
    pub url: Seq<char>,
    pub status: Seq<char>,
    pub fetches_left: Option<nat>,
}

/// The fetches that are left once one more was made.
pub open spec fn spent(left: Option<nat>) -> Option<nat> {
    match left {
        Some(n) => Some(if n > 0 { (n - 1) as nat } else { 0 }),
        None => None,
    }
}

/// Whether an exchange goes on: the status is pending, and the limit, if
/// there is one, is not used up.
pub open spec fn goes_on(status: Seq<char>, left: Option<nat>) -> bool {
    pending(status) && left != Some(0nat)
}

/// A limit on fetches, as a mathematical value.
pub open spec fn limit_view(left: Option<usize>) -> Option<nat> {
    match left {
        Some(n) => Some(n as nat),
        None => None,
    }
}

/// The state of an exchange: where the message resource is fetched, the
/// status that was seen last, and how many fetches may still be made, where
/// there is a limit.
#[derive(Debug)]
pub struct DeliveryPoll {
    pub url: String,
    pub status: String,
    pub fetches_left: Option<usize>,
}

impl View for DeliveryPoll {
    type V = PollView;

    open spec fn view(&self) -> PollView {
        PollView {
            url: self.url@,
            status: self.status@,
            fetches_left: limit_view(self.fetches_left),
        }
    }
}

/// What to do next in an exchange.
#[derive(Debug)]
pub enum PollStep {
    /// Perform this request and hand the answer to [`DeliveryPoll::observe`].
    Fetch(HttpRequest),
    /// The exchange is over, with this result.
    Done(Result<&'static str, TWRSError>),
}

/// The state in which an exchange starts, given the body of the response to
/// the request that sent the message: without a limit.
pub open spec fn started(initial: Seq<u8>) -> Result<PollView, Failure> {
    match decode_bytes(initial) {
        Ok(reply) => Ok(
            PollView { url: resource_url(reply.uri), status: reply.status, fetches_left: None },
        ),
        Err(cause) => Err(Failure::Decode(cause)),
    }
}

impl DeliveryPoll {
    /// Starts an exchange from a decoded reply, without a limit.
    pub fn of_reply(reply: TwilioReply) -> (r: DeliveryPoll)
        ensures
            r@ == (PollView {
                url: resource_url(reply.uri@),
                status: reply.status@,
                fetches_left: None,
            }),
    {
        let url = String::from_str("https://api.twilio.com/").concat(reply.uri.as_str());
        DeliveryPoll { url, status: reply.status, fetches_left: None }
    }

    /// The same exchange, with at most `max_fetches` fetches from now on.
    pub fn limited_to(self, max_fetches: usize) -> (r: DeliveryPoll)
        ensures
            r@ == (PollView { fetches_left: Some(max_fetches as nat), ..self@ }),
    {
        DeliveryPoll { url: self.url, status: self.status, fetches_left: Some(max_fetches) }
    }

    /// Whether the exchange goes on.
    pub fn wants_fetch(&self) -> (r: bool)
        ensures
            r == goes_on(self.status@, self@.fetches_left),
    {
        let allowed = match self.fetches_left {
            Some(n) => n > 0,
            None => true,
        };
        allowed && is_pending(self.status.as_str())
    }

    /// Starts an exchange from the body of the response to the request that
    /// sent the message. A body that cannot be decoded ends it at once.
    pub fn begin(initial: &[u8]) -> (r: Result<DeliveryPoll, TWRSError>)
        ensures
            match r {
                Ok(poll) => started(initial@) == Ok::<PollView, Failure>(poll@),
                Err(e) => started(initial@) == Err::<PollView, Failure>(e@),
            },
    {
        match TwilioReply::decode(initial) {
            Ok(reply) => Ok(DeliveryPoll::of_reply(reply)),
            Err(e) => Err(e),
        }
    }

    /// How the exchange ends if it ends now.
    pub fn outcome(&self) -> (r: Result<&'static str, TWRSError>)
        ensures
            outcome_view(r) == verdict(self.status@),
    {
        classify(self.status.clone())
    }

    /// What to do next: fetch the resource again while the exchange goes on,
    /// with the credentials that sent the message; else end the exchange with
    /// the verdict on the status that was seen last.
    pub fn next(&self, account_sid: &str, auth_token: &str) -> (r: PollStep)
        ensures
            match r {
                PollStep::Fetch(request) => {
                    &&& goes_on(self.status@, self@.fetches_left)
                    &&& request@ == get_of(self.url@, account_sid@, auth_token@)
                },
                PollStep::Done(outcome) => {
                    &&& !goes_on(self.status@, self@.fetches_left)
                    &&& outcome_view(outcome) == verdict(self.status@)
                },
            },
    {
        if self.wants_fetch() {
            PollStep::Fetch(fetch_request(self.url.as_str(), account_sid, auth_token))
        } else {
            PollStep::Done(self.outcome())
        }
    }

    /// Takes in the answer to a fetch. A response that decodes replaces the
    /// status and counts against the limit; a transport failure or a body
    /// that cannot be decoded ends the exchange with that error.
    pub fn observe(self, event: &PollEvent) -> (r: Result<DeliveryPoll, TWRSError>)
        ensures
            match r {
                Ok(poll) => {
                    &&& observed(event@) == Ok::<Seq<char>, Failure>(poll.status@)
                    &&& poll.url@ == self.url@
                    &&& poll@.fetches_left == spent(self@.fetches_left)
                },
                Err(e) => observed(event@) == Err::<Seq<char>, Failure>(e@),
            },
    {
        match event {
            PollEvent::Reply(body) => match TwilioReply::decode(body.as_slice()) {
                Ok(reply) => {
                    let fetches_left = match self.fetches_left {
                        Some(n) => Some(if n > 0 { n - 1 } else { 0 }),
                        None => None,
                    };
                    Ok(DeliveryPoll { url: self.url, status: reply.status, fetches_left })
                },
                Err(e) => Err(e),
            },
            PollEvent::TransportFailure(report) => Err(
                TWRSError::HTTPRequestError(report.clone()),
            ),
        }
    }
}

/// How an exchange went, as a mathematical value.
pub struct PollRun {
    /// The number of fetches that were made.
    pub gets: nat,
    /// How the exchange ended; `None` where the answers ran out while it
    /// still went on.
    pub outcome: Option<Result<Seq<char>, Failure>>,
}

/// How an exchange goes that starts with `status`, may make `left` fetches
/// if that is a limit, and gets `events` as the answers to its fetches, one
/// after the other.
pub open spec fn run(status: Seq<char>, left: Option<nat>, events: Seq<EventView>) -> PollRun
    decreases events.len(),
{
    if !goes_on(status, left) {
        PollRun { gets: 0, outcome: Some(verdict(status)) }
    } else if events.len() == 0 {
        PollRun { gets: 0, outcome: None }
    } else {
        match observed(events[0]) {
            Ok(next) => {
                let rest = run(next, spent(left), events.drop_first());
                PollRun { gets: rest.gets + 1, outcome: rest.outcome }
            },
            Err(failure) => PollRun { gets: 1, outcome: Some(Err(failure)) },
        }
    }
}

/// How waiting for a delivery goes, from the body of the response to the
/// request that sent the message, the limit on fetches if there is one, and
/// the answers to the fetches.
pub open spec fn delivery(
    initial: Seq<u8>,
    limit: Option<nat>,
    events: Seq<EventView>,
) -> PollRun {
    match started(initial) {
        Ok(poll) => run(poll.status, limit, events),
        Err(failure) => PollRun { gets: 0, outcome: Some(Err(failure)) },
    }
}

/// The answers of a list, as mathematical values.
pub open spec fn events_view(events: Seq<PollEvent>) -> Seq<EventView> {
    Seq::new(events.len(), |i: int| events[i]@)
}

/// How an exchange went.
#[derive(Debug)]
pub struct PollReport {
    /// The number of fetches that were made.
    pub gets: usize,
    /// How the exchange ended; `None` where the answers ran out while it
    /// still went on.
    pub outcome: Option<Result<&'static str, TWRSError>>,
}

impl PollReport {
    /// The end of the exchange, as a mathematical value.
    pub open spec fn spec_outcome(self) -> Option<Result<Seq<char>, Failure>> {
        match self.outcome {
            Some(outcome) => Some(outcome_view(outcome)),
            None => None,
        }
    }
}

/// Carries an exchange on against recorded answers.
fn carry_on(start: DeliveryPoll, events: &Vec<PollEvent>) -> (r: PollReport)
    ensures
        r.gets == run(start.status@, start@.fetches_left, events_view(events@)).gets,
        r.spec_outcome() == run(start.status@, start@.fetches_left, events_view(events@)).outcome,
{
    let ghost all = events_view(events@);
    let ghost whole = run(start.status@, start@.fetches_left, all);
    let mut poll = start;
    let mut gets: usize = 0;
    assert(all.subrange(0, all.len() as int) =~= all);
    while poll.wants_fetch()
        invariant
            gets <= events.len(),
            all == events_view(events@),
            whole == run(start.status@, start@.fetches_left, all),
            whole.gets == gets + run(
                poll.status@,
                poll@.fetches_left,
                all.subrange(gets as int, all.len() as int),
            ).gets,
            whole.outcome == run(
                poll.status@,
                poll@.fetches_left,
                all.subrange(gets as int, all.len() as int),
            ).outcome,
        decreases events.len() - gets,
    {
        if gets == events.len() {
            return PollReport { gets, outcome: None };
        }
        let ghost rest = all.subrange(gets as int, all.len() as int);
        proof {
            assert(rest[0] == events@[gets as int]@);
            assert(rest.drop_first() =~= all.subrange(gets + 1, all.len() as int));
        }
        match poll.observe(&events[gets]) {
            Ok(next) => {
                poll = next;
                gets += 1;
            },
            Err(e) => {
                return PollReport { gets: gets + 1, outcome: Some(Err(e)) };
            },
        }
    }
    PollReport { gets, outcome: Some(poll.outcome()) }
}

/// Waits for a delivery against recorded answers: starts from the body of the
/// response to the request that sent the message, and takes the answer to
/// each fetch from `events`, in order. Answers beyond the one that ends the
/// exchange are not looked at.
pub fn replay(initial: &[u8], events: &Vec<PollEvent>) -> (r: PollReport)
    ensures
        r.gets == delivery(initial@, None, events_view(events@)).gets,
        r.spec_outcome() == delivery(initial@, None, events_view(events@)).outcome,
{
    match DeliveryPoll::begin(initial) {
        Ok(poll) => carry_on(poll, events),
        Err(e) => PollReport { gets: 0, outcome: Some(Err(e)) },
    }
}

/// Like [`replay`], with at most `max_fetches` fetches.
pub fn replay_within(
    initial: &[u8],
    events: &Vec<PollEvent>,
    max_fetches: usize,
) -> (r: PollReport)
    ensures
        r.gets == delivery(initial@, Some(max_fetches as nat), events_view(events@)).gets,
        r.spec_outcome()
            == delivery(initial@, Some(max_fetches as nat), events_view(events@)).outcome,
{
    match DeliveryPoll::begin(initial) {
        Ok(poll) => carry_on(poll.limited_to(max_fetches), events),
        Err(e) => PollReport { gets: 0, outcome: Some(Err(e)) },
    }
}

/// A status other than `queued` and `sent` ends the exchange without a
/// single fetch, whatever the limit and whatever answers would be there, with
/// the verdict on that status.
pub proof fn lemma_settled_status_is_final(
    status: Seq<char>,
    left: Option<nat>,
    events: Seq<EventView>,
)
    requires
        !pending(status),
    ensures
        run(status, left, events) == (PollRun { gets: 0, outcome: Some(verdict(status)) }),
{
}

/// Of the statuses that the provider is known to report, `queued` and `sent`
/// are pending and no other is: `sending`, `undelivered` and `failed` end an
/// exchange with an error that carries them, `delivered` with success.
pub proof fn lemma_known_statuses()
    ensures
        pending("queued"@),
        pending("sent"@),
        !pending("sending"@) && verdict("sending"@) == Err::<Seq<char>, Failure>(
            Failure::NotDelivered("sending"@),
        ),
        !pending("undelivered"@) && verdict("undelivered"@) == Err::<Seq<char>, Failure>(
            Failure::NotDelivered("undelivered"@),
        ),
        !pending("failed"@) && verdict("failed"@) == Err::<Seq<char>, Failure>(
            Failure::NotDelivered("failed"@),
        ),
        !pending("delivered"@) && verdict("delivered"@) == Ok::<Seq<char>, Failure>(
            "delivered"@,
        ),
{
    reveal_strlit("queued");
    reveal_strlit("sent");
    reveal_strlit("sending");
    reveal_strlit("undelivered");
    reveal_strlit("failed");
    reveal_strlit("delivered");
    assert("queued"@.len() == 6 && "sent"@.len() == 4 && "delivered"@.len() == 9);
    assert("sending"@.len() == 7 && "undelivered"@.len() == 11 && "failed"@.len() == 6);
    assert("failed"@[0] != "queued"@[0]);
}

/// Whether each of the first `n` answers decodes to a pending status.
pub open spec fn keeps_pending(events: Seq<EventView>, n: int) -> bool {
    forall|j: int|
        0 <= j < n ==> (observed(#[trigger] events[j]) matches Ok(status) && pending(status))
}

/// Whether a limit leaves room for more than `k` fetches.
pub open spec fn allows_more_than(left: Option<nat>, k: int) -> bool {
    match left {
        Some(n) => n > k,
        None => true,
    }
}

/// An exchange ends with the first answer that brings a status other than
/// `queued` and `sent`, if the limit lets it come that far: after as many
/// fetches as there were answers up to and including that one, and with the
/// verdict on that status.
pub proof fn lemma_run_ends_at_first_settled(
    status: Seq<char>,
    left: Option<nat>,
    events: Seq<EventView>,
    k: int,
    last: Seq<char>,
)
    requires
        pending(status),
        0 <= k < events.len(),
        allows_more_than(left, k),
        keeps_pending(events, k),
        observed(events[k]) == Ok::<Seq<char>, Failure>(last),
        !pending(last),
    ensures
        run(status, left, events) == (PollRun {
            gets: (k + 1) as nat,
            outcome: Some(verdict(last)),
        }),
    decreases k,
{
    if k > 0 {
        let next = observed(events[0])->Ok_0;
        let rest = events.drop_first();
        assert(keeps_pending(rest, k - 1)) by {
            assert forall|j: int| 0 <= j < k - 1 implies (observed(#[trigger] rest[j]) matches Ok(s)
                && pending(s)) by {
                assert(rest[j] == events[j + 1]);
            }
        }
        assert(rest[k - 1] == events[k]);
        lemma_run_ends_at_first_settled(next, spent(left), rest, k - 1, last);
    } else {
        assert(run(last, spent(left), events.drop_first()).gets == 0);
    }
}

/// An exchange ends with the first answer that cannot be used, if the limit
/// lets it come that far: a body that does not decode, or a transport
/// failure. It ends with that error, and no fetch follows, whatever answers
/// would be there.
pub proof fn lemma_run_ends_at_first_failure(
    status: Seq<char>,
    left: Option<nat>,
    events: Seq<EventView>,
    k: int,
    failure: Failure,
)
    requires
        pending(status),
        0 <= k < events.len(),
        allows_more_than(left, k),
        keeps_pending(events, k),
        observed(events[k]) == Err::<Seq<char>, Failure>(failure),
    ensures
        run(status, left, events) == (PollRun {
            gets: (k + 1) as nat,
            outcome: Some(Err(failure)),
        }),
    decreases k,
{
    if k > 0 {
        let next = observed(events[0])->Ok_0;
        let rest = events.drop_first();
        assert(keeps_pending(rest, k - 1)) by {
            assert forall|j: int| 0 <= j < k - 1 implies (observed(#[trigger] rest[j]) matches Ok(s)
                && pending(s)) by {
                assert(rest[j] == events[j + 1]);
            }
        }
        assert(rest[k - 1] == events[k]);
        lemma_run_ends_at_first_failure(next, spent(left), rest, k - 1, failure);
    }
}

/// An exchange with a limit makes no more fetches than the limit, and ends
/// if there are at least as many answers as the limit allows fetches.
pub proof fn lemma_run_respects_limit(status: Seq<char>, limit: nat, events: Seq<EventView>)
    ensures
        run(status, Some(limit), events).gets <= limit,
        events.len() >= limit ==> run(status, Some(limit), events).outcome is Some,
    decreases events.len(),
{
    if goes_on(status, Some(limit)) && events.len() > 0 {
        match observed(events[0]) {
            Ok(next) => {
                lemma_run_respects_limit(next, (limit - 1) as nat, events.drop_first());
            },
            Err(_) => {},
        }
    }
}

} // verus!
