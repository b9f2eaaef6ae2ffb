//! The polling state machine: which request goes out next, which event the
//! handler sees next, and how the acknowledgment cursor moves.
//!
//! The listener performs no I/O itself. Whoever drives it carries out each
//! [`Directive`] and reports what happened as a [`ListenEvent`].

use vstd::prelude::*;
use crate::endpoint::{has_room, url_with_last_segment, Endpoint};
use crate::error::Error;
use crate::params::{fetch_fields, form_encode, Params, Request};

verus! {

/// Seconds that one long poll may last where the method names none.
pub const DEFAULT_POLL_TIMEOUT: i64 = 30;

/// How new events are obtained. Long polling, with an optional timeout in
/// seconds, is the only way so far.
#[derive(Debug, Clone, Copy, PartialEq, Eq)]
pub enum ListeningMethod {
    LongPoll(Option<i64>),
}

/// What a handler asks for after an event. With `Stop` the event still counts
/// as handled.
#[derive(Debug, Clone, Copy, PartialEq, Eq)]
pub enum ListeningAction {
    Continue,
    Stop,
}

/// Where a listener stands.
#[derive(Debug, Clone, Copy, PartialEq, Eq)]
pub enum Phase {
    /// No run has started yet.
    Idle,
    /// A fetch for new events is under way.
    Polling,
    /// The handler has one event of the current batch.
    Dispatching,
    /// The closing fetch, which only acknowledges, is under way.
    Draining,
    /// The run has ended.
    Terminated,
}

/// What happened outside since the last directive.
#[derive(Debug, PartialEq)]
pub enum ListenEvent {
    /// A run is to begin.
    Start,
    /// The fetch returned events with these identifiers, in this order.
    Fetched(Vec<i64>),
    /// The fetch failed.
    FetchFailed(Error),
    /// The handler returned for the event it was given.
    Handled(Result<ListeningAction, Error>),
}

/// What is to be done next.
#[derive(Debug, PartialEq)]
pub enum Directive {
    /// Fetch the events from `offset` on.
    Fetch { offset: i64, timeout: Option<i64>, limit: Option<i64> },
    /// Give the event at `index` of the current batch to the handler.
    Handle { index: usize, update_id: i64 },
    /// The run is over, with this result.
    Finish(Result<(), Error>),
}

/// What the consumer on the far side of the channel pair did with an event.
#[derive(Debug, PartialEq)]
pub enum Delivery {
    /// The event could not be sent: the consumer no longer receives.
    ReceiverGone,
    /// The consumer took the event and answered.
    Answered(Result<ListeningAction, Error>),
}

/// The mathematical state of a listener.
pub struct ListenerState {
    /// The timeout that the listening method names.
    pub timeout: Option<i64>,
    /// The cursor as the remote side last heard it.
    pub confirmed: i64,
    /// The smallest identifier not yet handled.
    pub handled_until: i64,
    pub phase: Phase,
    /// The identifiers of the batch that is being dispatched.
    pub batch: Seq<i64>,
    /// The position in the batch of the event that the handler has.
    pub next: int,
    /// The handler's error, kept while the closing fetch is under way.
    pub failure: Option<Error>,
}

/// The batch can be indexed by a machine word, and every identifier leaves
/// room for the cursor to move past it.
pub open spec fn below_limit(ids: Seq<i64>) -> bool {
    &&& ids.len() <= usize::MAX
    &&& forall|i: int| 0 <= i < ids.len() ==> #[trigger] ids[i] < i64::MAX
}

pub open spec fn larger(a: int, b: int) -> int {
    if a >= b {
        a
    } else {
        b
    }
}

impl ListenerState {
    /// The cursor never lags behind what was confirmed, the handler's event
    /// lies in the batch, and an error is kept only while draining.
    pub open spec fn wf(self) -> bool {
        &&& self.confirmed <= self.handled_until
        &&& below_limit(self.batch)
        &&& self.phase is Dispatching ==> 0 <= self.next < self.batch.len()
        &&& !(self.phase is Draining) ==> self.failure is None
    }

    /// The timeout of a poll: the method's, or the default.
    pub open spec fn poll_timeout(self) -> i64 {
        match self.timeout {
            Some(t) => t,
            None => DEFAULT_POLL_TIMEOUT,
        }
    }

    /// The fetch that waits for new events.
    pub open spec fn poll_fetch(self) -> Directive {
        Directive::Fetch {
            offset: self.handled_until,
            timeout: Some(self.poll_timeout()),
            limit: None,
        }
    }

    /// The fetch that only acknowledges: no timeout, no events asked for.
    pub open spec fn ack_fetch(self) -> Directive {
        Directive::Fetch { offset: self.handled_until, timeout: None, limit: Some(0i64) }
    }

    /// The cursor once the handler's current event counts as handled.
    pub open spec fn advanced(self) -> i64 {
        larger(self.handled_until as int, self.batch[self.next] + 1) as i64
    }
}

/// The outcome of the handler that relays an event over the channel pair:
/// a consumer that is gone counts as `Stop`, else its answer stands.
pub open spec fn relayed(delivery: Delivery) -> Result<ListeningAction, Error> {
    match delivery {
        Delivery::ReceiverGone => Ok(ListeningAction::Stop),
        Delivery::Answered(answer) => answer,
    }
}

/// Whether the event can occur in the state.
pub open spec fn accepts(s: ListenerState, e: ListenEvent) -> bool {
    match e {
        ListenEvent::Start => s.phase is Idle || s.phase is Terminated,
        ListenEvent::Fetched(ids) => (s.phase is Polling && below_limit(ids@))
            || s.phase is Draining,
        ListenEvent::FetchFailed(_) => s.phase is Polling || s.phase is Draining,
        ListenEvent::Handled(_) => s.phase is Dispatching,
    }
}

/// The state after the event.
pub open spec fn after(s: ListenerState, e: ListenEvent) -> ListenerState {
    match e {
        ListenEvent::Start => ListenerState {
            handled_until: s.confirmed,
            phase: Phase::Polling,
            batch: Seq::empty(),
            next: 0,
            failure: None,
            ..s
        },
        ListenEvent::Fetched(ids) => if s.phase is Polling {
            ListenerState {
                confirmed: s.handled_until,
                phase: if ids@.len() > 0 {
                    Phase::Dispatching
                } else {
                    Phase::Polling
                },
                batch: ids@,
                next: 0,
                ..s
            }
        } else {
            ListenerState {
                confirmed: s.handled_until,
                phase: Phase::Terminated,
                failure: None,
                ..s
            }
        },
        ListenEvent::FetchFailed(_) => if s.phase is Polling {
            s
        } else {
            ListenerState { phase: Phase::Terminated, failure: None, ..s }
        },
        ListenEvent::Handled(Err(e)) => ListenerState {
            phase: Phase::Draining,
            failure: Some(e),
            ..s
        },
        ListenEvent::Handled(Ok(ListeningAction::Stop)) => ListenerState {
            handled_until: s.advanced(),
            phase: Phase::Draining,
            failure: None,
            ..s
        },
        ListenEvent::Handled(Ok(ListeningAction::Continue)) => if s.next + 1 < s.batch.len() {
            ListenerState { handled_until: s.advanced(), next: s.next + 1, ..s }
        } else {
            ListenerState {
                handled_until: s.advanced(),
                phase: Phase::Polling,
                batch: Seq::empty(),
                next: 0,
                ..s
            }
        },
    }
}

/// What the event makes the listener ask for.
pub open spec fn directive(s: ListenerState, e: ListenEvent) -> Directive {
    match e {
        ListenEvent::Start => after(s, e).poll_fetch(),
        ListenEvent::Fetched(ids) => if s.phase is Polling {
            if ids@.len() > 0 {
                Directive::Handle { index: 0, update_id: ids@[0] }
            } else {
                after(s, e).poll_fetch()
            }
        } else {
            match s.failure {
                Some(err) => Directive::Finish(Err(err)),
                None => Directive::Finish(Ok(())),
            }
        },
        ListenEvent::FetchFailed(err) => if s.phase is Polling {
            s.poll_fetch()
        } else {
            Directive::Finish(Err(err))
        },
        ListenEvent::Handled(Err(_)) => after(s, e).ack_fetch(),
        ListenEvent::Handled(Ok(ListeningAction::Stop)) => after(s, e).ack_fetch(),
        ListenEvent::Handled(Ok(ListeningAction::Continue)) => if s.next + 1 < s.batch.len() {
            Directive::Handle { index: (s.next + 1) as usize, update_id: s.batch[s.next + 1] }
        } else {
            after(s, e).poll_fetch()
        },
    }
}

/// Receives events by polling: holds the cursor and decides, event by event,
/// what is done next.
pub struct Listener {
    method: ListeningMethod,
    confirmed: i64,
    url: Endpoint,
    handled_until: i64,
    phase: Phase,
    batch: Vec<i64>,
    next: usize,
    failure: Option<Error>,
}

impl Listener {
    pub closed spec fn view(&self) -> ListenerState {
        ListenerState {
            timeout: match self.method {
                ListeningMethod::LongPoll(t) => t,
            },
            confirmed: self.confirmed,
            handled_until: self.handled_until,
            phase: self.phase,
            batch: self.batch@,
            next: self.next as int,
            failure: self.failure,
        }
    }

    /// The address that the listener's requests go to.
    pub closed spec fn endpoint(&self) -> Seq<char> {
        self.url@
    }

    /// The number of bytes of the address in canonical form.
    pub closed spec fn address_bytes(&self) -> nat {
        self.url.canonical_bytes()
    }

    /// Whether the address of the fetch can be built: it must not outgrow
    /// what the URL parser can hold.
    pub open spec fn room_to_fetch(&self) -> bool {
        has_room(self.address_bytes(), "getUpdates"@)
    }

    /// Whether the address of the fetch can be built.
    pub fn has_room_to_fetch(&self) -> (r: bool)
        ensures
            r == self.room_to_fetch(),
    {
        self.url.has_room_for("getUpdates")
    }

    /// A listener on `url` that has confirmed nothing and has not started.
    pub fn new(url: Endpoint, method: ListeningMethod) -> (r: Listener)
        ensures
            r.endpoint() == url@,
            r.address_bytes() == url.canonical_bytes(),
            r@ == (ListenerState {
                timeout: match method {
                    ListeningMethod::LongPoll(t) => t,
                },
                confirmed: 0,
                handled_until: 0,
                phase: Phase::Idle,
                batch: Seq::empty(),
                next: 0,
                failure: None,
            }),
            r@.wf(),
    {
        Listener {
            method,
            confirmed: 0,
            url,
            handled_until: 0,
            phase: Phase::Idle,
            batch: Vec::new(),
            next: 0,
            failure: None,
        }
    }

    /// The cursor as the remote side last heard it.
    pub fn confirmed(&self) -> (r: i64)
        ensures
            r == self@.confirmed,
    {
        self.confirmed
    }

    /// The smallest identifier not yet handled.
    pub fn handled_until(&self) -> (r: i64)
        ensures
            r == self@.handled_until,
    {
        self.handled_until
    }

    pub fn phase(&self) -> (r: Phase)
        ensures
            r == self@.phase,
    {
        self.phase
    }

    /// The request of a fetch: `getUpdates` with the offset, then the timeout
    /// and the limit where there is one.
    pub fn send_get_updates(&self, offset: i64, timeout: Option<i64>, limit: Option<i64>) -> (r:
        Request)
        requires
            self.room_to_fetch(),
        ensures
            r.url@ == url_with_last_segment(self.endpoint(), "getUpdates"@),
            r.body@ == form_encode(fetch_fields(offset, timeout, limit)),
    {
        let mut params = Params::new();
        params.add_get("offset", offset);
        params.add_get_opt("timeout", timeout);
        params.add_get_opt("limit", limit);
        Request { url: self.url.method_url("getUpdates"), body: params.encode() }
    }

    /// Whether `event` can be given to `listen` now.
    pub fn accepts(&self, event: &ListenEvent) -> (r: bool)
        ensures
            r == accepts(self@, *event),
    {
        match event {
            ListenEvent::Start => match self.phase {
                Phase::Idle => true,
                Phase::Terminated => true,
                _ => false,
            },
            ListenEvent::Fetched(ids) => match self.phase {
                Phase::Polling => all_below_limit(ids),
                Phase::Draining => true,
                _ => false,
            },
            ListenEvent::FetchFailed(_) => match self.phase {
                Phase::Polling => true,
                Phase::Draining => true,
                _ => false,
            },
            ListenEvent::Handled(_) => match self.phase {
                Phase::Dispatching => true,
                _ => false,
            },
        }
    }

    fn poll_fetch(&self) -> (d: Directive)
        ensures
            d == self@.poll_fetch(),
    {
        let timeout: i64 = match self.method {
            ListeningMethod::LongPoll(Some(t)) => t,
            ListeningMethod::LongPoll(None) => DEFAULT_POLL_TIMEOUT,
        };
        Directive::Fetch { offset: self.handled_until, timeout: Some(timeout), limit: None }
    }

    fn ack_fetch(&self) -> (d: Directive)
        ensures
            d == self@.ack_fetch(),
    {
        Directive::Fetch { offset: self.handled_until, timeout: None, limit: Some(0) }
    }

    /// Takes one event and says what is to be done next.
    ///
    /// A run starts by polling from the confirmed cursor. A failed poll is
    /// repeated as it was. A batch is handed to the handler event by event, in
    /// the order received; each event that the handler accepts moves the
    /// cursor past it. On `Stop`, and on the handler's error, one closing
    /// fetch acknowledges what was handled, and the run ends: with success
    /// after `Stop`, with the handler's error after an error, and with the
    /// closing fetch's own error if that fetch fails.
    pub fn listen(&mut self, event: ListenEvent) -> (d: Directive)
        requires
            old(self)@.wf(),
            accepts(old(self)@, event),
        ensures
            final(self)@ == after(old(self)@, event),
            d == directive(old(self)@, event),
            final(self)@.wf(),
            final(self).endpoint() == old(self).endpoint(),
            final(self).address_bytes() == old(self).address_bytes(),
    {
        match event {
            ListenEvent::Start => {
                self.handled_until = self.confirmed;
                self.phase = Phase::Polling;
                self.batch = Vec::new();
                self.next = 0;
                self.failure = None;
                self.poll_fetch()
            },
            ListenEvent::Fetched(ids) => {
                match self.phase {
                    Phase::Polling => {
                        self.confirmed = self.handled_until;
                        self.next = 0;
                        if ids.len() > 0 {
                            let first: i64 = ids[0];
                            self.batch = ids;
                            self.phase = Phase::Dispatching;
                            Directive::Handle { index: 0, update_id: first }
                        } else {
                            self.batch = ids;
                            self.poll_fetch()
                        }
                    },
                    _ => {
                        self.confirmed = self.handled_until;
                        self.phase = Phase::Terminated;
                        match self.failure.take() {
                            Some(err) => Directive::Finish(Err(err)),
                            None => Directive::Finish(Ok(())),
                        }
                    },
                }
            },
            ListenEvent::FetchFailed(err) => {
                match self.phase {
                    Phase::Polling => self.poll_fetch(),
                    _ => {
                        self.phase = Phase::Terminated;
                        self.failure = None;
                        Directive::Finish(Err(err))
                    },
                }
            },
            ListenEvent::Handled(outcome) => self.handled(outcome),
        }
    }

    /// The step of `listen` for the handler's return.
    fn handled(&mut self, outcome: Result<ListeningAction, Error>) -> (d: Directive)
        requires
            old(self)@.wf(),
            old(self)@.phase is Dispatching,
        ensures
            final(self)@ == after(old(self)@, ListenEvent::Handled(outcome)),
            d == directive(old(self)@, ListenEvent::Handled(outcome)),
            final(self)@.wf(),
            final(self).endpoint() == old(self).endpoint(),
            final(self).address_bytes() == old(self).address_bytes(),
    {
        match outcome {
            Err(err) => {
                self.phase = Phase::Draining;
                self.failure = Some(err);
                self.ack_fetch()
            },
            Ok(action) => {
                let update_id: i64 = self.batch[self.next];
                if update_id >= self.handled_until {
                    self.handled_until = update_id + 1;
                }
                match action {
                    ListeningAction::Stop => {
                        self.phase = Phase::Draining;
                        self.failure = None;
                        self.ack_fetch()
                    },
                    ListeningAction::Continue => {
                        if self.next < self.batch.len() - 1 {
                            self.next = self.next + 1;
                            Directive::Handle {
                                index: self.next,
                                update_id: self.batch[self.next],
                            }
                        } else {
                            self.phase = Phase::Polling;
                            self.batch = Vec::new();
                            self.next = 0;
                            self.poll_fetch()
                        }
                    },
                }
            },
        }
    }

    /// The step for a handler that relays each event to a consumer over a
    /// channel pair and waits for its answer: if the event could not be sent
    /// the run stops as if the handler had said `Stop`, else the consumer's
    /// answer is the handler's return.
    pub fn channel(&mut self, delivery: Delivery) -> (d: Directive)
        requires
            old(self)@.wf(),
            old(self)@.phase is Dispatching,
        ensures
            final(self)@ == after(old(self)@, ListenEvent::Handled(relayed(delivery))),
            d == directive(old(self)@, ListenEvent::Handled(relayed(delivery))),
            final(self)@.wf(),
            final(self).endpoint() == old(self).endpoint(),
            final(self).address_bytes() == old(self).address_bytes(),
    {
        let outcome = match delivery {
            Delivery::ReceiverGone => Ok(ListeningAction::Stop),
            Delivery::Answered(answer) => answer,
        };
        self.handled(outcome)
    }
}

/// Whether every identifier is below the largest integer.
pub fn all_below_limit(ids: &Vec<i64>) -> (r: bool)
    ensures
        r == below_limit(ids@),
{
    let mut i: usize = 0;
    while i < ids.len()
        invariant
            i <= ids.len(),
            forall|j: int| 0 <= j < i ==> #[trigger] ids@[j] < i64::MAX,
        decreases ids.len() - i,
    {
        if ids[i] == i64::MAX {
            return false;
        }
        i = i + 1;
    }
    true
}

} // verus!
