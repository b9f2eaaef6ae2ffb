//! What holds of every run of the listener, proved from the state machine.

use vstd::prelude::*;
use crate::error::Error;
use crate::listener::{
    accepts, after, below_limit, directive, larger, relayed, Delivery, Directive, ListenEvent,
    ListenerState, ListeningAction,
};

verus! {

/// The identifiers rise strictly.
pub open spec fn increasing(ids: Seq<i64>) -> bool {
    forall|i: int, j: int| 0 <= i < j < ids.len() ==> ids[i] < ids[j]
}

/// The state after the handler has accepted `k` events in a row with
/// `Continue`.
pub open spec fn continued(s: ListenerState, k: nat) -> ListenerState
    decreases k,
{
    if k == 0 {
        s
    } else {
        after(continued(s, (k - 1) as nat), ListenEvent::Handled(Ok(ListeningAction::Continue)))
    }
}

proof fn lemma_continued_within_batch(s: ListenerState, k: nat)
    requires
        s.wf(),
        s.phase is Dispatching,
        s.next == 0,
        increasing(s.batch),
        k < s.batch.len(),
    ensures
        continued(s, k) == (ListenerState {
            next: k as int,
            handled_until: if k == 0 {
                s.handled_until
            } else {
                larger(s.handled_until as int, s.batch[k - 1] + 1) as i64
            },
            ..s
        }),
    decreases k,
{
    if k > 0 {
        lemma_continued_within_batch(s, (k - 1) as nat);
        let before = continued(s, (k - 1) as nat);
        assert(before.batch == s.batch);
        assert(s.batch[k - 1] < i64::MAX);
        if k > 1 {
            assert(s.batch[k - 2] < s.batch[k - 1]);
        }
    }
}

/// When the handler accepts every event of a batch of strictly rising
/// identifiers with `Continue`, the next fetch is a poll whose offset is the
/// larger of the cursor before the batch and the last identifier plus one; it
/// is the last identifier plus one whenever the batch does not lie below the
/// cursor, as the remote side promises.
pub proof fn law_cursor_after_batch(s: ListenerState, ids: Vec<i64>)
    requires
        s.wf(),
        s.phase is Polling,
        ids@.len() > 0,
        below_limit(ids@),
        increasing(ids@),
    ensures
        ({
            let n = ids@.len();
            let fetched = after(s, ListenEvent::Fetched(ids));
            let last_step = ListenEvent::Handled(Ok(ListeningAction::Continue));
            let cursor = larger(s.handled_until as int, ids@[n - 1] + 1);
            &&& continued(fetched, n).phase is Polling
            &&& continued(fetched, n).handled_until == cursor
            &&& directive(continued(fetched, (n - 1) as nat), last_step) == (Directive::Fetch {
                offset: cursor as i64,
                timeout: Some(s.poll_timeout()),
                limit: None,
            })
            &&& s.handled_until <= ids@[n - 1] + 1 ==> cursor == ids@[n - 1] + 1
        }),
{
    let n = ids@.len();
    let fetched = after(s, ListenEvent::Fetched(ids));
    lemma_continued_within_batch(fetched, (n - 1) as nat);
    assert(ids@[n - 1] < i64::MAX);
    if n > 1 {
        assert(ids@[n - 2] < ids@[n - 1]);
    }
    assert(continued(fetched, n) == after(
        continued(fetched, (n - 1) as nat),
        ListenEvent::Handled(Ok(ListeningAction::Continue)),
    ));
}

proof fn lemma_continued_position(s: ListenerState, k: nat)
    requires
        s.wf(),
        s.phase is Dispatching,
        s.next == 0,
        k < s.batch.len(),
    ensures
        continued(s, k).wf(),
        continued(s, k).phase is Dispatching,
        continued(s, k).next == k,
        continued(s, k).batch == s.batch,
    decreases k,
{
    if k > 0 {
        lemma_continued_position(s, (k - 1) as nat);
        assert(s.batch[k - 1] < i64::MAX);
    }
}

/// While the handler answers `Continue`, the events of a batch reach it one
/// by one in the order in which they were fetched, each exactly once: the
/// first when the batch arrives, and the one at position `k` after `k`
/// answers.
pub proof fn law_batch_dispatched_in_order(s: ListenerState, ids: Vec<i64>, k: nat)
    requires
        s.wf(),
        s.phase is Polling,
        below_limit(ids@),
        0 < k < ids@.len(),
    ensures
        ({
            let fetched = after(s, ListenEvent::Fetched(ids));
            let answer = ListenEvent::Handled(Ok(ListeningAction::Continue));
            &&& directive(s, ListenEvent::Fetched(ids)) == (Directive::Handle {
                index: 0,
                update_id: ids@[0],
            })
            &&& directive(continued(fetched, (k - 1) as nat), answer) == (Directive::Handle {
                index: k as usize,
                update_id: ids@[k as int],
            })
        }),
{
    let fetched = after(s, ListenEvent::Fetched(ids));
    lemma_continued_position(fetched, (k - 1) as nat);
}

/// Every event keeps the state well-formed and never lowers what was
/// confirmed; within a run the cursor never retreats either, and it never
/// lags behind what was confirmed.
pub proof fn law_cursor_never_retreats(s: ListenerState, e: ListenEvent)
    requires
        s.wf(),
        accepts(s, e),
    ensures
        after(s, e).wf(),
        after(s, e).confirmed >= s.confirmed,
        after(s, e).confirmed <= after(s, e).handled_until,
        !(e is Start) ==> after(s, e).handled_until >= s.handled_until,
        after(s, e).timeout == s.timeout,
{
    if let ListenEvent::Handled(Ok(_)) = e {
        assert(s.batch[s.next] < i64::MAX);
    }
}

/// One event is with the handler at a time: while it is, only the handler's
/// return is taken; an event is handed out exactly when the listener
/// dispatches afterwards, and it is the first of a new batch or the one that
/// follows the event just handled.
pub proof fn law_one_event_in_flight(s: ListenerState, e: ListenEvent)
    requires
        s.wf(),
        accepts(s, e),
    ensures
        s.phase is Dispatching ==> e is Handled,
        directive(s, e) is Handle <==> after(s, e).phase is Dispatching,
        directive(s, e) matches Directive::Handle { index, update_id } ==> {
            &&& index == after(s, e).next
            &&& update_id == after(s, e).batch[index as int]
            &&& index == if s.phase is Dispatching {
                s.next + 1
            } else {
                0
            }
        },
{
}

/// After `Stop`, and after the handler's error, exactly one closing fetch
/// goes out: without timeout, asking for no events, at the cursor, which
/// `Stop` has moved past the event and an error has left before it. Whatever
/// that fetch returns ends the run: if it succeeds, with success after `Stop`
/// and with the handler's own error after an error, and the cursor is then
/// confirmed; if it fails, with the fetch's error.
pub proof fn law_closing_fetch_ends_run(
    s: ListenerState,
    outcome: Result<ListeningAction, Error>,
    reply: ListenEvent,
)
    requires
        s.wf(),
        s.phase is Dispatching,
        outcome is Err || outcome == Ok::<ListeningAction, Error>(ListeningAction::Stop),
        reply is Fetched || reply is FetchFailed,
    ensures
        ({
            let closing = ListenEvent::Handled(outcome);
            let draining = after(s, closing);
            let offset = if outcome is Err {
                s.handled_until
            } else {
                s.advanced()
            };
            &&& directive(s, closing) == (Directive::Fetch {
                offset,
                timeout: None,
                limit: Some(0i64),
            })
            &&& draining.phase is Draining
            &&& accepts(draining, reply)
            &&& after(draining, reply).phase is Terminated
            &&& reply is Fetched ==> after(draining, reply).confirmed == offset
            &&& (reply is Fetched && outcome is Ok) ==> directive(draining, reply)
                == Directive::Finish(Ok(()))
            &&& (reply is Fetched && outcome is Err) ==> directive(draining, reply)
                == Directive::Finish(Err(outcome->Err_0))
            &&& reply is FetchFailed ==> directive(draining, reply) == Directive::Finish(
                Err(reply->FetchFailed_0),
            )
        }),
{
}

/// A consumer that no longer receives ends the run like `Stop`: the event
/// counts as handled, one closing fetch goes out, and its return ends the run,
/// with success if the fetch succeeds.
pub proof fn law_receiver_gone_ends_run(s: ListenerState, reply: ListenEvent)
    requires
        s.wf(),
        s.phase is Dispatching,
        reply is Fetched || reply is FetchFailed,
    ensures
        ({
            let gone = ListenEvent::Handled(relayed(Delivery::ReceiverGone));
            let draining = after(s, gone);
            &&& directive(s, gone) == (Directive::Fetch {
                offset: s.advanced(),
                timeout: None,
                limit: Some(0i64),
            })
            &&& draining.phase is Draining
            &&& after(draining, reply).phase is Terminated
            &&& directive(draining, reply) is Finish
            &&& reply is Fetched ==> directive(draining, reply) == Directive::Finish(Ok(()))
        }),
{
    law_closing_fetch_ends_run(s, Ok(ListeningAction::Stop), reply);
}

/// Whether the events can occur one after another, starting in the state.
pub open spec fn run_accepts(s: ListenerState, events: Seq<ListenEvent>) -> bool
    decreases events.len(),
{
    events.len() == 0 || (accepts(s, events[0]) && run_accepts(
        after(s, events[0]),
        events.drop_first(),
    ))
}

/// The state after all the events.
pub open spec fn run(s: ListenerState, events: Seq<ListenEvent>) -> ListenerState
    decreases events.len(),
{
    if events.len() == 0 {
        s
    } else {
        run(after(s, events[0]), events.drop_first())
    }
}

/// How many events the listener hands to the handler over the run.
pub open spec fn handed_out(s: ListenerState, events: Seq<ListenEvent>) -> nat
    decreases events.len(),
{
    if events.len() == 0 {
        0
    } else {
        let first: nat = if directive(s, events[0]) is Handle {
            1
        } else {
            0
        };
        first + handed_out(after(s, events[0]), events.drop_first())
    }
}

/// How many times the handler returns over the run.
pub open spec fn returned(events: Seq<ListenEvent>) -> nat
    decreases events.len(),
{
    if events.len() == 0 {
        0
    } else {
        let first: nat = if events[0] is Handled {
            1
        } else {
            0
        };
        first + returned(events.drop_first())
    }
}

/// No event of the sequence begins a new run.
pub open spec fn within_one_run(events: Seq<ListenEvent>) -> bool {
    forall|i: int| 0 <= i < events.len() ==> !(#[trigger] events[i] is Start)
}

/// The number of events that are with the handler: one while dispatching,
/// else none.
pub open spec fn in_flight(s: ListenerState) -> nat {
    if s.phase is Dispatching {
        1
    } else {
        0
    }
}

/// Over any run, the events handed out are the handler's returns plus the
/// one event, if any, that is still with the handler: no event is handed out
/// before the one before it was answered.
pub proof fn law_backpressure(s: ListenerState, events: Seq<ListenEvent>)
    requires
        s.wf(),
        run_accepts(s, events),
    ensures
        run(s, events).wf(),
        in_flight(s) + handed_out(s, events) == returned(events) + in_flight(run(s, events)),
        !(s.phase is Dispatching) ==> handed_out(s, events) <= returned(events) + 1,
    decreases events.len(),
{
    if events.len() > 0 {
        let e = events[0];
        law_cursor_never_retreats(s, e);
        law_one_event_in_flight(s, e);
        law_backpressure(after(s, e), events.drop_first());
    }
}

/// Within one run neither the cursor nor what was confirmed ever goes back,
/// and the cursor never lags behind what was confirmed.
pub proof fn law_run_keeps_cursor_order(s: ListenerState, events: Seq<ListenEvent>)
    requires
        s.wf(),
        run_accepts(s, events),
        within_one_run(events),
    ensures
        run(s, events).handled_until >= s.handled_until,
        run(s, events).confirmed >= s.confirmed,
        run(s, events).confirmed <= run(s, events).handled_until,
    decreases events.len(),
{
    if events.len() > 0 {
        let e = events[0];
        law_cursor_never_retreats(s, e);
        let rest = events.drop_first();
        assert forall|i: int| 0 <= i < rest.len() implies !(#[trigger] rest[i] is Start) by {
            assert(rest[i] == events[i + 1]);
        }
        law_run_keeps_cursor_order(after(s, e), rest);
    }
}

} // verus!
