use vstd::prelude::*;

verus! {

/// Where the dispatch loop stands.
#[derive(Clone, Copy, Debug, PartialEq, Eq, Structural)]
pub enum LoopPhase {
    /// Taking requests from the dispatch channel.
    Running,
    /// The channel has closed; answers of requests in flight are still delivered.
    Draining,
    /// Nothing more to do: the channel has closed and every request is answered.
    Stopped,
}

/// What happened, as the loop's runner reports it.
pub enum LoopEvent<I, S, R> {
    /// The dispatch channel yielded a request with its response sink.
    Arrived(I, S),
    /// The dispatch channel reported closure: no producer is left and the queue is drained.
    Closed,
    /// The handler finished the request of this ticket, with this result.
    Finished(u64, R),
    /// Writing the answer of this ticket failed: its receiver was dropped.
    Undelivered(u64),
}

/// What the loop's runner is to do next.
pub enum LoopAction<I, S, R> {
    /// Hand the request to the handler capability, under this ticket.
    Invoke(u64, I),
    /// Write the result to the sink; it is the answer of this ticket.
    Deliver(u64, S, R),
    /// Drop the request and its sink unanswered: its receiver observes closure.
    Discard(I, S),
    /// Nothing to do but wait for the next event.
    Idle,
    /// Terminate the loop.
    Stop,
}

/// The loop's state as a mathematical value.
pub struct LoopView<S> {
    pub phase: LoopPhase,
    pub next_ticket: u64,
    /// Requests handed to the handler and not answered yet, by ticket, in order of arrival.
    pub pending: Seq<(u64, S)>,
}

/// Whether `t` is the ticket of a pending request.
pub open spec fn is_pending<S>(pending: Seq<(u64, S)>, t: u64) -> bool {
    exists|i: int| 0 <= i < pending.len() && #[trigger] pending[i].0 == t
}

/// The position of ticket `t` among the pending requests.
pub open spec fn position_of<S>(pending: Seq<(u64, S)>, t: u64) -> int {
    choose|i: int| 0 <= i < pending.len() && #[trigger] pending[i].0 == t
}

/// Pending tickets rise strictly in order of arrival and stay below the next ticket;
/// a stopped loop has nothing pending, a draining one something.
pub open spec fn loop_wf<S>(v: LoopView<S>) -> bool {
    &&& forall|i: int, j: int|
        0 <= i < j < v.pending.len() ==> (#[trigger] v.pending[i]).0 < (#[trigger] v.pending[j]).0
    &&& forall|i: int| 0 <= i < v.pending.len() ==> (#[trigger] v.pending[i]).0 < v.next_ticket
    &&& (v.phase == LoopPhase::Stopped ==> v.pending.len() == 0)
    &&& (v.phase == LoopPhase::Draining ==> v.pending.len() > 0)
}

/// One transition of the dispatch loop.
///
/// A request that arrives while the loop runs gets the next ticket and goes to
/// the handler; its sink waits under that ticket. A finished ticket's result
/// goes to the sink of that ticket, which is then forgotten, so that a second
/// result of the same ticket goes nowhere. A failed delivery changes nothing.
/// Closure stops the loop once nothing is pending.
pub open spec fn step_spec<I, S, R>(v: LoopView<S>, ev: LoopEvent<I, S, R>) -> (LoopView<S>, LoopAction<I, S, R>) {
    match ev {
        LoopEvent::Arrived(request, sink) => {
            if v.phase == LoopPhase::Running && v.next_ticket < u64::MAX {
                (
                    LoopView {
                        phase: v.phase,
                        next_ticket: (v.next_ticket + 1) as u64,
                        pending: v.pending.push((v.next_ticket, sink)),
                    },
                    LoopAction::Invoke(v.next_ticket, request),
                )
            } else {
                (v, LoopAction::Discard(request, sink))
            }
        },
        LoopEvent::Closed => {
            if v.phase == LoopPhase::Running {
                if v.pending.len() == 0 {
                    (LoopView { phase: LoopPhase::Stopped, ..v }, LoopAction::Stop)
                } else {
                    (LoopView { phase: LoopPhase::Draining, ..v }, LoopAction::Idle)
                }
            } else if v.phase == LoopPhase::Stopped {
                (v, LoopAction::Stop)
            } else {
                (v, LoopAction::Idle)
            }
        },
        LoopEvent::Finished(t, result) => {
            if is_pending(v.pending, t) {
                let i = position_of(v.pending, t);
                let rest = v.pending.remove(i);
                let phase = if v.phase == LoopPhase::Draining && rest.len() == 0 {
                    LoopPhase::Stopped
                } else {
                    v.phase
                };
                (LoopView { phase, next_ticket: v.next_ticket, pending: rest }, LoopAction::Deliver(t, v.pending[i].1, result))
            } else {
                (v, LoopAction::Idle)
            }
        },
        LoopEvent::Undelivered(_) => (v, LoopAction::Idle),
    }
}


/// The actions the loop takes on a sequence of events, from state `v`.
pub open spec fn run_actions<I, S, R>(v: LoopView<S>, evs: Seq<LoopEvent<I, S, R>>) -> Seq<LoopAction<I, S, R>>
    decreases evs.len(),
{
    if evs.len() == 0 {
        Seq::empty()
    } else {
        let (w, a) = step_spec(v, evs[0]);
        seq![a] + run_actions(w, evs.drop_first())
    }
}

/// Whether an action delivers an answer of ticket `t`.
pub open spec fn delivers<I, S, R>(a: LoopAction<I, S, R>, t: u64) -> bool {
    a is Deliver && a->Deliver_0 == t
}

/// The sink waiting under a pending ticket.
pub open spec fn sink_of<S>(pending: Seq<(u64, S)>, t: u64) -> S {
    pending[position_of(pending, t)].1
}

proof fn lemma_removed<S>(p: Seq<(u64, S)>, i: int, a: int)
    requires
        0 <= i < p.len(),
        0 <= a < p.len() - 1,
    ensures
        p.remove(i)[a] == (if a < i { p[a] } else { p[a + 1] }),
{
}

proof fn lemma_position<S>(p: Seq<(u64, S)>, i: int, t: u64)
    requires
        forall|a: int, b: int| 0 <= a < b < p.len() ==> (#[trigger] p[a]).0 < (#[trigger] p[b]).0,
        0 <= i < p.len(),
        p[i].0 == t,
    ensures
        is_pending(p, t),
        position_of(p, t) == i,
{
    assert(is_pending(p, t));
    let k = position_of(p, t);
    if k < i {
        assert(p[k].0 < p[i].0);
    } else if k > i {
        assert(p[i].0 < p[k].0);
    }
}

/// Every transition keeps the loop well formed.
pub proof fn lemma_step_keeps_wf<I, S, R>(v: LoopView<S>, ev: LoopEvent<I, S, R>)
    requires
        loop_wf(v),
    ensures
        loop_wf(step_spec(v, ev).0),
{
    if let LoopEvent::Finished(t, result) = ev {
        if is_pending(v.pending, t) {
            let i = position_of(v.pending, t);
            let rest = v.pending.remove(i);
            assert forall|a: int, b: int| 0 <= a < b < rest.len() implies
                (#[trigger] rest[a]).0 < (#[trigger] rest[b]).0 by {
                lemma_removed(v.pending, i, a);
                lemma_removed(v.pending, i, b);
                let a0 = if a < i { a } else { a + 1 };
                let b0 = if b < i { b } else { b + 1 };
                assert(v.pending[a0].0 < v.pending[b0].0);
            }
            assert forall|a: int| 0 <= a < rest.len() implies (#[trigger] rest[a]).0 < v.next_ticket by {
                lemma_removed(v.pending, i, a);
                let a0 = if a < i { a } else { a + 1 };
                assert(v.pending[a0].0 < v.next_ticket);
            }
        }
    }
}

/// A request that arrives while the loop runs goes to the handler under a
/// ticket that no pending request holds, and its sink waits under that ticket.
pub proof fn lemma_arrival_gets_fresh_ticket<I, S, R>(v: LoopView<S>, request: I, sink: S)
    requires
        loop_wf(v),
        v.phase == LoopPhase::Running,
        v.next_ticket < u64::MAX,
    ensures
        ({
            let (w, a) = step_spec(v, LoopEvent::<I, S, R>::Arrived(request, sink));
            &&& a == LoopAction::<I, S, R>::Invoke(v.next_ticket, request)
            &&& !is_pending(v.pending, v.next_ticket)
            &&& is_pending(w.pending, v.next_ticket)
            &&& sink_of(w.pending, v.next_ticket) == sink
        }),
{
    let (w, a) = step_spec(v, LoopEvent::<I, S, R>::Arrived(request, sink));
    if is_pending(v.pending, v.next_ticket) {
        let k = position_of(v.pending, v.next_ticket);
        assert(v.pending[k].0 < v.next_ticket);
    }
    lemma_step_keeps_wf(v, LoopEvent::<I, S, R>::Arrived(request, sink));
    lemma_position(w.pending, v.pending.len() as int, v.next_ticket);
}

/// The result of a pending ticket is delivered to the sink of that ticket,
/// and the ticket is then no longer pending.
pub proof fn lemma_answer_goes_to_its_sink<I, S, R>(v: LoopView<S>, t: u64, result: R)
    requires
        loop_wf(v),
        is_pending(v.pending, t),
    ensures
        ({
            let (w, a) = step_spec(v, LoopEvent::<I, S, R>::Finished(t, result));
            &&& a == LoopAction::<I, S, R>::Deliver(t, sink_of(v.pending, t), result)
            &&& !is_pending(w.pending, t)
        }),
{
    let (w, a) = step_spec(v, LoopEvent::<I, S, R>::Finished(t, result));
    let i = position_of(v.pending, t);
    if is_pending(w.pending, t) {
        let k = position_of(w.pending, t);
        lemma_removed(v.pending, i, k);
        let k0 = if k < i { k } else { k + 1 };
        if k0 < i {
            assert(v.pending[k0].0 < v.pending[i].0);
        } else {
            assert(v.pending[i].0 < v.pending[k0].0);
        }
    }
}

/// Any event other than the ticket's own completion leaves the ticket pending
/// with the same sink: no answer reaches another request's caller.
pub proof fn lemma_other_events_keep_sink<I, S, R>(v: LoopView<S>, t: u64, ev: LoopEvent<I, S, R>)
    requires
        loop_wf(v),
        is_pending(v.pending, t),
        !(ev is Finished && ev->Finished_0 == t),
    ensures
        is_pending(step_spec(v, ev).0.pending, t),
        sink_of(step_spec(v, ev).0.pending, t) == sink_of(v.pending, t),
{
    let w = step_spec(v, ev).0;
    lemma_step_keeps_wf(v, ev);
    let i = position_of(v.pending, t);
    match ev {
        LoopEvent::Arrived(request, sink) => {
            if v.phase == LoopPhase::Running && v.next_ticket < u64::MAX {
                assert(w.pending[i] == v.pending[i]);
                lemma_position(w.pending, i, t);
            }
        },
        LoopEvent::Finished(u, result) => {
            if is_pending(v.pending, u) {
                let j = position_of(v.pending, u);
                let i1 = if i < j { i } else { i - 1 };
                lemma_removed(v.pending, j, i1);
                lemma_position(w.pending, i1, t);
            }
        },
        _ => {},
    }
}

/// Steps that keep a ticket unanswered and below the next ticket keep it so:
/// tickets are never handed out twice.
proof fn lemma_answered_stays_answered<I, S, R>(v: LoopView<S>, t: u64, ev: LoopEvent<I, S, R>)
    requires
        loop_wf(v),
        !is_pending(v.pending, t),
        t < v.next_ticket,
    ensures
        !is_pending(step_spec(v, ev).0.pending, t),
        t < step_spec(v, ev).0.next_ticket,
        !delivers(step_spec(v, ev).1, t),
{
    let w = step_spec(v, ev).0;
    match ev {
        LoopEvent::Arrived(request, sink) => {
            if is_pending(w.pending, t) {
                let k = position_of(w.pending, t);
                if k < v.pending.len() {
                    assert(v.pending[k] == w.pending[k]);
                }
            }
        },
        LoopEvent::Finished(u, result) => {
            if is_pending(v.pending, u) {
                let j = position_of(v.pending, u);
                if is_pending(w.pending, t) {
                    let k = position_of(w.pending, t);
                    lemma_removed(v.pending, j, k);
                    let k0 = if k < j { k } else { k + 1 };
                    assert(v.pending[k0].0 == t);
                }
            }
        },
        _ => {},
    }
}

proof fn lemma_never_delivered<I, S, R>(v: LoopView<S>, evs: Seq<LoopEvent<I, S, R>>, t: u64)
    requires
        loop_wf(v),
        !is_pending(v.pending, t),
        t < v.next_ticket,
    ensures
        forall|k: int| 0 <= k < run_actions(v, evs).len() ==> !delivers(#[trigger] run_actions(v, evs)[k], t),
    decreases evs.len(),
{
    if evs.len() > 0 {
        let (w, a) = step_spec(v, evs[0]);
        lemma_answered_stays_answered(v, t, evs[0]);
        lemma_step_keeps_wf(v, evs[0]);
        lemma_never_delivered(w, evs.drop_first(), t);
        let acts = run_actions(v, evs);
        assert forall|k: int| 0 <= k < acts.len() implies !delivers(#[trigger] acts[k], t) by {
            if k > 0 {
                assert(acts[k] == run_actions(w, evs.drop_first())[k - 1]);
            }
        }
    }
}

/// Over any sequence of events, the loop delivers at most one answer per
/// ticket, however many requests are in flight and in whatever order their
/// results come back.
pub proof fn lemma_each_ticket_answered_at_most_once<I, S, R>(v: LoopView<S>, evs: Seq<LoopEvent<I, S, R>>)
    requires
        loop_wf(v),
    ensures
        forall|j: int, k: int|
            0 <= j < k < run_actions(v, evs).len() && (#[trigger] run_actions(v, evs)[j]) is Deliver
                ==> !delivers(#[trigger] run_actions(v, evs)[k], run_actions(v, evs)[j]->Deliver_0),
    decreases evs.len(),
{
    if evs.len() > 0 {
        let (w, a) = step_spec(v, evs[0]);
        let rest = evs.drop_first();
        lemma_step_keeps_wf(v, evs[0]);
        lemma_each_ticket_answered_at_most_once(w, rest);
        let acts = run_actions(v, evs);
        assert forall|j: int, k: int|
            0 <= j < k < acts.len() && (#[trigger] acts[j]) is Deliver implies !delivers(
                #[trigger] acts[k],
                acts[j]->Deliver_0,
            ) by {
            let t = acts[j]->Deliver_0;
            assert(acts[k] == run_actions(w, rest)[k - 1]);
            if j == 0 {
                assert(evs[0] is Finished && evs[0]->Finished_0 == t);
                lemma_answer_goes_to_its_sink::<I, S, R>(v, t, evs[0]->Finished_1);
                assert(t < v.next_ticket) by {
                    let i = position_of(v.pending, t);
                    assert(v.pending[i].0 < v.next_ticket);
                }
                lemma_never_delivered(w, rest, t);
            } else {
                assert(acts[j] == run_actions(w, rest)[j - 1]);
            }
        }
    }
}


proof fn lemma_run_len<I, S, R>(v: LoopView<S>, evs: Seq<LoopEvent<I, S, R>>)
    ensures
        run_actions(v, evs).len() == evs.len(),
    decreases evs.len(),
{
    if evs.len() > 0 {
        lemma_run_len(step_spec(v, evs[0]).0, evs.drop_first());
    }
}

/// Whether an event reports the completion of ticket `t`.
pub open spec fn finishes<I, S, R>(ev: LoopEvent<I, S, R>, t: u64) -> bool {
    ev is Finished && ev->Finished_0 == t
}

/// A pending request is answered exactly once: at the first report of its
/// completion the loop delivers that result to the request's own sink, and
/// no other step of the run delivers an answer of its ticket, whatever other
/// requests arrive, finish or fail meanwhile.
pub proof fn lemma_pending_answered_exactly_once<I, S, R>(
    v: LoopView<S>,
    evs: Seq<LoopEvent<I, S, R>>,
    t: u64,
    k: int,
)
    requires
        loop_wf(v),
        is_pending(v.pending, t),
        0 <= k < evs.len(),
        finishes(evs[k], t),
        forall|j: int| 0 <= j < k ==> !finishes(#[trigger] evs[j], t),
    ensures
        run_actions(v, evs)[k] == LoopAction::<I, S, R>::Deliver(t, sink_of(v.pending, t), evs[k]->Finished_1),
        forall|j: int| 0 <= j < run_actions(v, evs).len() && j != k ==> !delivers(#[trigger] run_actions(v, evs)[j], t),
    decreases k,
{
    let (w, a) = step_spec(v, evs[0]);
    let rest = evs.drop_first();
    let acts = run_actions(v, evs);
    lemma_step_keeps_wf(v, evs[0]);
    lemma_run_len(w, rest);
    if k == 0 {
        lemma_answer_goes_to_its_sink::<I, S, R>(v, t, evs[0]->Finished_1);
        assert(t < v.next_ticket) by {
            let i = position_of(v.pending, t);
            assert(v.pending[i].0 < v.next_ticket);
        }
        lemma_never_delivered(w, rest, t);
        assert forall|j: int| 0 <= j < acts.len() && j != k implies !delivers(#[trigger] acts[j], t) by {
            assert(acts[j] == run_actions(w, rest)[j - 1]);
        }
    } else {
        assert(!finishes(evs[0], t));
        lemma_other_events_keep_sink(v, t, evs[0]);
        assert forall|j: int| 0 <= j < k - 1 implies !finishes(#[trigger] rest[j], t) by {
            assert(rest[j] == evs[j + 1]);
        }
        lemma_pending_answered_exactly_once(w, rest, t, k - 1);
        assert(acts[k] == run_actions(w, rest)[k - 1]);
        assert forall|j: int| 0 <= j < acts.len() && j != k implies !delivers(#[trigger] acts[j], t) by {
            if j > 0 {
                assert(acts[j] == run_actions(w, rest)[j - 1]);
            }
        }
    }
}


proof fn lemma_invokes_from_next_ticket<I, S, R>(v: LoopView<S>, evs: Seq<LoopEvent<I, S, R>>)
    ensures
        forall|k: int|
            0 <= k < run_actions(v, evs).len() && (#[trigger] run_actions(v, evs)[k]) is Invoke
                ==> run_actions(v, evs)[k]->Invoke_0 >= v.next_ticket,
    decreases evs.len(),
{
    if evs.len() > 0 {
        let (w, a) = step_spec(v, evs[0]);
        let rest = evs.drop_first();
        lemma_invokes_from_next_ticket(w, rest);
        let acts = run_actions(v, evs);
        assert forall|k: int| 0 <= k < acts.len() && (#[trigger] acts[k]) is Invoke implies acts[k]->Invoke_0
            >= v.next_ticket by {
            if k > 0 {
                assert(acts[k] == run_actions(w, rest)[k - 1]);
            }
        }
    }
}

/// Over any sequence of events, the handler is asked to run only requests
/// that arrived: each invocation carries, unchanged, the request of the
/// arrival that caused it, and no two invocations share a ticket.
pub proof fn lemma_each_arrival_invoked_once<I, S, R>(v: LoopView<S>, evs: Seq<LoopEvent<I, S, R>>)
    ensures
        run_actions(v, evs).len() == evs.len(),
        forall|k: int|
            0 <= k < run_actions(v, evs).len() && (#[trigger] run_actions(v, evs)[k]) is Invoke ==> {
                &&& evs[k] is Arrived
                &&& run_actions(v, evs)[k]->Invoke_1 == evs[k]->Arrived_0
            },
        forall|j: int, k: int|
            0 <= j < k < run_actions(v, evs).len() && (#[trigger] run_actions(v, evs)[j]) is Invoke && (
            #[trigger] run_actions(v, evs)[k]) is Invoke ==> run_actions(v, evs)[j]->Invoke_0
                != run_actions(v, evs)[k]->Invoke_0,
    decreases evs.len(),
{
    lemma_run_len(v, evs);
    if evs.len() > 0 {
        let (w, a) = step_spec(v, evs[0]);
        let rest = evs.drop_first();
        lemma_each_arrival_invoked_once(w, rest);
        lemma_invokes_from_next_ticket(w, rest);
        let acts = run_actions(v, evs);
        assert forall|k: int| 0 <= k < acts.len() && (#[trigger] acts[k]) is Invoke implies {
            &&& evs[k] is Arrived
            &&& acts[k]->Invoke_1 == evs[k]->Arrived_0
        } by {
            if k > 0 {
                assert(acts[k] == run_actions(w, rest)[k - 1]);
                assert(evs[k] == rest[k - 1]);
            }
        }
        assert forall|j: int, k: int|
            0 <= j < k < acts.len() && (#[trigger] acts[j]) is Invoke && (#[trigger] acts[k]) is Invoke implies acts[j]->Invoke_0
                != acts[k]->Invoke_0 by {
            assert(acts[k] == run_actions(w, rest)[k - 1]);
            if j > 0 {
                assert(acts[j] == run_actions(w, rest)[j - 1]);
            } else {
                assert(w.next_ticket == v.next_ticket + 1);
            }
        }
    }
}

/// A request that arrives while the loop runs, with tickets left, is handed
/// to the handler at once, as it came.
pub proof fn lemma_running_arrival_is_invoked<I, S, R>(v: LoopView<S>, evs: Seq<LoopEvent<I, S, R>>)
    requires
        evs.len() > 0,
        evs[0] is Arrived,
        v.phase == LoopPhase::Running,
        v.next_ticket < u64::MAX,
    ensures
        run_actions(v, evs)[0] == LoopAction::<I, S, R>::Invoke(v.next_ticket, evs[0]->Arrived_0),
{
}

/// A failed delivery, its receiver being gone, changes nothing: the loop keeps
/// running, and a request that arrives next is served and answered to its own sink.
pub proof fn lemma_failed_delivery_is_harmless<I, S, R>(v: LoopView<S>, gone: u64, request: I, sink: S, result: R)
    requires
        loop_wf(v),
        v.phase == LoopPhase::Running,
        v.next_ticket < u64::MAX,
    ensures
        ({
            let (v1, a1) = step_spec(v, LoopEvent::<I, S, R>::Undelivered(gone));
            let (v2, a2) = step_spec(v1, LoopEvent::<I, S, R>::Arrived(request, sink));
            let (v3, a3) = step_spec(v2, LoopEvent::<I, S, R>::Finished(v.next_ticket, result));
            &&& v1 == v
            &&& a1 is Idle
            &&& a2 == LoopAction::<I, S, R>::Invoke(v.next_ticket, request)
            &&& a3 == LoopAction::<I, S, R>::Deliver(v.next_ticket, sink, result)
            &&& v3.phase == LoopPhase::Running
        }),
{
    let (v2, a2) = step_spec(v, LoopEvent::<I, S, R>::Arrived(request, sink));
    lemma_arrival_gets_fresh_ticket::<I, S, R>(v, request, sink);
    lemma_step_keeps_wf(v, LoopEvent::<I, S, R>::Arrived(request, sink));
    lemma_answer_goes_to_its_sink::<I, S, R>(v2, v.next_ticket, result);
}

/// A running loop stops only on the closure of the dispatch channel; a failed
/// handler or a failed delivery never stops it.
pub proof fn lemma_stops_only_on_closure<I, S, R>(v: LoopView<S>, ev: LoopEvent<I, S, R>)
    requires
        loop_wf(v),
        v.phase == LoopPhase::Running,
    ensures
        step_spec(v, ev).0.phase != LoopPhase::Running ==> ev is Closed,
        !(step_spec(v, ev).1 is Stop) || ev is Closed,
{
}

/// The decisions of the dispatch loop: the single consumer of the dispatch
/// channel, which correlates each handler result with the sink of its request.
/// The runner performs the actions and reports the events.
pub struct DispatchLoop<S> {
    phase: LoopPhase,
    next_ticket: u64,
    pending: Vec<(u64, S)>,
}

impl<S> View for DispatchLoop<S> {
    type V = LoopView<S>;

    closed spec fn view(&self) -> LoopView<S> {
        LoopView { phase: self.phase, next_ticket: self.next_ticket, pending: self.pending@ }
    }
}

impl<S> DispatchLoop<S> {
    pub open spec fn wf(&self) -> bool {
        loop_wf(self@)
    }

    /// A running loop with nothing pending.
    pub fn new() -> (r: Self)
        ensures
            r.wf(),
            r@.phase == LoopPhase::Running,
            r@.pending.len() == 0,
            r@.next_ticket == 0,
    {
        DispatchLoop { phase: LoopPhase::Running, next_ticket: 0, pending: Vec::new() }
    }

    pub fn phase(&self) -> (r: LoopPhase)
        ensures
            r == self@.phase,
    {
        self.phase
    }

    /// Number of requests handed to the handler and not answered yet.
    pub fn in_flight(&self) -> (r: usize)
        ensures
            r == self@.pending.len(),
    {
        self.pending.len()
    }

    /// Whether the loop has terminated.
    pub fn is_stopped(&self) -> (r: bool)
        ensures
            r == (self@.phase == LoopPhase::Stopped),
    {
        match self.phase {
            LoopPhase::Stopped => true,
            _ => false,
        }
    }

    /// Position of ticket `t` among the pending requests, if it is pending.
    fn find(&self, t: u64) -> (r: Option<usize>)
        requires
            self.wf(),
        ensures
            r is Some <==> is_pending(self@.pending, t),
            r is Some ==> r->Some_0 == position_of(self@.pending, t),
    {
        let mut i: usize = 0;
        while i < self.pending.len()
            invariant
                self.wf(),
                i <= self.pending@.len(),
                forall|j: int| 0 <= j < i ==> (#[trigger] self.pending@[j]).0 != t,
            decreases self.pending@.len() - i,
        {
            if self.pending[i].0 == t {
                proof {
                    assert(self@.pending[i as int].0 == t);
                    assert(is_pending(self@.pending, t));
                    let k = position_of(self@.pending, t);
                    let p = self@.pending;
                    if k < i {
                        assert(p[k].0 != t);
                    } else if k > i {
                        assert(p[i as int].0 < p[k].0);
                    }
                }
                return Some(i);
            }
            i = i + 1;
        }
        None
    }

    /// Takes one event and says what to do, as `step_spec` describes.
    pub fn step<I, R>(&mut self, ev: LoopEvent<I, S, R>) -> (a: LoopAction<I, S, R>)
        requires
            old(self).wf(),
        ensures
            final(self).wf(),
            (final(self)@, a) == step_spec(old(self)@, ev),
    {
        match ev {
            LoopEvent::Arrived(request, sink) => {
                if self.phase == LoopPhase::Running && self.next_ticket < u64::MAX {
                    let t = self.next_ticket;
                    self.pending.push((t, sink));
                    self.next_ticket = t + 1;
                    LoopAction::Invoke(t, request)
                } else {
                    LoopAction::Discard(request, sink)
                }
            },
            LoopEvent::Closed => {
                match self.phase {
                    LoopPhase::Running => {
                        if self.pending.len() == 0 {
                            self.phase = LoopPhase::Stopped;
                            LoopAction::Stop
                        } else {
                            self.phase = LoopPhase::Draining;
                            LoopAction::Idle
                        }
                    },
                    LoopPhase::Stopped => LoopAction::Stop,
                    LoopPhase::Draining => LoopAction::Idle,
                }
            },
            LoopEvent::Finished(t, result) => {
                match self.find(t) {
                    Some(i) => {
                        let ghost before = self.pending@;
                        let (_, sink) = self.pending.remove(i);
                        proof {
                            assert forall|a: int, b: int| 0 <= a < b < self.pending@.len() implies
                                (#[trigger] self.pending@[a]).0 < (#[trigger] self.pending@[b]).0 by {
                                let a0 = if a < i { a } else { a + 1 };
                                let b0 = if b < i { b } else { b + 1 };
                                assert(self.pending@[a] == before[a0]);
                                assert(self.pending@[b] == before[b0]);
                            }
                            assert forall|a: int| 0 <= a < self.pending@.len() implies
                                (#[trigger] self.pending@[a]).0 < self.next_ticket by {
                                let a0 = if a < i { a } else { a + 1 };
                                assert(self.pending@[a] == before[a0]);
                            }
                        }
                        if self.phase == LoopPhase::Draining && self.pending.len() == 0 {
                            self.phase = LoopPhase::Stopped;
                        }
                        LoopAction::Deliver(t, sink, result)
                    },
                    None => LoopAction::Idle,
                }
            },
            LoopEvent::Undelivered(_) => LoopAction::Idle,
        }
    }
}

} // verus!
