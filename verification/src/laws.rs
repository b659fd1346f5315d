use vstd::prelude::*;
use crate::candidate::{CandidateModel, DescriptorModel, OfferError};
use crate::engine::{event_of, ActionModel, EngineModel, EventModel};
use crate::network_manager::{paste_spec, start_spec};
use crate::relay::{read_spec, SignalMessage};
use crate::state::{FailureReason, NegotiationState};

verus! {

/// Every transition keeps what holds of every negotiation.
pub proof fn lemma_step_keeps_wf(m: EngineModel, e: EventModel)
    requires
        m.wf(),
    ensures
        m.step(e).0.wf(),
{
}

/// Once the abort latch is set nothing happens any more: whatever arrives,
/// the negotiation stays exactly as it is and asks for nothing.
pub proof fn lemma_abort_is_final(m: EngineModel, e: EventModel)
    requires
        m.aborted,
    ensures
        m.step(e) == (m, Seq::<ActionModel>::empty()),
{
}

/// Once the abort latch is set, starting, pasting a descriptor and handing
/// over candidates do nothing either.
pub proof fn lemma_abort_stops_calls(
    m: EngineModel,
    decoded: Result<DescriptorModel, OfferError>,
    expected: bool,
    cs: Seq<CandidateModel>,
)
    requires
        m.aborted,
    ensures
        start_spec(m) == (m, Seq::<ActionModel>::empty()),
        m.begin() == (m, Seq::<ActionModel>::empty()),
        paste_spec(m, decoded, expected) == (m, Seq::<ActionModel>::empty()),
        m.take_candidates(cs) == (m, Seq::<ActionModel>::empty()),
{
}

/// A closed or failed negotiation has its latch set, so it never changes
/// again and asks for nothing.
pub proof fn lemma_closed_and_failed_are_final(m: EngineModel, e: EventModel)
    requires
        m.wf(),
        m.phase is Closed || m.phase is Failed,
    ensures
        m.aborted,
        m.step(e) == (m, Seq::<ActionModel>::empty()),
{
}

/// Closing an open channel, from either end, leads to the closed phase and
/// sets the latch.
pub proof fn lemma_close_sets_latch(m: EngineModel, e: EventModel)
    requires
        !m.aborted,
        m.phase is ChannelOpen,
        e is ChannelClosed || e is CloseRequested,
    ensures
        m.step(e).0.phase is Closed,
        m.step(e).0.aborted,
{
}

/// The first failure sets the latch, names its reason in the phase and is
/// told to the caller exactly once.
pub proof fn lemma_failure_sets_latch(m: EngineModel, e: EventModel)
    requires
        m.wf(),
        !m.aborted,
        m.step(e).0.phase is Failed,
    ensures
        m.step(e).0.aborted,
        m.step(e).1 == seq![ActionModel::ReportError(m.step(e).0.phase->Failed_0)],
{
}

/// While the transport has not taken the remote description, a remote
/// candidate joins the end of the waiting queue and nothing is asked of the
/// transport.
pub proof fn lemma_candidate_waits(m: EngineModel, c: CandidateModel)
    requires
        !m.halted(),
        !m.remote_ready,
    ensures
        m.step(EventModel::RemoteCandidate(c)).0 == (EngineModel {
            pending: m.pending.push(c),
            ..m
        }),
        m.step(EventModel::RemoteCandidate(c)).1 == Seq::<ActionModel>::empty(),
{
}

/// While the transport has not taken the remote description, no event but
/// its taking makes the negotiation hand a candidate to the transport, and
/// no other event touches the waiting queue except to add an arrival.
pub proof fn lemma_no_candidate_before_remote(m: EngineModel, e: EventModel, i: int)
    requires
        m.wf(),
        !m.remote_ready,
        !(e is RemoteDescriptionApplied),
        0 <= i < m.step(e).1.len(),
    ensures
        !(m.step(e).1[i] is AddIceCandidate),
        !m.step(e).0.remote_ready,
        m.step(e).0.pending == m.pending || (e is RemoteCandidate && m.step(e).0.pending
            == m.pending.push(e->RemoteCandidate_0)),
{
}

/// When the transport takes the remote description, every waiting candidate
/// is handed to it exactly once, in the order of arrival, before anything
/// else is asked for, and the queue is empty afterwards.
pub proof fn lemma_flush_in_arrival_order(m: EngineModel)
    requires
        !m.halted(),
        m.phase is RemoteDescriptionPending,
    ensures
        m.step(EventModel::RemoteDescriptionApplied).0.phase is RemoteDescriptionSet,
        m.step(EventModel::RemoteDescriptionApplied).0.remote_ready,
        m.step(EventModel::RemoteDescriptionApplied).0.pending.len() == 0,
        m.step(EventModel::RemoteDescriptionApplied).1.take(m.pending.len() as int) == Seq::new(
            m.pending.len(),
            |i: int| ActionModel::AddIceCandidate(m.pending[i]),
        ),
        forall|i: int|
            m.pending.len() <= i < m.step(EventModel::RemoteDescriptionApplied).1.len() ==> !(
            #[trigger] m.step(EventModel::RemoteDescriptionApplied).1[i] is AddIceCandidate),
{
    let actions = m.step(EventModel::RemoteDescriptionApplied).1;
    assert(actions.take(m.pending.len() as int) =~= m.flush());
}

/// Once the transport has the remote description, a remote candidate goes to
/// it at once and nothing waits.
pub proof fn lemma_candidate_applied_at_once(m: EngineModel, c: CandidateModel)
    requires
        m.wf(),
        !m.halted(),
        m.remote_ready,
    ensures
        m.step(EventModel::RemoteCandidate(c)) == (m, seq![ActionModel::AddIceCandidate(c)]),
        m.pending.len() == 0,
{
}

/// An error message from the relay fails a live negotiation, whatever its
/// phase: the phase names the relay as the reason, the latch is set and the
/// caller is told.
pub proof fn lemma_relay_error_fails(m: EngineModel, msg: SignalMessage)
    requires
        !m.halted(),
        msg is Error,
    ensures
        event_of(read_spec(msg)) == EventModel::RelayFault,
        m.step(event_of(read_spec(msg))).0.phase == NegotiationState::Failed(
            FailureReason::Relay,
        ),
        m.step(event_of(read_spec(msg))).0.aborted,
        m.step(event_of(read_spec(msg))).1 == seq![
            ActionModel::ReportError(FailureReason::Relay),
        ],
{
}

/// The channel counts as open only after the transport said so: no other
/// event leads into the open phase.
pub proof fn lemma_open_only_when_reported(m: EngineModel, e: EventModel)
    requires
        !(m.phase is ChannelOpen),
        m.step(e).0.phase is ChannelOpen,
    ensures
        e is ChannelOpened,
{
}

/// The negotiation after a sequence of events, and everything it asked for
/// along the way, in order.
pub open spec fn run(m: EngineModel, events: Seq<EventModel>) -> (EngineModel, Seq<ActionModel>)
    decreases events.len(),
{
    if events.len() == 0 {
        (m, Seq::empty())
    } else {
        let before = run(m, events.drop_last());
        let after = before.0.step(events.last());
        (after.0, before.1 + after.1)
    }
}

/// The candidates that a sequence of actions hands to the transport, in
/// order.
pub open spec fn applied(actions: Seq<ActionModel>) -> Seq<CandidateModel>
    decreases actions.len(),
{
    if actions.len() == 0 {
        Seq::empty()
    } else {
        match actions.last() {
            ActionModel::AddIceCandidate(c) => applied(actions.drop_last()).push(c),
            _ => applied(actions.drop_last()),
        }
    }
}

/// The remote candidate that an event brings, if it brings one.
pub open spec fn arrival(e: EventModel) -> Seq<CandidateModel> {
    match e {
        EventModel::RemoteCandidate(c) => seq![c],
        _ => Seq::empty(),
    }
}

/// The remote candidates that a sequence of events brings, in order.
pub open spec fn received(events: Seq<EventModel>) -> Seq<CandidateModel>
    decreases events.len(),
{
    if events.len() == 0 {
        Seq::empty()
    } else {
        received(events.drop_last()) + arrival(events.last())
    }
}

proof fn lemma_applied_concat(a: Seq<ActionModel>, b: Seq<ActionModel>)
    ensures
        applied(a + b) == applied(a) + applied(b),
    decreases b.len(),
{
    if b.len() == 0 {
        assert(a + b =~= a);
        assert(applied(a) + applied(b) =~= applied(a));
    } else {
        assert((a + b).drop_last() =~= a + b.drop_last());
        assert((a + b).last() == b.last());
        lemma_applied_concat(a, b.drop_last());
        match b.last() {
            ActionModel::AddIceCandidate(c) => {
                assert((applied(a) + applied(b.drop_last())).push(c) =~= applied(a) + applied(
                    b.drop_last(),
                ).push(c));
            },
            _ => {},
        }
    }
}

proof fn lemma_applied_none(a: Seq<ActionModel>)
    requires
        forall|i: int| 0 <= i < a.len() ==> !(#[trigger] a[i] is AddIceCandidate),
    ensures
        applied(a) == Seq::<CandidateModel>::empty(),
    decreases a.len(),
{
    if a.len() > 0 {
        assert(!(a[a.len() - 1] is AddIceCandidate));
        lemma_applied_none(a.drop_last());
    }
}

proof fn lemma_applied_all(cs: Seq<CandidateModel>)
    ensures
        applied(Seq::new(cs.len(), |i: int| ActionModel::AddIceCandidate(cs[i]))) == cs,
    decreases cs.len(),
{
    let all = Seq::new(cs.len(), |i: int| ActionModel::AddIceCandidate(cs[i]));
    if cs.len() == 0 {
        assert(applied(all) =~= cs);
    } else {
        let rest = cs.drop_last();
        assert(all.drop_last() =~= Seq::new(
            rest.len(),
            |i: int| ActionModel::AddIceCandidate(rest[i]),
        ));
        assert(all.last() == ActionModel::AddIceCandidate(cs.last()));
        lemma_applied_all(rest);
        assert(rest.push(cs.last()) =~= cs);
    }
}

/// One transition neither loses nor repeats a candidate: what it hands to the
/// transport, followed by what waits afterwards, is what waited before,
/// followed by the arrival. And it hands nothing over unless the transport
/// has the remote description afterwards.
pub proof fn lemma_step_conserves_candidates(m: EngineModel, e: EventModel)
    requires
        m.wf(),
    ensures
        !m.step(e).0.halted() ==> applied(m.step(e).1) + m.step(e).0.pending == m.pending
            + arrival(e),
        !m.step(e).0.remote_ready ==> applied(m.step(e).1) == Seq::<CandidateModel>::empty()
            && !m.remote_ready,
        m.halted() ==> m.step(e).0.halted(),
{
    let after = m.step(e);
    if m.halted() {
        lemma_applied_none(after.1);
    } else {
        match e {
            EventModel::RemoteCandidate(c) => {
                if m.remote_ready {
                    lemma_applied_all(seq![c]);
                    assert(after.1 =~= Seq::new(
                        seq![c].len(),
                        |i: int| ActionModel::AddIceCandidate(seq![c][i]),
                    ));
                    assert(applied(after.1) + after.0.pending =~= m.pending + arrival(e));
                } else {
                    lemma_applied_none(after.1);
                    assert(applied(after.1) + after.0.pending =~= m.pending + arrival(e));
                }
            },
            EventModel::RemoteDescriptionApplied => {
                if m.phase is RemoteDescriptionPending {
                    lemma_applied_all(m.pending);
                    lemma_applied_concat(m.flush(), seq![ActionModel::CreateAnswer]);
                    lemma_applied_none(seq![ActionModel::CreateAnswer]);
                    assert(m.flush().push(ActionModel::CreateAnswer) =~= m.flush()
                        + seq![ActionModel::CreateAnswer]);
                    assert(applied(after.1) =~= m.pending);
                    assert(applied(after.1) + after.0.pending =~= m.pending + arrival(e));
                } else {
                    lemma_applied_none(after.1);
                    assert(applied(after.1) + after.0.pending =~= m.pending + arrival(e));
                }
            },
            _ => {
                lemma_applied_none(after.1);
                assert(applied(after.1) + after.0.pending =~= m.pending + arrival(e));
            },
        }
    }
}

/// Along any sequence of events, from any valid negotiation: as long as the
/// transport has not taken the remote description, no candidate has been
/// handed to it; and as long as the negotiation is live, the candidates
/// handed to the transport, followed by those that still wait, are exactly
/// those that waited at the start followed by the arrivals, in order. So
/// each candidate is handed over once, none is lost and none overtakes
/// another.
pub proof fn lemma_candidates_applied_once_in_order(m: EngineModel, events: Seq<EventModel>)
    requires
        m.wf(),
    ensures
        run(m, events).0.wf(),
        m.halted() ==> run(m, events).0.halted(),
        !run(m, events).0.remote_ready ==> applied(run(m, events).1) == Seq::<
            CandidateModel,
        >::empty(),
        !run(m, events).0.halted() ==> applied(run(m, events).1) + run(m, events).0.pending
            == m.pending + received(events),
    decreases events.len(),
{
    if events.len() == 0 {
        assert(applied(run(m, events).1) + m.pending =~= m.pending + received(events));
    } else {
        let before = run(m, events.drop_last());
        let after = before.0.step(events.last());
        lemma_candidates_applied_once_in_order(m, events.drop_last());
        lemma_step_conserves_candidates(before.0, events.last());
        lemma_applied_concat(before.1, after.1);
        if !after.0.remote_ready {
            assert(applied(before.1 + after.1) =~= Seq::empty());
        }
        if !after.0.halted() {
            assert(!before.0.halted());
            assert(applied(before.1) + applied(after.1) + after.0.pending =~= applied(before.1) + (
            applied(after.1) + after.0.pending));
            assert(applied(before.1) + (before.0.pending + arrival(events.last())) =~= (applied(
                before.1,
            ) + before.0.pending) + arrival(events.last()));
        }
    }
}

/// Once the abort latch is set, no sequence of events changes anything or
/// asks for anything.
pub proof fn lemma_nothing_after_abort(m: EngineModel, events: Seq<EventModel>)
    requires
        m.aborted,
    ensures
        run(m, events) == (m, Seq::<ActionModel>::empty()),
    decreases events.len(),
{
    if events.len() > 0 {
        lemma_nothing_after_abort(m, events.drop_last());
        assert(Seq::<ActionModel>::empty() + Seq::<ActionModel>::empty() =~= Seq::<
            ActionModel,
        >::empty());
    }
}

/// The offerer's way: from idle, being paired, getting its offer from the
/// transport, receiving the answer, the transport taking it, the candidates
/// settling and the channel opening lead through the six phases in order.
pub proof fn lemma_offerer_way(m: EngineModel, offer: Seq<char>, answer: Seq<char>)
    requires
        m.wf(),
        !m.halted(),
        m.state.role() is Offerer,
        m.phase is Idle,
    ensures
        ({
            let m1 = m.step(EventModel::SessionReady(true)).0;
            let m2 = m1.step(EventModel::LocalDescriptionCreated(offer)).0;
            let m3 = m2.step(EventModel::RemoteAnswer(answer)).0;
            let m4 = m3.step(EventModel::RemoteDescriptionApplied).0;
            let m5 = m4.step(EventModel::CandidatesSettled).0;
            let m6 = m5.step(EventModel::ChannelOpened).0;
            &&& m1.phase is LocalDescriptionPending
            &&& m2.phase is LocalDescriptionSet
            &&& m2.offer == offer
            &&& m3.phase is RemoteDescriptionPending
            &&& m4.phase is RemoteDescriptionSet
            &&& m5.phase is CandidatesApplied
            &&& m6.phase is ChannelOpen
            &&& !m6.aborted
        }),
{
}

/// The answerer's way: from idle, receiving the offer, the transport taking
/// it, getting its answer from the transport, the candidates settling and
/// the channel opening lead through the five phases in order.
pub proof fn lemma_answerer_way(m: EngineModel, offer: Seq<char>, answer: Seq<char>)
    requires
        m.wf(),
        !m.halted(),
        m.state.role() is Answerer,
        m.phase is Idle,
    ensures
        ({
            let m1 = m.step(EventModel::RemoteOffer(offer)).0;
            let m2 = m1.step(EventModel::RemoteDescriptionApplied).0;
            let m3 = m2.step(EventModel::LocalDescriptionCreated(answer)).0;
            let m4 = m3.step(EventModel::CandidatesSettled).0;
            let m5 = m4.step(EventModel::ChannelOpened).0;
            &&& m1.phase is RemoteDescriptionPending
            &&& m2.phase is RemoteDescriptionSet
            &&& m3.phase is LocalDescriptionSet
            &&& m3.offer == answer
            &&& m4.phase is CandidatesApplied
            &&& m5.phase is ChannelOpen
            &&& !m5.aborted
        }),
{
}

/// A descriptor's candidates, handed over while the latch is unset and the
/// transport has the remote description, all go to the transport: one
/// request for each, in the descriptor's order, none repeated and none left
/// out, and nothing else changes.
pub proof fn lemma_set_candidates_in_order(m: EngineModel, cs: Seq<CandidateModel>)
    requires
        !m.aborted,
        m.remote_ready,
    ensures
        m.take_candidates(cs).0 == m,
        m.take_candidates(cs).1.len() == cs.len(),
        forall|i: int|
            0 <= i < cs.len() ==> (#[trigger] m.take_candidates(cs).1[i])
                == ActionModel::AddIceCandidate(cs[i]),
        applied(m.take_candidates(cs).1) == cs,
{
    lemma_applied_all(cs);
}

/// A descriptor's candidates, handed over while the latch is unset and the
/// transport has not taken the remote description, all join the end of the
/// waiting queue in the descriptor's order, and nothing is asked of the
/// transport.
pub proof fn lemma_set_candidates_wait(m: EngineModel, cs: Seq<CandidateModel>)
    requires
        !m.aborted,
        !m.remote_ready,
    ensures
        m.take_candidates(cs).0 == (EngineModel { pending: m.pending + cs, ..m }),
        m.take_candidates(cs).1 == Seq::<ActionModel>::empty(),
{
}

/// The events that concern candidates and reports only.
pub open spec fn beside_the_way(e: EventModel) -> bool {
    e is RemoteCandidate || e is CandidateDiscovered || e is CandidateRejected || e is Reported
}

/// A sequence of events without those that concern candidates and reports
/// only, the others in their order.
pub open spec fn on_the_way(events: Seq<EventModel>) -> Seq<EventModel>
    decreases events.len(),
{
    if events.len() == 0 {
        Seq::empty()
    } else if beside_the_way(events.last()) {
        on_the_way(events.drop_last())
    } else {
        on_the_way(events.drop_last()).push(events.last())
    }
}

/// Two negotiations are equally far: the same side, the same phase, the
/// same latch.
pub open spec fn equally_far(a: EngineModel, b: EngineModel) -> bool {
    &&& a.state.role() == b.state.role()
    &&& a.mode == b.mode
    &&& a.phase == b.phase
    &&& a.aborted == b.aborted
}

/// How far a negotiation gets with an event depends only on how far it is:
/// not on the candidates that wait or were found, nor on the reports.
pub proof fn lemma_step_goes_equally_far(a: EngineModel, b: EngineModel, e: EventModel)
    requires
        equally_far(a, b),
    ensures
        equally_far(a.step(e).0, b.step(e).0),
{
}

/// An event that concerns candidates or reports only moves neither the
/// phase nor the latch.
pub proof fn lemma_beside_the_way(m: EngineModel, e: EventModel)
    requires
        beside_the_way(e),
    ensures
        equally_far(m.step(e).0, m),
{
}

proof fn lemma_run_push(m: EngineModel, events: Seq<EventModel>, e: EventModel)
    ensures
        run(m, events.push(e)).0 == run(m, events).0.step(e).0,
{
    assert(events.push(e).drop_last() =~= events);
    assert(events.push(e).last() == e);
}

/// Candidates and reports may arrive at any time and in any order without
/// changing where the negotiation gets: a sequence of events leads to the
/// same phase and latch as the same sequence without them.
pub proof fn lemma_candidates_do_not_change_the_way(m: EngineModel, events: Seq<EventModel>)
    ensures
        equally_far(run(m, events).0, run(m, on_the_way(events)).0),
    decreases events.len(),
{
    if events.len() > 0 {
        let rest = events.drop_last();
        let e = events.last();
        lemma_candidates_do_not_change_the_way(m, rest);
        if beside_the_way(e) {
            lemma_beside_the_way(run(m, rest).0, e);
        } else {
            lemma_run_push(m, on_the_way(rest), e);
            lemma_step_goes_equally_far(run(m, rest).0, run(m, on_the_way(rest)).0, e);
        }
    }
}

/// What leads an offerer to the open channel, in order.
pub open spec fn offerer_events(offer: Seq<char>, answer: Seq<char>) -> Seq<EventModel> {
    seq![
        EventModel::SessionReady(true),
        EventModel::LocalDescriptionCreated(offer),
        EventModel::RemoteAnswer(answer),
        EventModel::RemoteDescriptionApplied,
        EventModel::CandidatesSettled,
        EventModel::ChannelOpened,
    ]
}

/// What leads an answerer to the open channel, in order.
pub open spec fn answerer_events(offer: Seq<char>, answer: Seq<char>) -> Seq<EventModel> {
    seq![
        EventModel::SessionReady(false),
        EventModel::RemoteOffer(offer),
        EventModel::RemoteDescriptionApplied,
        EventModel::LocalDescriptionCreated(answer),
        EventModel::CandidatesSettled,
        EventModel::ChannelOpened,
    ]
}

proof fn lemma_run_six(m: EngineModel, s: Seq<EventModel>)
    requires
        s.len() == 6,
    ensures
        run(m, s).0 == m.step(s[0]).0.step(s[1]).0.step(s[2]).0.step(s[3]).0.step(s[4]).0.step(
            s[5],
        ).0,
{
    let s0 = Seq::<EventModel>::empty();
    let s1 = s0.push(s[0]);
    let s2 = s1.push(s[1]);
    let s3 = s2.push(s[2]);
    let s4 = s3.push(s[3]);
    let s5 = s4.push(s[4]);
    let s6 = s5.push(s[5]);
    assert(s6 =~= s);
    assert(run(m, s0).0 == m);
    lemma_run_push(m, s0, s[0]);
    lemma_run_push(m, s1, s[1]);
    lemma_run_push(m, s2, s[2]);
    lemma_run_push(m, s3, s[3]);
    lemma_run_push(m, s4, s[4]);
    lemma_run_push(m, s5, s[5]);
}

/// An idle offerer reaches the open channel, and does not fail, along every
/// sequence of events that holds its six steps in order, whatever
/// candidates and reports arrive in between, before or after.
pub proof fn lemma_offerer_reaches_open(
    m: EngineModel,
    events: Seq<EventModel>,
    offer: Seq<char>,
    answer: Seq<char>,
)
    requires
        m.wf(),
        !m.aborted,
        m.state.role() is Offerer,
        m.phase is Idle,
        on_the_way(events) == offerer_events(offer, answer),
    ensures
        run(m, events).0.phase is ChannelOpen,
        !run(m, events).0.aborted,
{
    lemma_candidates_do_not_change_the_way(m, events);
    lemma_run_six(m, offerer_events(offer, answer));
    lemma_offerer_way(m, offer, answer);
}

/// An idle answerer reaches the open channel, and does not fail, along every
/// sequence of events that holds its six steps in order, whatever
/// candidates and reports arrive in between, before or after.
pub proof fn lemma_answerer_reaches_open(
    m: EngineModel,
    events: Seq<EventModel>,
    offer: Seq<char>,
    answer: Seq<char>,
)
    requires
        m.wf(),
        !m.aborted,
        m.state.role() is Answerer,
        m.phase is Idle,
        on_the_way(events) == answerer_events(offer, answer),
    ensures
        run(m, events).0.phase is ChannelOpen,
        !run(m, events).0.aborted,
{
    lemma_candidates_do_not_change_the_way(m, events);
    lemma_run_six(m, answerer_events(offer, answer));
    lemma_answerer_way(m, offer, answer);
    assert(m.step(EventModel::SessionReady(false)).0 == m);
}

} // verus!
