use vstd::prelude::*;
use crate::candidate::{
    candidates_view, duplicate_candidates, ConnectionString, DescriptorModel, IceCandidate,
    OfferError,
};
use crate::codec::{decode, decode_spec};
use crate::engine::{actions_view, event_of, Action, ActionModel, EngineModel, Event};
use crate::relay::{
    candidate_of_text, read_message, read_spec, write_candidate, SessionId, SignalMessage,
};
use crate::state::{
    record, ExchangeMode, FailureReason, NegotiationState, Role, SendError, State,
};

verus! {

/// One negotiation, from creation to an open channel, a close or a failure.
/// It performs nothing itself: every call returns what the surroundings are
/// to do, in order, and they report back with events.
pub struct NetworkManager {
    state: State,
    mode: ExchangeMode,
    session_id: SessionId,
    phase: NegotiationState,
    aborted: bool,
    remote_ready: bool,
    pending: Vec<IceCandidate>,
    ice_candidates: Vec<IceCandidate>,
    offer: String,
}

impl View for NetworkManager {
    type V = EngineModel;

    closed spec fn view(&self) -> EngineModel {
        EngineModel {
            state: self.state,
            mode: self.mode,
            session: self.session_id.inner@,
            phase: self.phase,
            aborted: self.aborted,
            remote_ready: self.remote_ready,
            pending: candidates_view(self.pending@),
            local: candidates_view(self.ice_candidates@),
            offer: self.offer@,
        }
    }
}

/// What starting does: in relay mode the peer joins its session and waits to
/// be paired; in offline mode the negotiation begins at once.
pub open spec fn start_spec(m: EngineModel) -> (EngineModel, Seq<ActionModel>) {
    if m.halted() {
        (m, Seq::empty())
    } else if m.mode is Relay {
        (m, seq![ActionModel::JoinSession])
    } else {
        m.begin()
    }
}

/// What a pasted descriptor does, given what decoding made of it: a token
/// that does not decode fails the negotiation; a descriptor's description
/// goes to the transport and its candidates wait behind it.
pub open spec fn paste_spec(
    m: EngineModel,
    decoded: Result<DescriptorModel, OfferError>,
    expected: bool,
) -> (EngineModel, Seq<ActionModel>) {
    if m.halted() {
        (m, Seq::empty())
    } else {
        match decoded {
            Err(_) => m.fail(FailureReason::Encoding),
            Ok(d) => (
                m.take_remote(d.offer, expected).0.take_candidates(d.ice_candidates).0,
                m.take_remote(d.offer, expected).1,
            ),
        }
    }
}

/// The relay message that carries out an action, for the actions that go to
/// the relay.
pub open spec fn carries(msg: SignalMessage, session: Seq<char>, role: Role, a: ActionModel) -> bool {
    match a {
        ActionModel::JoinSession => msg matches SignalMessage::SessionJoin(id) && id.inner@
            == session,
        ActionModel::SendDescription(t) => if role is Offerer {
            msg matches SignalMessage::SdpOffer(id, text) && id.inner@ == session && text@ == t
        } else {
            msg matches SignalMessage::SdpAnswer(id, text) && id.inner@ == session && text@ == t
        },
        ActionModel::SendCandidate(c) => msg matches SignalMessage::IceCandidate(id, text)
            && id.inner@ == session && candidate_of_text(text@) == Some(c),
        _ => false,
    }
}

/// Whether an action goes to the relay.
pub open spec fn for_relay(a: ActionModel) -> bool {
    a is JoinSession || a is SendDescription || a is SendCandidate
}

impl NetworkManager {
    /// A fresh negotiation for one side, one session and one exchange mode.
    pub fn new(state: State, session_id: SessionId, mode: ExchangeMode) -> (r: NetworkManager)
        ensures
            r@ == EngineModel::initial(state, session_id.inner@, mode),
            r@.wf(),
    {
        let r = NetworkManager {
            state,
            mode,
            session_id,
            phase: NegotiationState::Idle,
            aborted: false,
            remote_ready: false,
            pending: Vec::new(),
            ice_candidates: Vec::new(),
            offer: String::new(),
        };
        proof {
            assert(r@.pending =~= Seq::empty());
            assert(r@.local =~= Seq::empty());
        }
        r
    }

    /// Where the negotiation stands.
    pub fn current_state(&self) -> (r: NegotiationState)
        ensures
            r == self@.phase,
    {
        self.phase
    }

    /// Whether the abort latch is set.
    pub fn is_aborted(&self) -> (r: bool)
        ensures
            r == self@.aborted,
    {
        self.aborted
    }

    /// The peer's side and the transport's last reports.
    pub fn get_state(&self) -> (r: State)
        ensures
            r == self@.state,
    {
        self.state
    }

    /// Replaces the transport's reports by those of `new_state`. The side was
    /// fixed at creation and stays.
    pub fn set_state(&mut self, new_state: State)
        ensures
            final(self)@ == (EngineModel {
                state: old(self)@.state.with(new_state.snapshot()),
                ..old(self)@
            }),
            old(self)@.wf() ==> final(self)@.wf(),
    {
        self.state = self.state.with(new_state.snapshot());
    }

    /// The local description; empty until the transport has made it.
    pub fn get_offer(&self) -> (r: String)
        ensures
            r@ == self@.offer,
    {
        self.offer.clone()
    }

    /// The local candidates found so far, oldest first.
    pub fn get_ice_candidates(&self) -> (r: Vec<IceCandidate>)
        ensures
            candidates_view(r@) == self@.local,
    {
        duplicate_candidates(&self.ice_candidates)
    }

    fn halted(&self) -> (r: bool)
        ensures
            r == self@.halted(),
    {
        self.aborted
    }

    fn fail(&mut self, reason: FailureReason) -> (r: Vec<Action>)
        ensures
            (final(self)@, actions_view(r@)) == old(self)@.fail(reason),
    {
        self.phase = NegotiationState::Failed(reason);
        self.aborted = true;
        let r = vec![Action::ReportError(reason)];
        proof {
            assert(actions_view(r@) =~= seq![ActionModel::ReportError(reason)]);
        }
        r
    }

    fn begin(&mut self) -> (r: Vec<Action>)
        ensures
            (final(self)@, actions_view(r@)) == old(self)@.begin(),
    {
        let idle = match self.phase {
            NegotiationState::Idle => true,
            _ => false,
        };
        let offerer = match self.state.role() {
            Role::Offerer => true,
            Role::Answerer => false,
        };
        if !self.halted() && offerer && idle {
            self.phase = NegotiationState::LocalDescriptionPending;
            let r = vec![Action::CreateDataChannel, Action::CreateOffer];
            proof {
                assert(actions_view(r@) =~= seq![
                    ActionModel::CreateDataChannel,
                    ActionModel::CreateOffer,
                ]);
            }
            r
        } else {
            let r: Vec<Action> = Vec::new();
            proof {
                assert(actions_view(r@) =~= Seq::empty());
            }
            r
        }
    }

    fn take_remote(&mut self, text: String, expected: bool) -> (r: Vec<Action>)
        ensures
            (final(self)@, actions_view(r@)) == old(self)@.take_remote(text@, expected),
    {
        if expected {
            self.phase = NegotiationState::RemoteDescriptionPending;
            let r = vec![Action::SetRemoteDescription(text)];
            proof {
                assert(actions_view(r@) =~= seq![ActionModel::SetRemoteDescription(text@)]);
            }
            r
        } else {
            self.fail(FailureReason::Relay)
        }
    }

    fn take_candidates(&mut self, cs: Vec<IceCandidate>) -> (r: Vec<Action>)
        ensures
            (final(self)@, actions_view(r@)) == old(self)@.take_candidates(candidates_view(cs@)),
    {
        let mut r: Vec<Action> = Vec::new();
        if self.halted() {
            proof {
                assert(actions_view(r@) =~= Seq::empty());
            }
            return r;
        }
        let ghost before = self@;
        let mut i: usize = 0;
        while i < cs.len()
            invariant
                i <= cs.len(),
                r.len() == if self.remote_ready { i as int } else { 0 },
                forall|k: int|
                    0 <= k < r.len() ==> (#[trigger] r@[k])@ == ActionModel::AddIceCandidate(
                        cs@[k]@,
                    ),
                self@ == (EngineModel {
                    pending: if before.remote_ready {
                        before.pending
                    } else {
                        before.pending + candidates_view(cs@).take(i as int)
                    },
                    ..before
                }),
            decreases cs.len() - i,
        {
            let c = cs[i].duplicate();
            if self.remote_ready {
                r.push(Action::AddIceCandidate(c));
            } else {
                let ghost held = candidates_view(self.pending@);
                self.pending.push(c);
                proof {
                    let taken = candidates_view(cs@).take(i as int + 1);
                    assert(taken =~= candidates_view(cs@).take(i as int).push(cs@[i as int]@));
                    assert(candidates_view(self.pending@) =~= held.push(c@));
                    assert(candidates_view(self.pending@) =~= before.pending + taken);
                }
            }
            i = i + 1;
        }
        proof {
            assert(candidates_view(cs@).take(cs.len() as int) =~= candidates_view(cs@));
            let expected = before.take_candidates(candidates_view(cs@));
            assert(actions_view(r@) =~= expected.1);
            assert(self@.pending =~= expected.0.pending);
        }
        r
    }

    fn flush(&mut self) -> (r: Vec<Action>)
        ensures
            actions_view(r@) == old(self)@.flush(),
            final(self)@ == (EngineModel { pending: Seq::empty(), ..old(self)@ }),
    {
        let mut waiting: Vec<IceCandidate> = Vec::new();
        core::mem::swap(&mut self.pending, &mut waiting);
        proof {
            assert(candidates_view(self.pending@) =~= Seq::empty());
        }
        let mut r: Vec<Action> = Vec::new();
        let mut i: usize = 0;
        while i < waiting.len()
            invariant
                i <= waiting.len(),
                r.len() == i,
                forall|k: int|
                    0 <= k < i ==> (#[trigger] r@[k])@ == ActionModel::AddIceCandidate(
                        waiting@[k]@,
                    ),
            decreases waiting.len() - i,
        {
            r.push(Action::AddIceCandidate(waiting[i].duplicate()));
            i = i + 1;
        }
        proof {
            assert(actions_view(r@) =~= old(self)@.flush());
        }
        r
    }

    /// Starts the session: in relay mode the peer joins and waits to be
    /// paired, in offline mode the negotiation begins at once.
    pub fn start(&mut self) -> (r: Vec<Action>)
        ensures
            (final(self)@, actions_view(r@)) == start_spec(old(self)@),
            old(self)@.wf() ==> final(self)@.wf(),
    {
        if self.halted() {
            let r: Vec<Action> = Vec::new();
            proof {
                assert(actions_view(r@) =~= Seq::empty());
            }
            return r;
        }
        match self.mode {
            ExchangeMode::Relay => {
                let r = vec![Action::JoinSession];
                proof {
                    assert(actions_view(r@) =~= seq![ActionModel::JoinSession]);
                }
                r
            },
            ExchangeMode::Offline => self.begin(),
        }
    }

    /// Begins the negotiation with the transport: the offerer, when idle,
    /// asks for a data channel and an offer; the answerer waits.
    pub fn start_web_rtc(&mut self) -> (r: Vec<Action>)
        ensures
            (final(self)@, actions_view(r@)) == old(self)@.begin(),
            old(self)@.wf() ==> final(self)@.wf(),
    {
        self.begin()
    }

    /// Hands a text over for sending. It goes out only on an open channel.
    pub fn send_message(&self, message_content: String) -> (r: Result<Action, SendError>)
        ensures
            match r {
                Ok(a) => self@.phase is ChannelOpen && a@ == ActionModel::SendOnChannel(
                    message_content@,
                ),
                Err(e) => !(self@.phase is ChannelOpen) && e.state == self@.phase,
            },
    {
        match self.phase {
            NegotiationState::ChannelOpen => Ok(Action::SendOnChannel(message_content)),
            _ => Err(SendError { state: self.phase }),
        }
    }

    /// Takes the candidates of a descriptor as remote candidates, in order:
    /// to the transport if it has the remote description, else to the
    /// waiting queue. A halted negotiation takes none.
    pub fn set_candidates(&mut self, connection_string: &ConnectionString) -> (r: Vec<Action>)
        ensures
            (final(self)@, actions_view(r@)) == old(self)@.take_candidates(
                connection_string@.ice_candidates,
            ),
            old(self)@.wf() ==> final(self)@.wf(),
    {
        let cs = duplicate_candidates(&connection_string.ice_candidates);
        self.take_candidates(cs)
    }

    fn paste(&mut self, token: &str, expected: bool) -> (r: Result<Vec<Action>, OfferError>)
        ensures
            match r {
                Ok(actions) => decode_spec(token@) is Ok && actions_view(actions@) == paste_spec(
                    old(self)@,
                    decode_spec(token@),
                    expected,
                ).1,
                Err(e) => decode_spec(token@) == Err::<DescriptorModel, OfferError>(e),
            },
            final(self)@ == paste_spec(old(self)@, decode_spec(token@), expected).0,
    {
        match decode(token) {
            Err(e) => {
                if !self.halted() {
                    let _ = self.fail(FailureReason::Encoding);
                }
                Err(e)
            },
            Ok(d) => {
                if self.halted() {
                    let r: Vec<Action> = Vec::new();
                    proof {
                        assert(actions_view(r@) =~= Seq::empty());
                    }
                    return Ok(r);
                }
                let ConnectionString { ice_candidates, offer } = d;
                let r = self.take_remote(offer, expected);
                let _ = self.take_candidates(ice_candidates);
                Ok(r)
            },
        }
    }

    /// The answerer takes the pasted offer: see `paste_spec`.
    pub fn validate_offer(&mut self, token: &str) -> (r: Result<Vec<Action>, OfferError>)
        ensures
            match r {
                Ok(actions) => decode_spec(token@) is Ok && actions_view(actions@) == paste_spec(
                    old(self)@,
                    decode_spec(token@),
                    old(self)@.awaits_offer(),
                ).1,
                Err(e) => decode_spec(token@) == Err::<DescriptorModel, OfferError>(e),
            },
            final(self)@ == paste_spec(
                old(self)@,
                decode_spec(token@),
                old(self)@.awaits_offer(),
            ).0,
            old(self)@.wf() ==> final(self)@.wf(),
    {
        let expected = self.awaits(Role::Answerer);
        self.paste(token, expected)
    }

    /// The offerer takes the pasted answer: see `paste_spec`.
    pub fn validate_answer(&mut self, token: &str) -> (r: Result<Vec<Action>, OfferError>)
        ensures
            match r {
                Ok(actions) => decode_spec(token@) is Ok && actions_view(actions@) == paste_spec(
                    old(self)@,
                    decode_spec(token@),
                    old(self)@.awaits_answer(),
                ).1,
                Err(e) => decode_spec(token@) == Err::<DescriptorModel, OfferError>(e),
            },
            final(self)@ == paste_spec(
                old(self)@,
                decode_spec(token@),
                old(self)@.awaits_answer(),
            ).0,
            old(self)@.wf() ==> final(self)@.wf(),
    {
        let expected = self.awaits(Role::Offerer);
        self.paste(token, expected)
    }

    fn awaits(&self, side: Role) -> (r: bool)
        ensures
            side is Answerer ==> r == self@.awaits_offer(),
            side is Offerer ==> r == self@.awaits_answer(),
    {
        match (side, self.state.role(), self.phase) {
            (Role::Answerer, Role::Answerer, NegotiationState::Idle) => true,
            (Role::Offerer, Role::Offerer, NegotiationState::LocalDescriptionSet) => true,
            _ => false,
        }
    }

    fn awaits_local(&self) -> (r: bool)
        ensures
            r == self@.awaits_local(),
    {
        match (self.state.role(), self.phase) {
            (Role::Offerer, NegotiationState::LocalDescriptionPending) => true,
            (Role::Answerer, NegotiationState::RemoteDescriptionSet) => true,
            _ => false,
        }
    }

    fn awaits_candidates(&self) -> (r: bool)
        ensures
            r == self@.awaits_candidates(),
    {
        match (self.state.role(), self.phase) {
            (Role::Offerer, NegotiationState::RemoteDescriptionSet) => true,
            (Role::Answerer, NegotiationState::LocalDescriptionSet) => true,
            _ => false,
        }
    }

    fn is_open(&self) -> (r: bool)
        ensures
            r == (self@.phase is ChannelOpen),
    {
        match self.phase {
            NegotiationState::ChannelOpen => true,
            _ => false,
        }
    }

    fn nothing(&self) -> (r: Vec<Action>)
        ensures
            actions_view(r@) == Seq::<ActionModel>::empty(),
    {
        let r: Vec<Action> = Vec::new();
        proof {
            assert(actions_view(r@) =~= Seq::empty());
        }
        r
    }

    fn one(&self, a: Action) -> (r: Vec<Action>)
        ensures
            r@ == seq![a],
            actions_view(r@) == seq![a@],
    {
        let r = vec![a];
        proof {
            assert(r@ =~= seq![a]);
            assert(actions_view(r@) =~= seq![a@]);
        }
        r
    }

    /// The transition function: takes one event and returns what is to be
    /// done about it, in order.
    pub fn handle(&mut self, event: Event) -> (r: Vec<Action>)
        ensures
            (final(self)@, actions_view(r@)) == old(self)@.step(event@),
            old(self)@.wf() ==> final(self)@.wf(),
    {
        if self.halted() {
            return self.nothing();
        }
        match event {
            Event::SessionReady(host) => {
                let offerer = match self.state.role() {
                    Role::Offerer => true,
                    Role::Answerer => false,
                };
                if host == offerer {
                    self.begin()
                } else {
                    self.fail(FailureReason::Relay)
                }
            },
            Event::RemoteOffer(t) => {
                let expected = self.awaits(Role::Answerer);
                self.take_remote(t, expected)
            },
            Event::RemoteAnswer(t) => {
                let expected = self.awaits(Role::Offerer);
                self.take_remote(t, expected)
            },
            Event::RemoteCandidate(c) => {
                if self.remote_ready {
                    self.one(Action::AddIceCandidate(c))
                } else {
                    self.pending.push(c);
                    proof {
                        assert(candidates_view(self.pending@) =~= old(self)@.pending.push(c@));
                    }
                    self.nothing()
                }
            },
            Event::RelayFault => self.fail(FailureReason::Relay),
            Event::LocalDescriptionCreated(t) => {
                if self.awaits_local() {
                    self.phase = NegotiationState::LocalDescriptionSet;
                    self.offer = t.clone();
                    let mut r = self.one(Action::SetLocalDescription(t.clone()));
                    match self.mode {
                        ExchangeMode::Relay => {
                            r.push(Action::SendDescription(t));
                            proof {
                                assert(actions_view(r@) =~= seq![
                                    ActionModel::SetLocalDescription(t@),
                                    ActionModel::SendDescription(t@),
                                ]);
                            }
                        },
                        ExchangeMode::Offline => {},
                    }
                    r
                } else {
                    self.nothing()
                }
            },
            Event::RemoteDescriptionApplied => {
                let pending = match self.phase {
                    NegotiationState::RemoteDescriptionPending => true,
                    _ => false,
                };
                if pending {
                    let mut r = self.flush();
                    self.phase = NegotiationState::RemoteDescriptionSet;
                    self.remote_ready = true;
                    match self.state.role() {
                        Role::Answerer => {
                            r.push(Action::CreateAnswer);
                            proof {
                                assert(actions_view(r@) =~= old(self)@.flush().push(
                                    ActionModel::CreateAnswer,
                                ));
                            }
                        },
                        Role::Offerer => {},
                    }
                    r
                } else {
                    self.nothing()
                }
            },
            Event::CandidatesSettled => {
                if self.awaits_candidates() {
                    self.phase = NegotiationState::CandidatesApplied;
                }
                self.nothing()
            },
            Event::OperationFailed => self.fail(FailureReason::Negotiation),
            Event::CandidateRejected => self.nothing(),
            Event::CandidateDiscovered(c) => {
                if c.candidate.as_str().is_empty() {
                    self.nothing()
                } else {
                    let sent = c.duplicate();
                    self.ice_candidates.push(c);
                    proof {
                        assert(candidates_view(self.ice_candidates@) =~= old(self)@.local.push(
                            c@,
                        ));
                    }
                    match self.mode {
                        ExchangeMode::Relay => self.one(Action::SendCandidate(sent)),
                        ExchangeMode::Offline => self.nothing(),
                    }
                }
            },
            Event::ChannelOpened => {
                if self.is_open() {
                    self.nothing()
                } else {
                    self.phase = NegotiationState::ChannelOpen;
                    self.one(Action::NotifyOpen)
                }
            },
            Event::ChannelClosed => {
                if self.is_open() {
                    self.phase = NegotiationState::Closed;
                    self.aborted = true;
                }
                self.nothing()
            },
            Event::ChannelMessage(t) => {
                if self.is_open() {
                    self.one(Action::DeliverMessage(t))
                } else {
                    self.nothing()
                }
            },
            Event::Reported(report) => {
                self.state = self.state.with(record(self.state.snapshot(), report));
                self.nothing()
            },
            Event::CloseRequested => {
                if self.is_open() {
                    self.phase = NegotiationState::Closed;
                }
                self.aborted = true;
                self.one(Action::CloseChannel)
            },
        }
    }

    /// Takes a message that arrived from the relay: it is read, and the event
    /// it amounts to is handled.
    pub fn on_relay_message(&mut self, msg: SignalMessage) -> (r: Vec<Action>)
        ensures
            (final(self)@, actions_view(r@)) == old(self)@.step(event_of(read_spec(msg))),
            old(self)@.wf() ==> final(self)@.wf(),
    {
        let event = Event::from_inbound(read_message(msg));
        self.handle(event)
    }

    /// The relay message that carries out an action, for the three actions
    /// that go to the relay; `None` for the others.
    pub fn relay_message(&self, action: &Action) -> (r: Option<SignalMessage>)
        ensures
            match r {
                Some(msg) => carries(msg, self@.session, self@.state.role(), action@),
                None => !for_relay(action@),
            },
    {
        match action {
            Action::JoinSession => Some(SignalMessage::SessionJoin(self.session_id.duplicate())),
            Action::SendDescription(t) => match self.state.role() {
                Role::Offerer => Some(
                    SignalMessage::SdpOffer(self.session_id.duplicate(), t.clone()),
                ),
                Role::Answerer => Some(
                    SignalMessage::SdpAnswer(self.session_id.duplicate(), t.clone()),
                ),
            },
            Action::SendCandidate(c) => Some(
                SignalMessage::IceCandidate(self.session_id.duplicate(), write_candidate(c)),
            ),
            _ => None,
        }
    }
}

} // verus!
