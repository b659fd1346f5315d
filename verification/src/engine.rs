use vstd::prelude::*;
use crate::candidate::{CandidateModel, IceCandidate};
use crate::relay::{Inbound, InboundModel};
use crate::state::{ExchangeMode, FailureReason, NegotiationState, Report, Role, State};

verus! {

/// What can happen to a negotiation: news from the relay, from the transport
/// and from the caller.
#[derive(Debug, Clone, PartialEq, Eq)]
pub enum Event {
    /// The relay paired the two peers; the flag names the receiver as the one
    /// that makes the offer.
    SessionReady(bool),
    RemoteOffer(String),
    RemoteAnswer(String),
    RemoteCandidate(IceCandidate),
    /// The relay or the peer reported an error, or sent what makes no sense.
    RelayFault,
    /// The transport made the local offer or answer.
    LocalDescriptionCreated(String),
    /// The transport took the remote description.
    RemoteDescriptionApplied,
    /// The transport is done with every candidate handed to it so far.
    CandidatesSettled,
    /// The transport failed to make or to take a description.
    OperationFailed,
    /// The transport refused one candidate.
    CandidateRejected,
    /// The transport found a local candidate.
    CandidateDiscovered(IceCandidate),
    ChannelOpened,
    ChannelClosed,
    ChannelMessage(String),
    /// One of the transport's three reported states changed.
    Reported(Report),
    /// The caller closes the session.
    CloseRequested,
}

/// What `Event` holds, as plain values.
pub enum EventModel {
    SessionReady(bool),
    RemoteOffer(Seq<char>),
    RemoteAnswer(Seq<char>),
    RemoteCandidate(CandidateModel),
    RelayFault,
    LocalDescriptionCreated(Seq<char>),
    RemoteDescriptionApplied,
    CandidatesSettled,
    OperationFailed,
    CandidateRejected,
    CandidateDiscovered(CandidateModel),
    ChannelOpened,
    ChannelClosed,
    ChannelMessage(Seq<char>),
    Reported(Report),
    CloseRequested,
}

impl View for Event {
    type V = EventModel;

    open spec fn view(&self) -> EventModel {
        match *self {
            Event::SessionReady(host) => EventModel::SessionReady(host),
            Event::RemoteOffer(t) => EventModel::RemoteOffer(t@),
            Event::RemoteAnswer(t) => EventModel::RemoteAnswer(t@),
            Event::RemoteCandidate(c) => EventModel::RemoteCandidate(c@),
            Event::RelayFault => EventModel::RelayFault,
            Event::LocalDescriptionCreated(t) => EventModel::LocalDescriptionCreated(t@),
            Event::RemoteDescriptionApplied => EventModel::RemoteDescriptionApplied,
            Event::CandidatesSettled => EventModel::CandidatesSettled,
            Event::OperationFailed => EventModel::OperationFailed,
            Event::CandidateRejected => EventModel::CandidateRejected,
            Event::CandidateDiscovered(c) => EventModel::CandidateDiscovered(c@),
            Event::ChannelOpened => EventModel::ChannelOpened,
            Event::ChannelClosed => EventModel::ChannelClosed,
            Event::ChannelMessage(t) => EventModel::ChannelMessage(t@),
            Event::Reported(r) => EventModel::Reported(r),
            Event::CloseRequested => EventModel::CloseRequested,
        }
    }
}

/// The event that an arriving relay message amounts to.
pub open spec fn event_of(inbound: InboundModel) -> EventModel {
    match inbound {
        InboundModel::Ready(host) => EventModel::SessionReady(host),
        InboundModel::Offer(t) => EventModel::RemoteOffer(t),
        InboundModel::Answer(t) => EventModel::RemoteAnswer(t),
        InboundModel::Candidate(c) => EventModel::RemoteCandidate(c),
        InboundModel::Fault => EventModel::RelayFault,
    }
}

impl Event {
    /// The event that an arriving relay message amounts to.
    pub fn from_inbound(inbound: Inbound) -> (e: Event)
        ensures
            e@ == event_of(inbound@),
    {
        match inbound {
            Inbound::Ready(host) => Event::SessionReady(host),
            Inbound::Offer(t) => Event::RemoteOffer(t),
            Inbound::Answer(t) => Event::RemoteAnswer(t),
            Inbound::Candidate(c) => Event::RemoteCandidate(c),
            Inbound::Fault => Event::RelayFault,
        }
    }
}

/// What the negotiation asks of its surroundings, in the order given.
#[derive(Debug, Clone, PartialEq, Eq)]
pub enum Action {
    /// Tell the relay that this peer joins its session.
    JoinSession,
    CreateDataChannel,
    CreateOffer,
    CreateAnswer,
    SetLocalDescription(String),
    SetRemoteDescription(String),
    /// Hand a remote candidate to the transport.
    AddIceCandidate(IceCandidate),
    /// Send the local description to the other peer.
    SendDescription(String),
    /// Send a local candidate to the other peer.
    SendCandidate(IceCandidate),
    /// Send a text over the open data channel.
    SendOnChannel(String),
    CloseChannel,
    /// Tell the caller that the channel is open.
    NotifyOpen,
    /// Hand a received text to the caller.
    DeliverMessage(String),
    /// Tell the caller that the negotiation failed.
    ReportError(FailureReason),
}

/// What `Action` holds, as plain values.
pub enum ActionModel {
    JoinSession,
    CreateDataChannel,
    CreateOffer,
    CreateAnswer,
    SetLocalDescription(Seq<char>),
    SetRemoteDescription(Seq<char>),
    AddIceCandidate(CandidateModel),
    SendDescription(Seq<char>),
    SendCandidate(CandidateModel),
    SendOnChannel(Seq<char>),
    CloseChannel,
    NotifyOpen,
    DeliverMessage(Seq<char>),
    ReportError(FailureReason),
}

impl View for Action {
    type V = ActionModel;

    open spec fn view(&self) -> ActionModel {
        match *self {
            Action::JoinSession => ActionModel::JoinSession,
            Action::CreateDataChannel => ActionModel::CreateDataChannel,
            Action::CreateOffer => ActionModel::CreateOffer,
            Action::CreateAnswer => ActionModel::CreateAnswer,
            Action::SetLocalDescription(t) => ActionModel::SetLocalDescription(t@),
            Action::SetRemoteDescription(t) => ActionModel::SetRemoteDescription(t@),
            Action::AddIceCandidate(c) => ActionModel::AddIceCandidate(c@),
            Action::SendDescription(t) => ActionModel::SendDescription(t@),
            Action::SendCandidate(c) => ActionModel::SendCandidate(c@),
            Action::SendOnChannel(t) => ActionModel::SendOnChannel(t@),
            Action::CloseChannel => ActionModel::CloseChannel,
            Action::NotifyOpen => ActionModel::NotifyOpen,
            Action::DeliverMessage(t) => ActionModel::DeliverMessage(t@),
            Action::ReportError(r) => ActionModel::ReportError(r),
        }
    }
}

/// The actions of a vector, each by its view, in the vector's order.
pub open spec fn actions_view(items: Seq<Action>) -> Seq<ActionModel> {
    Seq::new(items.len(), |i: int| items[i]@)
}

/// A negotiation as plain values.
pub struct EngineModel {
    /// The peer's side and the transport's last reports.
    pub state: State,
    pub mode: ExchangeMode,
    pub session: Seq<char>,
    pub phase: NegotiationState,
    /// The abort latch.
    pub aborted: bool,
    /// Whether the transport has taken the remote description.
    pub remote_ready: bool,
    /// Remote candidates that wait for the remote description, oldest first.
    pub pending: Seq<CandidateModel>,
    /// Local candidates found so far, oldest first.
    pub local: Seq<CandidateModel>,
    /// The local description, empty until the transport has made it.
    pub offer: Seq<char>,
}

impl EngineModel {
    /// Nothing happens any more: the latch is set. A failure sets it, and so
    /// does every close.
    pub open spec fn halted(self) -> bool {
        self.aborted
    }

    /// What holds of every negotiation: a failed one and a closed one have
    /// the latch set, an open one has not, and candidates wait exactly while
    /// the transport has not taken the remote description.
    pub open spec fn wf(self) -> bool {
        &&& self.phase is Failed ==> self.aborted
        &&& self.phase is Closed ==> self.aborted
        &&& self.phase is ChannelOpen ==> !self.aborted
        &&& self.remote_ready ==> self.pending.len() == 0
        &&& match self.phase {
            NegotiationState::Idle => !self.remote_ready,
            NegotiationState::LocalDescriptionPending => !self.remote_ready,
            NegotiationState::RemoteDescriptionPending => !self.remote_ready,
            NegotiationState::LocalDescriptionSet => self.remote_ready == (self.state.role()
                is Answerer),
            NegotiationState::RemoteDescriptionSet => self.remote_ready,
            NegotiationState::CandidatesApplied => self.remote_ready,
            _ => true,
        }
    }

    /// A fresh negotiation.
    pub open spec fn initial(state: State, session: Seq<char>, mode: ExchangeMode) -> EngineModel {
        EngineModel {
            state,
            mode,
            session,
            phase: NegotiationState::Idle,
            aborted: false,
            remote_ready: false,
            pending: Seq::empty(),
            local: Seq::empty(),
            offer: Seq::empty(),
        }
    }

    /// The first unrecoverable error: the latch is set, the phase is the
    /// failure, and the caller is told once.
    pub open spec fn fail(self, reason: FailureReason) -> (EngineModel, Seq<ActionModel>) {
        (
            EngineModel { phase: NegotiationState::Failed(reason), aborted: true, ..self },
            seq![ActionModel::ReportError(reason)],
        )
    }

    /// The offerer, when idle, asks the transport for a channel and an offer.
    /// Anyone else has nothing to begin.
    pub open spec fn begin(self) -> (EngineModel, Seq<ActionModel>) {
        if !self.halted() && self.state.role() is Offerer && self.phase is Idle {
            (
                EngineModel { phase: NegotiationState::LocalDescriptionPending, ..self },
                seq![ActionModel::CreateDataChannel, ActionModel::CreateOffer],
            )
        } else {
            (self, Seq::empty())
        }
    }

    /// The remote description arrives: it goes to the transport, and the
    /// negotiation waits for the transport to take it.
    pub open spec fn take_remote(self, text: Seq<char>, expected: bool) -> (
        EngineModel,
        Seq<ActionModel>,
    ) {
        if expected {
            (
                EngineModel { phase: NegotiationState::RemoteDescriptionPending, ..self },
                seq![ActionModel::SetRemoteDescription(text)],
            )
        } else {
            self.fail(FailureReason::Relay)
        }
    }

    /// Whether this peer waits for an offer.
    pub open spec fn awaits_offer(self) -> bool {
        self.state.role() is Answerer && self.phase is Idle
    }

    /// Whether this peer waits for an answer.
    pub open spec fn awaits_answer(self) -> bool {
        self.state.role() is Offerer && self.phase is LocalDescriptionSet
    }

    /// Whether this peer waits for the transport to make its description.
    pub open spec fn awaits_local(self) -> bool {
        ||| self.state.role() is Offerer && self.phase is LocalDescriptionPending
        ||| self.state.role() is Answerer && self.phase is RemoteDescriptionSet
    }

    /// Whether the candidates handed over are the last thing this peer
    /// waits for before the channel.
    pub open spec fn awaits_candidates(self) -> bool {
        ||| self.state.role() is Offerer && self.phase is RemoteDescriptionSet
        ||| self.state.role() is Answerer && self.phase is LocalDescriptionSet
    }

    /// The waiting candidates, each as a request to the transport, oldest
    /// first.
    pub open spec fn flush(self) -> Seq<ActionModel> {
        Seq::new(self.pending.len(), |i: int| ActionModel::AddIceCandidate(self.pending[i]))
    }

    /// One remote candidate: to the transport if it has the remote
    /// description, else to the end of the waiting queue.
    pub open spec fn take_candidate(self, c: CandidateModel) -> (EngineModel, Seq<ActionModel>) {
        if self.halted() {
            (self, Seq::empty())
        } else if self.remote_ready {
            (self, seq![ActionModel::AddIceCandidate(c)])
        } else {
            (EngineModel { pending: self.pending.push(c), ..self }, Seq::empty())
        }
    }

    /// The transition function: the negotiation after an event, and what it
    /// asks for. A halted negotiation stays as it is and asks for nothing.
    pub open spec fn step(self, e: EventModel) -> (EngineModel, Seq<ActionModel>) {
        if self.halted() {
            (self, Seq::empty())
        } else {
            match e {
                EventModel::SessionReady(host) => if host == (self.state.role() is Offerer) {
                    self.begin()
                } else {
                    self.fail(FailureReason::Relay)
                },
                EventModel::RemoteOffer(t) => self.take_remote(t, self.awaits_offer()),
                EventModel::RemoteAnswer(t) => self.take_remote(t, self.awaits_answer()),
                EventModel::RemoteCandidate(c) => self.take_candidate(c),
                EventModel::RelayFault => self.fail(FailureReason::Relay),
                EventModel::LocalDescriptionCreated(t) => if self.awaits_local() {
                    (
                        EngineModel {
                            phase: NegotiationState::LocalDescriptionSet,
                            offer: t,
                            ..self
                        },
                        if self.mode is Relay {
                            seq![
                                ActionModel::SetLocalDescription(t),
                                ActionModel::SendDescription(t),
                            ]
                        } else {
                            seq![ActionModel::SetLocalDescription(t)]
                        },
                    )
                } else {
                    (self, Seq::empty())
                },
                EventModel::RemoteDescriptionApplied => if self.phase
                    is RemoteDescriptionPending {
                    (
                        EngineModel {
                            phase: NegotiationState::RemoteDescriptionSet,
                            remote_ready: true,
                            pending: Seq::empty(),
                            ..self
                        },
                        if self.state.role() is Answerer {
                            self.flush().push(ActionModel::CreateAnswer)
                        } else {
                            self.flush()
                        },
                    )
                } else {
                    (self, Seq::empty())
                },
                EventModel::CandidatesSettled => if self.awaits_candidates() {
                    (
                        EngineModel { phase: NegotiationState::CandidatesApplied, ..self },
                        Seq::empty(),
                    )
                } else {
                    (self, Seq::empty())
                },
                EventModel::OperationFailed => self.fail(FailureReason::Negotiation),
                EventModel::CandidateRejected => (self, Seq::empty()),
                EventModel::CandidateDiscovered(c) => if c.candidate.len() == 0 {
                    (self, Seq::empty())
                } else {
                    (
                        EngineModel { local: self.local.push(c), ..self },
                        if self.mode is Relay {
                            seq![ActionModel::SendCandidate(c)]
                        } else {
                            Seq::empty()
                        },
                    )
                },
                EventModel::ChannelOpened => if self.phase is ChannelOpen {
                    (self, Seq::empty())
                } else {
                    (
                        EngineModel { phase: NegotiationState::ChannelOpen, ..self },
                        seq![ActionModel::NotifyOpen],
                    )
                },
                EventModel::ChannelClosed => if self.phase is ChannelOpen {
                    (
                        EngineModel { phase: NegotiationState::Closed, aborted: true, ..self },
                        Seq::empty(),
                    )
                } else {
                    (self, Seq::empty())
                },
                EventModel::ChannelMessage(t) => if self.phase is ChannelOpen {
                    (self, seq![ActionModel::DeliverMessage(t)])
                } else {
                    (self, Seq::empty())
                },
                EventModel::Reported(r) => (
                    EngineModel {
                        state: self.state.with(crate::state::record(self.state.snapshot(), r)),
                        ..self
                    },
                    Seq::empty(),
                ),
                EventModel::CloseRequested => if self.phase is ChannelOpen {
                    (
                        EngineModel { phase: NegotiationState::Closed, aborted: true, ..self },
                        seq![ActionModel::CloseChannel],
                    )
                } else {
                    (EngineModel { aborted: true, ..self }, seq![ActionModel::CloseChannel])
                },
            }
        }
    }

    /// Several remote candidates, taken one after the other.
    pub open spec fn take_candidates(self, cs: Seq<CandidateModel>) -> (
        EngineModel,
        Seq<ActionModel>,
    ) {
        if self.halted() {
            (self, Seq::empty())
        } else if self.remote_ready {
            (self, Seq::new(cs.len(), |i: int| ActionModel::AddIceCandidate(cs[i])))
        } else {
            (EngineModel { pending: self.pending + cs, ..self }, Seq::empty())
        }
    }
}

} // verus!
