use vstd::prelude::*;

verus! {

/// How far the transport has come with gathering candidates.
#[derive(Debug, Clone, Copy, PartialEq, Eq)]
pub enum IceGatheringState {
    New,
    Gathering,
    Complete,
}

/// The transport's view of the path between the peers.
#[derive(Debug, Clone, Copy, PartialEq, Eq)]
pub enum IceConnectionState {
    New,
    Checking,
    Connected,
    Completed,
    Failed,
    Disconnected,
    Closed,
}

/// The transport's view of the data channel.
#[derive(Debug, Clone, Copy, PartialEq, Eq)]
pub enum DataChannelState {
    Connecting,
    Open,
    Closing,
    Closed,
}

/// The last value the transport reported for each of its three states.
#[derive(Debug, Clone, Copy, PartialEq, Eq)]
pub struct ConnectionState {
    pub ice_gathering_state: Option<IceGatheringState>,
    pub ice_connection_state: Option<IceConnectionState>,
    pub data_channel_state: Option<DataChannelState>,
}

impl Default for ConnectionState {
    fn default() -> (r: ConnectionState)
        ensures
            r.ice_gathering_state is None,
            r.ice_connection_state is None,
            r.data_channel_state is None,
    {
        ConnectionState {
            ice_gathering_state: None,
            ice_connection_state: None,
            data_channel_state: None,
        }
    }
}

/// Which of the three reported states changed, and to what.
#[derive(Debug, Clone, Copy, PartialEq, Eq)]
pub enum Report {
    Gathering(IceGatheringState),
    Connection(IceConnectionState),
    Channel(DataChannelState),
}

/// The peer's side and what the transport last reported: the server makes
/// the offer and the data channel, the client answers.
#[derive(Debug, Clone, Copy, PartialEq, Eq)]
pub enum State {
    Server(ConnectionState),
    Client(ConnectionState),
}

/// Who makes the offer and who answers. Fixed when the session is made.
#[derive(Debug, Clone, Copy, PartialEq, Eq)]
pub enum Role {
    Offerer,
    Answerer,
}

/// How descriptions and candidates reach the other peer.
#[derive(Debug, Clone, Copy, PartialEq, Eq)]
pub enum ExchangeMode {
    /// A relay forwards them, message by message.
    Relay,
    /// The user carries one descriptor token by hand.
    Offline,
}

/// Why a negotiation failed.
#[derive(Debug, Clone, Copy, PartialEq, Eq)]
pub enum FailureReason {
    /// A pasted descriptor did not decode.
    Encoding,
    /// The relay or the peer reported an error, or sent what makes no sense.
    Relay,
    /// The transport refused a description.
    Negotiation,
}

/// Where the negotiation stands.
#[derive(Debug, Clone, Copy, PartialEq, Eq)]
pub enum NegotiationState {
    Idle,
    LocalDescriptionPending,
    LocalDescriptionSet,
    RemoteDescriptionPending,
    RemoteDescriptionSet,
    CandidatesApplied,
    ChannelOpen,
    Closed,
    Failed(FailureReason),
}

/// A message was handed over for sending while the channel was not open.
#[derive(Debug, Clone, Copy, PartialEq, Eq)]
pub struct SendError {
    pub state: NegotiationState,
}

impl State {
    pub open spec fn spec_role(self) -> Role {
        match self {
            State::Server(_) => Role::Offerer,
            State::Client(_) => Role::Answerer,
        }
    }

    pub open spec fn spec_snapshot(self) -> ConnectionState {
        match self {
            State::Server(s) => s,
            State::Client(s) => s,
        }
    }

    /// The same side with another snapshot.
    pub open spec fn spec_with(self, snapshot: ConnectionState) -> State {
        match self {
            State::Server(_) => State::Server(snapshot),
            State::Client(_) => State::Client(snapshot),
        }
    }

    #[verifier::when_used_as_spec(spec_role)]
    pub fn role(self) -> (r: Role)
        ensures
            r == self.spec_role(),
    {
        match self {
            State::Server(_) => Role::Offerer,
            State::Client(_) => Role::Answerer,
        }
    }

    #[verifier::when_used_as_spec(spec_snapshot)]
    pub fn snapshot(self) -> (r: ConnectionState)
        ensures
            r == self.spec_snapshot(),
    {
        match self {
            State::Server(s) => s,
            State::Client(s) => s,
        }
    }

    #[verifier::when_used_as_spec(spec_with)]
    pub fn with(self, snapshot: ConnectionState) -> (r: State)
        ensures
            r == self.spec_with(snapshot),
    {
        match self {
            State::Server(_) => State::Server(snapshot),
            State::Client(_) => State::Client(snapshot),
        }
    }
}

/// The snapshot after one report: the reported field takes the new value,
/// the other two stay.
pub open spec fn spec_record(snapshot: ConnectionState, report: Report) -> ConnectionState {
    match report {
        Report::Gathering(s) => ConnectionState { ice_gathering_state: Some(s), ..snapshot },
        Report::Connection(s) => ConnectionState { ice_connection_state: Some(s), ..snapshot },
        Report::Channel(s) => ConnectionState { data_channel_state: Some(s), ..snapshot },
    }
}

#[verifier::when_used_as_spec(spec_record)]
pub fn record(snapshot: ConnectionState, report: Report) -> (r: ConnectionState)
    ensures
        r == spec_record(snapshot, report),
{
    match report {
        Report::Gathering(s) => ConnectionState {
            ice_gathering_state: Some(s),
            ice_connection_state: snapshot.ice_connection_state,
            data_channel_state: snapshot.data_channel_state,
        },
        Report::Connection(s) => ConnectionState {
            ice_gathering_state: snapshot.ice_gathering_state,
            ice_connection_state: Some(s),
            data_channel_state: snapshot.data_channel_state,
        },
        Report::Channel(s) => ConnectionState {
            ice_gathering_state: snapshot.ice_gathering_state,
            ice_connection_state: snapshot.ice_connection_state,
            data_channel_state: Some(s),
        },
    }
}

} // verus!
