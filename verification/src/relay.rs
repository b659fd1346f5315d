use vstd::prelude::*;
use crate::candidate::{CandidateModel, IceCandidate};
use crate::codec::{candidate_from_json, candidate_json, candidate_of_json, candidate_to_json};
use crate::encoding::{json_document, json_parse, json_print};

verus! {

/// The name under which two peers meet at the relay.
#[derive(Debug, Clone, PartialEq, Eq)]
pub struct SessionId {
    pub inner: String,
}

impl SessionId {
    pub fn new(inner: String) -> (r: SessionId)
        ensures
            r.inner == inner,
    {
        SessionId { inner }
    }

    /// A copy with the same text.
    pub fn duplicate(&self) -> (r: SessionId)
        ensures
            r == *self,
    {
        SessionId { inner: self.inner.clone() }
    }
}

/// The messages that peers and the relay exchange. The relay forwards the
/// payloads of the last four untouched.
#[derive(Debug, Clone, PartialEq, Eq)]
pub enum SignalMessage {
    /// A peer connects to a session.
    SessionJoin(SessionId),
    /// Both peers are in the session; the flag tells the receiver whether it
    /// is the one that makes the offer.
    SessionReady(SessionId, bool),
    SdpOffer(SessionId, String),
    SdpAnswer(SessionId, String),
    /// One candidate, as JSON text.
    IceCandidate(SessionId, String),
    /// A fatal condition, with its detail.
    Error(SessionId, String),
}

/// What arrived from the relay, as the negotiation reads it.
#[derive(Debug, Clone, PartialEq, Eq)]
pub enum Inbound {
    Ready(bool),
    Offer(String),
    Answer(String),
    Candidate(IceCandidate),
    /// The relay or the peer reported an error, or the message makes no
    /// sense to a peer.
    Fault,
}

/// What `Inbound` holds, as plain values.
pub enum InboundModel {
    Ready(bool),
    Offer(Seq<char>),
    Answer(Seq<char>),
    Candidate(CandidateModel),
    Fault,
}

impl View for Inbound {
    type V = InboundModel;

    open spec fn view(&self) -> InboundModel {
        match *self {
            Inbound::Ready(host) => InboundModel::Ready(host),
            Inbound::Offer(text) => InboundModel::Offer(text@),
            Inbound::Answer(text) => InboundModel::Answer(text@),
            Inbound::Candidate(c) => InboundModel::Candidate(c@),
            Inbound::Fault => InboundModel::Fault,
        }
    }
}

/// The candidate that a JSON text stands for, if it stands for one.
pub open spec fn candidate_of_text(text: Seq<char>) -> Option<CandidateModel> {
    match json_document(text) {
        Some(j) => candidate_of_json(j),
        None => None,
    }
}

/// How an arriving message is read. A join, which only the relay should see,
/// an error report and a candidate that does not parse are all faults.
pub open spec fn read_spec(msg: SignalMessage) -> InboundModel {
    match msg {
        SignalMessage::SessionJoin(_) => InboundModel::Fault,
        SignalMessage::SessionReady(_, host) => InboundModel::Ready(host),
        SignalMessage::SdpOffer(_, text) => InboundModel::Offer(text@),
        SignalMessage::SdpAnswer(_, text) => InboundModel::Answer(text@),
        SignalMessage::IceCandidate(_, text) => match candidate_of_text(text@) {
            Some(c) => InboundModel::Candidate(c),
            None => InboundModel::Fault,
        },
        SignalMessage::Error(_, _) => InboundModel::Fault,
    }
}

/// Reads a message that arrived from the relay.
pub fn read_message(msg: SignalMessage) -> (r: Inbound)
    ensures
        r@ == read_spec(msg),
{
    match msg {
        SignalMessage::SessionJoin(_) => Inbound::Fault,
        SignalMessage::SessionReady(_, host) => Inbound::Ready(host),
        SignalMessage::SdpOffer(_, text) => Inbound::Offer(text),
        SignalMessage::SdpAnswer(_, text) => Inbound::Answer(text),
        SignalMessage::IceCandidate(_, text) => match read_candidate(text.as_str()) {
            Some(c) => Inbound::Candidate(c),
            None => Inbound::Fault,
        },
        SignalMessage::Error(_, _) => Inbound::Fault,
    }
}

/// Reads a candidate from its JSON text.
pub fn read_candidate(text: &str) -> (r: Option<IceCandidate>)
    ensures
        match r {
            Some(c) => candidate_of_text(text@) == Some(c@),
            None => candidate_of_text(text@) is None,
        },
{
    match json_parse(text) {
        Some(value) => candidate_from_json(&value),
        None => None,
    }
}

/// Writes a candidate as JSON text, for one `IceCandidate` message. Reading
/// the text gives the candidate back.
pub fn write_candidate(c: &IceCandidate) -> (text: String)
    ensures
        json_document(text@) == Some(candidate_json(c@)),
        candidate_of_text(text@) == Some(c@),
{
    let value = candidate_to_json(c);
    proof {
        crate::codec::lemma_candidate_round_trip(c@);
        crate::codec::lemma_candidate_is_record(c@);
    }
    json_print(&value)
}

} // verus!
