use vstd::prelude::*;

verus! {

/// One discovered network path, as it travels between the two peers.
#[derive(Debug, Clone, PartialEq, Eq)]
pub struct IceCandidate {
    pub candidate: String,
    pub sdp_mid: String,
    pub sdp_m_line_index: u16,
}

/// What an `IceCandidate` holds, as plain values.
pub struct CandidateModel {
    pub candidate: Seq<char>,
    pub sdp_mid: Seq<char>,
    pub sdp_m_line_index: u16,
}

impl View for IceCandidate {
    type V = CandidateModel;

    open spec fn view(&self) -> CandidateModel {
        CandidateModel {
            candidate: self.candidate@,
            sdp_mid: self.sdp_mid@,
            sdp_m_line_index: self.sdp_m_line_index,
        }
    }
}

/// The candidates of a vector, each by its view, in the vector's order.
pub open spec fn candidates_view(items: Seq<IceCandidate>) -> Seq<CandidateModel> {
    Seq::new(items.len(), |i: int| items[i]@)
}

impl IceCandidate {
    pub fn new(candidate: String, sdp_mid: String, sdp_m_line_index: u16) -> (r: IceCandidate)
        ensures
            r.candidate == candidate,
            r.sdp_mid == sdp_mid,
            r.sdp_m_line_index == sdp_m_line_index,
    {
        IceCandidate { candidate, sdp_mid, sdp_m_line_index }
    }

    /// A copy that is equal to the original field by field.
    pub fn duplicate(&self) -> (r: IceCandidate)
        ensures
            r == *self,
    {
        IceCandidate {
            candidate: self.candidate.clone(),
            sdp_mid: self.sdp_mid.clone(),
            sdp_m_line_index: self.sdp_m_line_index,
        }
    }
}

/// A copy of a candidate list, equal to the original item by item.
pub fn duplicate_candidates(items: &Vec<IceCandidate>) -> (r: Vec<IceCandidate>)
    ensures
        r@ == items@,
{
    let mut out: Vec<IceCandidate> = Vec::new();
    let mut i: usize = 0;
    while i < items.len()
        invariant
            i <= items.len(),
            out@ == items@.take(i as int),
        decreases items.len() - i,
    {
        out.push(items[i].duplicate());
        proof {
            assert(items@.take(i as int + 1) =~= items@.take(i as int).push(items@[i as int]));
        }
        i = i + 1;
    }
    proof {
        assert(items@.take(items.len() as int) =~= items@);
    }
    out
}

/// The offline bundle: one description and the candidates gathered with it.
#[derive(Debug, Clone, PartialEq, Eq)]
pub struct ConnectionString {
    pub ice_candidates: Vec<IceCandidate>,
    pub offer: String,
}

/// What a `ConnectionString` holds, as plain values.
pub struct DescriptorModel {
    pub offer: Seq<char>,
    pub ice_candidates: Seq<CandidateModel>,
}

impl View for ConnectionString {
    type V = DescriptorModel;

    open spec fn view(&self) -> DescriptorModel {
        DescriptorModel {
            offer: self.offer@,
            ice_candidates: candidates_view(self.ice_candidates@),
        }
    }
}

/// Why a pasted descriptor was refused; one kind for each stage of decoding.
#[derive(Debug, Clone, Copy, PartialEq, Eq)]
pub enum OfferError {
    InvalidBase64,
    InvalidString,
    SerializationError,
    InvalidOffer,
}

} // verus!
