use vstd::prelude::*;
use vstd::utf8::*;
use crate::candidate::{
    candidates_view, CandidateModel, ConnectionString, DescriptorModel, IceCandidate, OfferError,
};
use crate::encoding::{
    base64_bytes, base64_decode, base64_encode, json_as_items, json_as_text, json_as_unsigned,
    json_document, json_from_items, json_from_members, json_from_text, json_from_unsigned,
    is_record, is_shallow, is_table, json_items, json_member, json_of, json_parse, json_print,
    member_of, members_map,
    text_from_utf8, JsonModel,
};

verus! {

/// The JSON object that stands for one candidate on the wire.
pub open spec fn candidate_json(c: CandidateModel) -> JsonModel {
    JsonModel::Object(
        Map::empty().insert("candidate"@, JsonModel::Text(c.candidate)).insert(
            "sdp_mid"@,
            JsonModel::Text(c.sdp_mid),
        ).insert("sdp_m_line_index"@, JsonModel::Unsigned(c.sdp_m_line_index as u64)),
    )
}

/// The candidate that a JSON value stands for: an object with the two text
/// members and an index that fits sixteen bits. Other members are ignored.
pub open spec fn candidate_of_json(j: JsonModel) -> Option<CandidateModel> {
    match (
        member_of(j, "candidate"@),
        member_of(j, "sdp_mid"@),
        member_of(j, "sdp_m_line_index"@),
    ) {
        (
            Some(JsonModel::Text(candidate)),
            Some(JsonModel::Text(sdp_mid)),
            Some(JsonModel::Unsigned(n)),
        ) => if n <= 0xffff {
            Some(CandidateModel { candidate, sdp_mid, sdp_m_line_index: n as u16 })
        } else {
            None
        },
        _ => None,
    }
}

/// The candidates that a JSON array's items stand for, if every item is one.
pub open spec fn candidates_of_json(items: Seq<JsonModel>) -> Option<Seq<CandidateModel>> {
    if forall|i: int| 0 <= i < items.len() ==> (#[trigger] candidate_of_json(items[i])) is Some {
        Some(Seq::new(items.len(), |i: int| candidate_of_json(items[i]).unwrap()))
    } else {
        None
    }
}

/// The JSON object that stands for a descriptor on the wire.
pub open spec fn descriptor_json(d: DescriptorModel) -> JsonModel {
    JsonModel::Object(
        Map::empty().insert("offer"@, JsonModel::Text(d.offer)).insert(
            "ice_candidates"@,
            JsonModel::Array(Seq::new(d.ice_candidates.len(), |i: int| candidate_json(d.ice_candidates[i]))),
        ),
    )
}

/// The descriptor that a JSON value stands for: an object with a text member
/// `offer` and an array member `ice_candidates` of candidates.
pub open spec fn descriptor_of_json(j: JsonModel) -> Option<DescriptorModel> {
    match (member_of(j, "offer"@), member_of(j, "ice_candidates"@)) {
        (Some(JsonModel::Text(offer)), Some(JsonModel::Array(items))) => match candidates_of_json(
            items,
        ) {
            Some(ice_candidates) => Some(DescriptorModel { offer, ice_candidates }),
            None => None,
        },
        _ => None,
    }
}

/// Whether a JSON value has the shape of a description: an object with a
/// text member `type` and a text member `sdp`.
pub open spec fn is_description(j: JsonModel) -> bool {
    &&& member_of(j, "type"@) matches Some(JsonModel::Text(_))
    &&& member_of(j, "sdp"@) matches Some(JsonModel::Text(_))
}

/// Whether a description text is well formed: it parses as JSON, and the
/// value has the shape of a description.
pub open spec fn valid_description(text: Seq<char>) -> bool {
    match json_document(text) {
        Some(j) => is_description(j),
        None => false,
    }
}

/// What decoding makes of a token, stage by stage: the base64 layer, the
/// UTF-8 layer, the structure of the descriptor, the description inside it.
pub open spec fn decode_spec(token: Seq<char>) -> Result<DescriptorModel, OfferError> {
    match base64_bytes(token) {
        None => Err(OfferError::InvalidBase64),
        Some(bytes) => bytes_spec(bytes),
    }
}

/// The descriptor that a structured text holds, if it holds one.
pub open spec fn structure_of(text: Seq<char>) -> Option<DescriptorModel> {
    match json_document(text) {
        Some(j) => descriptor_of_json(j),
        None => None,
    }
}

/// Whether a token is an encoding of the descriptor: its base64 layer holds
/// the UTF-8 bytes of a text whose JSON value is the descriptor's object.
pub open spec fn encodes(token: Seq<char>, d: DescriptorModel) -> bool {
    match base64_bytes(token) {
        Some(bytes) => valid_utf8(bytes) && json_document(decode_utf8(bytes)) == Some(
            descriptor_json(d),
        ),
        None => false,
    }
}

proof fn lemma_candidate_keys()
    ensures
        "candidate"@ != "sdp_mid"@,
        "candidate"@ != "sdp_m_line_index"@,
        "sdp_mid"@ != "sdp_m_line_index"@,
        "offer"@ != "ice_candidates"@,
{
    reveal_strlit("candidate");
    reveal_strlit("sdp_mid");
    reveal_strlit("sdp_m_line_index");
    reveal_strlit("offer");
    reveal_strlit("ice_candidates");
    assert("candidate"@.len() == 9);
    assert("sdp_mid"@.len() == 7);
    assert("sdp_m_line_index"@.len() == 16);
    assert("offer"@.len() == 5);
    assert("ice_candidates"@.len() == 14);
}

/// The object written for a candidate holds texts and unsigned integers only.
pub proof fn lemma_candidate_is_record(c: CandidateModel)
    ensures
        is_record(candidate_json(c)),
        is_shallow(candidate_json(c)),
{
}

/// The object written for a descriptor is shallow.
pub proof fn lemma_descriptor_is_shallow(d: DescriptorModel)
    ensures
        is_shallow(descriptor_json(d)),
{
    let items = Seq::new(d.ice_candidates.len(), |i: int| candidate_json(d.ice_candidates[i]));
    assert forall|i: int| 0 <= i < items.len() implies is_record(#[trigger] items[i]) by {
        lemma_candidate_is_record(d.ice_candidates[i]);
    }
    assert(is_table(JsonModel::Array(items)));
}

/// Reading back the object written for a candidate gives the candidate.
pub proof fn lemma_candidate_round_trip(c: CandidateModel)
    ensures
        candidate_of_json(candidate_json(c)) == Some(c),
{
    lemma_candidate_keys();
    assert((c.sdp_m_line_index as u64) as u16 == c.sdp_m_line_index);
}

/// Reading back the object written for a descriptor gives the descriptor.
pub proof fn lemma_descriptor_round_trip(d: DescriptorModel)
    ensures
        descriptor_of_json(descriptor_json(d)) == Some(d),
{
    lemma_candidate_keys();
    let items = Seq::new(d.ice_candidates.len(), |i: int| candidate_json(d.ice_candidates[i]));
    assert forall|i: int| 0 <= i < items.len() implies (#[trigger] candidate_of_json(items[i]))
        == Some(d.ice_candidates[i]) by {
        lemma_candidate_round_trip(d.ice_candidates[i]);
    }
    assert(candidates_of_json(items).unwrap() =~= d.ice_candidates);
}

/// The round trip: a token that encodes a descriptor whose description is well
/// formed decodes to that descriptor.
pub proof fn lemma_decode_of_encoding(token: Seq<char>, d: DescriptorModel)
    requires
        encodes(token, d),
        valid_description(d.offer),
    ensures
        decode_spec(token) == Ok::<DescriptorModel, OfferError>(d),
{
    lemma_descriptor_round_trip(d);
}

/// The first stage that fails names the error: a later stage is looked at
/// only where every earlier one succeeded.
pub proof fn lemma_first_failing_stage(token: Seq<char>)
    ensures
        base64_bytes(token) is None <==> decode_spec(token) == Err::<DescriptorModel, OfferError>(
            OfferError::InvalidBase64,
        ),
        decode_spec(token) == Err::<DescriptorModel, OfferError>(OfferError::InvalidString) <==> {
            &&& base64_bytes(token) is Some
            &&& !valid_utf8(base64_bytes(token).unwrap())
        },
        decode_spec(token) == Err::<DescriptorModel, OfferError>(OfferError::SerializationError)
            <==> {
            &&& base64_bytes(token) is Some
            &&& valid_utf8(base64_bytes(token).unwrap())
            &&& structure_of(decode_utf8(base64_bytes(token).unwrap())) is None
        },
        decode_spec(token) == Err::<DescriptorModel, OfferError>(OfferError::InvalidOffer) <==> {
            &&& base64_bytes(token) is Some
            &&& valid_utf8(base64_bytes(token).unwrap())
            &&& structure_of(decode_utf8(base64_bytes(token).unwrap())) is Some
            &&& !valid_description(structure_of(decode_utf8(base64_bytes(token).unwrap())).unwrap().offer)
        },
{
}

/// Reads one candidate out of a JSON value.
pub fn candidate_from_json(v: &serde_json::Value) -> (r: Option<IceCandidate>)
    ensures
        match r {
            Some(c) => candidate_of_json(json_of(*v)) == Some(c@),
            None => candidate_of_json(json_of(*v)) is None,
        },
{
    let candidate = match json_member(v, "candidate") {
        Some(x) => match json_as_text(x) {
            Some(s) => s.to_owned(),
            None => { return None; },
        },
        None => { return None; },
    };
    let sdp_mid = match json_member(v, "sdp_mid") {
        Some(x) => match json_as_text(x) {
            Some(s) => s.to_owned(),
            None => { return None; },
        },
        None => { return None; },
    };
    let n: u64 = match json_member(v, "sdp_m_line_index") {
        Some(x) => match json_as_unsigned(x) {
            Some(n) => n,
            None => { return None; },
        },
        None => { return None; },
    };
    if n > 0xffff {
        return None;
    }
    Some(IceCandidate { candidate, sdp_mid, sdp_m_line_index: n as u16 })
}

/// Writes one candidate as a JSON value.
pub fn candidate_to_json(c: &IceCandidate) -> (r: serde_json::Value)
    ensures
        json_of(r) == candidate_json(c@),
{
    let mut pairs: Vec<(String, serde_json::Value)> = Vec::new();
    pairs.push(("candidate".to_owned(), json_from_text(c.candidate.clone())));
    pairs.push(("sdp_mid".to_owned(), json_from_text(c.sdp_mid.clone())));
    pairs.push(("sdp_m_line_index".to_owned(), json_from_unsigned(c.sdp_m_line_index as u64)));
    proof {
        lemma_candidate_keys();
        lemma_members_three(pairs@);
    }
    json_from_members(pairs)
}

proof fn lemma_members_three(pairs: Seq<(String, serde_json::Value)>)
    requires
        pairs.len() == 3,
    ensures
        members_map(pairs) == Map::<Seq<char>, JsonModel>::empty().insert(
            pairs[0].0@,
            json_of(pairs[0].1),
        ).insert(pairs[1].0@, json_of(pairs[1].1)).insert(pairs[2].0@, json_of(pairs[2].1)),
{
    let p2 = pairs.drop_last();
    let p1 = p2.drop_last();
    let p0 = p1.drop_last();
    assert(p0.len() == 0);
    assert(members_map(p0) == Map::<Seq<char>, JsonModel>::empty());
    assert(members_map(p1) == members_map(p0).insert(p1.last().0@, json_of(p1.last().1)));
    assert(members_map(p2) == members_map(p1).insert(p2.last().0@, json_of(p2.last().1)));
}

proof fn lemma_members_two(pairs: Seq<(String, serde_json::Value)>)
    requires
        pairs.len() == 2,
    ensures
        members_map(pairs) == Map::<Seq<char>, JsonModel>::empty().insert(
            pairs[0].0@,
            json_of(pairs[0].1),
        ).insert(pairs[1].0@, json_of(pairs[1].1)),
{
    let p1 = pairs.drop_last();
    let p0 = p1.drop_last();
    assert(p0.len() == 0);
    assert(members_map(p0) == Map::<Seq<char>, JsonModel>::empty());
    assert(members_map(p1) == members_map(p0).insert(p1.last().0@, json_of(p1.last().1)));
}

/// Reads a descriptor out of a JSON value.
pub fn descriptor_from_json(v: &serde_json::Value) -> (r: Option<ConnectionString>)
    ensures
        match r {
            Some(d) => descriptor_of_json(json_of(*v)) == Some(d@),
            None => descriptor_of_json(json_of(*v)) is None,
        },
{
    let offer = match json_member(v, "offer") {
        Some(x) => match json_as_text(x) {
            Some(s) => s.to_owned(),
            None => { return None; },
        },
        None => { return None; },
    };
    let items = match json_member(v, "ice_candidates") {
        Some(x) => match json_as_items(x) {
            Some(items) => items,
            None => { return None; },
        },
        None => { return None; },
    };
    let ghost shapes = json_items(items@);
    let mut ice_candidates: Vec<IceCandidate> = Vec::new();
    let mut i: usize = 0;
    while i < items.len()
        invariant
            i <= items.len(),
            ice_candidates.len() == i,
            shapes == json_items(items@),
            member_of(json_of(*v), "ice_candidates"@) == Some(JsonModel::Array(shapes)),
            forall|k: int|
                0 <= k < i ==> (#[trigger] candidate_of_json(shapes[k])) == Some(
                    ice_candidates@[k]@,
                ),
        decreases items.len() - i,
    {
        match candidate_from_json(&items[i]) {
            Some(c) => {
                ice_candidates.push(c);
            },
            None => {
                proof {
                    assert(candidate_of_json(shapes[i as int]) is None);
                }
                return None;
            },
        }
        i = i + 1;
    }
    proof {
        assert(candidates_of_json(shapes).unwrap() =~= candidates_view(ice_candidates@));
    }
    Some(ConnectionString { ice_candidates, offer })
}

/// Writes a descriptor as a JSON value.
pub fn descriptor_to_json(offer: &str, candidates: &Vec<IceCandidate>) -> (r: serde_json::Value)
    ensures
        json_of(r) == descriptor_json(
            DescriptorModel { offer: offer@, ice_candidates: candidates_view(candidates@) },
        ),
{
    let mut items: Vec<serde_json::Value> = Vec::new();
    let mut i: usize = 0;
    while i < candidates.len()
        invariant
            i <= candidates.len(),
            items.len() == i,
            forall|k: int| 0 <= k < i ==> json_of(#[trigger] items@[k]) == candidate_json(candidates@[k]@),
        decreases candidates.len() - i,
    {
        items.push(candidate_to_json(&candidates[i]));
        i = i + 1;
    }
    proof {
        let views = candidates_view(candidates@);
        assert(json_items(items@) =~= Seq::new(views.len(), |k: int| candidate_json(views[k])));
    }
    let mut pairs: Vec<(String, serde_json::Value)> = Vec::new();
    pairs.push(("offer".to_owned(), json_from_text(offer.to_owned())));
    pairs.push(("ice_candidates".to_owned(), json_from_items(items)));
    proof {
        lemma_candidate_keys();
        lemma_members_two(pairs@);
    }
    json_from_members(pairs)
}

/// Packs a description and its candidates into one token that can be copied
/// and pasted: the JSON text of the descriptor, base64 encoded.
pub fn encode(offer: &str, candidates: &Vec<IceCandidate>) -> (token: String)
    ensures
        encodes(
            token@,
            DescriptorModel { offer: offer@, ice_candidates: candidates_view(candidates@) },
        ),
        valid_description(offer@) ==> decode_spec(token@) == Ok::<DescriptorModel, OfferError>(
            DescriptorModel { offer: offer@, ice_candidates: candidates_view(candidates@) },
        ),
        !valid_description(offer@) ==> decode_spec(token@) == Err::<DescriptorModel, OfferError>(
            OfferError::InvalidOffer,
        ),
{
    broadcast use {encode_utf8_valid_utf8, encode_utf8_decode_utf8};

    let value = descriptor_to_json(offer, candidates);
    proof {
        lemma_descriptor_is_shallow(
            DescriptorModel { offer: offer@, ice_candidates: candidates_view(candidates@) },
        );
    }
    let text = json_print(&value);
    let token = base64_encode(text.as_str().as_bytes());
    proof {
        assert(decode_utf8(encode_utf8(text@)) == text@);
        lemma_descriptor_round_trip(
            DescriptorModel { offer: offer@, ice_candidates: candidates_view(candidates@) },
        );
    }
    token
}

/// What the last two stages make of a structured text: the descriptor it
/// holds, if the description inside is well formed.
pub open spec fn text_spec(text: Seq<char>) -> Result<DescriptorModel, OfferError> {
    match structure_of(text) {
        None => Err(OfferError::SerializationError),
        Some(d) => if !valid_description(d.offer) {
            Err(OfferError::InvalidOffer)
        } else {
            Ok(d)
        },
    }
}

/// What the last three stages make of the bytes under the base64 layer.
pub open spec fn bytes_spec(bytes: Seq<u8>) -> Result<DescriptorModel, OfferError> {
    if !valid_utf8(bytes) {
        Err(OfferError::InvalidString)
    } else {
        text_spec(decode_utf8(bytes))
    }
}

/// Unpacks a token in four checked stages and returns the descriptor only if
/// all of them pass; otherwise the error of the first stage that fails.
pub fn decode(token: &str) -> (r: Result<ConnectionString, OfferError>)
    ensures
        match r {
            Ok(d) => decode_spec(token@) == Ok::<DescriptorModel, OfferError>(d@),
            Err(e) => decode_spec(token@) == Err::<DescriptorModel, OfferError>(e),
        },
{
    match base64_decode(token) {
        Some(bytes) => decode_bytes(bytes),
        None => Err(OfferError::InvalidBase64),
    }
}

/// The stages that follow the base64 layer: the bytes must be UTF-8 text,
/// and the text must pass `decode_text`.
pub fn decode_bytes(bytes: Vec<u8>) -> (r: Result<ConnectionString, OfferError>)
    ensures
        match r {
            Ok(d) => bytes_spec(bytes@) == Ok::<DescriptorModel, OfferError>(d@),
            Err(e) => bytes_spec(bytes@) == Err::<DescriptorModel, OfferError>(e),
        },
{
    match text_from_utf8(bytes) {
        Some(text) => decode_text(text.as_str()),
        None => Err(OfferError::InvalidString),
    }
}

/// The last two stages: the text must hold a descriptor, and the
/// descriptor's description must be well formed.
pub fn decode_text(text: &str) -> (r: Result<ConnectionString, OfferError>)
    ensures
        match r {
            Ok(d) => text_spec(text@) == Ok::<DescriptorModel, OfferError>(d@),
            Err(e) => text_spec(text@) == Err::<DescriptorModel, OfferError>(e),
        },
{
    let value = match json_parse(text) {
        Some(value) => value,
        None => { return Err(OfferError::SerializationError); },
    };
    let descriptor = match descriptor_from_json(&value) {
        Some(descriptor) => descriptor,
        None => { return Err(OfferError::SerializationError); },
    };
    if !check_description(descriptor.offer.as_str()) {
        return Err(OfferError::InvalidOffer);
    }
    Ok(descriptor)
}

/// Whether a parsed description has the two text members it needs.
pub fn description_in_json(v: &serde_json::Value) -> (r: bool)
    ensures
        r == is_description(json_of(*v)),
{
    let kind = match json_member(v, "type") {
        Some(x) => json_as_text(x).is_some(),
        None => false,
    };
    let body = match json_member(v, "sdp") {
        Some(x) => json_as_text(x).is_some(),
        None => false,
    };
    kind && body
}

/// Whether a description text is well formed.
pub fn check_description(text: &str) -> (r: bool)
    ensures
        r == valid_description(text@),
{
    match json_parse(text) {
        Some(value) => description_in_json(&value),
        None => false,
    }
}

} // verus!
