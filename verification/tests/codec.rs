use rtc_session::candidate::{ConnectionString, IceCandidate, OfferError};
use rtc_session::codec::{
    candidate_from_json, candidate_to_json, check_description, decode, decode_bytes, decode_text,
    description_in_json, descriptor_from_json, descriptor_to_json, encode,
};
use rtc_session::relay::{read_candidate, write_candidate};

fn host_candidate(n: u16) -> IceCandidate {
    IceCandidate::new(
        format!("candidate:{} 1 UDP 2122252543 192.168.1.{} 50000 typ host", n, n),
        "0".to_string(),
        n,
    )
}

const OFFER: &str = "{\"type\":\"offer\",\"sdp\":\"v=0\\r\\no=- 1 2 IN IP4 127.0.0.1\\r\\n\"}";

#[test]
fn encode_then_decode_gives_the_pair_back() {
    let candidates = vec![host_candidate(0), host_candidate(1), host_candidate(2)];
    let token = encode(OFFER, &candidates);
    let decoded = decode(&token).expect("a token made by encode decodes");
    assert_eq!(decoded.offer, OFFER);
    assert_eq!(decoded.ice_candidates, candidates);
}

#[test]
fn encode_then_decode_without_candidates() {
    let token = encode(OFFER, &Vec::new());
    let decoded = decode(&token).unwrap();
    assert_eq!(decoded, ConnectionString { ice_candidates: Vec::new(), offer: OFFER.to_string() });
}

#[test]
fn encode_then_decode_keeps_text_that_needs_escaping() {
    let offer = "{\"type\":\"answer\",\"sdp\":\"line \\\"one\\\"\\n\\u00e9\"}";
    let candidates = vec![IceCandidate::new("a \"quoted\" \\ path\n".to_string(), "données".to_string(), 65535)];
    let decoded = decode(&encode(offer, &candidates)).unwrap();
    assert_eq!(decoded.offer, offer);
    assert_eq!(decoded.ice_candidates, candidates);
}

#[test]
fn encode_gives_the_exact_token() {
    assert_eq!(encode("{}", &Vec::new()), "eyJpY2VfY2FuZGlkYXRlcyI6W10sIm9mZmVyIjoie30ifQ==");
}

#[test]
fn encode_is_base64_of_the_json_text() {
    let token = encode("{}", &vec![IceCandidate::new("c".to_string(), "m".to_string(), 7)]);
    let bytes = base64::decode(&token).unwrap();
    assert_eq!(
        String::from_utf8(bytes).unwrap(),
        "{\"ice_candidates\":[{\"candidate\":\"c\",\"sdp_m_line_index\":7,\"sdp_mid\":\"m\"}],\"offer\":\"{}\"}"
    );
}

#[test]
fn decode_reads_a_token_written_elsewhere() {
    let token = "eyJvZmZlciI6IntcInR5cGVcIjpcIm9mZmVyXCIsXCJzZHBcIjpcInY9MFwifSIsImljZV9jYW5kaWRhdGVzIjpbeyJjYW5kaWRhdGUiOiJhIiwic2RwX21pZCI6IjAiLCJzZHBfbV9saW5lX2luZGV4Ijo2NTUzNX1dfQ==";
    let decoded = decode(token).unwrap();
    assert_eq!(decoded.offer, "{\"type\":\"offer\",\"sdp\":\"v=0\"}");
    assert_eq!(
        decoded.ice_candidates,
        vec![IceCandidate::new("a".to_string(), "0".to_string(), 65535)]
    );
}

#[test]
fn decode_refuses_what_is_not_base64() {
    assert_eq!(decode("this is not base64!"), Err(OfferError::InvalidBase64));
    assert_eq!(decode("a"), Err(OfferError::InvalidBase64));
}

#[test]
fn decode_refuses_bytes_that_are_not_text() {
    assert_eq!(decode("//4="), Err(OfferError::InvalidString));
}

#[test]
fn decode_refuses_text_that_is_not_a_descriptor() {
    assert_eq!(decode("aGVsbG8="), Err(OfferError::SerializationError));
    assert_eq!(decode(""), Err(OfferError::SerializationError));
    assert_eq!(
        decode("eyJvZmZlciI6NSwiaWNlX2NhbmRpZGF0ZXMiOltdfQ=="),
        Err(OfferError::SerializationError)
    );
    assert_eq!(decode("eyJvZmZlciI6Int9In0="), Err(OfferError::SerializationError));
}

#[test]
fn decode_refuses_an_index_beyond_sixteen_bits() {
    let token = "eyJvZmZlciI6Int9IiwiaWNlX2NhbmRpZGF0ZXMiOlt7ImNhbmRpZGF0ZSI6ImNhbmRpZGF0ZToxIDEgVURQIDEgMTAuMC4wLjEgNTAwMCB0eXAgaG9zdCIsInNkcF9taWQiOiIwIiwic2RwX21fbGluZV9pbmRleCI6NjU1MzZ9XX0=";
    assert_eq!(decode(token), Err(OfferError::SerializationError));
}

#[test]
fn decode_refuses_an_offer_that_is_no_description() {
    assert_eq!(
        decode("eyJvZmZlciI6Im5vdCBqc29uIiwiaWNlX2NhbmRpZGF0ZXMiOltdfQ=="),
        Err(OfferError::InvalidOffer)
    );
    let token = encode("not json", &vec![host_candidate(1)]);
    assert_eq!(decode(&token), Err(OfferError::InvalidOffer));
}

#[test]
fn decode_names_the_first_stage_that_fails() {
    // Not base64, and not a descriptor either: the encoding is named.
    assert_eq!(decode("{\"offer\":\"{}\"}"), Err(OfferError::InvalidBase64));
    // Text, but no descriptor, with an offer that is no description: the structure is named.
    let token = base64::encode("{\"offer\":\"not json\"}");
    assert_eq!(decode(&token), Err(OfferError::SerializationError));
}

#[test]
fn candidate_json_has_the_three_members() {
    let value = candidate_to_json(&host_candidate(3));
    assert_eq!(value.get("candidate").and_then(|v| v.as_str()), Some(host_candidate(3).candidate.as_str()));
    assert_eq!(value.get("sdp_mid").and_then(|v| v.as_str()), Some("0"));
    assert_eq!(value.get("sdp_m_line_index").and_then(|v| v.as_u64()), Some(3));
    assert_eq!(value.as_object().map(|m| m.len()), Some(3));
}

#[test]
fn candidate_from_json_reads_and_refuses() {
    let good: serde_json::Value =
        serde_json::from_str("{\"candidate\":\"c\",\"sdp_mid\":\"1\",\"sdp_m_line_index\":2,\"extra\":null}").unwrap();
    assert_eq!(candidate_from_json(&good), Some(IceCandidate::new("c".to_string(), "1".to_string(), 2)));
    let missing: serde_json::Value = serde_json::from_str("{\"candidate\":\"c\",\"sdp_mid\":\"1\"}").unwrap();
    assert_eq!(candidate_from_json(&missing), None);
    let negative: serde_json::Value =
        serde_json::from_str("{\"candidate\":\"c\",\"sdp_mid\":\"1\",\"sdp_m_line_index\":-1}").unwrap();
    assert_eq!(candidate_from_json(&negative), None);
    let wrong_type: serde_json::Value =
        serde_json::from_str("{\"candidate\":7,\"sdp_mid\":\"1\",\"sdp_m_line_index\":1}").unwrap();
    assert_eq!(candidate_from_json(&wrong_type), None);
    let array: serde_json::Value = serde_json::from_str("[\"c\",\"1\",2]").unwrap();
    assert_eq!(candidate_from_json(&array), None);
}

#[test]
fn descriptor_json_round_trip() {
    let candidates = vec![host_candidate(4), host_candidate(5)];
    let value = descriptor_to_json(OFFER, &candidates);
    assert_eq!(value.get("offer").and_then(|v| v.as_str()), Some(OFFER));
    assert_eq!(value.get("ice_candidates").and_then(|v| v.as_array()).map(|a| a.len()), Some(2));
    let back = descriptor_from_json(&value).unwrap();
    assert_eq!(back.offer, OFFER);
    assert_eq!(back.ice_candidates, candidates);
}

#[test]
fn descriptor_from_json_refuses_one_bad_candidate() {
    let value: serde_json::Value = serde_json::from_str(
        "{\"offer\":\"{}\",\"ice_candidates\":[{\"candidate\":\"c\",\"sdp_mid\":\"1\",\"sdp_m_line_index\":2},{\"candidate\":\"d\"}]}",
    )
    .unwrap();
    assert_eq!(descriptor_from_json(&value), None);
}

#[test]
fn relay_candidate_text_round_trip() {
    let c = host_candidate(9);
    let text = write_candidate(&c);
    assert_eq!(
        text,
        format!("{{\"candidate\":\"{}\",\"sdp_m_line_index\":9,\"sdp_mid\":\"0\"}}", c.candidate)
    );
    assert_eq!(read_candidate(&text), Some(c));
    assert_eq!(read_candidate("{"), None);
    assert_eq!(read_candidate("{}"), None);
}

#[test]
fn decode_bytes_checks_the_text_layer() {
    assert_eq!(decode_bytes(vec![0xff, 0xfe]), Err(OfferError::InvalidString));
    assert_eq!(decode_bytes(vec![0xc3]), Err(OfferError::InvalidString));
    assert_eq!(decode_bytes(b"hello".to_vec()), Err(OfferError::SerializationError));
    assert_eq!(
        decode_bytes("{\"offer\":\"[1]\",\"ice_candidates\":[]}".as_bytes().to_vec()),
        Err(OfferError::InvalidOffer)
    );
    let offer = "{\"sdp\":\"\",\"type\":\"offer\"}";
    let text = format!("{{\"offer\":{:?},\"ice_candidates\":[]}}", offer);
    let decoded = decode_bytes(text.into_bytes()).unwrap();
    assert_eq!(decoded, ConnectionString { ice_candidates: Vec::new(), offer: offer.to_string() });
}

#[test]
fn decode_text_checks_structure_then_offer() {
    assert_eq!(decode_text("[]"), Err(OfferError::SerializationError));
    assert_eq!(decode_text("{\"offer\":\"{}\",\"ice_candidates\":{}}"), Err(OfferError::SerializationError));
    assert_eq!(decode_text("{\"offer\":\"{\",\"ice_candidates\":[]}"), Err(OfferError::InvalidOffer));
    let text = "{\"ice_candidates\":[{\"sdp_m_line_index\":0,\"sdp_mid\":\"data\",\"candidate\":\"c\"}],\"offer\":\"{\\\"type\\\":\\\"offer\\\",\\\"sdp\\\":\\\"v=0\\\",\\\"more\\\":1}\",\"note\":1}";
    let decoded = decode_text(text).unwrap();
    assert_eq!(decoded.offer, "{\"type\":\"offer\",\"sdp\":\"v=0\",\"more\":1}");
    assert_eq!(
        decode_text("{\"offer\":\"null\",\"ice_candidates\":[]}"),
        Err(OfferError::InvalidOffer)
    );
    assert_eq!(decoded.ice_candidates, vec![IceCandidate::new("c".to_string(), "data".to_string(), 0)]);
}

#[test]
fn decode_refuses_an_offer_that_is_json_but_no_description() {
    // The descriptor's offer is the number one.
    assert_eq!(decode("eyJpY2VfY2FuZGlkYXRlcyI6W10sIm9mZmVyIjoiMSJ9"), Err(OfferError::InvalidOffer));
    assert_eq!(
        decode(&base64::encode("{\"ice_candidates\":[],\"offer\":\"1\"}")),
        Err(OfferError::InvalidOffer)
    );
    assert_eq!(decode(&encode("{}", &Vec::new())), Err(OfferError::InvalidOffer));
    assert_eq!(decode(&encode("{\"type\":\"offer\"}", &Vec::new())), Err(OfferError::InvalidOffer));
    assert_eq!(decode(&encode("{\"sdp\":\"v=0\"}", &Vec::new())), Err(OfferError::InvalidOffer));
    assert_eq!(
        decode(&encode("{\"type\":1,\"sdp\":\"v=0\"}", &Vec::new())),
        Err(OfferError::InvalidOffer)
    );
    assert_eq!(
        decode(&encode("{\"type\":\"offer\",\"sdp\":null}", &Vec::new())),
        Err(OfferError::InvalidOffer)
    );
    assert_eq!(
        decode(&encode("[\"offer\",\"v=0\"]", &Vec::new())),
        Err(OfferError::InvalidOffer)
    );
}

#[test]
fn check_description_wants_type_and_sdp_as_text() {
    assert!(check_description("{\"type\":\"offer\",\"sdp\":\"v=0\"}"));
    assert!(check_description("{\"sdp\":\"\",\"type\":\"answer\",\"extra\":[1,2]}"));
    assert!(!check_description(""));
    assert!(!check_description("1"));
    assert!(!check_description("\"offer\""));
    assert!(!check_description("{}"));
    assert!(!check_description("{\"type\":\"offer\",\"sdp\":7}"));
    assert!(!check_description("{\"type\":\"offer\",\"sdp\":\"v=0\""));
    let value: serde_json::Value = serde_json::from_str("{\"type\":\"offer\",\"sdp\":\"v=0\"}").unwrap();
    assert!(description_in_json(&value));
    let value: serde_json::Value = serde_json::from_str("{\"type\":\"offer\"}").unwrap();
    assert!(!description_in_json(&value));
    let value: serde_json::Value = serde_json::from_str("{\"type\":true,\"sdp\":\"v=0\"}").unwrap();
    assert!(!description_in_json(&value));
}
