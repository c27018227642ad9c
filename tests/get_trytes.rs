use iota_api::command::{api_headers, Command};
use iota_api::get_trytes::{
    decode_response, finish_get_trytes, prepare_get_trytes, DecodeError, Error, Field,
    GetTrytesResponse, Reply,
};
use iota_api::json::JsonValue;
use iota_api::validator::{is_array_of_hashes, is_hash};

fn hash_of(c: char) -> String {
    std::iter::repeat(c).take(81).collect()
}

fn string(s: &str) -> JsonValue {
    JsonValue::Str(s.to_string())
}

fn object(members: Vec<(&str, JsonValue)>) -> JsonValue {
    JsonValue::Object(members.into_iter().map(|(k, v)| (k.to_string(), v)).collect())
}

fn trytes_array(items: &[&str]) -> JsonValue {
    JsonValue::Array(items.iter().map(|s| string(s)).collect())
}

#[test]
fn hash_of_81_trytes_is_valid() {
    assert!(is_hash(&hash_of('A')));
    assert!(is_hash(&hash_of('9')));
    let mut with_checksum = hash_of('Z');
    with_checksum.push_str("ABCDEFGH9");
    assert!(is_hash(&with_checksum));
}

#[test]
fn hash_with_bad_length_or_character_is_invalid() {
    assert!(!is_hash(""));
    assert!(!is_hash(&"A".repeat(80)));
    assert!(!is_hash(&"A".repeat(82)));
    let mut lower = "A".repeat(80);
    lower.push('a');
    assert!(!is_hash(&lower));
    let mut digit = "A".repeat(80);
    digit.push('1');
    assert!(!is_hash(&digit));
    let mut accented = "A".repeat(80);
    accented.push('\u{c9}');
    assert!(!is_hash(&accented));
}

#[test]
fn empty_hash_list_is_refused() {
    assert!(!is_array_of_hashes(&[]));
    match prepare_get_trytes("http://localhost:14265", &[]) {
        Err(Error::Validation(list)) => assert!(list.is_empty()),
        _ => panic!("an empty list must be refused"),
    }
}

#[test]
fn one_invalid_hash_refuses_the_whole_list() {
    let hashes = vec![hash_of('A'), "NOTAHASH".to_string(), hash_of('B')];
    assert!(!is_array_of_hashes(&hashes));
    match prepare_get_trytes("http://localhost:14265", &hashes) {
        Err(Error::Validation(list)) => assert_eq!(list, hashes),
        _ => panic!("an invalid hash must be refused before any request"),
    }
}

#[test]
fn valid_hashes_give_the_command_envelope() {
    let hashes = vec![hash_of('A'), hash_of('9')];
    assert!(is_array_of_hashes(&hashes));
    let req = match prepare_get_trytes("http://localhost:14265", &hashes) {
        Ok(req) => req,
        Err(_) => panic!("valid hashes must give a request"),
    };
    assert_eq!(req.uri, "http://localhost:14265");
    let expected = format!(
        "{{\"command\":\"getTrytes\",\"hashes\":[\"{}\",\"{}\"]}}",
        hashes[0], hashes[1]
    );
    assert_eq!(req.body, expected);
    let parsed: serde_json::Value = serde_json::from_str(&req.body).unwrap();
    assert_eq!(parsed["command"], "getTrytes");
    let listed: Vec<String> = parsed["hashes"]
        .as_array()
        .unwrap()
        .iter()
        .map(|h| h.as_str().unwrap().to_string())
        .collect();
    assert_eq!(listed, hashes);
}

#[test]
fn envelope_of_one_hash() {
    let command = Command::GetTrytes { hashes: vec!["ABC".to_string()] };
    assert_eq!(command.name(), "getTrytes");
    assert_eq!(command.to_json(), "{\"command\":\"getTrytes\",\"hashes\":[\"ABC\"]}");
    let empty = Command::GetTrytes { hashes: vec![] };
    assert_eq!(empty.to_json(), "{\"command\":\"getTrytes\",\"hashes\":[]}");
}

#[test]
fn requests_carry_the_api_headers() {
    let headers = api_headers();
    assert_eq!(headers.len(), 2);
    assert_eq!(headers[0].name, "Content-Type");
    assert_eq!(headers[0].value, "application/json");
    assert_eq!(headers[1].name, "X-IOTA-API-Version");
    assert_eq!(headers[1].value, "1");
    let req = match prepare_get_trytes("http://node", &[hash_of('C')]) {
        Ok(req) => req,
        Err(_) => panic!("a valid hash must give a request"),
    };
    let pairs: Vec<(String, String)> =
        req.headers.iter().map(|h| (h.name.clone(), h.value.clone())).collect();
    assert_eq!(
        pairs,
        vec![
            ("Content-Type".to_string(), "application/json".to_string()),
            ("X-IOTA-API-Version".to_string(), "1".to_string()),
        ]
    );
}

#[test]
fn well_formed_response_round_trips() {
    let body = object(vec![
        ("duration", JsonValue::Integer(42)),
        ("trytes", trytes_array(&["A9B", "C3D"])),
    ]);
    let resp = decode_response(&body).unwrap();
    assert_eq!(resp.duration(), 42);
    assert_eq!(resp.trytes(), &["A9B".to_string(), "C3D".to_string()]);
}

#[test]
fn take_trytes_gives_what_trytes_shows() {
    let resp = GetTrytesResponse::new(7, vec!["X".to_string(), "Y9".to_string()]);
    let shown: Vec<String> = resp.trytes().to_vec();
    let taken = resp.take_trytes();
    assert_eq!(taken, shown);
    assert_eq!(taken, vec!["X".to_string(), "Y9".to_string()]);
}

#[test]
fn unknown_members_are_ignored() {
    let body = object(vec![
        ("extra", JsonValue::Bool(true)),
        ("trytes", trytes_array(&[])),
        ("duration", JsonValue::Integer(0)),
    ]);
    let resp = decode_response(&body).unwrap();
    assert_eq!(resp.duration(), 0);
    assert!(resp.trytes().is_empty());
}

#[test]
fn fewer_trytes_than_hashes_is_accepted() {
    let body = object(vec![
        ("duration", JsonValue::Integer(3)),
        ("trytes", trytes_array(&["ONLYONE"])),
    ]);
    let resp = finish_get_trytes(Reply::Json(body)).unwrap();
    assert_eq!(resp.take_trytes(), vec!["ONLYONE".to_string()]);
}

#[test]
fn missing_trytes_is_a_decode_error() {
    let body = object(vec![("duration", JsonValue::Integer(42))]);
    assert!(matches!(decode_response(&body), Err(DecodeError::Missing(Field::Trytes))));
    assert!(matches!(
        finish_get_trytes(Reply::Json(body)),
        Err(Error::Decode(DecodeError::Missing(Field::Trytes)))
    ));
}

#[test]
fn trytes_not_an_array_is_a_decode_error() {
    let body = object(vec![("duration", JsonValue::Integer(42)), ("trytes", string("ABC"))]);
    assert!(matches!(decode_response(&body), Err(DecodeError::WrongType(Field::Trytes))));
    let mixed = object(vec![
        ("duration", JsonValue::Integer(42)),
        ("trytes", JsonValue::Array(vec![string("A"), JsonValue::Null])),
    ]);
    assert!(matches!(decode_response(&mixed), Err(DecodeError::WrongType(Field::Trytes))));
}

#[test]
fn bad_duration_is_a_decode_error() {
    let missing = object(vec![("trytes", trytes_array(&["A"]))]);
    assert!(matches!(decode_response(&missing), Err(DecodeError::Missing(Field::Duration))));
    let real = object(vec![("duration", JsonValue::Real), ("trytes", trytes_array(&["A"]))]);
    assert!(matches!(decode_response(&real), Err(DecodeError::WrongType(Field::Duration))));
    let too_large = object(vec![
        ("duration", JsonValue::Integer(i64::MAX as i128 + 1)),
        ("trytes", trytes_array(&["A"])),
    ]);
    assert!(matches!(decode_response(&too_large), Err(DecodeError::WrongType(Field::Duration))));
    let smallest = object(vec![
        ("duration", JsonValue::Integer(i64::MIN as i128)),
        ("trytes", trytes_array(&[])),
    ]);
    assert_eq!(decode_response(&smallest).unwrap().duration(), i64::MIN);
}

#[test]
fn node_error_envelope_is_reported() {
    let body = object(vec![
        ("error", string("Invalid parameters")),
        ("duration", JsonValue::Integer(0)),
    ]);
    match decode_response(&body) {
        Err(DecodeError::NodeError(m)) => assert_eq!(m, "Invalid parameters"),
        _ => panic!("an error envelope must be reported as such"),
    }
}

#[test]
fn body_that_is_not_an_object_is_a_decode_error() {
    assert!(matches!(decode_response(&trytes_array(&["A"])), Err(DecodeError::NotAnObject)));
    match finish_get_trytes(Reply::NotJson("expected value".to_string())) {
        Err(Error::Decode(DecodeError::Syntax(m))) => assert_eq!(m, "expected value"),
        _ => panic!("a body that is not JSON must be a decode error"),
    }
}

#[test]
fn unreachable_endpoint_is_a_transport_error() {
    match finish_get_trytes(Reply::Unreachable("connection refused".to_string())) {
        Err(Error::Transport(m)) => assert_eq!(m, "connection refused"),
        _ => panic!("a failed exchange must be a transport error"),
    }
}
