use game_attest::game::GameData;
use game_attest::outcome::{build_result, format_verification_time, VerificationResult};
use game_attest::parse::{
    game_data_from_json_bytes, game_data_from_parts, parse_game_data, ParseError,
};

fn value(text: &str) -> serde_json::Value {
    serde_json::from_str(text).unwrap()
}

fn sample() -> GameData {
    GameData {
        score: 100,
        blocks_destroyed: 10,
        game_won: false,
        game_completed: false,
        timestamp: String::from("2024-01-15T10:30:00Z"),
    }
}

#[test]
fn parse_well_formed() {
    let v = value(
        r#"{"score":100,"blocksDestroyed":10,"gameWon":false,"gameCompleted":true,"timestamp":"2024-01-15T10:30:00Z"}"#,
    );
    let d = parse_game_data(&v).unwrap();
    assert_eq!(d.score, 100);
    assert_eq!(d.blocks_destroyed, 10);
    assert!(!d.game_won);
    assert!(d.game_completed);
    assert_eq!(d.timestamp, "2024-01-15T10:30:00Z");
}

#[test]
fn parse_score_as_string_rejected() {
    let v = value(
        r#"{"score":"100","blocksDestroyed":10,"gameWon":false,"gameCompleted":true,"timestamp":"t"}"#,
    );
    assert_eq!(parse_game_data(&v).unwrap_err(), ParseError::BadScore);
}

#[test]
fn parse_missing_field_rejected() {
    let v = value(r#"{"score":100,"gameWon":false,"gameCompleted":true,"timestamp":"t"}"#);
    assert_eq!(parse_game_data(&v).unwrap_err(), ParseError::BadBlocksDestroyed);
}

#[test]
fn parse_wrong_types_rejected_in_field_order() {
    let v = value(
        r#"{"score":100,"blocksDestroyed":10,"gameWon":1,"gameCompleted":true,"timestamp":"t"}"#,
    );
    assert_eq!(parse_game_data(&v).unwrap_err(), ParseError::BadGameWon);
    let v = value(
        r#"{"score":100,"blocksDestroyed":10,"gameWon":true,"gameCompleted":"yes","timestamp":"t"}"#,
    );
    assert_eq!(parse_game_data(&v).unwrap_err(), ParseError::BadGameCompleted);
    let v = value(
        r#"{"score":100,"blocksDestroyed":10,"gameWon":true,"gameCompleted":true,"timestamp":7}"#,
    );
    assert_eq!(parse_game_data(&v).unwrap_err(), ParseError::BadTimestamp);
}

#[test]
fn parse_out_of_range_integer_rejected() {
    let v = value(
        r#"{"score":3000000000,"blocksDestroyed":10,"gameWon":false,"gameCompleted":true,"timestamp":"t"}"#,
    );
    assert_eq!(parse_game_data(&v).unwrap_err(), ParseError::BadScore);
    let r = game_data_from_parts(
        Some(100),
        Some(-3000000000),
        Some(false),
        Some(false),
        Some(String::from("t")),
    );
    assert_eq!(r.unwrap_err(), ParseError::BadBlocksDestroyed);
}

#[test]
fn parse_from_bytes() {
    let good =
        br#"{"score":100,"blocksDestroyed":10,"gameWon":false,"gameCompleted":false,"timestamp":"t"}"#;
    let d = game_data_from_json_bytes(good).unwrap();
    assert_eq!(d.score, 100);
    match game_data_from_json_bytes(b"not json") {
        Err(e) => assert_eq!(e, ParseError::BadJson),
        Ok(_) => panic!("bytes that are no JSON must be rejected"),
    }
}

#[test]
fn parse_error_messages() {
    assert_eq!(ParseError::BadJson.message(), "input is not valid JSON");
    assert_eq!(ParseError::BadScore.message(), "missing or invalid field: score");
    assert_eq!(
        ParseError::BadBlocksDestroyed.message(),
        "missing or invalid field: blocksDestroyed"
    );
    assert_eq!(ParseError::BadGameWon.message(), "missing or invalid field: gameWon");
    assert_eq!(ParseError::BadGameCompleted.message(), "missing or invalid field: gameCompleted");
    assert_eq!(ParseError::BadTimestamp.message(), "missing or invalid field: timestamp");
}

#[test]
fn verification_time_format() {
    assert_eq!(format_verification_time(0), "0ms");
    assert_eq!(format_verification_time(12345), "12345ms");
    let r = build_result(&sample(), true, 250);
    assert_eq!(r.verification_time, "250ms");
    assert!(r.verification_time.ends_with("ms"));
    assert!(!r.verification_time.starts_with('-'));
}

#[test]
fn build_result_fields() {
    let r = build_result(&sample(), true, 5);
    assert!(r.verified);
    assert_eq!(r.proof_id, "proof_2c8562a6");
    assert_eq!(
        r.commitment,
        "0x4100b38e01e8d12eda9bf0e3899920804b67e4ae2fa029bfc1726f74f10904b8"
    );
    assert_eq!(r.verification_time, "5ms");
    assert_eq!(r.proof_details, "ZK-verified blocks: 10, score: 100");
    let rejected = build_result(&sample(), false, 5);
    assert!(!rejected.verified);
    assert_eq!(rejected.commitment, r.commitment);
}

#[test]
fn serialize_round_trips_every_field() {
    let r = build_result(&sample(), true, 5);
    let text = r.to_json();
    let v: serde_json::Value = serde_json::from_str(&text).unwrap();
    assert_eq!(v["verified"].as_bool(), Some(true));
    assert_eq!(v["proofId"].as_str(), Some("proof_2c8562a6"));
    assert_eq!(
        v["commitment"].as_str(),
        Some("0x4100b38e01e8d12eda9bf0e3899920804b67e4ae2fa029bfc1726f74f10904b8")
    );
    assert_eq!(v["verificationTime"].as_str(), Some("5ms"));
    assert_eq!(v["proofDetails"].as_str(), Some("ZK-verified blocks: 10, score: 100"));
}

#[test]
fn serialize_escapes_and_stays_total() {
    let r = VerificationResult {
        verified: false,
        proof_id: String::from("a\"b"),
        commitment: String::from("back\\slash"),
        verification_time: String::from("0ms"),
        proof_details: String::from("line\nbreak\ttab"),
    };
    let text = r.to_json();
    let v: serde_json::Value = serde_json::from_str(&text).unwrap();
    assert_eq!(v["verified"].as_bool(), Some(false));
    assert_eq!(v["proofId"].as_str(), Some("a\"b"));
    assert_eq!(v["commitment"].as_str(), Some("back\\slash"));
    assert_eq!(v["proofDetails"].as_str(), Some("line\nbreak\ttab"));
}

#[test]
fn serialize_exact_document() {
    let r = build_result(&sample(), true, 5);
    let expected = "{\"verified\":true,\"proofId\":\"proof_2c8562a6\",\"commitment\":\"0x4100b38e01e8d12eda9bf0e3899920804b67e4ae2fa029bfc1726f74f10904b8\",\"verificationTime\":\"5ms\",\"proofDetails\":\"ZK-verified blocks: 10, score: 100\"}";
    assert_eq!(r.to_json(), expected);
}

#[test]
fn serialize_distinguishes_results() {
    let r1 = build_result(&sample(), true, 5);
    let r2 = build_result(&sample(), false, 5);
    assert_ne!(r1.to_json(), r2.to_json());
    let mut other = sample();
    other.score = 110;
    let r3 = build_result(&other, true, 5);
    assert_ne!(r1.to_json(), r3.to_json());
}
