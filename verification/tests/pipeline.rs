use game_attest::artifacts::{
    canonical_commit_concat, canonical_seed_concat, compute_commitment, derive_proof_id,
    derive_seed, proof_id_from_seed,
};
use game_attest::game::GameData;
use game_attest::outcome::build_result;
use game_attest::text::{bytes_to_hex, i32_to_dec, u32_to_hex, u64_to_dec};

fn sample() -> GameData {
    GameData {
        score: 100,
        blocks_destroyed: 10,
        game_won: false,
        game_completed: false,
        timestamp: String::from("2024-01-15T10:30:00Z"),
    }
}

#[test]
fn canonical_concatenations() {
    let d = sample();
    assert_eq!(canonical_commit_concat(&d), "10010false2024-01-15T10:30:00Z");
    assert_eq!(canonical_seed_concat(&d), "100102024-01-15T10:30:00Z");
    let neg = GameData {
        score: -5,
        blocks_destroyed: 1,
        game_won: false,
        game_completed: false,
        timestamp: String::from("t"),
    };
    assert_eq!(canonical_commit_concat(&neg), "-51falset");
    assert_eq!(canonical_seed_concat(&neg), "-51t");
}

#[test]
fn commitment_exact_value() {
    // Independently computed SHA-256 of "10010false2024-01-15T10:30:00Z".
    assert_eq!(
        compute_commitment(&sample()),
        "0x4100b38e01e8d12eda9bf0e3899920804b67e4ae2fa029bfc1726f74f10904b8"
    );
    let neg = GameData {
        score: -5,
        blocks_destroyed: 1,
        game_won: false,
        game_completed: false,
        timestamp: String::from("t"),
    };
    // SHA-256 of "-51falset".
    assert_eq!(
        compute_commitment(&neg),
        "0x8407ea7b10b16a6d030432d6a5adb330f32370517189f7306c2d220fc6930e6a"
    );
}

#[test]
fn commitment_shape() {
    let c = compute_commitment(&sample());
    assert_eq!(c.len(), 66);
    assert!(c.starts_with("0x"));
    assert!(c[2..].chars().all(|ch| ch.is_ascii_hexdigit() && !ch.is_ascii_uppercase()));
}

#[test]
fn seed_exact_value() {
    // Independently computed SHA-256 of "100102024-01-15T10:30:00Z".
    let seed = derive_seed(&sample());
    assert_eq!(seed.len(), 32);
    assert_eq!(
        bytes_to_hex(&seed),
        "2c8562a605feb24f8a62a4dbc2ea4aa8bd564381de6ac651bc19132b3504bf4c"
    );
}

#[test]
fn proof_id_exact_value() {
    // First four seed bytes 2c 85 62 a6, big-endian, lower-case hex.
    assert_eq!(derive_proof_id(&sample()), "proof_2c8562a6");
    let other = GameData {
        score: 300,
        blocks_destroyed: 25,
        game_won: true,
        game_completed: true,
        timestamp: String::from("2024-01-15T10:30:00Z"),
    };
    assert_eq!(derive_proof_id(&other), "proof_9eac5cd3");
}

#[test]
fn proof_id_from_short_prefix() {
    // Leading zero bytes of the seed drop out of the hex rendering.
    let seed = vec![0u8, 0, 1, 2, 9, 9, 9, 9];
    assert_eq!(proof_id_from_seed(&seed), "proof_102");
    let zero = vec![0u8, 0, 0, 0];
    assert_eq!(proof_id_from_seed(&zero), "proof_0");
}

#[test]
fn determinism_across_calls() {
    let d = sample();
    assert_eq!(compute_commitment(&d), compute_commitment(&d));
    assert_eq!(derive_seed(&d), derive_seed(&d));
    assert_eq!(derive_proof_id(&d), derive_proof_id(&d));
    let r1 = build_result(&d, true, 7);
    let r2 = build_result(&d, true, 7);
    assert_eq!(r1.proof_id, r2.proof_id);
    assert_eq!(r1.commitment, r2.commitment);
}

#[test]
fn seed_ignores_outcome_flags() {
    let mut d = sample();
    let base_seed = derive_seed(&d);
    let base_id = derive_proof_id(&d);
    d.game_won = true;
    d.game_completed = true;
    assert_eq!(derive_seed(&d), base_seed);
    assert_eq!(derive_proof_id(&d), base_id);
}

#[test]
fn commitment_sensitivity_per_field() {
    let base = compute_commitment(&sample());
    let mut d = sample();
    d.score = 101;
    assert_ne!(compute_commitment(&d), base);
    let mut d = sample();
    d.blocks_destroyed = 11;
    assert_ne!(compute_commitment(&d), base);
    let mut d = sample();
    d.game_won = true;
    assert_ne!(compute_commitment(&d), base);
    let mut d = sample();
    d.timestamp = String::from("2024-01-15T10:30:01Z");
    assert_ne!(compute_commitment(&d), base);
}

#[test]
fn decimal_rendering() {
    assert_eq!(u64_to_dec(0), "0");
    assert_eq!(u64_to_dec(42), "42");
    assert_eq!(u64_to_dec(u64::MAX), "18446744073709551615");
    assert_eq!(i32_to_dec(0), "0");
    assert_eq!(i32_to_dec(-5), "-5");
    assert_eq!(i32_to_dec(i32::MIN), "-2147483648");
    assert_eq!(i32_to_dec(i32::MAX), "2147483647");
}

#[test]
fn hex_rendering() {
    assert_eq!(u32_to_hex(0), "0");
    assert_eq!(u32_to_hex(255), "ff");
    assert_eq!(u32_to_hex(0x2c8562a6), "2c8562a6");
    assert_eq!(u32_to_hex(u32::MAX), "ffffffff");
    assert_eq!(bytes_to_hex(&vec![]), "");
    assert_eq!(bytes_to_hex(&vec![0u8, 255, 16]), "00ff10");
}
