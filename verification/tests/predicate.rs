use game_attest::game::{is_valid, GameData};

fn data(score: i32, blocks_destroyed: i32, game_won: bool) -> GameData {
    GameData {
        score,
        blocks_destroyed,
        game_won,
        game_completed: false,
        timestamp: String::from("2024-01-15T10:30:00Z"),
    }
}

#[test]
fn exact_score_threshold_accepted() {
    // 100 >= 10 * 10 and no win claimed.
    assert!(is_valid(&data(100, 10, false)));
}

#[test]
fn score_below_threshold_rejected() {
    // 50 < 10 * 10.
    assert!(!is_valid(&data(50, 10, false)));
}

#[test]
fn win_with_enough_blocks_accepted() {
    // 300 >= 25 * 10 and 25 >= 20.
    assert!(is_valid(&data(300, 25, true)));
}

#[test]
fn win_with_too_few_blocks_rejected() {
    // 300 >= 10 * 10 but the claimed win needs 20 blocks.
    assert!(!is_valid(&data(300, 10, true)));
}

#[test]
fn zero_blocks_rejected() {
    // blocks_destroyed must be positive.
    assert!(!is_valid(&data(0, 0, false)));
}

#[test]
fn negative_blocks_rejected() {
    assert!(!is_valid(&data(100, -3, false)));
}

#[test]
fn large_blocks_do_not_overflow() {
    // blocks * 10 would overflow 32 bits; the rule is still evaluated
    // exactly, so the highest possible score cannot reach it.
    assert!(!is_valid(&data(i32::MAX, i32::MAX, false)));
    // A negative score never reaches ten points per block either.
    assert!(!is_valid(&data(i32::MIN, 1, false)));
}

#[test]
fn completion_flag_does_not_enter_predicate() {
    let mut d = data(100, 10, false);
    d.game_completed = true;
    assert!(is_valid(&d));
}
