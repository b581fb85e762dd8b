use vstd::prelude::*;

verus! {

/// The reported outcome of one game round: the sole input of the
/// verification pipeline. No field-level constraint is enforced on
/// construction; all domain validity is delegated to [`is_valid`].
#[derive(Clone, Debug)]
pub struct GameData {
    pub score: i32,
    pub blocks_destroyed: i32,
    pub game_won: bool,
    pub game_completed: bool,
    pub timestamp: String,
}

/// Mathematical image of `GameData`: unbounded integers, the timestamp as
/// its character sequence.
pub struct GameDataView {
    pub score: int,
    pub blocks_destroyed: int,
    pub game_won: bool,
    pub game_completed: bool,
    pub timestamp: Seq<char>,
}

impl View for GameData {
    type V = GameDataView;

    open spec fn view(&self) -> GameDataView {
        GameDataView {
            score: self.score as int,
            blocks_destroyed: self.blocks_destroyed as int,
            game_won: self.game_won,
            game_completed: self.game_completed,
            timestamp: self.timestamp@,
        }
    }
}

/// A positive number of blocks was destroyed and the score accounts for at
/// least ten points per destroyed block. The comparison is exact over the
/// unbounded integers: no overflow can enter it.
pub open spec fn valid_score(d: GameDataView) -> bool {
    d.blocks_destroyed > 0 && d.score >= d.blocks_destroyed * 10
}

/// A claimed win requires at least twenty destroyed blocks.
pub open spec fn valid_win(d: GameDataView) -> bool {
    !d.game_won || d.blocks_destroyed >= 20
}

/// The statement the whole pipeline attests to: the conjunction of
/// [`valid_score`] and [`valid_win`].
pub open spec fn valid_game(d: GameDataView) -> bool {
    valid_score(d) && valid_win(d)
}

/// The validity predicate over a reported outcome. Pure and total; the
/// score rule is evaluated in 64-bit arithmetic, where `blocks * 10` for a
/// 32-bit `blocks` cannot overflow, so the result equals the exact
/// mathematical comparison for every input.
pub fn is_valid(d: &GameData) -> (r: bool)
    ensures
        r == valid_game(d@),
{
    let score: i64 = d.score as i64;
    let blocks: i64 = d.blocks_destroyed as i64;
    let score_ok = blocks > 0 && score >= blocks * 10;
    let win_ok = !d.game_won || d.blocks_destroyed >= 20;
    score_ok && win_ok
}

} // verus!
