use vstd::prelude::*;
use crate::game::GameData;

verus! {

/// Declares serde_json::Value, the dynamic value handed across the
/// boundary. It stays opaque here: the library reads it only through the
/// accessors below.
#[verifier::external_type_specification]
#[verifier::external_body]
pub struct ExValue(serde_json::Value);

/// Relies on serde_json::Value::get: looks a key up in a JSON object,
/// `None` when the key is absent or the value is no object. Nothing is
/// assumed of the result; the shape decision is made downstream in
/// [`game_data_from_parts`], which is verified for every outcome.
#[verifier::external_body]
fn json_get<'a>(v: &'a serde_json::Value, key: &str) -> Option<&'a serde_json::Value> {
    v.get(key)
}

/// Relies on serde_json::Value::as_i64: `Some` exactly when the value is
/// an integer number representable in 64 signed bits. Nothing is assumed
/// of the result.
#[verifier::external_body]
fn json_as_i64(v: &serde_json::Value) -> Option<i64> {
    v.as_i64()
}

/// Relies on serde_json::Value::as_bool: `Some` exactly when the value is
/// a JSON boolean. Nothing is assumed of the result.
#[verifier::external_body]
fn json_as_bool(v: &serde_json::Value) -> Option<bool> {
    v.as_bool()
}

/// Relies on serde_json::Value::as_str: `Some` exactly when the value is a
/// JSON string; the string is copied out. Nothing is assumed of the
/// result.
#[verifier::external_body]
fn json_as_string(v: &serde_json::Value) -> Option<String> {
    v.as_str().map(str::to_owned)
}

/// Relies on serde_json::from_slice: parses bytes as one JSON document,
/// `None` when they are not valid JSON. Nothing is assumed of the result.
#[verifier::external_body]
fn json_from_slice(bytes: &[u8]) -> Option<serde_json::Value> {
    serde_json::from_slice(bytes).ok()
}

/// Why an input was rejected at the boundary: the bytes were no JSON, or
/// the named field was missing or ill-typed (an integer out of the 32-bit
/// range counts as ill-typed).
#[derive(Clone, Copy, PartialEq, Eq, Structural, Debug)]
pub enum ParseError {
    BadJson,
    BadScore,
    BadBlocksDestroyed,
    BadGameWon,
    BadGameCompleted,
    BadTimestamp,
}

impl ParseError {
    /// The wording embedded in the rejection message for each cause.
    pub open spec fn message_spec(self) -> Seq<char> {
        match self {
            ParseError::BadJson => "input is not valid JSON"@,
            ParseError::BadScore => "missing or invalid field: score"@,
            ParseError::BadBlocksDestroyed => "missing or invalid field: blocksDestroyed"@,
            ParseError::BadGameWon => "missing or invalid field: gameWon"@,
            ParseError::BadGameCompleted => "missing or invalid field: gameCompleted"@,
            ParseError::BadTimestamp => "missing or invalid field: timestamp"@,
        }
    }

    /// The human-readable description of the rejection.
    pub fn message(&self) -> (r: &'static str)
        ensures
            r@ == self.message_spec(),
    {
        match self {
            ParseError::BadJson => "input is not valid JSON",
            ParseError::BadScore => "missing or invalid field: score",
            ParseError::BadBlocksDestroyed => "missing or invalid field: blocksDestroyed",
            ParseError::BadGameWon => "missing or invalid field: gameWon",
            ParseError::BadGameCompleted => "missing or invalid field: gameCompleted",
            ParseError::BadTimestamp => "missing or invalid field: timestamp",
        }
    }
}

/// An extracted integer field is usable when it was present, an integer,
/// and lies within the 32-bit signed range of the data model.
pub open spec fn int_field_ok(v: Option<i64>) -> bool {
    v matches Some(n) && i32::MIN <= n <= i32::MAX
}

/// The cause reported when some field is unusable: the first unusable
/// field in the fixed order score, blocksDestroyed, gameWon,
/// gameCompleted, timestamp.
pub open spec fn first_field_error(
    score: Option<i64>,
    blocks_destroyed: Option<i64>,
    game_won: Option<bool>,
    game_completed: Option<bool>,
    has_timestamp: bool,
) -> ParseError {
    if !int_field_ok(score) {
        ParseError::BadScore
    } else if !int_field_ok(blocks_destroyed) {
        ParseError::BadBlocksDestroyed
    } else if game_won is None {
        ParseError::BadGameWon
    } else if game_completed is None {
        ParseError::BadGameCompleted
    } else {
        ParseError::BadTimestamp
    }
}

/// The shape decision of the boundary: builds the typed game data exactly
/// when every field was extracted and the integers fit the data model;
/// otherwise reports the first unusable field. Nothing is ever defaulted.
pub fn game_data_from_parts(
    score: Option<i64>,
    blocks_destroyed: Option<i64>,
    game_won: Option<bool>,
    game_completed: Option<bool>,
    timestamp: Option<String>,
) -> (r: Result<GameData, ParseError>)
    ensures
        r is Ok <==> int_field_ok(score) && int_field_ok(blocks_destroyed) && game_won is Some
            && game_completed is Some && timestamp is Some,
        r matches Ok(d) ==> d.score == score->0 && d.blocks_destroyed == blocks_destroyed->0
            && d.game_won == game_won->0 && d.game_completed == game_completed->0
            && d.timestamp@ == timestamp->0@,
        r matches Err(e) ==> e == first_field_error(
            score,
            blocks_destroyed,
            game_won,
            game_completed,
            timestamp is Some,
        ),
{
    let score_val: i32 = match score {
        Some(n) if i32::MIN as i64 <= n && n <= i32::MAX as i64 => n as i32,
        _ => {
            return Err(ParseError::BadScore);
        },
    };
    let blocks_val: i32 = match blocks_destroyed {
        Some(n) if i32::MIN as i64 <= n && n <= i32::MAX as i64 => n as i32,
        _ => {
            return Err(ParseError::BadBlocksDestroyed);
        },
    };
    let won_val: bool = match game_won {
        Some(b) => b,
        None => {
            return Err(ParseError::BadGameWon);
        },
    };
    let completed_val: bool = match game_completed {
        Some(b) => b,
        None => {
            return Err(ParseError::BadGameCompleted);
        },
    };
    let timestamp_val: String = match timestamp {
        Some(t) => t,
        None => {
            return Err(ParseError::BadTimestamp);
        },
    };
    Ok(
        GameData {
            score: score_val,
            blocks_destroyed: blocks_val,
            game_won: won_val,
            game_completed: completed_val,
            timestamp: timestamp_val,
        },
    )
}

/// Converts an external dynamic value into the typed game data. The field
/// extraction goes through the JSON accessors above; the decision over
/// whatever they hand back is [`game_data_from_parts`]. A rejection names
/// a field, never the document as a whole.
pub fn parse_game_data(v: &serde_json::Value) -> (r: Result<GameData, ParseError>)
    ensures
        r matches Err(e) ==> e != ParseError::BadJson,
{
    let score = match json_get(v, "score") {
        Some(x) => json_as_i64(x),
        None => None,
    };
    let blocks_destroyed = match json_get(v, "blocksDestroyed") {
        Some(x) => json_as_i64(x),
        None => None,
    };
    let game_won = match json_get(v, "gameWon") {
        Some(x) => json_as_bool(x),
        None => None,
    };
    let game_completed = match json_get(v, "gameCompleted") {
        Some(x) => json_as_bool(x),
        None => None,
    };
    let timestamp = match json_get(v, "timestamp") {
        Some(x) => json_as_string(x),
        None => None,
    };
    game_data_from_parts(score, blocks_destroyed, game_won, game_completed, timestamp)
}

/// Parses game data straight from JSON bytes, as the proving circuit reads
/// its input. Bytes that are no JSON are rejected as such; a well-formed
/// document is then held to the field shape.
pub fn game_data_from_json_bytes(bytes: &[u8]) -> (r: Result<GameData, ParseError>) {
    match json_from_slice(bytes) {
        Some(v) => parse_game_data(&v),
        None => Err(ParseError::BadJson),
    }
}

} // verus!
