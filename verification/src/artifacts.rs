use vstd::prelude::*;
use vstd::string::StringExecFns;
use crate::game::{GameData, GameDataView};
use crate::hashing::{sha256, sha256_of};
use crate::text::{
    bytes_to_hex, dec_str_int, hex_bytes, hex_str, i32_to_dec, lemma_dec_str_int_injective,
    lemma_strip_prefix, lemma_strip_suffix, u32_to_hex,
};

verus! {

/// The canonical textual form of a boolean: `"true"` or `"false"`.
pub open spec fn bool_str(b: bool) -> Seq<char> {
    if b {
        "true"@
    } else {
        "false"@
    }
}

/// The canonical concatenation bound by the commitment: score, blocks
/// destroyed, win flag and timestamp, in that fixed order, with integers
/// in decimal and the boolean as `"true"`/`"false"`. This exact format is
/// load-bearing: a reimplementation must match it bit for bit or
/// cross-verification breaks.
pub open spec fn commit_msg(d: GameDataView) -> Seq<char> {
    dec_str_int(d.score) + dec_str_int(d.blocks_destroyed) + bool_str(d.game_won) + d.timestamp
}

/// The canonical concatenation the seed is derived from: score, blocks
/// destroyed and timestamp only — the win and completion flags are left
/// out on purpose.
pub open spec fn seed_msg(d: GameDataView) -> Seq<char> {
    dec_str_int(d.score) + dec_str_int(d.blocks_destroyed) + d.timestamp
}

/// The commitment string: `"0x"` followed by the lower-case hexadecimal
/// SHA-256 digest of [`commit_msg`], 64 hex characters after the prefix.
pub open spec fn commitment_of(d: GameDataView) -> Seq<char> {
    seq!['0', 'x'] + hex_bytes(sha256_of(commit_msg(d)))
}

/// The 32-byte deterministic seed: the SHA-256 digest of [`seed_msg`],
/// taken verbatim.
pub open spec fn seed_of(d: GameDataView) -> Seq<u8> {
    sha256_of(seed_msg(d))
}

/// The first four bytes of a byte string read big-endian as an unsigned
/// 32-bit number.
pub open spec fn be32(s: Seq<u8>) -> nat {
    ((s[0] as nat) * 0x1000000 + (s[1] as nat) * 0x10000 + (s[2] as nat) * 0x100 + (
    s[3] as nat)) as nat
}

/// The proof identifier carried by a verification result: `"proof_"`
/// followed by the big-endian value of the first four seed bytes in
/// lower-case hexadecimal, without leading zeros.
pub open spec fn proof_id_of(d: GameDataView) -> Seq<char> {
    "proof_"@ + hex_str(be32(seed_of(d)))
}

/// The canonical textual form of a boolean.
pub fn bool_to_str(b: bool) -> (r: &'static str)
    ensures
        r@ == bool_str(b),
{
    if b {
        "true"
    } else {
        "false"
    }
}

/// Builds the canonical concatenation bound by the commitment.
pub fn canonical_commit_concat(d: &GameData) -> (r: String)
    ensures
        r@ == commit_msg(d@),
{
    let mut s = i32_to_dec(d.score);
    let blocks = i32_to_dec(d.blocks_destroyed);
    s.append(blocks.as_str());
    s.append(bool_to_str(d.game_won));
    s.append(d.timestamp.as_str());
    s
}

/// Builds the canonical concatenation the seed is derived from.
pub fn canonical_seed_concat(d: &GameData) -> (r: String)
    ensures
        r@ == seed_msg(d@),
{
    let mut s = i32_to_dec(d.score);
    let blocks = i32_to_dec(d.blocks_destroyed);
    s.append(blocks.as_str());
    s.append(d.timestamp.as_str());
    s
}

/// The commitment: `"0x"` plus the lower-case hex SHA-256 digest of the
/// canonical concatenation. Pure and total; 66 characters in all.
pub fn compute_commitment(d: &GameData) -> (r: String)
    ensures
        r@ == commitment_of(d@),
        r@.len() == 66,
{
    let msg = canonical_commit_concat(d);
    let digest = sha256(msg.as_str());
    let mut s = String::new();
    s.push('0');
    s.push('x');
    let hex = bytes_to_hex(&digest);
    s.append(hex.as_str());
    proof {
        lemma_hex_bytes_len(digest@);
        assert(s@ =~= commitment_of(d@));
    }
    s
}

/// The deterministic 32-byte seed for one verification invocation.
pub fn derive_seed(d: &GameData) -> (r: Vec<u8>)
    ensures
        r@ == seed_of(d@),
        r@.len() == 32,
{
    let msg = canonical_seed_concat(d);
    sha256(msg.as_str())
}

/// The proof identifier read off a seed: `"proof_"` plus the big-endian
/// value of the first four bytes in lower-case hexadecimal.
pub fn proof_id_from_seed(seed: &Vec<u8>) -> (r: String)
    requires
        seed@.len() >= 4,
    ensures
        r@ == "proof_"@ + hex_str(be32(seed@)),
{
    let b0: u32 = seed[0] as u32;
    let b1: u32 = seed[1] as u32;
    let b2: u32 = seed[2] as u32;
    let b3: u32 = seed[3] as u32;
    let v: u32 = b0 * 0x1000000 + b1 * 0x10000 + b2 * 0x100 + b3;
    let mut s = String::from_str("proof_");
    let hex = u32_to_hex(v);
    s.append(hex.as_str());
    s
}

/// The proof identifier of a reported outcome.
pub fn derive_proof_id(d: &GameData) -> (r: String)
    ensures
        r@ == proof_id_of(d@),
{
    let seed = derive_seed(d);
    proof_id_from_seed(&seed)
}

/// Hexadecimal rendering of a byte string doubles its length.
pub proof fn lemma_hex_bytes_len(s: Seq<u8>)
    ensures
        hex_bytes(s).len() == 2 * s.len(),
    decreases s.len(),
{
    if s.len() > 0 {
        lemma_hex_bytes_len(s.drop_last());
    }
}

/// Determinism: the commitment, the seed and the proof identifier are
/// functions of the game data alone — equal inputs give byte-identical
/// artifacts, in every invocation and on every machine.
pub proof fn lemma_artifacts_deterministic(d1: GameDataView, d2: GameDataView)
    requires
        d1 == d2,
    ensures
        commitment_of(d1) == commitment_of(d2),
        seed_of(d1) == seed_of(d2),
        proof_id_of(d1) == proof_id_of(d2),
{
}

/// The seed, and with it the proof identifier, reads only the score, the
/// blocks destroyed and the timestamp: the win and completion flags do not
/// enter it.
pub proof fn lemma_seed_ignores_flags(d1: GameDataView, d2: GameDataView)
    requires
        d1.score == d2.score,
        d1.blocks_destroyed == d2.blocks_destroyed,
        d1.timestamp == d2.timestamp,
    ensures
        seed_of(d1) == seed_of(d2),
        proof_id_of(d1) == proof_id_of(d2),
{
    assert(seed_msg(d1) == seed_msg(d2));
}

/// The commitment reads the score, the blocks destroyed, the win flag and
/// the timestamp: the completion flag does not enter it.
pub proof fn lemma_commitment_ignores_completion(d1: GameDataView, d2: GameDataView)
    requires
        d1.score == d2.score,
        d1.blocks_destroyed == d2.blocks_destroyed,
        d1.game_won == d2.game_won,
        d1.timestamp == d2.timestamp,
    ensures
        commitment_of(d1) == commitment_of(d2),
{
    assert(commit_msg(d1) == commit_msg(d2));
}

/// Sensitivity, score: with the other committed fields fixed, two
/// different scores never produce the same committed message — the
/// commitment can then only collide where SHA-256 itself collides.
pub proof fn lemma_commit_msg_pins_score(d1: GameDataView, d2: GameDataView)
    requires
        commit_msg(d1) == commit_msg(d2),
        d1.blocks_destroyed == d2.blocks_destroyed,
        d1.game_won == d2.game_won,
        d1.timestamp == d2.timestamp,
    ensures
        d1.score == d2.score,
{
    let rest = dec_str_int(d1.blocks_destroyed) + (bool_str(d1.game_won) + d1.timestamp);
    assert(commit_msg(d1) =~= dec_str_int(d1.score) + rest);
    assert(commit_msg(d2) =~= dec_str_int(d2.score) + rest);
    lemma_strip_suffix(dec_str_int(d1.score), dec_str_int(d2.score), rest);
    lemma_dec_str_int_injective(d1.score, d2.score);
}

/// Sensitivity, blocks destroyed: with the other committed fields fixed,
/// two different block counts never produce the same committed message.
pub proof fn lemma_commit_msg_pins_blocks(d1: GameDataView, d2: GameDataView)
    requires
        commit_msg(d1) == commit_msg(d2),
        d1.score == d2.score,
        d1.game_won == d2.game_won,
        d1.timestamp == d2.timestamp,
    ensures
        d1.blocks_destroyed == d2.blocks_destroyed,
{
    let head = dec_str_int(d1.score);
    let rest = bool_str(d1.game_won) + d1.timestamp;
    assert(commit_msg(d1) =~= head + (dec_str_int(d1.blocks_destroyed) + rest));
    assert(commit_msg(d2) =~= head + (dec_str_int(d2.blocks_destroyed) + rest));
    lemma_strip_prefix(
        head,
        dec_str_int(d1.blocks_destroyed) + rest,
        dec_str_int(d2.blocks_destroyed) + rest,
    );
    lemma_strip_suffix(
        dec_str_int(d1.blocks_destroyed),
        dec_str_int(d2.blocks_destroyed),
        rest,
    );
    lemma_dec_str_int_injective(d1.blocks_destroyed, d2.blocks_destroyed);
}

/// Sensitivity, win flag and timestamp: with score and blocks destroyed
/// fixed, the committed message pins both remaining committed fields — the
/// two boolean renderings differ in their first character, and the
/// timestamp is whatever follows.
pub proof fn lemma_commit_msg_pins_win_and_timestamp(d1: GameDataView, d2: GameDataView)
    requires
        commit_msg(d1) == commit_msg(d2),
        d1.score == d2.score,
        d1.blocks_destroyed == d2.blocks_destroyed,
    ensures
        d1.game_won == d2.game_won,
        d1.timestamp == d2.timestamp,
{
    let head = dec_str_int(d1.score) + dec_str_int(d1.blocks_destroyed);
    assert(commit_msg(d1) =~= head + (bool_str(d1.game_won) + d1.timestamp));
    assert(commit_msg(d2) =~= head + (bool_str(d2.game_won) + d2.timestamp));
    lemma_strip_prefix(
        head,
        bool_str(d1.game_won) + d1.timestamp,
        bool_str(d2.game_won) + d2.timestamp,
    );
    reveal_strlit("true");
    reveal_strlit("false");
    if d1.game_won != d2.game_won {
        assert((bool_str(d1.game_won) + d1.timestamp)[0] == bool_str(d1.game_won)[0]);
        assert((bool_str(d2.game_won) + d2.timestamp)[0] == bool_str(d2.game_won)[0]);
        assert(false);
    }
    lemma_strip_prefix(bool_str(d1.game_won), d1.timestamp, d2.timestamp);
}

} // verus!
