use vstd::prelude::*;
use vstd::string::StringExecFns;
use crate::artifacts::{commitment_of, compute_commitment, proof_id_from_seed, proof_id_of};
use crate::game::{GameData, GameDataView};
use crate::text::{dec_str, dec_str_int, i32_to_dec, is_dec_digit, lemma_dec_str_digits, u64_to_dec};

verus! {

/// The attestation handed back to the caller: the engine's verdict, the
/// deterministic proof identifier and commitment, the elapsed wall-clock
/// time, and a one-line human-readable summary.
#[derive(Clone, Debug)]
pub struct VerificationResult {
    pub verified: bool,
    pub proof_id: String,
    pub commitment: String,
    pub verification_time: String,
    pub proof_details: String,
}

/// Mathematical image of `VerificationResult`: each string as its
/// character sequence.
pub struct VerificationResultView {
    pub verified: bool,
    pub proof_id: Seq<char>,
    pub commitment: Seq<char>,
    pub verification_time: Seq<char>,
    pub proof_details: Seq<char>,
}

impl View for VerificationResult {
    type V = VerificationResultView;

    open spec fn view(&self) -> VerificationResultView {
        VerificationResultView {
            verified: self.verified,
            proof_id: self.proof_id@,
            commitment: self.commitment@,
            verification_time: self.verification_time@,
            proof_details: self.proof_details@,
        }
    }
}

/// The formatted duration: the elapsed milliseconds in decimal with the
/// trailing unit suffix `"ms"`.
pub open spec fn time_str(ms: nat) -> Seq<char> {
    dec_str(ms) + "ms"@
}

/// The human-readable summary line of a result.
pub open spec fn details_of(d: GameDataView) -> Seq<char> {
    "ZK-verified blocks: "@ + dec_str_int(d.blocks_destroyed) + ", score: "@ + dec_str_int(
        d.score,
    )
}

/// Formats an elapsed duration in milliseconds.
pub fn format_verification_time(ms: u64) -> (r: String)
    ensures
        r@ == time_str(ms as nat),
{
    let mut s = u64_to_dec(ms);
    s.append("ms");
    s
}

/// Builds the summary line of a result.
pub fn format_proof_details(d: &GameData) -> (r: String)
    ensures
        r@ == details_of(d@),
{
    let mut s = String::from_str("ZK-verified blocks: ");
    let blocks = i32_to_dec(d.blocks_destroyed);
    s.append(blocks.as_str());
    s.append(", score: ");
    let score = i32_to_dec(d.score);
    s.append(score.as_str());
    s
}

/// Assembles the verification result for one invocation: the engine's
/// verdict is taken as handed in, every other field is a pure function of
/// the game data and the elapsed time.
pub fn build_result(d: &GameData, verified: bool, elapsed_ms: u64) -> (r: VerificationResult)
    ensures
        r.verified == verified,
        r.proof_id@ == proof_id_of(d@),
        r.commitment@ == commitment_of(d@),
        r.verification_time@ == time_str(elapsed_ms as nat),
        r.proof_details@ == details_of(d@),
{
    let seed = crate::artifacts::derive_seed(d);
    let proof_id = proof_id_from_seed(&seed);
    let commitment = compute_commitment(d);
    let verification_time = format_verification_time(elapsed_ms);
    let proof_details = format_proof_details(d);
    VerificationResult { verified, proof_id, commitment, verification_time, proof_details }
}

/// A formatted verification time is a non-negative duration with the
/// trailing unit suffix: digits alone (no sign), then exactly `"ms"`.
pub proof fn lemma_time_format(ms: nat)
    ensures
        time_str(ms).len() >= 3,
        time_str(ms).subrange(time_str(ms).len() - 2, time_str(ms).len() as int) == "ms"@,
        forall|i: int| 0 <= i < time_str(ms).len() - 2 ==> is_dec_digit(#[trigger] time_str(ms)[i]),
{
    reveal_strlit("ms");
    lemma_dec_str_digits(ms);
    assert(time_str(ms).subrange(time_str(ms).len() - 2, time_str(ms).len() as int) =~= "ms"@);
}

} // verus!
