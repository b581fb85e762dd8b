use vstd::prelude::*;
use vstd::string::{StrSliceExecFns, StringExecFns};
use crate::artifacts::{be32, bool_str, commit_msg, commitment_of, proof_id_of, seed_msg};
use crate::game::GameDataView;
use crate::hashing::sha256_of;
use crate::outcome::{details_of, time_str, VerificationResult, VerificationResultView};
use crate::text::{dec_str, dec_str_int, digit_char, hex_bytes, hex_str, lemma_strip_prefix};

verus! {

/// The JSON rendering of one character inside a quoted string: quote and
/// backslash are escaped, control characters take the `\u00XX` form, every
/// other character stands as itself.
pub open spec fn esc_char(c: char) -> Seq<char> {
    if c == '"' {
        seq!['\\', '"']
    } else if c == '\\' {
        seq!['\\', '\\']
    } else if (c as nat) < 0x20 {
        seq!['\\', 'u', '0', '0', digit_char((c as nat) / 16), digit_char((c as nat) % 16)]
    } else {
        seq![c]
    }
}

/// The escaped body of a JSON string.
pub open spec fn esc_str(s: Seq<char>) -> Seq<char>
    decreases s.len(),
{
    if s.len() == 0 {
        Seq::empty()
    } else {
        esc_str(s.drop_last()) + esc_char(s.last())
    }
}

/// A quoted JSON string.
pub open spec fn json_string(s: Seq<char>) -> Seq<char> {
    seq!['"'] + esc_str(s) + seq!['"']
}

/// The JSON document for a verification result: one object holding every
/// field, in the fixed order verified, proofId, commitment,
/// verificationTime, proofDetails.
pub open spec fn json_of(r: VerificationResultView) -> Seq<char> {
    "{\"verified\":"@ + (bool_str(r.verified) + (",\"proofId\":"@ + (json_string(r.proof_id) + (
    ",\"commitment\":"@ + (json_string(r.commitment) + (",\"verificationTime\":"@ + (
    json_string(r.verification_time) + (",\"proofDetails\":"@ + (json_string(r.proof_details)
        + "}"@)))))))))
}

/// A character that escaping leaves as it stands: not a quote, not a
/// backslash, not a control character.
pub open spec fn plain_char(c: char) -> bool {
    c != '"' && c != '\\' && (c as nat) >= 0x20
}

/// A string whose characters escaping leaves as they stand.
pub open spec fn plain(s: Seq<char>) -> bool {
    forall|i: int| 0 <= i < s.len() ==> plain_char(#[trigger] s[i])
}

/// Escaping a plain string leaves it unchanged.
pub proof fn lemma_esc_plain(s: Seq<char>)
    requires
        plain(s),
    ensures
        esc_str(s) == s,
    decreases s.len(),
{
    if s.len() == 0 {
        assert(esc_str(s) =~= s);
    } else {
        assert forall|i: int| 0 <= i < s.drop_last().len() implies plain_char(
            #[trigger] s.drop_last()[i],
        ) by {
            assert(s.drop_last()[i] == s[i]);
        }
        lemma_esc_plain(s.drop_last());
        assert(plain_char(s.last()));
        assert(esc_char(s.last()) =~= seq![s.last()]);
        assert(esc_str(s) =~= s.drop_last() + seq![s.last()]);
        assert(s.drop_last() + seq![s.last()] =~= s);
    }
}

/// The rendered boolean and whatever follows it are both recoverable: the
/// two renderings differ in their first character.
proof fn lemma_bool_segment(b1: bool, t1: Seq<char>, b2: bool, t2: Seq<char>)
    requires
        bool_str(b1) + t1 == bool_str(b2) + t2,
    ensures
        b1 == b2,
        t1 == t2,
{
    reveal_strlit("true");
    reveal_strlit("false");
    if b1 != b2 {
        assert((bool_str(b1) + t1)[0] == bool_str(b1)[0]);
        assert((bool_str(b2) + t2)[0] == bool_str(b2)[0]);
        assert(false);
    }
    lemma_strip_prefix(bool_str(b1), t1, t2);
}

/// A quoted plain string and whatever follows it are both recoverable: the
/// closing quote is the first quote after the opening one, because a plain
/// body holds none.
proof fn lemma_quoted_segment(a1: Seq<char>, t1: Seq<char>, a2: Seq<char>, t2: Seq<char>)
    requires
        plain(a1),
        plain(a2),
        seq!['"'] + (a1 + (seq!['"'] + t1)) == seq!['"'] + (a2 + (seq!['"'] + t2)),
    ensures
        a1 == a2,
        t1 == t2,
{
    let q = seq!['"'];
    let u1 = a1 + (q + t1);
    let u2 = a2 + (q + t2);
    let s1 = q + u1;
    let s2 = q + u2;
    assert(s1.len() == 1 + u1.len());
    assert(u1.len() == a1.len() + (q + t1).len());
    assert((q + t1).len() == 1 + t1.len());
    assert(s2.len() == 1 + u2.len());
    assert(u2.len() == a2.len() + (q + t2).len());
    assert((q + t2).len() == 1 + t2.len());
    if a1.len() < a2.len() {
        assert(s1[1 + a1.len() as int] == u1[a1.len() as int]);
        assert(u1[a1.len() as int] == (q + t1)[0]);
        assert(s2[1 + a1.len() as int] == u2[a1.len() as int]);
        assert(u2[a1.len() as int] == a2[a1.len() as int]);
        assert(plain_char(a2[a1.len() as int]));
        assert(false);
    }
    if a2.len() < a1.len() {
        assert(s2[1 + a2.len() as int] == u2[a2.len() as int]);
        assert(u2[a2.len() as int] == (q + t2)[0]);
        assert(s1[1 + a2.len() as int] == u1[a2.len() as int]);
        assert(u1[a2.len() as int] == a1[a2.len() as int]);
        assert(plain_char(a1[a2.len() as int]));
        assert(false);
    }
    assert forall|i: int| 0 <= i < a1.len() implies a1[i] == a2[i] by {
        assert(s1[1 + i] == u1[i]);
        assert(u1[i] == a1[i]);
        assert(s2[1 + i] == u2[i]);
        assert(u2[i] == a2[i]);
    }
    assert(a1 =~= a2);
    assert(t1.len() == t2.len());
    assert forall|j: int| 0 <= j < t1.len() implies t1[j] == t2[j] by {
        assert(s1[2 + a1.len() as int + j] == u1[1 + a1.len() as int + j]);
        assert(u1[1 + a1.len() as int + j] == (q + t1)[1 + j]);
        assert((q + t1)[1 + j] == t1[j]);
        assert(s2[2 + a2.len() as int + j] == u2[1 + a2.len() as int + j]);
        assert(u2[1 + a2.len() as int + j] == (q + t2)[1 + j]);
        assert((q + t2)[1 + j] == t2[j]);
    }
    assert(t1 =~= t2);
}

/// A quoted unescaped string followed by a tail, regrouped for the
/// segment lemma above.
proof fn lemma_quoted_form(a: Seq<char>, t: Seq<char>)
    requires
        esc_str(a) == a,
    ensures
        json_string(a) + t == seq!['"'] + (a + (seq!['"'] + t)),
{
    assert(json_string(a) + t =~= seq!['"'] + (a + (seq!['"'] + t)));
}

/// Serialization is lossless: two results with plain string fields (no
/// quote, backslash or control character -- every field the pipeline
/// itself produces is such) that render to the same JSON document are
/// equal in every field.
pub proof fn lemma_to_json_lossless(r1: VerificationResultView, r2: VerificationResultView)
    requires
        plain(r1.proof_id),
        plain(r1.commitment),
        plain(r1.verification_time),
        plain(r1.proof_details),
        plain(r2.proof_id),
        plain(r2.commitment),
        plain(r2.verification_time),
        plain(r2.proof_details),
        json_of(r1) == json_of(r2),
    ensures
        r1 == r2,
{
    lemma_esc_plain(r1.proof_id);
    lemma_esc_plain(r1.commitment);
    lemma_esc_plain(r1.verification_time);
    lemma_esc_plain(r1.proof_details);
    lemma_esc_plain(r2.proof_id);
    lemma_esc_plain(r2.commitment);
    lemma_esc_plain(r2.verification_time);
    lemma_esc_plain(r2.proof_details);

    let g1 = json_string(r1.proof_details) + "}"@;
    let g2 = json_string(r2.proof_details) + "}"@;
    let f1 = ",\"proofDetails\":"@ + g1;
    let f2 = ",\"proofDetails\":"@ + g2;
    let e1 = json_string(r1.verification_time) + f1;
    let e2 = json_string(r2.verification_time) + f2;
    let d1 = ",\"verificationTime\":"@ + e1;
    let d2 = ",\"verificationTime\":"@ + e2;
    let c1 = json_string(r1.commitment) + d1;
    let c2 = json_string(r2.commitment) + d2;
    let b1 = ",\"commitment\":"@ + c1;
    let b2 = ",\"commitment\":"@ + c2;
    let a1 = json_string(r1.proof_id) + b1;
    let a2 = json_string(r2.proof_id) + b2;
    let x1 = bool_str(r1.verified) + (",\"proofId\":"@ + a1);
    let x2 = bool_str(r2.verified) + (",\"proofId\":"@ + a2);
    assert(json_of(r1) == "{\"verified\":"@ + x1);
    assert(json_of(r2) == "{\"verified\":"@ + x2);

    lemma_strip_prefix("{\"verified\":"@, x1, x2);
    lemma_bool_segment(r1.verified, ",\"proofId\":"@ + a1, r2.verified, ",\"proofId\":"@ + a2);
    lemma_strip_prefix(",\"proofId\":"@, a1, a2);

    lemma_quoted_form(r1.proof_id, b1);
    lemma_quoted_form(r2.proof_id, b2);
    lemma_quoted_segment(r1.proof_id, b1, r2.proof_id, b2);
    lemma_strip_prefix(",\"commitment\":"@, c1, c2);

    lemma_quoted_form(r1.commitment, d1);
    lemma_quoted_form(r2.commitment, d2);
    lemma_quoted_segment(r1.commitment, d1, r2.commitment, d2);
    lemma_strip_prefix(",\"verificationTime\":"@, e1, e2);

    lemma_quoted_form(r1.verification_time, f1);
    lemma_quoted_form(r2.verification_time, f2);
    lemma_quoted_segment(r1.verification_time, f1, r2.verification_time, f2);
    lemma_strip_prefix(",\"proofDetails\":"@, g1, g2);

    lemma_quoted_form(r1.proof_details, "}"@);
    lemma_quoted_form(r2.proof_details, "}"@);
    lemma_quoted_segment(r1.proof_details, "}"@, r2.proof_details, "}"@);
}

/// A rendered digit is plain.
proof fn lemma_digit_char_plain(k: nat)
    requires
        k < 16,
    ensures
        plain_char(digit_char(k)),
{
}

/// Two plain strings concatenate to a plain string.
proof fn lemma_plain_concat(a: Seq<char>, b: Seq<char>)
    requires
        plain(a),
        plain(b),
    ensures
        plain(a + b),
{
    assert forall|i: int| 0 <= i < (a + b).len() implies plain_char(#[trigger] (a + b)[i]) by {
        if i < a.len() {
            assert((a + b)[i] == a[i]);
        } else {
            assert((a + b)[i] == b[i - a.len()]);
        }
    }
}

/// A decimal rendering is plain.
proof fn lemma_dec_str_plain(n: nat)
    ensures
        plain(dec_str(n)),
    decreases n,
{
    if n < 10 {
        lemma_digit_char_plain(n);
    } else {
        lemma_dec_str_plain(n / 10);
        lemma_digit_char_plain(n % 10);
        lemma_plain_concat(dec_str(n / 10), seq![digit_char(n % 10)]);
    }
}

/// A signed decimal rendering is plain.
proof fn lemma_dec_str_int_plain(n: int)
    ensures
        plain(dec_str_int(n)),
{
    if n < 0 {
        lemma_dec_str_plain((-n) as nat);
        lemma_plain_concat(seq!['-'], dec_str((-n) as nat));
    } else {
        lemma_dec_str_plain(n as nat);
    }
}

/// A hexadecimal rendering is plain.
proof fn lemma_hex_str_plain(n: nat)
    ensures
        plain(hex_str(n)),
    decreases n,
{
    if n < 16 {
        lemma_digit_char_plain(n);
    } else {
        lemma_hex_str_plain(n / 16);
        lemma_digit_char_plain(n % 16);
        lemma_plain_concat(hex_str(n / 16), seq![digit_char(n % 16)]);
    }
}

/// A hexadecimal byte-string rendering is plain.
proof fn lemma_hex_bytes_plain(s: Seq<u8>)
    ensures
        plain(hex_bytes(s)),
    decreases s.len(),
{
    if s.len() > 0 {
        lemma_hex_bytes_plain(s.drop_last());
        lemma_digit_char_plain(s.last() as nat / 16);
        lemma_digit_char_plain(s.last() as nat % 16);
        lemma_plain_concat(
            hex_bytes(s.drop_last()),
            seq![digit_char(s.last() as nat / 16), digit_char(s.last() as nat % 16)],
        );
    }
}

/// Every string field the pipeline itself puts into a result is plain,
/// whatever the game data: the lossless lemma above therefore applies to
/// any two results the pipeline produces.
pub proof fn lemma_result_fields_plain(d: GameDataView, ms: nat)
    ensures
        plain(proof_id_of(d)),
        plain(commitment_of(d)),
        plain(time_str(ms)),
        plain(details_of(d)),
{
    reveal_strlit("proof_");
    reveal_strlit("ms");
    reveal_strlit("ZK-verified blocks: ");
    reveal_strlit(", score: ");
    assert(plain("proof_"@));
    lemma_hex_str_plain(be32(sha256_of(seed_msg(d))));
    lemma_plain_concat("proof_"@, hex_str(be32(sha256_of(seed_msg(d)))));
    assert(plain(seq!['0', 'x']));
    lemma_hex_bytes_plain(sha256_of(commit_msg(d)));
    lemma_plain_concat(seq!['0', 'x'], hex_bytes(sha256_of(commit_msg(d))));
    lemma_dec_str_plain(ms);
    assert(plain("ms"@));
    lemma_plain_concat(dec_str(ms), "ms"@);
    assert(plain("ZK-verified blocks: "@));
    assert(plain(", score: "@));
    lemma_dec_str_int_plain(d.blocks_destroyed);
    lemma_dec_str_int_plain(d.score);
    lemma_plain_concat("ZK-verified blocks: "@, dec_str_int(d.blocks_destroyed));
    lemma_plain_concat(
        "ZK-verified blocks: "@ + dec_str_int(d.blocks_destroyed),
        ", score: "@,
    );
    lemma_plain_concat(
        "ZK-verified blocks: "@ + dec_str_int(d.blocks_destroyed) + ", score: "@,
        dec_str_int(d.score),
    );
}

/// Appends the escaped body of one string.
fn append_escaped(out: &mut String, s: &str)
    ensures
        final(out)@ == old(out)@ + esc_str(s@),
{
    let n = s.unicode_len();
    let mut i: usize = 0;
    while i < n
        invariant
            n == s@.len(),
            i <= n,
            out@ == old(out)@ + esc_str(s@.take(i as int)),
        decreases n - i,
    {
        let c = s.get_char(i);
        if c == '"' {
            out.push('\\');
            out.push('"');
        } else if c == '\\' {
            out.push('\\');
            out.push('\\');
        } else if (c as u32) < 0x20 {
            let v = c as u32;
            out.push('\\');
            out.push('u');
            out.push('0');
            out.push('0');
            out.push(crate::text::digit_to_char((v / 16) as u8));
            out.push(crate::text::digit_to_char((v % 16) as u8));
        } else {
            out.push(c);
        }
        proof {
            assert(s@.take(i + 1 as int).drop_last() =~= s@.take(i as int));
            assert(out@ =~= old(out)@ + (esc_str(s@.take(i as int)) + esc_char(s@[i as int])));
        }
        i = i + 1;
    }
    proof {
        assert(s@.take(n as int) =~= s@);
    }
}

/// Appends one quoted JSON string.
fn append_json_string(out: &mut String, s: &str)
    ensures
        final(out)@ == old(out)@ + json_string(s@),
{
    out.push('"');
    append_escaped(out, s);
    out.push('"');
    proof {
        assert(out@ =~= old(out)@ + json_string(s@));
    }
}

impl VerificationResult {
    /// The JSON document for this result. Total over every result (every
    /// character of every field is representable through escaping) and
    /// carries every field.
    pub fn to_json(&self) -> (r: String)
        ensures
            r@ == json_of(self@),
    {
        let mut out = String::from_str("{\"verified\":");
        out.append(crate::artifacts::bool_to_str(self.verified));
        out.append(",\"proofId\":");
        append_json_string(&mut out, self.proof_id.as_str());
        out.append(",\"commitment\":");
        append_json_string(&mut out, self.commitment.as_str());
        out.append(",\"verificationTime\":");
        append_json_string(&mut out, self.verification_time.as_str());
        out.append(",\"proofDetails\":");
        append_json_string(&mut out, self.proof_details.as_str());
        out.append("}");
        proof {
            assert(out@ =~= json_of(self@));
        }
        out
    }
}

} // verus!
