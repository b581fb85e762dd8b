use vstd::prelude::*;
use vstd::string::StringExecFns;

verus! {

/// The character for one digit value below sixteen, lower case.
pub open spec fn digit_char(n: nat) -> char {
    if n == 0 {
        '0'
    } else if n == 1 {
        '1'
    } else if n == 2 {
        '2'
    } else if n == 3 {
        '3'
    } else if n == 4 {
        '4'
    } else if n == 5 {
        '5'
    } else if n == 6 {
        '6'
    } else if n == 7 {
        '7'
    } else if n == 8 {
        '8'
    } else if n == 9 {
        '9'
    } else if n == 10 {
        'a'
    } else if n == 11 {
        'b'
    } else if n == 12 {
        'c'
    } else if n == 13 {
        'd'
    } else if n == 14 {
        'e'
    } else {
        'f'
    }
}

/// Decimal rendering of a natural number, most significant digit first,
/// without leading zeros (and `"0"` for zero).
pub open spec fn dec_str(n: nat) -> Seq<char>
    decreases n,
{
    if n < 10 {
        seq![digit_char(n)]
    } else {
        dec_str(n / 10) + seq![digit_char(n % 10)]
    }
}

/// Decimal rendering of an integer: a leading `'-'` before the magnitude
/// when the number is negative.
pub open spec fn dec_str_int(n: int) -> Seq<char> {
    if n < 0 {
        seq!['-'] + dec_str((-n) as nat)
    } else {
        dec_str(n as nat)
    }
}

/// Lower-case hexadecimal rendering of a natural number without leading
/// zeros (and `"0"` for zero).
pub open spec fn hex_str(n: nat) -> Seq<char>
    decreases n,
{
    if n < 16 {
        seq![digit_char(n)]
    } else {
        hex_str(n / 16) + seq![digit_char(n % 16)]
    }
}

/// Two lower-case hexadecimal digits for one byte, leading zero kept.
pub open spec fn hex_byte(b: u8) -> Seq<char> {
    seq![digit_char(b as nat / 16), digit_char(b as nat % 16)]
}

/// Lower-case hexadecimal rendering of a byte string: two digits per byte,
/// in byte order.
pub open spec fn hex_bytes(s: Seq<u8>) -> Seq<char>
    decreases s.len(),
{
    if s.len() == 0 {
        Seq::empty()
    } else {
        hex_bytes(s.drop_last()) + hex_byte(s.last())
    }
}

/// Holds of the ten decimal digit characters alone.
pub open spec fn is_dec_digit(c: char) -> bool {
    c == '0' || c == '1' || c == '2' || c == '3' || c == '4' || c == '5' || c == '6' || c == '7'
        || c == '8' || c == '9'
}

/// A decimal rendering is never empty and holds decimal digits alone: in
/// particular it never starts with a sign.
pub proof fn lemma_dec_str_digits(n: nat)
    ensures
        dec_str(n).len() >= 1,
        forall|i: int| 0 <= i < dec_str(n).len() ==> is_dec_digit(#[trigger] dec_str(n)[i]),
    decreases n,
{
    if n >= 10 {
        lemma_dec_str_digits(n / 10);
        assert forall|i: int| 0 <= i < dec_str(n).len() implies is_dec_digit(
            #[trigger] dec_str(n)[i],
        ) by {
            if i < dec_str(n / 10).len() {
                assert(dec_str(n)[i] == dec_str(n / 10)[i]);
            } else {
                assert(dec_str(n)[i] == digit_char(n % 10));
            }
        }
    }
}

/// A shared prefix cancels on both sides of an equality of
/// concatenations.
pub proof fn lemma_strip_prefix(p: Seq<char>, x: Seq<char>, y: Seq<char>)
    requires
        p + x == p + y,
    ensures
        x == y,
{
    assert((p + x).len() == p.len() + x.len());
    assert((p + y).len() == p.len() + y.len());
    assert(x.len() == y.len());
    assert forall|i: int| 0 <= i < x.len() implies x[i] == y[i] by {
        assert((p + x)[p.len() as int + i] == x[i]);
        assert((p + y)[p.len() as int + i] == y[i]);
    }
    assert(x =~= y);
}

/// A shared suffix cancels likewise.
pub proof fn lemma_strip_suffix(x: Seq<char>, y: Seq<char>, t: Seq<char>)
    requires
        x + t == y + t,
    ensures
        x == y,
{
    assert((x + t).len() == x.len() + t.len());
    assert((y + t).len() == y.len() + t.len());
    assert(x.len() == y.len());
    assert forall|i: int| 0 <= i < x.len() implies x[i] == y[i] by {
        assert((x + t)[i] == x[i]);
        assert((y + t)[i] == y[i]);
    }
    assert(x =~= y);
}

/// Distinct digit values render to distinct characters.
proof fn lemma_digit_char_injective(a: nat, b: nat)
    requires
        a < 16,
        b < 16,
        a != b,
    ensures
        digit_char(a) != digit_char(b),
{
}

/// Decimal rendering is injective: distinct numbers render to distinct
/// strings.
pub proof fn lemma_dec_str_injective(n1: nat, n2: nat)
    requires
        dec_str(n1) == dec_str(n2),
    ensures
        n1 == n2,
    decreases n1,
{
    if n1 < 10 && n2 < 10 {
        if n1 != n2 {
            lemma_digit_char_injective(n1, n2);
            assert(dec_str(n1)[0] == digit_char(n1));
            assert(dec_str(n2)[0] == digit_char(n2));
            assert(false);
        }
    } else if n1 < 10 && n2 >= 10 {
        lemma_dec_str_digits(n2 / 10);
        assert(dec_str(n2).len() == dec_str(n2 / 10).len() + 1);
        assert(dec_str(n1).len() == 1);
        assert(false);
    } else if n1 >= 10 && n2 < 10 {
        lemma_dec_str_digits(n1 / 10);
        assert(dec_str(n1).len() == dec_str(n1 / 10).len() + 1);
        assert(dec_str(n2).len() == 1);
        assert(false);
    } else {
        let a = dec_str(n1 / 10);
        let b = dec_str(n2 / 10);
        assert(dec_str(n1).last() == digit_char(n1 % 10));
        assert(dec_str(n2).last() == digit_char(n2 % 10));
        if n1 % 10 != n2 % 10 {
            lemma_digit_char_injective(n1 % 10, n2 % 10);
            assert(false);
        }
        assert(dec_str(n1).drop_last() =~= a);
        assert(dec_str(n2).drop_last() =~= b);
        lemma_dec_str_injective(n1 / 10, n2 / 10);
        assert(n1 == 10 * (n1 / 10) + n1 % 10);
        assert(n2 == 10 * (n2 / 10) + n2 % 10);
    }
}

/// Signed decimal rendering is injective: the sign character is no digit,
/// so a negative rendering never coincides with a non-negative one.
pub proof fn lemma_dec_str_int_injective(n1: int, n2: int)
    requires
        dec_str_int(n1) == dec_str_int(n2),
    ensures
        n1 == n2,
{
    if n1 < 0 && n2 < 0 {
        lemma_strip_prefix(seq!['-'], dec_str((-n1) as nat), dec_str((-n2) as nat));
        lemma_dec_str_injective((-n1) as nat, (-n2) as nat);
    } else if n1 >= 0 && n2 >= 0 {
        lemma_dec_str_injective(n1 as nat, n2 as nat);
    } else if n1 < 0 {
        lemma_dec_str_digits(n2 as nat);
        assert(dec_str_int(n1)[0] == '-');
        assert(is_dec_digit(dec_str_int(n2)[0]));
        assert(false);
    } else {
        lemma_dec_str_digits(n1 as nat);
        assert(dec_str_int(n2)[0] == '-');
        assert(is_dec_digit(dec_str_int(n1)[0]));
        assert(false);
    }
}

/// Appends the given char to the end of this String.
/// Relies on String::push, which appends exactly that character.
pub assume_specification[ String::push ](s: &mut String, c: char)
    ensures
        final(s)@ == old(s)@.push(c),
;

/// The character for one digit value below sixteen, lower case.
pub fn digit_to_char(d: u8) -> (c: char)
    requires
        d < 16,
    ensures
        c == digit_char(d as nat),
{
    if d == 0 {
        '0'
    } else if d == 1 {
        '1'
    } else if d == 2 {
        '2'
    } else if d == 3 {
        '3'
    } else if d == 4 {
        '4'
    } else if d == 5 {
        '5'
    } else if d == 6 {
        '6'
    } else if d == 7 {
        '7'
    } else if d == 8 {
        '8'
    } else if d == 9 {
        '9'
    } else if d == 10 {
        'a'
    } else if d == 11 {
        'b'
    } else if d == 12 {
        'c'
    } else if d == 13 {
        'd'
    } else if d == 14 {
        'e'
    } else {
        'f'
    }
}

/// Decimal rendering of a 64-bit unsigned number.
pub fn u64_to_dec(n: u64) -> (r: String)
    ensures
        r@ == dec_str(n as nat),
    decreases n,
{
    if n < 10 {
        let mut s = String::new();
        s.push(digit_to_char(n as u8));
        proof {
            assert(s@ =~= dec_str(n as nat));
        }
        s
    } else {
        let mut s = u64_to_dec(n / 10);
        s.push(digit_to_char((n % 10) as u8));
        proof {
            assert(s@ =~= dec_str(n as nat));
        }
        s
    }
}

/// Decimal rendering of a 32-bit signed number, with a leading `'-'` for a
/// negative one.
pub fn i32_to_dec(n: i32) -> (r: String)
    ensures
        r@ == dec_str_int(n as int),
{
    if n < 0 {
        let mag: u64 = (-(n as i64)) as u64;
        let mut s = String::new();
        s.push('-');
        let digits = u64_to_dec(mag);
        s.append(digits.as_str());
        proof {
            assert(s@ =~= dec_str_int(n as int));
        }
        s
    } else {
        u64_to_dec(n as u64)
    }
}

/// Lower-case hexadecimal rendering of a 32-bit unsigned number, without
/// leading zeros.
pub fn u32_to_hex(n: u32) -> (r: String)
    ensures
        r@ == hex_str(n as nat),
    decreases n,
{
    if n < 16 {
        let mut s = String::new();
        s.push(digit_to_char(n as u8));
        proof {
            assert(s@ =~= hex_str(n as nat));
        }
        s
    } else {
        let mut s = u32_to_hex(n / 16);
        s.push(digit_to_char((n % 16) as u8));
        proof {
            assert(s@ =~= hex_str(n as nat));
        }
        s
    }
}

/// Lower-case hexadecimal rendering of a byte string, two digits per byte.
pub fn bytes_to_hex(bytes: &Vec<u8>) -> (r: String)
    ensures
        r@ == hex_bytes(bytes@),
{
    let mut s = String::new();
    let mut i: usize = 0;
    while i < bytes.len()
        invariant
            i <= bytes@.len(),
            s@ == hex_bytes(bytes@.take(i as int)),
        decreases bytes@.len() - i,
    {
        let b = bytes[i];
        s.push(digit_to_char(b / 16));
        s.push(digit_to_char(b % 16));
        proof {
            assert(bytes@.take(i + 1 as int).drop_last() =~= bytes@.take(i as int));
            assert(s@ =~= hex_bytes(bytes@.take(i as int)) + hex_byte(b));
        }
        i = i + 1;
    }
    proof {
        assert(bytes@.take(bytes@.len() as int) =~= bytes@);
    }
    s
}

} // verus!
