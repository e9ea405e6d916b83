//! Canonical text forms of integers and booleans used in attribute values:
//! decimal and lowercase hexadecimal digits, an optional leading `-` for
//! signed values, and `true` / `false`.

use vstd::prelude::*;

verus! {

/// The digit characters, in order of value.
pub open spec fn hex_alphabet() -> Seq<char> {
    seq!['0', '1', '2', '3', '4', '5', '6', '7', '8', '9', 'a', 'b', 'c', 'd', 'e', 'f']
}

pub open spec fn digit_char(d: nat) -> char {
    hex_alphabet()[d as int]
}

/// Value of a digit character; 16 for a character that is no digit.
pub open spec fn digit_value(c: char) -> int {
    if '0' <= c && c <= '9' {
        c as int - 48
    } else if 'a' <= c && c <= 'f' {
        c as int - 87
    } else {
        16
    }
}

/// `n` written in base `b`, most significant digit first, without leading zeros.
pub open spec fn radix_chars(n: nat, b: nat) -> Seq<char>
    decreases n via radix_chars_decreases
{
    if b < 2 || b > 16 || n < b {
        seq![digit_char(n)]
    } else {
        radix_chars(n / b, b).push(digit_char(n % b))
    }
}

#[via_fn]
proof fn radix_chars_decreases(n: nat, b: nat) {
    if !(b < 2 || b > 16 || n < b) {
        assert(n / b < n) by (nonlinear_arith)
            requires
                n >= b,
                b >= 2,
        ;
    }
}

/// The number that a string of base-`b` digits denotes.
pub open spec fn radix_value(s: Seq<char>, b: nat) -> nat
    decreases s.len(),
{
    if s.len() == 0 {
        0
    } else {
        radix_value(s.drop_last(), b) * b + digit_value(s.last()) as nat
    }
}

/// A non-empty string made of base-`b` digits only.
pub open spec fn is_radix_text(s: Seq<char>, b: nat) -> bool {
    s.len() > 0 && forall|i: int| 0 <= i < s.len() ==> 0 <= #[trigger] digit_value(s[i]) < b
}

/// What parsing base-`b` text into a `u64` gives: the value, when the text is
/// digits only and the value fits.
pub open spec fn parse_radix_spec(s: Seq<char>, b: nat) -> Option<u64> {
    if is_radix_text(s, b) && radix_value(s, b) <= u64::MAX {
        Some(radix_value(s, b) as u64)
    } else {
        None
    }
}

pub open spec fn dec_chars(n: nat) -> Seq<char> {
    radix_chars(n, 10)
}

pub open spec fn hex_chars(n: nat) -> Seq<char> {
    radix_chars(n, 16)
}

/// Decimal text of a signed integer.
pub open spec fn int_chars(t: int) -> Seq<char> {
    if t < 0 {
        seq!['-'] + dec_chars((-t) as nat)
    } else {
        dec_chars(t as nat)
    }
}

/// What parsing signed decimal text into an `i64` gives.
pub open spec fn parse_i64_spec(s: Seq<char>) -> Option<i64> {
    if s.len() > 0 && s[0] == '-' {
        match parse_radix_spec(s.drop_first(), 10) {
            Some(v) => if v <= 0x8000_0000_0000_0000 {
                Some((-(v as int)) as i64)
            } else {
                None
            },
            None => None,
        }
    } else {
        match parse_radix_spec(s, 10) {
            Some(v) => if v <= i64::MAX {
                Some(v as i64)
            } else {
                None
            },
            None => None,
        }
    }
}

pub open spec fn bool_chars(v: bool) -> Seq<char> {
    if v {
        "true"@
    } else {
        "false"@
    }
}

pub open spec fn parse_bool_spec(s: Seq<char>) -> Option<bool> {
    if s == "true"@ {
        Some(true)
    } else if s == "false"@ {
        Some(false)
    } else {
        None
    }
}

proof fn lemma_digit_char(d: nat)
    requires
        d < 16,
    ensures
        digit_value(digit_char(d)) == d,
{
}

/// Digits written in base `b` read back as the same number.
pub proof fn lemma_radix_round_trip(n: nat, b: nat)
    requires
        2 <= b <= 16,
    ensures
        is_radix_text(radix_chars(n, b), b),
        radix_value(radix_chars(n, b), b) == n,
    decreases n,
{
    let s = radix_chars(n, b);
    if n < b {
        lemma_digit_char(n);
        assert(s.drop_last() =~= Seq::<char>::empty());
        reveal_with_fuel(radix_value, 2);
    } else {
        assert(n / b < n) by (nonlinear_arith)
            requires
                n >= b,
                b >= 2,
        ;
        lemma_radix_round_trip(n / b, b);
        let p = radix_chars(n / b, b);
        assert(n % b < b) by (nonlinear_arith)
            requires
                b >= 2,
        ;
        lemma_digit_char(n % b);
        assert(s.drop_last() =~= p);
        assert(forall|i: int| 0 <= i < p.len() ==> s[i] == p[i]);
        assert(n == (n / b) * b + n % b) by (nonlinear_arith)
            requires
                b >= 2,
        ;
    }
}

proof fn lemma_radix_value_step(s: Seq<char>, b: nat, i: int)
    requires
        0 <= i < s.len(),
    ensures
        radix_value(s.subrange(0, i + 1), b) == radix_value(s.subrange(0, i), b) * b
            + digit_value(s[i]) as nat,
{
    assert(s.subrange(0, i + 1).drop_last() =~= s.subrange(0, i));
}

/// Extending a string of digits never makes its value smaller.
proof fn lemma_radix_value_prefix(s: Seq<char>, b: nat, i: int, j: int)
    requires
        0 <= i <= j <= s.len(),
        b >= 1,
    ensures
        radix_value(s.subrange(0, i), b) <= radix_value(s.subrange(0, j), b),
    decreases j - i,
{
    if i < j {
        lemma_radix_value_prefix(s, b, i, j - 1);
        lemma_radix_value_step(s, b, j - 1);
        let v = radix_value(s.subrange(0, j - 1), b);
        assert(v <= v * b) by (nonlinear_arith)
            requires
                b >= 1,
        ;
    }
}

/// Returns the single-character text of digit `d`.
fn digit_str(d: u64) -> (r: &'static str)
    requires
        d < 16,
    ensures
        r@ == seq![digit_char(d as nat)],
{
    let all = "0123456789abcdef";
    proof {
        reveal_strlit("0123456789abcdef");
    }
    assert(all@ =~= hex_alphabet());
    let r = all.substring_char(d as usize, (d + 1) as usize);
    assert(r@ =~= seq![digit_char(d as nat)]);
    r
}

/// Appends `n` written in base `b`.
fn append_radix(s: &mut String, n: u64, b: u64)
    requires
        2 <= b <= 16,
    ensures
        final(s)@ == old(s)@ + radix_chars(n as nat, b as nat),
    decreases n,
{
    if n >= b {
        assert(n / b < n) by (nonlinear_arith)
            requires
                n >= b,
                b >= 2,
        ;
        append_radix(s, n / b, b);
        s.append(digit_str(n % b));
        assert(s@ =~= old(s)@ + radix_chars(n as nat, b as nat));
    } else {
        s.append(digit_str(n));
    }
}

/// Decimal text of `n`.
pub fn format_u64(n: u64) -> (r: String)
    ensures
        r@ == dec_chars(n as nat),
{
    let mut s = String::new();
    append_radix(&mut s, n, 10);
    assert(s@ =~= dec_chars(n as nat));
    s
}

/// Lowercase hexadecimal text of `n`, without leading zeros.
pub fn format_hex_u64(n: u64) -> (r: String)
    ensures
        r@ == hex_chars(n as nat),
{
    let mut s = String::new();
    append_radix(&mut s, n, 16);
    assert(s@ =~= hex_chars(n as nat));
    s
}

/// Decimal text of `t`, with a leading `-` when negative.
pub fn format_i64(t: i64) -> (r: String)
    ensures
        r@ == int_chars(t as int),
{
    if t < 0 {
        let magnitude: u64 = ((-(t + 1)) as u64) + 1;
        let mut s = String::from_str("-");
        proof {
            reveal_strlit("-");
        }
        append_radix(&mut s, magnitude, 10);
        assert(s@ =~= int_chars(t as int));
        s
    } else {
        format_u64(t as u64)
    }
}

/// `true` or `false`.
pub fn format_bool(v: bool) -> (r: String)
    ensures
        r@ == bool_chars(v),
{
    if v {
        String::from_str("true")
    } else {
        String::from_str("false")
    }
}

fn char_digit(c: char) -> (r: u64)
    ensures
        r as int == digit_value(c),
{
    if '0' <= c && c <= '9' {
        (c as u32 - 48) as u64
    } else if 'a' <= c && c <= 'f' {
        (c as u32 - 87) as u64
    } else {
        16
    }
}

/// Reads base-`b` text into a `u64`: `None` unless the text is non-empty,
/// digits only, and its value fits.
fn parse_radix(s: &str, b: u64) -> (r: Option<u64>)
    requires
        2 <= b <= 16,
    ensures
        r == parse_radix_spec(s@, b as nat),
{
    let len = s.unicode_len();
    if len == 0 {
        return None;
    }
    let mut v: u64 = 0;
    let mut i: usize = 0;
    while i < len
        invariant
            0 <= i <= len,
            len == s@.len(),
            2 <= b <= 16,
            forall|j: int| 0 <= j < i ==> 0 <= #[trigger] digit_value(s@[j]) < b,
            v == radix_value(s@.subrange(0, i as int), b as nat),
        decreases len - i,
    {
        let c = s.get_char(i);
        let d = char_digit(c);
        if d >= b {
            return None;
        }
        proof {
            lemma_radix_value_step(s@, b as nat, i as int);
        }
        assert(v as int * b as int <= 0xffff_ffff_ffff_ffff * 16) by (nonlinear_arith)
            requires
                v <= 0xffff_ffff_ffff_ffff,
                b <= 16,
        ;
        let w: u128 = v as u128 * b as u128 + d as u128;
        if w > 0xffff_ffff_ffff_ffff {
            proof {
                if is_radix_text(s@, b as nat) {
                    lemma_radix_value_prefix(s@, b as nat, i + 1, len as int);
                    assert(s@.subrange(0, len as int) =~= s@);
                }
            }
            return None;
        }
        v = w as u64;
        i += 1;
    }
    assert(s@.subrange(0, len as int) =~= s@);
    Some(v)
}

/// Reads decimal text into a `u64`.
pub fn parse_u64(s: &str) -> (r: Option<u64>)
    ensures
        r == parse_radix_spec(s@, 10),
{
    parse_radix(s, 10)
}

/// Reads lowercase hexadecimal text into a `u64`.
pub fn parse_hex_u64(s: &str) -> (r: Option<u64>)
    ensures
        r == parse_radix_spec(s@, 16),
{
    parse_radix(s, 16)
}

/// What parsing decimal text into a `u8` gives.
pub open spec fn parse_u8_spec(s: Seq<char>) -> Option<u8> {
    match parse_radix_spec(s, 10) {
        Some(v) => if v <= u8::MAX {
            Some(v as u8)
        } else {
            None
        },
        None => None,
    }
}

/// Reads decimal text of a `u8`.
pub fn parse_u8(s: &str) -> (r: Option<u8>)
    ensures
        r == parse_u8_spec(s@),
{
    match parse_radix(s, 10) {
        Some(v) => if v <= 255 {
            Some(v as u8)
        } else {
            None
        },
        None => None,
    }
}

/// Reads signed decimal text into an `i64`.
pub fn parse_i64(s: &str) -> (r: Option<i64>)
    ensures
        r == parse_i64_spec(s@),
{
    let len = s.unicode_len();
    if len > 0 && s.get_char(0) == '-' {
        let rest = s.substring_char(1, len);
        assert(rest@ =~= s@.drop_first());
        match parse_radix(rest, 10) {
            Some(v) => if v < 0x8000_0000_0000_0000 {
                Some(-(v as i64))
            } else if v == 0x8000_0000_0000_0000 {
                Some(i64::MIN)
            } else {
                None
            },
            None => None,
        }
    } else {
        match parse_radix(s, 10) {
            Some(v) => if v <= 0x7fff_ffff_ffff_ffff {
                Some(v as i64)
            } else {
                None
            },
            None => None,
        }
    }
}

/// Reads `true` or `false`.
pub fn parse_bool(s: &String) -> (r: Option<bool>)
    ensures
        r == parse_bool_spec(s@),
{
    let t = String::from_str("true");
    let f = String::from_str("false");
    if *s == t {
        Some(true)
    } else if *s == f {
        Some(false)
    } else {
        None
    }
}

/// Bytes in lowercase hex, two digits each, most significant nibble first.
pub open spec fn hex_byte_chars(b: Seq<u8>) -> Seq<char>
    decreases b.len(),
{
    if b.len() == 0 {
        Seq::empty()
    } else {
        hex_byte_chars(b.drop_last()) + seq![
            digit_char((b.last() / 16) as nat),
            digit_char((b.last() % 16) as nat),
        ]
    }
}

/// What parsing two-digit hex text into bytes gives: `None` unless the text
/// has even length and holds lowercase hex digits only.
pub open spec fn parse_hex_bytes_spec(s: Seq<char>) -> Option<Seq<u8>> {
    if s.len() % 2 == 0 && forall|i: int| 0 <= i < s.len() ==> 0 <= #[trigger] digit_value(s[i]) < 16 {
        Some(Seq::new(s.len() / 2, |i: int| (digit_value(s[2 * i]) * 16 + digit_value(s[2 * i + 1])) as u8))
    } else {
        None
    }
}

proof fn lemma_hex_byte_chars(b: Seq<u8>)
    ensures
        hex_byte_chars(b).len() == 2 * b.len(),
        forall|i: int| 0 <= i < b.len() ==> {
            &&& #[trigger] hex_byte_chars(b)[2 * i] == digit_char((b[i] / 16) as nat)
            &&& hex_byte_chars(b)[2 * i + 1] == digit_char((b[i] % 16) as nat)
        },
    decreases b.len(),
{
    if b.len() > 0 {
        let p = b.drop_last();
        lemma_hex_byte_chars(p);
        assert forall|i: int| 0 <= i < b.len() implies {
            &&& #[trigger] hex_byte_chars(b)[2 * i] == digit_char((b[i] / 16) as nat)
            &&& hex_byte_chars(b)[2 * i + 1] == digit_char((b[i] % 16) as nat)
        } by {
            if i < p.len() {
                assert(b[i] == p[i]);
            }
        }
    }
}

/// Bytes written as hex read back as the same bytes.
pub proof fn lemma_hex_bytes_round_trip(b: Seq<u8>)
    ensures
        parse_hex_bytes_spec(hex_byte_chars(b)) == Some(b),
{
    let s = hex_byte_chars(b);
    lemma_hex_byte_chars(b);
    assert forall|j: int| 0 <= j < s.len() implies 0 <= #[trigger] digit_value(s[j]) < 16 by {
        let i = j / 2;
        assert(0 <= i < b.len());
        assert(s[2 * i] == digit_char((b[i] / 16) as nat));
        if j % 2 == 0 {
            assert(j == 2 * i);
            lemma_digit_char((b[i] / 16) as nat);
        } else {
            assert(j == 2 * i + 1);
            lemma_digit_char((b[i] % 16) as nat);
        }
    }
    let r = Seq::new(s.len() / 2, |i: int| (digit_value(s[2 * i]) * 16 + digit_value(s[2 * i + 1])) as u8);
    assert forall|i: int| 0 <= i < b.len() implies r[i] == b[i] by {
        lemma_digit_char((b[i] / 16) as nat);
        lemma_digit_char((b[i] % 16) as nat);
    }
    assert(r =~= b);
}

/// Lowercase hex text of bytes, two digits each.
pub fn format_hex_bytes(b: &[u8]) -> (r: String)
    ensures
        r@ == hex_byte_chars(b@),
{
    let mut s = String::new();
    let mut i: usize = 0;
    while i < b.len()
        invariant
            i <= b@.len(),
            s@ == hex_byte_chars(b@.subrange(0, i as int)),
        decreases b@.len() - i,
    {
        let x = b[i];
        s.append(digit_str((x / 16) as u64));
        s.append(digit_str((x % 16) as u64));
        assert(b@.subrange(0, i + 1).drop_last() =~= b@.subrange(0, i as int));
        assert(s@ =~= hex_byte_chars(b@.subrange(0, i + 1)));
        i += 1;
    }
    assert(b@.subrange(0, i as int) =~= b@);
    s
}

/// Reads two-digit lowercase hex text into bytes; see `parse_hex_bytes_spec`.
pub fn parse_hex_bytes(s: &str) -> (r: Option<Vec<u8>>)
    ensures
        match r {
            Some(v) => parse_hex_bytes_spec(s@) == Some(v@),
            None => parse_hex_bytes_spec(s@) is None,
        },
{
    let len = s.unicode_len();
    if len % 2 != 0 {
        return None;
    }
    let mut out: Vec<u8> = Vec::new();
    let mut i: usize = 0;
    while i < len / 2
        invariant
            len == s@.len(),
            len % 2 == 0,
            i <= len / 2,
            forall|j: int| 0 <= j < 2 * i ==> 0 <= #[trigger] digit_value(s@[j]) < 16,
            out@ =~= Seq::new(i as nat, |k: int| (digit_value(s@[2 * k]) * 16 + digit_value(s@[2 * k + 1])) as u8),
        decreases len / 2 - i,
    {
        let hi = char_digit(s.get_char(2 * i));
        let lo = char_digit(s.get_char(2 * i + 1));
        if hi >= 16 || lo >= 16 {
            return None;
        }
        out.push((hi * 16 + lo) as u8);
        i += 1;
    }
    Some(out)
}

/// Signed decimal text reads back as the same integer.
pub proof fn lemma_int_round_trip(t: i64)
    ensures
        parse_i64_spec(int_chars(t as int)) == Some(t),
{
    if t < 0 {
        let m = (-(t as int)) as nat;
        lemma_radix_round_trip(m, 10);
        assert(int_chars(t as int).drop_first() =~= dec_chars(m));
    } else {
        lemma_radix_round_trip(t as nat, 10);
        let s = dec_chars(t as nat);
        assert(digit_value(s[0]) < 10);
    }
}

/// Unsigned decimal and hexadecimal text reads back as the same number.
pub proof fn lemma_unsigned_round_trip(n: u64, b: nat)
    requires
        b == 10 || b == 16,
    ensures
        parse_radix_spec(radix_chars(n as nat, b), b) == Some(n),
{
    lemma_radix_round_trip(n as nat, b);
}

/// `true` and `false` read back as written.
pub proof fn lemma_bool_round_trip(v: bool)
    ensures
        parse_bool_spec(bool_chars(v)) == Some(v),
{
    reveal_strlit("true");
    reveal_strlit("false");
    assert("true"@[0] != "false"@[0]);
}

} // verus!
