//! Hexadecimal colour tokens and the RGB triples they stand for.
use vstd::prelude::*;

verus! {

/// Three 8-bit channels.
#[derive(Clone, Copy, Debug, PartialEq, Eq, Structural)]
pub struct Rgb {
    pub r: u8,
    pub g: u8,
    pub b: u8,
}

/// Why a run of hex digits could not be decoded into bytes.
#[derive(Clone, Copy, Debug, PartialEq, Eq, Structural)]
pub enum HexError {
    /// The digits cannot be split into pairs.
    OddLength,
    /// A character is not a hexadecimal digit.
    InvalidDigit,
}

pub open spec fn black() -> Rgb {
    Rgb { r: 0, g: 0, b: 0 }
}

pub open spec fn is_hex_digit(c: char) -> bool {
    ('0' as u32 <= c as u32 && c as u32 <= '9' as u32)
    || ('a' as u32 <= c as u32 && c as u32 <= 'f' as u32)
    || ('A' as u32 <= c as u32 && c as u32 <= 'F' as u32)
}

pub open spec fn hex_value(c: char) -> nat {
    if '0' as u32 <= c as u32 && c as u32 <= '9' as u32 {
        (c as u32 - '0' as u32) as nat
    } else if 'a' as u32 <= c as u32 && c as u32 <= 'f' as u32 {
        (c as u32 - 'a' as u32 + 10) as nat
    } else if 'A' as u32 <= c as u32 && c as u32 <= 'F' as u32 {
        (c as u32 - 'A' as u32 + 10) as nat
    } else {
        0
    }
}

pub open spec fn all_hex(h: Seq<char>) -> bool {
    forall|i: int| 0 <= i < h.len() ==> is_hex_digit(#[trigger] h[i])
}

/// The `i`-th byte written as the digit pair `h[2i] h[2i+1]`.
pub open spec fn pair_value(h: Seq<char>, i: int) -> nat {
    16 * hex_value(h[2 * i]) + hex_value(h[2 * i + 1])
}

pub open spec fn hex_decodes(h: Seq<char>) -> bool {
    h.len() % 2 == 0 && all_hex(h)
}

pub open spec fn decoded_bytes(h: Seq<char>) -> Seq<u8> {
    Seq::new(h.len() / 2, |i: int| pair_value(h, i) as u8)
}

/// A leading `#`, or else a leading `0x`, is dropped.
pub open spec fn strip_prefix(s: Seq<char>) -> Seq<char> {
    if s.len() >= 1 && s[0] == '#' {
        s.subrange(1, s.len() as int)
    } else if s.len() >= 2 && s[0] == '0' && s[1] == 'x' {
        s.subrange(2, s.len() as int)
    } else {
        s
    }
}

/// Fewer than six digits are padded to six by repeating the first one.
pub open spec fn expand(h: Seq<char>) -> Seq<char> {
    if 0 < h.len() < 6 {
        h + Seq::new((6 - h.len()) as nat, |i: int| h[0])
    } else {
        h
    }
}

/// The colour a token stands for; black wherever it cannot be read.
pub open spec fn color_of(s: Seq<char>) -> Rgb {
    let h = expand(strip_prefix(s));
    if s.len() < 3 || !hex_decodes(h) {
        black()
    } else {
        let b = decoded_bytes(h);
        Rgb { r: b[0], g: b[1], b: b[2] }
    }
}

fn hex_digit_value(c: char) -> (r: Option<u8>)
    ensures
        r.is_some() == is_hex_digit(c),
        r.is_some() ==> r.unwrap() as nat == hex_value(c) && r.unwrap() < 16,
{
    let v = c as u32;
    if '0' as u32 <= v && v <= '9' as u32 {
        Some((v - '0' as u32) as u8)
    } else if 'a' as u32 <= v && v <= 'f' as u32 {
        Some((v - 'a' as u32 + 10) as u8)
    } else if 'A' as u32 <= v && v <= 'F' as u32 {
        Some((v - 'A' as u32 + 10) as u8)
    } else {
        None
    }
}

pub(crate) fn chars_of(s: &str) -> (r: Vec<char>)
    ensures
        r@ == s@,
{
    let n = s.unicode_len();
    let mut out: Vec<char> = Vec::new();
    let mut i: usize = 0;
    while i < n
        invariant
            n == s@.len(),
            i <= n,
            out@ == s@.subrange(0, i as int),
        decreases n - i,
    {
        out.push(s.get_char(i));
        i = i + 1;
        assert(out@ =~= s@.subrange(0, i as int));
    }
    assert(out@ =~= s@);
    out
}

fn decode_hex_chars(h: &Vec<char>) -> (r: Result<Vec<u8>, HexError>)
    ensures
        match r {
            Ok(v) => hex_decodes(h@) && v@ == decoded_bytes(h@),
            Err(e) => !hex_decodes(h@) && e == (if h@.len() % 2 == 1 {
                HexError::OddLength
            } else {
                HexError::InvalidDigit
            }),
        },
{
    if h.len() % 2 == 1 {
        return Err(HexError::OddLength);
    }
    let n = h.len() / 2;
    let mut out: Vec<u8> = Vec::new();
    let mut i: usize = 0;
    while i < n
        invariant
            n == h@.len() / 2,
            h@.len() % 2 == 0,
            i <= n,
            out@.len() == i,
            forall|j: int| 0 <= j < 2 * i ==> is_hex_digit(#[trigger] h@[j]),
            forall|j: int| 0 <= j < i ==> out@[j] == #[trigger] pair_value(h@, j) as u8,
        decreases n - i,
    {
        assert(2 * i + 1 < h@.len());
        assert(h@.len() == h.len());
        let k: usize = i + i;
        let hi = hex_digit_value(h[k]);
        let lo = hex_digit_value(h[k + 1]);
        match (hi, lo) {
            (Some(a), Some(b)) => {
                assert(16 * a + b < 256) by (nonlinear_arith)
                    requires a < 16, b < 16;
                out.push(a * 16 + b);
                proof {
                    assert(pair_value(h@, i as int) == 16 * hex_value(h@[2 * i as int]) + hex_value(h@[2 * i + 1]));
                }
                i = i + 1;
            },
            _ => {
                assert(!all_hex(h@)) by {
                    if hi.is_none() {
                        assert(!is_hex_digit(h@[2 * i as int]));
                    } else {
                        assert(!is_hex_digit(h@[2 * i + 1]));
                    }
                }
                return Err(HexError::InvalidDigit);
            },
        }
    }
    assert(out@ =~= decoded_bytes(h@));
    Ok(out)
}

/// Decodes a run of hexadecimal digits, two to a byte.
pub fn decode_hex(s: &str) -> (r: Result<Vec<u8>, HexError>)
    ensures
        match r {
            Ok(v) => hex_decodes(s@) && v@ == decoded_bytes(s@),
            Err(e) => !hex_decodes(s@) && e == (if s@.len() % 2 == 1 {
                HexError::OddLength
            } else {
                HexError::InvalidDigit
            }),
        },
{
    let h = chars_of(s);
    decode_hex_chars(&h)
}

fn suffix_from(s: &Vec<char>, start: usize) -> (r: Vec<char>)
    requires
        start <= s@.len(),
    ensures
        r@ == s@.subrange(start as int, s@.len() as int),
{
    let mut out: Vec<char> = Vec::new();
    let mut i: usize = start;
    while i < s.len()
        invariant
            start <= i <= s@.len(),
            out@ == s@.subrange(start as int, i as int),
        decreases s@.len() - i,
    {
        out.push(s[i]);
        i = i + 1;
        assert(out@ =~= s@.subrange(start as int, i as int));
    }
    out
}

fn strip_chars(s: &Vec<char>) -> (r: Vec<char>)
    ensures
        r@ == strip_prefix(s@),
{
    if s.len() >= 1 && s[0] == '#' {
        suffix_from(s, 1)
    } else if s.len() >= 2 && s[0] == '0' && s[1] == 'x' {
        suffix_from(s, 2)
    } else {
        suffix_from(s, 0)
    }
}

fn expand_chars(h: Vec<char>) -> (r: Vec<char>)
    ensures
        r@ == expand(h@),
{
    let mut out = h;
    if 0 < out.len() && out.len() < 6 {
        let c = out[0];
        let ghost orig = out@;
        while out.len() < 6
            invariant
                0 < orig.len() < 6,
                c == orig[0],
                orig.len() <= out@.len() <= 6,
                out@ == orig + Seq::new((out@.len() - orig.len()) as nat, |i: int| orig[0]),
            decreases 6 - out@.len(),
        {
            out.push(c);
            assert(out@ =~= orig + Seq::new((out@.len() - orig.len()) as nat, |i: int| orig[0]));
        }
    }
    out
}

/// Pads a shorthand run of digits to six by repeating its first digit; a run
/// that is empty or already six long is returned as it is.
pub fn expand_shorthand(hex: &str) -> (r: Vec<char>)
    ensures
        r@ == expand(hex@),
{
    expand_chars(chars_of(hex))
}

/// The colour a token stands for: black for anything shorter than three
/// characters or anything that does not decode; this never fails.
pub fn hex_to_rgb(s: &str) -> (r: Rgb)
    ensures
        r == color_of(s@),
        s@.len() < 3 ==> r == black(),
{
    let chars = chars_of(s);
    if chars.len() < 3 {
        return Rgb { r: 0, g: 0, b: 0 };
    }
    let hex = expand_chars(strip_chars(&chars));
    match decode_hex_chars(&hex) {
        Ok(v) => {
            assert(hex@.len() >= 6);
            Rgb { r: v[0], g: v[1], b: v[2] }
        },
        Err(_) => Rgb { r: 0, g: 0, b: 0 },
    }
}

/// A six-digit token, bare or behind `#` or `0x`, reads as its three digit
/// pairs.
pub proof fn lemma_six_digit_token(prefix: Seq<char>, t: Seq<char>)
    requires
        t.len() == 6,
        all_hex(t),
        prefix == Seq::<char>::empty() || prefix == seq!['#'] || prefix == seq!['0', 'x'],
    ensures
        color_of(prefix + t) == (Rgb {
            r: pair_value(t, 0) as u8,
            g: pair_value(t, 1) as u8,
            b: pair_value(t, 2) as u8,
        }),
{
    let s = prefix + t;
    if prefix.len() == 0 {
        assert(s =~= t);
        assert(is_hex_digit(t[0]));
        assert(is_hex_digit(t[1]));
    } else if prefix.len() == 1 {
        assert(s.subrange(1, s.len() as int) =~= t);
    } else {
        assert(s.subrange(2, s.len() as int) =~= t);
    }
    assert(strip_prefix(s) == t);
    assert(expand(t) == t);
}

/// Every token shorter than three characters reads as black.
pub proof fn lemma_short_token_is_black(s: Seq<char>)
    requires
        s.len() < 3,
    ensures
        color_of(s) == black(),
{
}

} // verus!
