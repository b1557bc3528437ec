//! Base64 text of byte strings, in the standard alphabet with padding.

use vstd::prelude::*;

verus! {

/// The character for the six-bit value `n` in the standard base64 alphabet:
/// `A`-`Z`, `a`-`z`, `0`-`9`, `+`, `/`.
pub open spec fn base64_char(n: int) -> char {
    if n < 26 {
        (65 + n) as char
    } else if n < 52 {
        (71 + n) as char
    } else if n < 62 {
        (n - 4) as char
    } else if n == 62 {
        '+'
    } else {
        '/'
    }
}

/// Standard base64 with `=` padding: each group of three bytes becomes four
/// characters, and a last group of one or two bytes is padded to four.
pub open spec fn base64_standard(data: Seq<u8>) -> Seq<char>
    decreases data.len(),
{
    if data.len() == 0 {
        seq![]
    } else if data.len() == 1 {
        let a = data[0] as int;
        seq![base64_char(a / 4), base64_char((a % 4) * 16), '=', '=']
    } else if data.len() == 2 {
        let a = data[0] as int;
        let b = data[1] as int;
        seq![base64_char(a / 4), base64_char((a % 4) * 16 + b / 16), base64_char((b % 16) * 4), '=']
    } else {
        let a = data[0] as int;
        let b = data[1] as int;
        let c = data[2] as int;
        seq![
            base64_char(a / 4),
            base64_char((a % 4) * 16 + b / 16),
            base64_char((b % 16) * 4 + c / 64),
            base64_char(c % 64),
        ] + base64_standard(data.subrange(3, data.len() as int))
    }
}

/// The length of the base64 text of `n` bytes.
pub open spec fn base64_len(n: int) -> int {
    4 * ((n + 2) / 3)
}

/// `base64::encode` (standard alphabet, padded). The contract claims what the
/// crate documents and does: `encode_config(input, STANDARD)`. The crate sizes
/// its buffer with a checked multiplication and allocates it, so inputs whose
/// text would not fit in memory are left out.
#[verifier::external_body]
pub(crate) fn base64_encode(data: &[u8]) -> (text: String)
    requires
        base64_len(data@.len() as int) <= isize::MAX,
    ensures
        text@ == base64_standard(data@),
{
    base64::encode(data)
}

/// The six-bit value of the base64 character `c`.
pub open spec fn base64_value(c: char) -> int {
    let n = c as int;
    if 65 <= n && n <= 90 {
        n - 65
    } else if 97 <= n && n <= 122 {
        n - 71
    } else if 48 <= n && n <= 57 {
        n + 4
    } else if n == 43 {
        62
    } else {
        63
    }
}

/// Reading standard padded base64 back: each group of four characters gives
/// three bytes, or fewer where it ends in `=` padding.
pub open spec fn base64_decode(text: Seq<char>) -> Seq<u8>
    decreases text.len(),
{
    if text.len() < 4 {
        seq![]
    } else {
        let v0 = base64_value(text[0]);
        let v1 = base64_value(text[1]);
        let v2 = base64_value(text[2]);
        let v3 = base64_value(text[3]);
        let group = if text[2] == '=' {
            seq![(v0 * 4 + v1 / 16) as u8]
        } else if text[3] == '=' {
            seq![(v0 * 4 + v1 / 16) as u8, ((v1 % 16) * 16 + v2 / 4) as u8]
        } else {
            seq![(v0 * 4 + v1 / 16) as u8, ((v1 % 16) * 16 + v2 / 4) as u8, ((v2 % 4) * 64 + v3) as u8]
        };
        group + base64_decode(text.subrange(4, text.len() as int))
    }
}

/// Each base64 character reads back as the value written, and none is the
/// padding character.
pub proof fn lemma_base64_char_value(n: int)
    requires
        0 <= n < 64,
    ensures
        base64_value(base64_char(n)) == n,
        base64_char(n) != '=',
{
}

/// The four six-bit values of a group of three bytes give the bytes back.
proof fn lemma_group_values(a: int, b: int, c: int)
    requires
        0 <= a < 256,
        0 <= b < 256,
        0 <= c < 256,
    ensures
        (a / 4) * 4 + ((a % 4) * 16 + b / 16) / 16 == a,
        (((a % 4) * 16 + b / 16) % 16) * 16 + ((b % 16) * 4 + c / 64) / 4 == b,
        (((b % 16) * 4 + c / 64) % 4) * 64 + c % 64 == c,
        0 <= (a % 4) * 16 + b / 16 < 64,
        0 <= (b % 16) * 4 + c / 64 < 64,
{
    assert(0 <= b / 16 < 16 && 0 <= c / 64 < 4 && (a / 4) * 4 + a % 4 == a && (b / 16) * 16 + b % 16 == b
        && (c / 64) * 64 + c % 64 == c);
    assert(((a % 4) * 16 + b / 16) / 16 == a % 4 && ((a % 4) * 16 + b / 16) % 16 == b / 16);
    assert(((b % 16) * 4 + c / 64) / 4 == b % 16 && ((b % 16) * 4 + c / 64) % 4 == c / 64);
}

/// The base64 text of any bytes reads back as those bytes.
pub proof fn lemma_base64_round_trip(data: Seq<u8>)
    ensures
        base64_decode(base64_standard(data)) == data,
    decreases data.len(),
{
    if data.len() == 0 {
    } else if data.len() == 1 {
        let a = data[0] as int;
        lemma_group_values(a, 0, 0);
        lemma_base64_char_value(a / 4);
        lemma_base64_char_value((a % 4) * 16);
        let t = base64_standard(data);
        assert(t.len() == 4);
        assert(t.subrange(4, t.len() as int) =~= Seq::<char>::empty());
        assert(base64_decode(t.subrange(4, t.len() as int)) =~= Seq::<u8>::empty());
        assert(base64_decode(t) =~= data);
    } else if data.len() == 2 {
        let a = data[0] as int;
        let b = data[1] as int;
        lemma_group_values(a, b, 0);
        lemma_base64_char_value(a / 4);
        lemma_base64_char_value((a % 4) * 16 + b / 16);
        lemma_base64_char_value((b % 16) * 4);
        let t = base64_standard(data);
        assert(t.len() == 4);
        assert(t.subrange(4, t.len() as int) =~= Seq::<char>::empty());
        assert(base64_decode(t.subrange(4, t.len() as int)) =~= Seq::<u8>::empty());
        assert(base64_decode(t) =~= data);
    } else {
        let a = data[0] as int;
        let b = data[1] as int;
        let c = data[2] as int;
        let rest = data.subrange(3, data.len() as int);
        lemma_group_values(a, b, c);
        lemma_base64_char_value(a / 4);
        lemma_base64_char_value((a % 4) * 16 + b / 16);
        lemma_base64_char_value((b % 16) * 4 + c / 64);
        lemma_base64_char_value(c % 64);
        lemma_base64_round_trip(rest);
        let t = base64_standard(data);
        assert(t.subrange(4, t.len() as int) =~= base64_standard(rest));
        assert(base64_decode(t) =~= data);
    }
}

/// Base64 text has four characters for each started group of three bytes.
pub proof fn lemma_base64_length(data: Seq<u8>)
    ensures
        base64_standard(data).len() == base64_len(data.len() as int),
    decreases data.len(),
{
    if data.len() >= 3 {
        lemma_base64_length(data.subrange(3, data.len() as int));
    }
}

} // verus!
