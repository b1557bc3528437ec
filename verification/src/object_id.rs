//! MongoDB object ids and their 24-character hexadecimal text form.

use vstd::prelude::*;

verus! {

/// The lowercase hexadecimal digit for `n` in `0..16`.
pub open spec fn hex_digit(n: int) -> char {
    if n < 10 {
        (48 + n) as char
    } else {
        (87 + n) as char
    }
}

/// Whether `c` is a hexadecimal digit, in either case.
pub open spec fn is_hex_char(c: char) -> bool {
    let n = c as int;
    (48 <= n && n <= 57) || (65 <= n && n <= 70) || (97 <= n && n <= 102)
}

/// The value of the hexadecimal digit `c`.
pub open spec fn hex_value(c: char) -> int {
    let n = c as int;
    if n <= 57 {
        n - 48
    } else if n <= 70 {
        n - 55
    } else {
        n - 87
    }
}

/// Lowercase hexadecimal text of `bytes`: two digits per byte, high nibble first.
pub open spec fn hex_lower(bytes: Seq<u8>) -> Seq<char> {
    Seq::new(
        2 * bytes.len(),
        |i: int|
            if i % 2 == 0 {
                hex_digit(bytes[i / 2] as int / 16)
            } else {
                hex_digit(bytes[i / 2] as int % 16)
            },
    )
}

/// Whether `s` is the text of an object id: exactly 24 hexadecimal digits,
/// upper and lower case both allowed.
pub open spec fn is_object_id_hex(s: Seq<char>) -> bool {
    &&& s.len() == 24
    &&& forall|i: int| 0 <= i < s.len() ==> #[trigger] is_hex_char(s[i])
}

/// The bytes that the hexadecimal text `s` spells, two digits per byte.
pub open spec fn hex_decode(s: Seq<char>) -> Seq<u8> {
    Seq::new(
        s.len() / 2,
        |i: int| (hex_value(s[2 * i]) * 16 + hex_value(s[2 * i + 1])) as u8,
    )
}

/// `bson::oid::ObjectId::to_hex` on the id made of `bytes`
/// (`ObjectId::with_bytes`). The contract claims what bson's source does:
/// `hex::encode` of the twelve bytes, lowercase, high nibble first.
#[verifier::external_body]
fn bson_object_id_to_hex(bytes: [u8; 12]) -> (hex: String)
    ensures
        hex@ == hex_lower(bytes@),
{
    bson::oid::ObjectId::with_bytes(bytes).to_hex()
}

/// `bson::oid::ObjectId::with_string`, taken to the id's bytes. The contract
/// claims what bson's source does: `hex::decode` of the string's bytes, which
/// accepts an even number of hexadecimal digits of either case, then a check
/// that twelve bytes came out. So it succeeds exactly on 24 hexadecimal digits
/// (any other character is not an ASCII hexadecimal digit byte).
#[verifier::external_body]
fn bson_object_id_with_string(s: &str) -> (parsed: Option<[u8; 12]>)
    ensures
        parsed is Some <==> is_object_id_hex(s@),
        parsed matches Some(bytes) ==> bytes@ == hex_decode(s@),
{
    match bson::oid::ObjectId::with_string(s) {
        Ok(oid) => Some(oid.bytes()),
        Err(_) => None,
    }
}

/// A MongoDB object id: twelve bytes.
#[derive(Clone, Copy, Debug)]
pub struct ObjectId {
    pub bytes: [u8; 12],
}

impl View for ObjectId {
    type V = Seq<u8>;

    open spec fn view(&self) -> Seq<u8> {
        self.bytes@
    }
}

impl ObjectId {
    /// The id made of the given twelve bytes.
    pub fn with_bytes(bytes: [u8; 12]) -> (oid: ObjectId)
        ensures
            oid@ == bytes@,
    {
        ObjectId { bytes }
    }

    /// The 24 lowercase hexadecimal digits of this id.
    pub fn to_hex(&self) -> (hex: String)
        ensures
            hex@ == hex_lower(self@),
    {
        bson_object_id_to_hex(self.bytes)
    }

    /// Reads an id from its hexadecimal text; `None` unless `s` is exactly
    /// 24 hexadecimal digits.
    pub fn with_string(s: &str) -> (parsed: Option<ObjectId>)
        ensures
            parsed is Some <==> is_object_id_hex(s@),
            parsed matches Some(oid) ==> oid@ == hex_decode(s@),
    {
        match bson_object_id_with_string(s) {
            Some(bytes) => Some(ObjectId { bytes }),
            None => None,
        }
    }
}

/// Each digit `hex_digit` writes is a hexadecimal digit that reads back as
/// the value written.
pub proof fn lemma_hex_digit_value(n: int)
    requires
        0 <= n < 16,
    ensures
        is_hex_char(hex_digit(n)),
        hex_value(hex_digit(n)) == n,
{
}

/// The text of an id is accepted as an id, and it reads back as the same
/// twelve bytes: what `Article::_id` and `SafeUser::saved` show a client,
/// `ObjectId::with_string` (and so `get_article` and `save_item`) takes back
/// as the same object id.
pub proof fn lemma_hex_round_trip(bytes: Seq<u8>)
    requires
        bytes.len() == 12,
    ensures
        is_object_id_hex(hex_lower(bytes)),
        hex_decode(hex_lower(bytes)) == bytes,
{
    let h = hex_lower(bytes);
    assert forall|i: int| 0 <= i < h.len() implies #[trigger] is_hex_char(h[i]) by {
        if i % 2 == 0 {
            lemma_hex_digit_value(bytes[i / 2] as int / 16);
        } else {
            lemma_hex_digit_value(bytes[i / 2] as int % 16);
        }
    }
    assert forall|i: int| 0 <= i < 12 implies #[trigger] hex_decode(h)[i] == bytes[i] by {
        lemma_hex_digit_value(bytes[i] as int / 16);
        lemma_hex_digit_value(bytes[i] as int % 16);
        assert(h[2 * i] == hex_digit(bytes[i] as int / 16));
        assert(h[2 * i + 1] == hex_digit(bytes[i] as int % 16));
    }
    assert(hex_decode(h) =~= bytes);
}

} // verus!
