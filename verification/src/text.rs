//! Text helpers: comparison, hexadecimal and UUID renderings.

use vstd::prelude::*;

verus! {

/// Compares two string slices character by character.
pub fn same_text(a: &str, b: &str) -> (res: bool)
    ensures
        res == (a@ == b@),
{
    let n = a.unicode_len();
    let m = b.unicode_len();
    if n != m {
        return false;
    }
    let mut i: usize = 0;
    while i < n
        invariant
            n == a@.len(),
            m == b@.len(),
            n == m,
            i <= n,
            forall|j: int| 0 <= j < i ==> a@[j] == b@[j],
        decreases n - i,
    {
        if a.get_char(i) != b.get_char(i) {
            return false;
        }
        i = i + 1;
    }
    assert(a@ =~= b@);
    true
}


/// The sixteen lowercase hexadecimal digits, in order of value.
pub open spec fn hex_alphabet() -> Seq<char> {
    seq!['0', '1', '2', '3', '4', '5', '6', '7', '8', '9', 'a', 'b', 'c', 'd', 'e', 'f']
}

/// Lowercase hexadecimal rendering: two digits per byte, high nibble first.
pub open spec fn hex_lower(bytes: Seq<u8>) -> Seq<char>
    decreases bytes.len(),
{
    if bytes.len() == 0 {
        Seq::empty()
    } else {
        let b = bytes.last();
        hex_lower(bytes.drop_last()) + seq![hex_alphabet()[(b / 16) as int], hex_alphabet()[(b % 16) as int]]
    }
}

/// Every character is a lowercase hexadecimal digit.
pub open spec fn is_lower_hex(s: Seq<char>) -> bool {
    forall|i: int| 0 <= i < s.len() ==> hex_alphabet().contains(#[trigger] s[i])
}

/// The sixteen bytes of a 128-bit identifier, most significant first.
pub open spec fn be_bytes(id: u128) -> Seq<u8> {
    Seq::new(16, |i: int| ((id >> ((120 - 8 * i) as u128)) & 0xff) as u8)
}

/// The hyphenated lowercase form of a UUID: 8-4-4-4-12 hexadecimal digits.
pub open spec fn uuid_text_of(id: u128) -> Seq<char> {
    let h = hex_lower(be_bytes(id));
    h.subrange(0, 8) + seq!['-'] + h.subrange(8, 12) + seq!['-'] + h.subrange(12, 16) + seq!['-']
        + h.subrange(16, 20) + seq!['-'] + h.subrange(20, 32)
}

/// A hexadecimal rendering has two digits per byte, all lowercase.
pub proof fn lemma_hex_lower(bytes: Seq<u8>)
    ensures
        hex_lower(bytes).len() == 2 * bytes.len(),
        is_lower_hex(hex_lower(bytes)),
    decreases bytes.len(),
{
    if bytes.len() > 0 {
        lemma_hex_lower(bytes.drop_last());
        let b = bytes.last();
        let prev = hex_lower(bytes.drop_last());
        let tail = seq![hex_alphabet()[(b / 16) as int], hex_alphabet()[(b % 16) as int]];
        assert(hex_alphabet().contains(hex_alphabet()[(b / 16) as int]));
        assert(hex_alphabet().contains(hex_alphabet()[(b % 16) as int]));
        assert forall|i: int| 0 <= i < hex_lower(bytes).len() implies hex_alphabet().contains(
            #[trigger] hex_lower(bytes)[i],
        ) by {
            if i < prev.len() {
                assert(hex_lower(bytes)[i] == prev[i]);
            } else {
                assert(hex_lower(bytes)[i] == tail[i - prev.len()]);
            }
        }
    }
}

/// `hex::encode`: the bytes rendered as lowercase hexadecimal, two digits per
/// byte, high nibble first (as the crate documents). Trusted.
#[verifier::external_body]
pub(crate) fn hex_encode(bytes: &[u8]) -> (res: String)
    ensures
        res@ == hex_lower(bytes@),
{
    hex::encode(bytes)
}

/// `uuid::Uuid::from_u128(id).to_string()`: the `Display` form of the UUID
/// with this big-endian value, which the crate writes as the hyphenated
/// lowercase hexadecimal form. Trusted.
#[verifier::external_body]
pub(crate) fn uuid_text(id: u128) -> (res: String)
    ensures
        res@ == uuid_text_of(id),
{
    uuid::Uuid::from_u128(id).to_string()
}

} // verus!
