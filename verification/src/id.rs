//! Subscription ids: `0x` followed by the lower-case hex digits of 16 random
//! bytes.

use rand::Rng;
use vstd::prelude::*;

use crate::macros::push_char;

verus! {

/// `hex::FromHexError`, returned by the hex encoder on a wrong buffer size.
#[verifier::external_type_specification]
#[verifier::external_body]
pub struct ExFromHexError(hex::FromHexError);

/// The lower-case hex digit (as an ASCII byte) for a value below 16.
pub open spec fn hex_digit(v: u8) -> u8 {
    if v < 10 {
        (48 + v) as u8
    } else {
        (87 + v) as u8
    }
}

/// Lower-case hex encoding: two ASCII digits per byte, high half first.
pub open spec fn hex_lower(bytes: Seq<u8>) -> Seq<u8> {
    Seq::new(
        2 * bytes.len(),
        |i: int|
            if i % 2 == 0 {
                hex_digit(bytes[i / 2] / 16)
            } else {
                hex_digit(bytes[i / 2] % 16)
            },
    )
}

/// The characters of ASCII bytes.
pub open spec fn ascii_chars(bytes: Seq<u8>) -> Seq<char> {
    Seq::new(bytes.len(), |i: int| bytes[i] as char)
}

/// The subscription id made from `bytes`.
pub open spec fn id_text(bytes: Seq<u8>) -> Seq<char> {
    seq!['0', 'x'] + ascii_chars(hex_lower(bytes))
}

/// Number of random bytes in a subscription id.
pub const ID_BYTES: usize = 16;

/// `rand::thread_rng().gen::<[u8; 16]>()`: 16 random bytes. Nothing is
/// claimed of their values.
#[verifier::external_body]
fn random_id_bytes() -> (r: Vec<u8>)
    ensures
        r@.len() == ID_BYTES,
{
    rand::thread_rng().gen::<[u8; 16]>().to_vec()
}

/// `hex::encode_to_slice`: where `output` holds exactly twice as many bytes
/// as `input`, fills it with the lower-case hex digits of `input`; otherwise
/// fails and leaves `output` as it was.
#[verifier::external_body]
fn hex_encode_to_slice(input: &[u8], output: &mut Vec<u8>) -> (r: Result<(), hex::FromHexError>)
    ensures
        old(output)@.len() == 2 * input@.len() ==> r is Ok && final(output)@ == hex_lower(input@),
        old(output)@.len() != 2 * input@.len() ==> r is Err && final(output)@ == old(output)@,
{
    hex::encode_to_slice(input, output.as_mut_slice())
}

/// The subscription id for the given id bytes: `0x` and their lower-case
/// hex digits.
pub fn format_id(bytes: &[u8]) -> (id: String)
    requires
        bytes@.len() <= usize::MAX / 2,
    ensures
        id@ == id_text(bytes@),
{
    let mut hex_bytes = vec![0u8; bytes.len() * 2];
    let encoded = hex_encode_to_slice(bytes, &mut hex_bytes);
    let ghost digits = hex_lower(bytes@);
    // The buffer has exactly the size the encoder asks for.
    assert(encoded is Ok && hex_bytes@ == digits);
    let mut id = String::new();
    id.append("0x");
    proof {
        reveal_strlit("0x");
    }
    let n = hex_bytes.len();
    for i in 0..n
        invariant
            n == hex_bytes@.len(),
            hex_bytes@ == digits,
            id@ == seq!['0', 'x'] + ascii_chars(digits.take(i as int)),
    {
        let b = hex_bytes[i];
        push_char(&mut id, b as char);
        proof {
            assert(ascii_chars(digits.take(i + 1)) =~= ascii_chars(digits.take(i as int)).push(b as char));
        }
    }
    proof {
        assert(digits.take(n as int) =~= digits);
    }
    id
}

/// A fresh subscription id: `0x` and the hex digits of 16 random bytes.
pub fn generate_id() -> (id: String)
    ensures
        exists|bytes: Seq<u8>| bytes.len() == ID_BYTES && id@ == id_text(bytes),
{
    let bytes = random_id_bytes();
    format_id(bytes.as_slice())
}

/// An id is 34 ASCII characters: `0x` and 32 lower-case hex digits.
pub proof fn lemma_id_shape(bytes: Seq<u8>)
    requires
        bytes.len() == ID_BYTES,
    ensures
        id_text(bytes).len() == 34,
        id_text(bytes)[0] == '0' && id_text(bytes)[1] == 'x',
        forall|i: int|
            2 <= i < 34 ==> ('0' <= #[trigger] id_text(bytes)[i] <= '9' || 'a' <= id_text(bytes)[i] <= 'f'),
{
    assert forall|i: int| 2 <= i < 34 implies ('0' <= #[trigger] id_text(bytes)[i] <= '9' || 'a' <= id_text(bytes)[i] <= 'f') by {
        let j = i - 2;
        let b = bytes[j / 2];
        assert(b / 16 < 16 && b % 16 < 16);
        assert(id_text(bytes)[i] == hex_lower(bytes)[j] as char);
    }
}

} // verus!
