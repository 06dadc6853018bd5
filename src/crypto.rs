//! Digests, hex text, random bytes and UTF-8 text, and the transaction id
//! built from them.
use vstd::prelude::*;
use vstd::utf8::*;

verus! {

/// Length of a SHA-256 digest in bytes.
pub const DIGEST_LEN: usize = 32;

/// The SHA-256 digest of `data`.
pub uninterp spec fn sha256_of(data: Seq<u8>) -> Seq<u8>;

/// Relies on `sha2::Sha256::digest`: the SHA-256 digest of the data, 32 bytes long.
#[verifier::external_body]
pub(crate) fn sha256(data: &[u8]) -> (r: Vec<u8>)
    ensures
        r@ == sha256_of(data@),
        r@.len() == DIGEST_LEN,
{
    <sha2::Sha256 as sha2::Digest>::digest(data).to_vec()
}

/// The lower-case hexadecimal digit for a value below 16.
pub open spec fn hex_digit(n: u8) -> char {
    if n < 10 {
        (48 + n) as char
    } else {
        (87 + n) as char
    }
}

/// Two lower-case hexadecimal digits per byte, high nibble first.
pub open spec fn lower_hex(b: Seq<u8>) -> Seq<char>
    decreases b.len(),
{
    if b.len() == 0 {
        seq![]
    } else {
        seq![hex_digit(b[0] / 16), hex_digit(b[0] % 16)] + lower_hex(b.drop_first())
    }
}

/// Relies on `hex::encode`: two lower-case hexadecimal digits per byte, high nibble first.
#[verifier::external_body]
pub(crate) fn hex_encode(b: &[u8]) -> (r: String)
    ensures
        r@ == lower_hex(b@),
{
    hex::encode(b)
}

/// Relies on `getrandom::getrandom`: fills `len` bytes from the system's random source.
#[verifier::external_body]
pub(crate) fn random_bytes(len: usize) -> (r: Option<Vec<u8>>)
    ensures
        r matches Some(b) ==> b@.len() == len,
{
    let mut b = vec![0u8; len];
    match getrandom::getrandom(&mut b) {
        Ok(()) => Some(b),
        Err(_) => None,
    }
}

/// Relies on `std::str::from_utf8`: it accepts exactly the valid UTF-8 byte strings.
#[verifier::external_body]
pub(crate) fn utf8_text(b: &[u8]) -> (r: Option<String>)
    ensures
        r is Some <==> valid_utf8(b@),
        r matches Some(s) ==> s@ == decode_utf8(b@),
{
    match std::str::from_utf8(b) {
        Ok(s) => Some(s.to_string()),
        Err(_) => None,
    }
}

/// The bytes of a string in UTF-8.
pub fn text_bytes(s: &String) -> (r: Vec<u8>)
    ensures
        r@ == encode_utf8(s@),
{
    let b = s.as_str().as_bytes();
    let mut out: Vec<u8> = Vec::new();
    out.extend_from_slice(b);
    proof {
        assert(out@ =~= b@);
    }
    out
}

/// The transaction id of a nonce and a serialized creator.
pub open spec fn transaction_id_of(nonce: Seq<u8>, creator: Seq<u8>) -> Seq<char> {
    lower_hex(sha256_of(nonce + creator))
}

/// Lower-case hex of SHA-256 over the nonce followed by the creator.
pub fn generate_transaction_id(nonce: &[u8], creator: &[u8]) -> (r: String)
    ensures
        r@ == transaction_id_of(nonce@, creator@),
{
    let mut salted: Vec<u8> = Vec::new();
    salted.extend_from_slice(nonce);
    salted.extend_from_slice(creator);
    proof {
        assert(salted@ =~= nonce@ + creator@);
    }
    let digest = sha256(salted.as_slice());
    hex_encode(digest.as_slice())
}

} // verus!
