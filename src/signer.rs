//! Signing with an ECDSA P-256 key in low-S form.
use vstd::prelude::*;
use vstd::utf8::*;
use crate::crypto::utf8_text;
use crate::error::CryptoError;

verus! {

/// The secret scalar of a PKCS#8 PEM P-256 private key, if it is one.
pub uninterp spec fn pkcs8_secret_key(pem: Seq<char>) -> Option<Seq<u8>>;

/// The 64-byte `r || s` ECDSA signature of SHA-256 of `msg` (RFC 6979 nonce).
pub uninterp spec fn ecdsa_p256_sign(secret: Seq<u8>, msg: Seq<u8>) -> Option<Seq<u8>>;

/// The low-S form of an `r || s` signature whose `s` is high; `None` otherwise.
pub uninterp spec fn normalized_s(sig: Seq<u8>) -> Option<Seq<u8>>;

/// `b` without leading zero bytes, keeping at least one byte.
pub open spec fn strip_zeros(b: Seq<u8>) -> Seq<u8>
    decreases b.len(),
{
    if b.len() > 1 && b[0] == 0 {
        strip_zeros(b.drop_first())
    } else {
        b
    }
}

/// A DER INTEGER holding the unsigned big-endian value `b`: minimal, with a
/// zero byte in front where the first byte has its high bit set.
pub open spec fn der_uint(b: Seq<u8>) -> Seq<u8> {
    let v = strip_zeros(b);
    let content = if v.len() > 0 && v[0] >= 0x80 {
        seq![0u8] + v
    } else {
        v
    };
    seq![0x02u8, content.len() as u8] + content
}

/// The DER encoding of an `r || s` signature: a SEQUENCE of the two INTEGERs.
pub open spec fn der_encoding(sig: Seq<u8>) -> Seq<u8> {
    let body = der_uint(sig.subrange(0, 32)) + der_uint(sig.subrange(32, 64));
    seq![0x30u8, body.len() as u8] + body
}

/// The order `n` of the P-256 group.
pub open spec fn curve_order() -> nat {
    115792089210356248762697446949407573529996955224135760342422259061068512044369nat
}

/// Half the group order, rounded down: an `s` above it is high.
pub open spec fn half_order() -> nat {
    57896044605178124381348723474703786764998477612067880171211129530534256022184nat
}

/// The unsigned big-endian value of `b`.
pub open spec fn big_endian(b: Seq<u8>) -> nat
    decreases b.len(),
{
    if b.len() == 0 {
        0
    } else {
        big_endian(b.drop_last()) * 256 + b.last() as nat
    }
}

/// The `s` scalar of an `r || s` signature.
pub open spec fn s_scalar(sig: Seq<u8>) -> nat {
    big_endian(sig.subrange(32, 64))
}

/// The `r` scalar of an `r || s` signature.
pub open spec fn r_scalar(sig: Seq<u8>) -> nat {
    big_endian(sig.subrange(0, 32))
}

/// 64 bytes whose `r` and `s` are both non-zero and below `n`.
pub open spec fn scalar_pair(sig: Seq<u8>) -> bool {
    &&& sig.len() == 64
    &&& 0 < r_scalar(sig) < curve_order()
    &&& 0 < s_scalar(sig) < curve_order()
}

/// A signature in low-S form.
pub open spec fn low_s_form(sig: Seq<u8>) -> bool {
    scalar_pair(sig) && s_scalar(sig) <= half_order()
}

/// Relies on `SigningKey::from_pkcs8_pem` (p256) and `SigningKey::to_bytes`:
/// reads a PKCS#8 PEM private key and hands back its secret scalar.
#[verifier::external_body]
fn secret_key_from_pem(pem: &str) -> (r: Option<Vec<u8>>)
    ensures
        match pkcs8_secret_key(pem@) {
            Some(k) => r matches Some(v) && v@ == k,
            None => r is None,
        },
{
    match <p256::ecdsa::SigningKey as p256::pkcs8::DecodePrivateKey>::from_pkcs8_pem(pem) {
        Ok(key) => Some(key.to_bytes().to_vec()),
        Err(_) => None,
    }
}

/// The secret scalar of a SEC1 PEM ("EC PRIVATE KEY") P-256 key, if it is one.
pub uninterp spec fn sec1_secret_key(pem: Seq<char>) -> Option<Seq<u8>>;

/// Relies on `SecretKey::from_sec1_pem` (elliptic-curve, through p256) and
/// `SecretKey::to_bytes`: reads a SEC1 PEM private key and hands back its
/// secret scalar.
#[verifier::external_body]
fn secret_key_from_sec1_pem(pem: &str) -> (r: Option<Vec<u8>>)
    ensures
        match sec1_secret_key(pem@) {
            Some(k) => r matches Some(v) && v@ == k,
            None => r is None,
        },
{
    match p256::SecretKey::from_sec1_pem(pem) {
        Ok(key) => Some(key.to_bytes().to_vec()),
        Err(_) => None,
    }
}

/// Relies on `SigningKey::from_slice` and `Signer::try_sign` (p256, SHA-256
/// digest, RFC 6979 nonce) and `Signature::to_bytes`: the `r || s` signature,
/// 32 big-endian bytes each, both scalars non-zero and below `n`.
#[verifier::external_body]
fn sign_p256(secret: &[u8], msg: &[u8]) -> (r: Option<Vec<u8>>)
    ensures
        match ecdsa_p256_sign(secret@, msg@) {
            Some(sig) => r matches Some(v) && v@ == sig,
            None => r is None,
        },
        r matches Some(v) ==> scalar_pair(v@),
{
    let key = match p256::ecdsa::SigningKey::from_slice(secret) {
        Ok(key) => key,
        Err(_) => return None,
    };
    match <p256::ecdsa::SigningKey as p256::ecdsa::signature::Signer<
        p256::ecdsa::Signature,
    >>::try_sign(&key, msg) {
        Ok(sig) => Some(sig.to_bytes().to_vec()),
        Err(_) => None,
    }
}

/// Relies on `Signature::from_slice`, `Signature::normalize_s` and
/// `Signature::to_bytes`: for a valid `r || s` whose `s` is above half the
/// order, the same `r` with `n - s`; `None` when `s` is not high, and for
/// bytes that are no valid signature.
#[verifier::external_body]
fn normalize_s(sig: &[u8]) -> (r: Option<Vec<u8>>)
    ensures
        match normalized_s(sig@) {
            Some(n) => r matches Some(v) && v@ == n,
            None => r is None,
        },
        r is Some <==> (scalar_pair(sig@) && s_scalar(sig@) > half_order()),
        r matches Some(v) ==> v@.len() == 64 && v@.subrange(0, 32) == sig@.subrange(0, 32)
            && s_scalar(v@) == curve_order() - s_scalar(sig@),
        r matches Some(v) ==> low_s_form(v@),
{
    match p256::ecdsa::Signature::from_slice(sig) {
        Ok(s) => s.normalize_s().map(|n| n.to_bytes().to_vec()),
        Err(_) => None,
    }
}

/// Relies on `Signature::from_slice` and `Signature::to_der` (ecdsa's
/// `der::Signature::from_components`, with der's `UintRef` encoding): for a
/// valid `r || s`, the DER SEQUENCE of the two INTEGERs; `None` for bytes
/// that are no valid signature.
#[verifier::external_body]
fn signature_der(sig: &[u8]) -> (r: Option<Vec<u8>>)
    ensures
        r is Some <==> scalar_pair(sig@),
        r matches Some(v) ==> v@ == der_encoding(sig@),
{
    match p256::ecdsa::Signature::from_slice(sig) {
        Ok(s) => Some(s.to_der().as_bytes().to_vec()),
        Err(_) => None,
    }
}

/// The secret scalar of a key given as PEM text bytes.
pub open spec fn signing_secret(pkey: Seq<u8>) -> Option<Seq<u8>> {
    if valid_utf8(pkey) {
        match pkcs8_secret_key(decode_utf8(pkey)) {
            Some(k) => Some(k),
            None => sec1_secret_key(decode_utf8(pkey)),
        }
    } else {
        None
    }
}

/// A signature with its `s` moved to the lower half of the curve order.
pub open spec fn low_s(sig: Seq<u8>) -> Seq<u8> {
    match normalized_s(sig) {
        Some(n) => n,
        None => sig,
    }
}

/// The DER-encoded low-S signature of `msg` under the key `pkey`.
pub open spec fn signature_of(pkey: Seq<u8>, msg: Seq<u8>) -> Option<Seq<u8>> {
    match signing_secret(pkey) {
        Some(secret) => match ecdsa_p256_sign(secret, msg) {
            Some(sig) => if scalar_pair(low_s(sig)) {
                Some(der_encoding(low_s(sig)))
            } else {
                None
            },
            None => None,
        },
        None => None,
    }
}

/// Holds the PEM bytes of an ECDSA P-256 private key, PKCS#8 or SEC1.
#[derive(Clone, Debug)]
pub struct Signer {
    pub pkey: Vec<u8>,
}

impl Signer {
    pub fn new(pkey: Vec<u8>) -> (r: Signer)
        ensures
            r.pkey@ == pkey@,
    {
        Signer { pkey }
    }

    /// Signs SHA-256 of `message` with ECDSA, in low-S form, DER-encoded.
    /// What it returns is the DER encoding of a signature whose `s` is at
    /// most half the group order.
    pub fn sign_message(&self, message: &[u8]) -> (r: Result<Vec<u8>, CryptoError>)
        ensures
            match signature_of(self.pkey@, message@) {
                Some(d) => r matches Ok(v) && v@ == d,
                None => r is Err,
            },
            signing_secret(self.pkey@) is None ==> r == Err::<Vec<u8>, CryptoError>(
                CryptoError::MalformedKey,
            ),
            r is Ok ==> exists|x: Seq<u8>| low_s_form(x) && #[trigger] der_encoding(x) == r->Ok_0@,
    {
        let pem = match utf8_text(self.pkey.as_slice()) {
            Some(pem) => pem,
            None => return Err(CryptoError::MalformedKey),
        };
        let secret = match secret_key_from_pem(pem.as_str()) {
            Some(secret) => secret,
            None => match secret_key_from_sec1_pem(pem.as_str()) {
                Some(secret) => secret,
                None => return Err(CryptoError::MalformedKey),
            },
        };
        let sig = match sign_p256(secret.as_slice(), message) {
            Some(sig) => sig,
            None => return Err(CryptoError::SigningFailed),
        };
        let sig = match normalize_s(sig.as_slice()) {
            Some(low) => low,
            None => sig,
        };
        assert(low_s_form(sig@));
        match signature_der(sig.as_slice()) {
            Some(der) => Ok(der),
            None => Err(CryptoError::SigningFailed),
        }
    }
}

} // verus!
