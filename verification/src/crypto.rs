//! The virtual HSM interface that seals volume keys, its pass-through
//! implementation, and the errors that sealing reports.
use vstd::prelude::*;

verus! {

/// `openssl::error::ErrorStack`, the error of every OpenSSL call used here.
#[verifier::external_type_specification]
#[verifier::external_body]
pub struct ExErrorStack(openssl::error::ErrorStack);

/// What sealing or unsealing a key can fail with.
#[derive(Debug)]
pub enum CryptoError {
    InvalidKey,
    UnableToEncrypt(String),
    UnableToDecrypt(String),
}

/// The text that an error is shown as.
pub open spec fn crypto_error_text(e: CryptoError) -> Seq<char> {
    match e {
        CryptoError::InvalidKey => "Invalid Key"@,
        _ => "Unknown"@,
    }
}

impl CryptoError {
    /// The text that this error is shown as: "Invalid Key", else "Unknown".
    pub fn to_string(&self) -> (r: String)
        ensures
            r@ == crypto_error_text(*self),
    {
        match self {
            CryptoError::InvalidKey => "Invalid Key".to_string(),
            _ => "Unknown".to_string(),
        }
    }
}

pub type Blob = Vec<u8>;

pub type CryptoResult<T> = Result<T, CryptoError>;

/// A device (or service) that seals and unseals volume keys and hands out
/// random key material.
pub trait VirtualHSM: Send + Sync {
    fn encrypt(&self, blob: Blob) -> CryptoResult<Blob>;

    fn decrypt(&self, blob: Blob) -> CryptoResult<Blob>;

    fn random_bytes(&self) -> CryptoResult<Blob>;
}

/// The number of random bytes that the pass-through HSM hands out as a key.
pub const DUMMY_KEY_LEN: usize = 1024;

/// What the pass-through HSM makes of a blob when it seals it: the blob itself.
pub open spec fn dummy_seal(blob: Seq<u8>) -> Seq<u8> {
    blob
}

/// What the pass-through HSM makes of a sealed blob when it unseals it.
pub open spec fn dummy_unseal(blob: Seq<u8>) -> Seq<u8> {
    blob
}

/// Unsealing what the pass-through HSM sealed gives the blob back unchanged.
pub proof fn lemma_dummy_round_trip(blob: Seq<u8>)
    ensures
        dummy_unseal(dummy_seal(blob)) == blob,
{
}

/// An HSM that keeps keys as they are: for hosts without a hardware or
/// remote HSM.
pub struct DummyHSM {}

impl DummyHSM {
    pub fn new() -> (h: Self)
        ensures
            h == (DummyHSM {}),
    {
        DummyHSM {}
    }
}

impl VirtualHSM for DummyHSM {
    fn encrypt(&self, blob: Blob) -> (r: CryptoResult<Blob>)
        ensures
            r matches Ok(b) && b@ == dummy_seal(blob@),
    {
        Ok(blob)
    }

    fn decrypt(&self, blob: Blob) -> (r: CryptoResult<Blob>)
        ensures
            r matches Ok(b) && b@ == dummy_unseal(blob@),
    {
        Ok(blob)
    }

    fn random_bytes(&self) -> (r: CryptoResult<Blob>)
        ensures
            r matches Ok(b) ==> b@.len() == DUMMY_KEY_LEN,
            r is Err ==> r matches Err(CryptoError::UnableToEncrypt(_)),
    {
        random_blob(DUMMY_KEY_LEN)
    }
}

/// `len` fresh random bytes; an OpenSSL failure is reported as
/// `UnableToEncrypt`, with OpenSSL's description of it.
pub fn random_blob(len: usize) -> (r: CryptoResult<Blob>)
    requires
        len <= i32::MAX,
    ensures
        r matches Ok(b) ==> b@.len() == len,
        r is Err ==> r matches Err(CryptoError::UnableToEncrypt(_)),
{
    let mut buf: Vec<u8> = vec![0u8; len];
    let filled = fill_random(&mut buf);
    random_result(buf, filled)
}

/// The key material once the random generator has filled the buffer: the
/// buffer where it succeeded, else `UnableToEncrypt` with OpenSSL's
/// description of the failure.
pub fn random_result(buf: Vec<u8>, filled: Result<(), openssl::error::ErrorStack>) -> (r: CryptoResult<Blob>)
    ensures
        filled is Ok ==> r == Ok::<Blob, CryptoError>(buf),
        filled is Err ==> r matches Err(CryptoError::UnableToEncrypt(_)),
{
    match filled {
        Ok(()) => Ok(buf),
        Err(e) => Err(CryptoError::UnableToEncrypt(error_stack_text(&e))),
    }
}

/// Calls `openssl::rand::rand_bytes`, which overwrites every byte of the
/// buffer with cryptographically strong random bytes; the length stays. The
/// bytes themselves are chance and nothing is said of them. OpenSSL asserts
/// that the length fits a C `int`.
#[verifier::external_body]
pub(crate) fn fill_random(buf: &mut Vec<u8>) -> (r: Result<(), openssl::error::ErrorStack>)
    requires
        old(buf)@.len() <= i32::MAX,
    ensures
        final(buf)@.len() == old(buf)@.len(),
{
    openssl::rand::rand_bytes(buf.as_mut_slice())
}

/// The `Debug` text of an OpenSSL error stack (`format!("{:?}", e)`); what
/// OpenSSL puts in it is not stated.
#[verifier::external_body]
pub fn error_stack_text(e: &openssl::error::ErrorStack) -> String {
    format!("{:?}", e)
}

} // verus!
