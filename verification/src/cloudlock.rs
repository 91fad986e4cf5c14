//! The CloudLock HSM: keys are sealed locally, as PKCS#7 for the service's
//! certificate, and unsealed by the CloudLock service. This module holds
//! what the HSM computes; the HTTP exchanges are the caller's to make.
use vstd::prelude::*;
use crate::codec::{decode_base64, decode_error_text, encode_base64};
use vstd::string::StrSliceExecFns;
use crate::crypto::{error_stack_text, random_blob, Blob, CryptoError, CryptoResult};
use crate::text::{concat, concat3, concat4, concat5, lemma_prefix_of_concat};

verus! {

/// `url::ParseError`.
#[verifier::external_type_specification]
#[verifier::external_body]
pub struct ExUrlParseError(url::ParseError);

/// `openssl::x509::X509`.
#[verifier::external_type_specification]
#[verifier::external_body]
pub struct ExX509(openssl::x509::X509);

/// `openssl::pkcs7::Pkcs7`.
#[verifier::external_type_specification]
#[verifier::external_body]
pub struct ExPkcs7(openssl::pkcs7::Pkcs7);

/// A stack of certificates (`openssl::stack::Stack<X509>`), held whole:
/// the generic stack cannot be declared as an outside type, its bound being
/// an OpenSSL trait.
#[verifier::external_body]
pub struct CertStack {
    stack: openssl::stack::Stack<openssl::x509::X509>,
}

/// The body that CloudLock exchanges: Base64 text.
#[derive(Debug, PartialEq)]
pub struct CloudLockPayload {
    pub data: String,
}

/// CloudLock's configuration: the PEM text of the certificate that keys
/// are sealed for.
#[derive(Debug, PartialEq)]
pub struct CloudLockConfig {
    pub cert_pem: String,
}

/// The serialization of the URL that `url::Url::parse` makes of the text:
/// `None` where it fails.
pub uninterp spec fn url_parse(text: Seq<char>) -> Option<Seq<char>>;

/// The serialization of the URL that `url::Url::join` makes of `input`
/// against the URL parsed from `base`: `None` where either fails.
pub uninterp spec fn url_join(base: Seq<char>, input: Seq<char>) -> Option<Seq<char>>;

/// The `Debug` text of a string (`format!("{:?}", s)`): the string quoted,
/// with its special characters escaped.
pub uninterp spec fn debug_quoted(s: Seq<char>) -> Seq<char>;

/// Calls `url::Url::parse` and keeps the URL's serialization
/// (`String::from(url)`): it fails exactly where the name says `None`.
#[verifier::external_body]
fn parse_url(text: &str) -> (r: Result<String, url::ParseError>)
    ensures
        r is Ok <==> url_parse(text@) is Some,
        r matches Ok(u) ==> Some(u@) == url_parse(text@),
{
    url::Url::parse(text).map(String::from)
}

/// Calls `url::Url::join` on the URL that `base` (a serialization that
/// `url::Url::parse` gave) stands for, and keeps the serialization of the
/// result: it fails exactly where the name says `None`.
#[verifier::external_body]
fn join_url(base: &str, input: &str) -> (r: Result<String, url::ParseError>)
    ensures
        r is Ok <==> url_join(base@, input@) is Some,
        r matches Ok(u) ==> Some(u@) == url_join(base@, input@),
{
    url::Url::parse(base).and_then(|b| b.join(input)).map(String::from)
}

/// The `Debug` text of a URL error; its wording is the crate's.
#[verifier::external_body]
fn url_error_text(e: &url::ParseError) -> String {
    format!("{:?}", e)
}

/// The `Debug` text of a string, as `format!("{:?}", s)` writes it.
#[verifier::external_body]
fn quoted(s: &str) -> (r: String)
    ensures
        r@ == debug_quoted(s@),
{
    format!("{:?}", s)
}

/// Whether `openssl::x509::X509::from_pem` accepts the bytes as a PEM
/// certificate.
pub uninterp spec fn x509_pem_accepted(pem: Seq<u8>) -> bool;

/// Whether `openssl::pkcs7::Pkcs7::from_pem` accepts the bytes as PEM PKCS#7.
pub uninterp spec fn pkcs7_pem_accepted(pem: Seq<u8>) -> bool;

/// Calls `openssl::x509::X509::from_pem`, which parses a PEM certificate: it
/// succeeds exactly where the name says so, which bytes that are is OpenSSL's; OpenSSL asserts that the
/// length fits a C `int`.
#[verifier::external_body]
fn x509_from_pem(pem: &[u8]) -> (r: Result<openssl::x509::X509, openssl::error::ErrorStack>)
    requires
        pem@.len() <= i32::MAX,
    ensures
        r is Ok <==> x509_pem_accepted(pem@),
{
    openssl::x509::X509::from_pem(pem)
}

/// Calls `Clone::clone` on a certificate (OpenSSL shares it by reference count).
#[verifier::external_body]
fn clone_cert(cert: &openssl::x509::X509) -> openssl::x509::X509 {
    cert.clone()
}

/// How many certificates a stack holds.
pub uninterp spec fn cert_stack_len(certs: CertStack) -> nat;

/// Calls `openssl::stack::Stack::new`, an empty stack of certificates.
#[verifier::external_body]
fn new_cert_stack() -> (r: Result<CertStack, openssl::error::ErrorStack>)
    ensures
        r matches Ok(s) ==> cert_stack_len(s) == 0,
{
    openssl::stack::Stack::new().map(|stack| CertStack { stack })
}

/// Calls `openssl::stack::StackRef::push`, which appends the certificate:
/// one more on success; on failure the certificate is dropped and the stack
/// stays as it was.
#[verifier::external_body]
fn push_cert(
    certs: &mut CertStack,
    cert: openssl::x509::X509,
) -> (r: Result<(), openssl::error::ErrorStack>)
    ensures
        r is Ok ==> cert_stack_len(*final(certs)) == cert_stack_len(*old(certs)) + 1,
        r is Err ==> cert_stack_len(*final(certs)) == cert_stack_len(*old(certs)),
{
    certs.stack.push(cert)
}

/// The symmetric cipher that sealing uses.
#[derive(Debug, Clone, Copy, PartialEq, Eq, Structural)]
pub enum SealCipher {
    Aes256Cbc,
}

/// The PKCS#7 flags that sealing passes.
#[derive(Debug, Clone, Copy, PartialEq, Eq, Structural)]
pub enum SealFlags {
    Empty,
}

/// Calls `openssl::pkcs7::Pkcs7::encrypt`, which seals the input for the
/// certificates with a fresh symmetric key: the result is chance and is not
/// stated. The cipher and flags are converted to OpenSSL's
/// (`Cipher::aes_256_cbc`, `Pkcs7Flags::empty`). OpenSSL asserts that the
/// input length fits a C `int`.
#[verifier::external_body]
fn pkcs7_encrypt(
    certs: &CertStack,
    input: &[u8],
    cipher: SealCipher,
    flags: SealFlags,
) -> (r: Result<openssl::pkcs7::Pkcs7, openssl::error::ErrorStack>)
    requires
        input@.len() <= i32::MAX,
        cert_stack_len(*certs) == 1,
{
    let cipher = match cipher {
        SealCipher::Aes256Cbc => openssl::symm::Cipher::aes_256_cbc(),
    };
    let flags = match flags {
        SealFlags::Empty => openssl::pkcs7::Pkcs7Flags::empty(),
    };
    openssl::pkcs7::Pkcs7::encrypt(&certs.stack, input, cipher, flags)
}

/// The bytes of the header that PEM-encoded PKCS#7 begins with,
/// `-----BEGIN PKCS7-----`.
pub open spec fn pkcs7_pem_header() -> Seq<u8> {
    Seq::new(21, |i: int| "-----BEGIN PKCS7-----"@[i] as u8)
}

/// Calls `openssl::pkcs7::Pkcs7Ref::to_pem`, the PEM text of the structure,
/// which the crate documents to begin with the header `-----BEGIN PKCS7-----`.
#[verifier::external_body]
fn pkcs7_to_pem(p: &openssl::pkcs7::Pkcs7) -> (r: Result<Vec<u8>, openssl::error::ErrorStack>)
    ensures
        r matches Ok(v) ==> pkcs7_pem_header().is_prefix_of(v@),
{
    p.to_pem()
}

/// `pem` is what OpenSSL gave for sealing `input` with `pkcs7_encrypt` for
/// the one certificate of `certs`, with AES-256-CBC and no flags, and
/// writing the result as PEM with `pkcs7_to_pem`: a possible outcome of
/// those two calls (`call_ensures`), which only making them establishes.
pub closed spec fn sealing_step(
    certs: &CertStack,
    input: &[u8],
    p: &openssl::pkcs7::Pkcs7,
    pem: Vec<u8>,
) -> bool {
    &&& cert_stack_len(*certs) == 1
    &&& call_ensures(
        pkcs7_encrypt,
        (certs, input, SealCipher::Aes256Cbc, SealFlags::Empty),
        Ok::<openssl::pkcs7::Pkcs7, openssl::error::ErrorStack>(*p),
    )
    &&& call_ensures(pkcs7_to_pem, (p,), Ok::<Vec<u8>, openssl::error::ErrorStack>(pem))
}

/// `pem` seals exactly the bytes `content`: some sealing of an input whose
/// bytes are `content` gave it.
pub open spec fn is_sealing_of(pem: Vec<u8>, content: Seq<u8>) -> bool {
    exists|certs: &CertStack, input: &[u8], p: &openssl::pkcs7::Pkcs7|
        #![trigger sealing_step(certs, input, p, pem)]
        input@ == content && sealing_step(certs, input, p, pem)
}

/// Calls `openssl::pkcs7::Pkcs7::from_pem`, which parses PEM PKCS#7: it
/// succeeds exactly where the name says so, which bytes that are is
/// OpenSSL's. OpenSSL asserts that the length fits a C `int`.
#[verifier::external_body]
fn pkcs7_from_pem(pem: &[u8]) -> (r: Result<openssl::pkcs7::Pkcs7, openssl::error::ErrorStack>)
    requires
        pem@.len() <= i32::MAX,
    ensures
        r is Ok <==> pkcs7_pem_accepted(pem@),
{
    openssl::pkcs7::Pkcs7::from_pem(pem)
}

/// The bytes that sealing a blob encrypts: its padded Base64 text.
pub open spec fn sealed_text(blob: Seq<u8>) -> Seq<u8> {
    vstd::utf8::encode_utf8(crate::codec::base64_encoding(blob))
}

/// The text of CloudLock's base URL for a device.
pub open spec fn base_url_text(uuid: Seq<char>, host: Seq<char>, version: Seq<char>) -> Seq<char> {
    "https://"@ + host + "/cloudlock/"@ + version + "/"@ + uuid + "/"@
}

/// The number of random bytes that the CloudLock HSM hands out as a key.
pub const CLOUDLOCK_KEY_LEN: usize = 128;

/// A CloudLock HSM for one device.
pub struct CloudLockHSM {
    api_key: String,
    base_url: String,
    cert: openssl::x509::X509,
}

impl CloudLockHSM {
    /// The API key the device authenticates with.
    pub closed spec fn key(&self) -> Seq<char> {
        self.api_key@
    }

    /// The serialization of the device's base URL.
    pub closed spec fn base(&self) -> Seq<char> {
        self.base_url@
    }

    /// The device's base URL, `https://<host>/cloudlock/<version>/<uuid>/`.
    pub fn base_url(uuid: &str, api_host: &str, api_version: &str) -> (r: Result<String, String>)
        ensures
            match url_parse(base_url_text(uuid@, api_host@, api_version@)) {
                Some(u) => r matches Ok(v) && v@ == u,
                None => r matches Err(e) && "Unable to parse CloudLock API URL: "@.is_prefix_of(e@),
            },
    {
        let head = concat3("https://", api_host, "/cloudlock/");
        let text = concat5(head.as_str(), api_version, "/", uuid, "/");
        match parse_url(text.as_str()) {
            Ok(u) => Ok(u),
            Err(why) => {
                let detail = url_error_text(&why);
                let e = concat("Unable to parse CloudLock API URL: ", detail.as_str());
                proof {
                    lemma_prefix_of_concat("Unable to parse CloudLock API URL: "@, detail@);
                }
                Err(e)
            },
        }
    }

    /// The URL that CloudLock's configuration is fetched from.
    pub fn config_url(base_url: &str) -> (r: Result<String, String>)
        ensures
            match url_join(base_url@, "config"@) {
                Some(u) => r matches Ok(v) && v@ == u,
                None => r matches Err(e) && "Unable to build URL: "@.is_prefix_of(e@),
            },
    {
        match join_url(base_url, "config") {
            Ok(u) => Ok(u),
            Err(why) => {
                let detail = url_error_text(&why);
                proof {
                    lemma_prefix_of_concat("Unable to build URL: "@, detail@);
                }
                Err(concat("Unable to build URL: ", detail.as_str()))
            },
        }
    }

    /// The error for a request that could not be made.
    pub fn request_error(url: &str, why: &str) -> (r: String)
        ensures
            r@ == "Unable to do request for "@ + url@ + ": "@ + why@,
    {
        concat4("Unable to do request for ", url, ": ", why)
    }

    /// The error for a reply that was not the expected JSON.
    pub fn response_error(url: &str, why: &str) -> (r: String)
        ensures
            r@ == "Unable to deserialize response for "@ + url@ + ": "@ + why@,
    {
        concat4("Unable to deserialize response for ", url, ": ", why)
    }

    /// An HSM from the parts fetched for it: the certificate must be PEM
    /// that OpenSSL accepts.
    pub fn from_certificate(api_key: &str, base_url: String, cert_pem: &str) -> (r: Result<
        Self,
        String,
    >)
        ensures
            r is Ok <==> ({
                let bytes = vstd::utf8::encode_utf8(cert_pem@);
                bytes.len() <= i32::MAX && x509_pem_accepted(bytes)
            }),
            r matches Ok(h) ==> h.key() == api_key@ && h.base() == base_url@,
            r matches Err(e) ==> e@ == "Unable to load certificate from PEM"@,
    {
        let bytes = cert_pem.as_bytes();
        if bytes.len() > 0x7fff_ffff {
            return Err("Unable to load certificate from PEM".to_string());
        }
        match x509_from_pem(bytes) {
            Ok(cert) => Ok(CloudLockHSM { api_key: api_key.to_string(), base_url, cert }),
            Err(_) => Err("Unable to load certificate from PEM".to_string()),
        }
    }

    /// The API key, for the requests.
    pub fn api_key(&self) -> (r: &str)
        ensures
            r@ == self.key(),
    {
        self.api_key.as_str()
    }

    /// The URL of CloudLock action `action` for this device.
    pub fn action_url(&self, action: &str) -> (r: Result<String, String>)
        ensures
            match url_join(self.base(), action@) {
                Some(u) => r matches Ok(v) && v@ == u,
                None => r matches Err(e) && "Unable to build CloudLock URL: "@.is_prefix_of(e@),
            },
    {
        match join_url(self.base_url.as_str(), action) {
            Ok(u) => Ok(u),
            Err(why) => {
                let detail = url_error_text(&why);
                proof {
                    lemma_prefix_of_concat("Unable to build CloudLock URL: "@, detail@);
                }
                Err(concat("Unable to build CloudLock URL: ", detail.as_str()))
            },
        }
    }

    /// The bytes of a CloudLock reply: its Base64 data decoded.
    pub fn decode_response(response: CloudLockPayload) -> (r: Result<Blob, String>)
        ensures
            ({
                let bytes = vstd::utf8::encode_utf8(response.data@);
                bytes.len() + 3 <= usize::MAX ==> match crate::codec::base64_decoding(bytes) {
                    Some(raw) => r matches Ok(v) && v@ == raw,
                    None => r matches Err(e) && "Unable to decode response from Base64: "@.is_prefix_of(
                        e@,
                    ),
                }
            }),
    {
        let bytes = response.data.as_str().as_bytes();
        if bytes.len() > usize::MAX - 3 {
            return Err("Unable to decode response from Base64: input too long".to_string());
        }
        match decode_base64(bytes) {
            Ok(raw) => Ok(raw),
            Err(why) => {
                let detail = decode_error_text(&why);
                proof {
                    lemma_prefix_of_concat("Unable to decode response from Base64: "@, detail@);
                }
                Err(concat("Unable to decode response from Base64: ", detail.as_str()))
            },
        }
    }

    /// What sealing a blob hands to OpenSSL: the bytes of the blob's Base64
    /// text, AES-256-CBC, and no flags.
    pub fn seal_parameters(blob: &[u8]) -> (r: (Vec<u8>, SealCipher, SealFlags))
        requires
            4 * ((blob@.len() + 2) / 3) <= i32::MAX,
        ensures
            r.0@ == sealed_text(blob@),
            r.0@.len() == 4 * ((blob@.len() + 2) / 3),
            r.1 == SealCipher::Aes256Cbc,
            r.2 == SealFlags::Empty,
    {
        let data = encode_base64(blob);
        let text = data.as_str();
        let bytes = text.as_bytes_vec();
        proof {
            broadcast use vstd::string::is_ascii_spec_bytes;
            assert(vstd::string::is_ascii(text));
            assert(bytes@.len() == text@.len());
        }
        (bytes, SealCipher::Aes256Cbc, SealFlags::Empty)
    }

    /// Seals a blob: its Base64 text, as PKCS#7 PEM for CloudLock's
    /// certificate with AES-256-CBC. A sealed blob is chance (a fresh
    /// symmetric key each time) beyond its PEM header; OpenSSL's failures are
    /// `UnableToEncrypt`. A sealed blob is what OpenSSL gave for sealing the
    /// whole blob's Base64 text for one certificate and writing that as PEM
    /// (`is_sealing_of`).
    pub fn encrypt_blob(&self, blob: Blob) -> (r: CryptoResult<Blob>)
        requires
            4 * ((blob@.len() + 2) / 3) <= i32::MAX,
        ensures
            r matches Ok(pem) ==> pkcs7_pem_header().is_prefix_of(pem@),
            r matches Ok(pem) ==> is_sealing_of(pem, sealed_text(blob@)),
            r is Err ==> r matches Err(CryptoError::UnableToEncrypt(_)),
    {
        let (data, cipher, flags) = Self::seal_parameters(blob.as_slice());
        let mut certs = match new_cert_stack() {
            Ok(s) => s,
            Err(why) => return Err(CryptoError::UnableToEncrypt(error_stack_text(&why))),
        };
        if let Err(why) = push_cert(&mut certs, clone_cert(&self.cert)) {
            return Err(CryptoError::UnableToEncrypt(error_stack_text(&why)));
        }
        let input = data.as_slice();
        let seal = pkcs7_encrypt;
        let sealed = seal(&certs, input, cipher, flags);
        let pkcs7 = match sealed {
            Ok(p) => p,
            Err(why) => return Err(CryptoError::UnableToEncrypt(error_stack_text(&why))),
        };
        let write = pkcs7_to_pem;
        match write(&pkcs7) {
            Ok(pem) => {
                proof {
                    assert(sealing_step(&certs, input, &pkcs7, pem));
                }
                Ok(pem)
            },
            Err(why) => Err(CryptoError::UnableToEncrypt(error_stack_text(&why))),
        }
    }

    /// What unsealing a blob sends: the `decrypt` action's URL and the blob
    /// as text. The blob must be PKCS#7 PEM; `Ok(None)` where it is not
    /// UTF-8 text and so cannot be sent.
    pub fn decrypt_request(&self, blob: Blob) -> (r: CryptoResult<Option<(String, CloudLockPayload)>>)
        requires
            blob@.len() <= i32::MAX,
        ensures
            r matches Ok(Some((url, payload))) ==> vstd::utf8::valid_utf8(blob@) && payload.data@
                == vstd::utf8::decode_utf8(blob@) && Some(url@) == url_join(self.base(), "decrypt"@),
            r matches Ok(None) <==> pkcs7_pem_accepted(blob@) && !vstd::utf8::valid_utf8(blob@),
            r is Err <==> (!pkcs7_pem_accepted(blob@) || (vstd::utf8::valid_utf8(blob@) && url_join(
                self.base(),
                "decrypt"@,
            ) is None)),
            r is Err ==> r matches Err(CryptoError::UnableToDecrypt(_)),
    {
        if let Err(why) = pkcs7_from_pem(blob.as_slice()) {
            return Err(CryptoError::UnableToDecrypt(error_stack_text(&why)));
        }
        let text = match crate::codec::utf8_text(blob) {
            Some(t) => t,
            None => return Ok(None),
        };
        match self.action_url("decrypt") {
            Ok(url) => Ok(Some((url, CloudLockPayload { data: text }))),
            Err(why) => Err(CryptoError::UnableToDecrypt(quoted(why.as_str()))),
        }
    }

    /// The unsealed key, from CloudLock's reply to the `decrypt` action (or
    /// the error of the exchange): any failure is `UnableToDecrypt`, with the
    /// message quoted.
    pub fn decrypt_response(reply: Result<CloudLockPayload, String>) -> (r: CryptoResult<Blob>)
        ensures
            match reply {
                Err(m) => r matches Err(CryptoError::UnableToDecrypt(e)) && e@ == debug_quoted(m@),
                Ok(p) => {
                    let bytes = vstd::utf8::encode_utf8(p.data@);
                    bytes.len() + 3 <= usize::MAX ==> match crate::codec::base64_decoding(bytes) {
                        Some(raw) => r matches Ok(v) && v@ == raw,
                        None => r matches Err(CryptoError::UnableToDecrypt(_)),
                    }
                },
            },
    {
        match reply {
            Err(why) => Err(CryptoError::UnableToDecrypt(quoted(why.as_str()))),
            Ok(payload) => match Self::decode_response(payload) {
                Ok(raw) => Ok(raw),
                Err(why) => Err(CryptoError::UnableToDecrypt(quoted(why.as_str()))),
            },
        }
    }

    /// Fresh key material: 128 random bytes.
    pub fn random_bytes(&self) -> (r: CryptoResult<Blob>)
        ensures
            r matches Ok(b) ==> b@.len() == CLOUDLOCK_KEY_LEN,
            r is Err ==> r matches Err(CryptoError::UnableToEncrypt(_)),
    {
        random_blob(CLOUDLOCK_KEY_LEN)
    }
}

/// Sealing a key seals all of it: whatever `encrypt_blob` returns for a
/// blob is OpenSSL's sealing, for one certificate, of the Base64 text of the
/// whole blob (not of a part of it, nor of the raw bytes), written as PEM.
pub proof fn lemma_encrypt_seals_whole_blob(h: &CloudLockHSM, blob: Blob, pem: Blob)
    requires
        call_ensures(CloudLockHSM::encrypt_blob, (h, blob), Ok::<Blob, CryptoError>(pem)),
    ensures
        is_sealing_of(pem, vstd::utf8::encode_utf8(crate::codec::base64_encoding(blob@))),
        pkcs7_pem_header().is_prefix_of(pem@),
{
}

} // verus!
