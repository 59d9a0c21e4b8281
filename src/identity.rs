//! Peer identity: the DER-encoded SubjectPublicKeyInfo of the certificate a
//! peer presented, compared by its bytes.
use vstd::prelude::*;
use vstd::slice::slice_to_vec;

verus! {

/// Text of `bytes` in URL-safe base64 without padding.
pub uninterp spec fn base64_url_of(bytes: Seq<u8>) -> Seq<char>;

/// A character of the URL-safe base64 alphabet: letters, digits, `-` and
/// `_`. The padding character `=` is not one of them.
pub open spec fn is_url_safe_char(c: char) -> bool {
    ('A' <= c && c <= 'Z') || ('a' <= c && c <= 'z') || ('0' <= c && c <= '9') || c == '-' || c
        == '_'
}

/// DER encoding of the SubjectPublicKeyInfo of the X.509 certificate `der`,
/// or `None` where `der` is not a certificate.
pub uninterp spec fn spki_of_certificate(der: Seq<u8>) -> Option<Seq<u8>>;

/// Relies on base64's `URL_SAFE_NO_PAD.encode`: the text depends on the bytes
/// alone, uses the URL-safe alphabet without padding, and has four characters
/// for each three bytes and two or three for a remainder of one or two.
#[verifier::external_body]
fn base64_url_encode(bytes: &[u8]) -> (r: String)
    requires
        bytes@.len() <= 3 * (usize::MAX / 4),
    ensures
        r@ == base64_url_of(bytes@),
        r@.len() == (4 * bytes@.len() + 2) / 3,
        forall|i: int| 0 <= i < r@.len() ==> is_url_safe_char(#[trigger] r@[i]),
{
    base64::Engine::encode(&base64::engine::general_purpose::URL_SAFE_NO_PAD, bytes)
}

/// Relies on base64's `URL_SAFE_NO_PAD.decode`, which refuses padding and
/// non-zero trailing bits: it accepts exactly the texts that `encode` writes,
/// and gives back the bytes they were written from.
#[verifier::external_body]
fn base64_url_decode(text: &str) -> (r: Option<Vec<u8>>)
    ensures
        r matches Some(v) ==> base64_url_of(v@) == text@,
        forall|v: Seq<u8>| #[trigger] base64_url_of(v) == text@ ==> r is Some && r->0@ == v,
{
    base64::Engine::decode(&base64::engine::general_purpose::URL_SAFE_NO_PAD, text).ok()
}

/// Relies on x509-cert's `Certificate::from_der` and der's `Encode::to_der`:
/// parses the certificate and re-encodes its SubjectPublicKeyInfo, a function
/// of the input bytes alone.
#[verifier::external_body]
fn certificate_spki(der: &[u8]) -> (r: Option<Vec<u8>>)
    ensures
        r matches Some(v) ==> spki_of_certificate(der@) == Some(v@),
        r is None ==> spki_of_certificate(der@) is None,
{
    match <x509_cert::Certificate as x509_cert::der::Decode>::from_der(der) {
        Ok(c) => x509_cert::der::Encode::to_der(&c.tbs_certificate.subject_public_key_info).ok(),
        Err(_) => None,
    }
}

/// Why a peer identity could not be had.
#[derive(Debug, Clone, Copy, PartialEq, Eq, Structural)]
pub enum IdentityError {
    /// No peer certificate, or no SubjectPublicKeyInfo could be read from it.
    IdentityExtractionFailed,
    /// The text is not URL-safe base64 without padding.
    InvalidBase64,
}

/// A peer identity: the DER-encoded SubjectPublicKeyInfo bytes.
#[derive(Debug, Clone, Hash)]
pub struct PublicKey(Vec<u8>);

impl View for PublicKey {
    type V = Seq<u8>;

    closed spec fn view(&self) -> Seq<u8> {
        self.0@
    }
}

impl PartialEq for PublicKey {
    fn eq(&self, other: &PublicKey) -> (r: bool) {
        bytes_equal(self.0.as_slice(), other.0.as_slice())
    }
}

impl Eq for PublicKey {
}

impl vstd::std_specs::cmp::PartialEqSpecImpl for PublicKey {
    open spec fn obeys_eq_spec() -> bool {
        true
    }

    open spec fn eq_spec(&self, other: &PublicKey) -> bool {
        self@ == other@
    }
}

/// Whether two byte strings are equal.
pub fn bytes_equal(a: &[u8], b: &[u8]) -> (r: bool)
    ensures
        r == (a@ == b@),
{
    if a.len() != b.len() {
        return false;
    }
    let mut i: usize = 0;
    while i < a.len()
        invariant
            a@.len() == b@.len(),
            i <= a@.len(),
            a@.subrange(0, i as int) == b@.subrange(0, i as int),
        decreases a@.len() - i,
    {
        if a[i] != b[i] {
            assert(a@[i as int] != b@[i as int]);
            return false;
        }
        assert(a@.subrange(0, i as int + 1) =~= a@.subrange(0, i as int).push(a@[i as int]));
        assert(b@.subrange(0, i as int + 1) =~= b@.subrange(0, i as int).push(b@[i as int]));
        i = i + 1;
    }
    assert(a@.subrange(0, i as int) =~= a@);
    assert(b@.subrange(0, i as int) =~= b@);
    true
}

impl PublicKey {
    /// The identity made of the given bytes.
    pub fn from_bytes(bytes: Vec<u8>) -> (r: PublicKey)
        ensures
            r@ == bytes@,
    {
        PublicKey(bytes)
    }

    /// The identity made of a copy of the given bytes.
    pub fn from_slice(bytes: &[u8]) -> (r: PublicKey)
        ensures
            r@ == bytes@,
    {
        PublicKey(slice_to_vec(bytes))
    }

    pub fn as_bytes(&self) -> (r: &[u8])
        ensures
            r@ == self@,
    {
        self.0.as_slice()
    }

    /// An identity that owns its bytes.
    pub fn into_owned(self) -> (r: PublicKey)
        ensures
            r@ == self@,
    {
        self
    }

    /// A copy of this identity.
    pub fn duplicate(&self) -> (r: PublicKey)
        ensures
            r@ == self@,
    {
        PublicKey(slice_to_vec(self.0.as_slice()))
    }

    /// Textual form: URL-safe base64 without padding. Decoding it with
    /// `from_base64` gives the bytes back.
    pub fn to_base64(&self) -> (r: String)
        requires
            self@.len() <= 3 * (usize::MAX / 4),
        ensures
            r@ == base64_url_of(self@),
            r@.len() == (4 * self@.len() + 2) / 3,
            forall|i: int| 0 <= i < r@.len() ==> is_url_safe_char(#[trigger] r@[i]),
    {
        base64_url_encode(self.0.as_slice())
    }

    /// The bytes whose textual form is `text`.
    pub fn from_base64(text: &str) -> (r: Result<Vec<u8>, IdentityError>)
        ensures
            r matches Ok(v) ==> base64_url_of(v@) == text@,
            forall|v: Seq<u8>| #[trigger] base64_url_of(v) == text@ ==> r is Ok && r->Ok_0@ == v,
            r matches Err(e) ==> e == IdentityError::InvalidBase64,
    {
        match base64_url_decode(text) {
            Some(v) => Ok(v),
            None => Err(IdentityError::InvalidBase64),
        }
    }

    /// The identity carried by a DER-encoded X.509 certificate.
    pub fn from_certificate(der: &[u8]) -> (r: Result<PublicKey, IdentityError>)
        ensures
            match spki_of_certificate(der@) {
                Some(spki) => r matches Ok(k) && k@ == spki,
                None => r == Err::<PublicKey, IdentityError>(IdentityError::IdentityExtractionFailed),
            },
    {
        match certificate_spki(der) {
            Some(v) => Ok(PublicKey(v)),
            None => Err(IdentityError::IdentityExtractionFailed),
        }
    }
}

/// The identity of a peer from the certificate chain it presented: the
/// SubjectPublicKeyInfo of the first certificate.
pub fn peer_identity(chain: &Vec<Vec<u8>>) -> (r: Result<PublicKey, IdentityError>)
    ensures
        chain@.len() == 0 ==> r == Err::<PublicKey, IdentityError>(IdentityError::IdentityExtractionFailed),
        chain@.len() > 0 ==> match spki_of_certificate(chain@[0]@) {
            Some(spki) => r matches Ok(k) && k@ == spki,
            None => r == Err::<PublicKey, IdentityError>(IdentityError::IdentityExtractionFailed),
        },
{
    if chain.len() == 0 {
        return Err(IdentityError::IdentityExtractionFailed);
    }
    PublicKey::from_certificate(chain[0].as_slice())
}

} // verus!
