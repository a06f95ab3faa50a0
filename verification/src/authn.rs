//! API keys: a raw key is a 16-byte identifier extended with random bytes;
//! it travels as lowercase hex and is signed and verified by a
//! caller-supplied signing collaborator.

use vstd::prelude::*;
use vstd::slice::slice_subrange;
use vstd::string::StringSliceAdditionalSpecFns;

verus! {

/// Declares `hex::FromHexError`, the error returned when hex decoding fails.
#[verifier::external_type_specification]
#[verifier::external_body]
pub struct ExFromHexError(hex::FromHexError);

/// Declares `rsa::signature::Error`, the error type of the signature scheme.
#[verifier::external_type_specification]
#[verifier::external_body]
pub struct ExSignatureError(rsa::signature::Error);

/// Declares `uuid::Uuid`, the identifier type keys are generated from.
#[verifier::external_type_specification]
#[verifier::external_body]
pub struct ExUuid(uuid::Uuid);

/// A failure inside the signing collaborator.
#[derive(Debug)]
pub struct SigningKeyError {
    pub message: String,
}

/// Why an API key could not be handled.
#[derive(Debug)]
pub enum ApiKeyError {
    /// A hex-encoded component could not be decoded.
    Decode(hex::FromHexError),
    /// The decoded key is too short to hold an identifier.
    FailedToParse,
    /// The signature is malformed.
    MalformedSignature(rsa::signature::Error),
    /// The signing collaborator failed while signing.
    Signing(SigningKeyError),
    /// The signing collaborator failed while verifying.
    Verify(SigningKeyError),
}

/// The signing collaborator: produces and checks signatures over raw bytes.
/// Implemented by the host; nothing is assumed of its behaviour.
pub trait Signer {
    fn sign(&self, message: &[u8]) -> Result<Vec<u8>, SigningKeyError>;

    fn verify(&self, message: &[u8], signature: &[u8]) -> Result<(), SigningKeyError>;
}

/// The lowercase hex character for the value `d`.
pub open spec fn hex_digit_char(d: nat) -> char {
    if d < 10 {
        ((d + 48) as u8) as char
    } else {
        ((d + 87) as u8) as char
    }
}

/// The lowercase hex encoding of `bytes`: two digits per byte, high nibble
/// first.
pub open spec fn hex_of(bytes: Seq<u8>) -> Seq<char>
    decreases bytes.len(),
{
    if bytes.len() == 0 {
        Seq::empty()
    } else {
        seq![
            hex_digit_char((bytes[0] >> 4) as nat),
            hex_digit_char((bytes[0] & 0x0f) as nat),
        ] + hex_of(bytes.subrange(1, bytes.len() as int))
    }
}

/// Whether the byte is the code of a hex digit, in either case.
pub open spec fn is_hex_digit_byte(b: u8) -> bool {
    (48 <= b <= 57) || (65 <= b <= 70) || (97 <= b <= 102)
}

/// The value of a hex digit's byte code.
pub open spec fn hex_val(b: u8) -> nat {
    if 48 <= b <= 57 {
        (b - 48) as nat
    } else if 65 <= b <= 70 {
        (b - 55) as nat
    } else {
        (b - 87) as nat
    }
}

/// Whether `s` is a well-formed hex encoding: even length, hex digits only.
pub open spec fn hex_decode_ok(s: Seq<u8>) -> bool {
    s.len() % 2 == 0 && forall|i: int| 0 <= i < s.len() ==> is_hex_digit_byte(s[i])
}

/// The bytes a hex encoding denotes, one byte per digit pair.
pub open spec fn hex_decoded(s: Seq<u8>) -> Seq<u8>
    decreases s.len(),
{
    if s.len() < 2 {
        Seq::empty()
    } else {
        seq![(hex_val(s[0]) * 16 + hex_val(s[1])) as u8] + hex_decoded(
            s.subrange(2, s.len() as int),
        )
    }
}

/// The byte codes of a sequence of characters.
pub open spec fn ascii_codes(s: Seq<char>) -> Seq<u8> {
    Seq::new(s.len(), |i: int| s[i] as u8)
}

/// Law: decoding a hex encoding returns exactly the bytes that were
/// encoded — the encoding is always well-formed hex, and the digit pairs
/// denote the original bytes.
pub proof fn lemma_hex_round_trip(bytes: Seq<u8>)
    ensures
        hex_decode_ok(ascii_codes(hex_of(bytes))),
        hex_decoded(ascii_codes(hex_of(bytes))) == bytes,
    decreases bytes.len(),
{
    if bytes.len() == 0 {
        assert(ascii_codes(hex_of(bytes)) =~= Seq::<u8>::empty());
        assert(hex_decoded(ascii_codes(hex_of(bytes))) =~= bytes);
    } else {
        let b0 = bytes[0];
        let rest = bytes.subrange(1, bytes.len() as int);
        lemma_hex_round_trip(rest);
        assert((b0 >> 4) < 16 && (b0 & 0x0f) < 16 && ((b0 >> 4) as nat) * 16 + ((b0 & 0x0f) as nat)
            == b0 as nat) by (bit_vector);
        let hi = (b0 >> 4) as nat;
        let lo = (b0 & 0x0f) as nat;
        let codes = ascii_codes(hex_of(bytes));
        let rest_codes = ascii_codes(hex_of(rest));
        assert(codes =~= seq![
            hex_digit_char(hi) as u8,
            hex_digit_char(lo) as u8,
        ] + rest_codes);
        assert(hex_val(hex_digit_char(hi) as u8) == hi);
        assert(hex_val(hex_digit_char(lo) as u8) == lo);
        assert(codes.subrange(2, codes.len() as int) =~= rest_codes);
        assert(hex_decoded(codes) =~= bytes);
    }
}

/// Law: the hex encoding is injective — equal encodings come only from
/// equal bytes.
pub proof fn lemma_hex_injective(a: Seq<u8>, b: Seq<u8>)
    requires
        hex_of(a) == hex_of(b),
    ensures
        a == b,
{
    lemma_hex_round_trip(a);
    lemma_hex_round_trip(b);
    assert(ascii_codes(hex_of(a)) =~= ascii_codes(hex_of(b)));
}

/// Relies on `hex::encode`: each byte becomes two lowercase hex digits,
/// high nibble first.
#[verifier::external_body]
fn hex_encode(data: &[u8]) -> (r: String)
    ensures
        r@ == hex_of(data@),
{
    hex::encode(data)
}

/// Relies on `hex::decode`: decoding succeeds exactly when the input has
/// even length and holds only hex digits (either case), and yields the byte
/// each digit pair denotes.
#[verifier::external_body]
fn hex_decode(data: &[u8]) -> (r: Result<Vec<u8>, hex::FromHexError>)
    ensures
        match r {
            Ok(v) => hex_decode_ok(data@) && v@ == hex_decoded(data@),
            Err(_) => !hex_decode_ok(data@),
        },
{
    hex::decode(data)
}

/// Relies on `uuid::Uuid::as_bytes`: an identifier is exactly 16 bytes.
#[verifier::external_body]
fn uuid_bytes(id: &uuid::Uuid) -> (r: Vec<u8>)
    ensures
        r@.len() == 16,
{
    id.as_bytes().to_vec()
}

/// Relies on `rand::rngs::OsRng` and `rand::RngCore::fill_bytes`: fills a
/// buffer of the requested length from the operating system's randomness
/// source. Nothing is assumed about which bytes come back.
#[verifier::external_body]
fn random_bytes(n: usize) -> (r: Vec<u8>)
    ensures
        r@.len() == n,
{
    let mut buf = vec![0u8; n];
    rand::RngCore::fill_bytes(&mut rand::rngs::OsRng, &mut buf);
    buf
}

/// An unsigned API key: the identifier's 16 bytes extended with random
/// bytes.
#[derive(Debug)]
pub struct RawApiKey {
    clear: Vec<u8>,
}

impl View for RawApiKey {
    type V = Seq<u8>;

    closed spec fn view(&self) -> Seq<u8> {
        self.clear@
    }
}

impl RawApiKey {
    /// A well-formed key holds at least the identifier's 16 bytes.
    pub open spec fn wf(&self) -> bool {
        self@.len() >= 16
    }

    /// A raw key is the identifier bytes followed by the random extension.
    pub fn from_parts(id_bytes: Vec<u8>, random: Vec<u8>) -> (r: Self)
        requires
            id_bytes@.len() == 16,
        ensures
            r@ == id_bytes@ + random@,
    {
        let mut clear = id_bytes;
        let mut random = random;
        clear.append(&mut random);
        RawApiKey { clear }
    }

    /// Generate a new key: the identifier's 16 bytes extended with `N`
    /// random bytes.
    pub fn generate<const N: usize>(id: &uuid::Uuid) -> (r: Self)
        ensures
            r@.len() == 16 + N,
            r.wf(),
    {
        let idb = uuid_bytes(id);
        let rnd = random_bytes(N);
        Self::from_parts(idb, rnd)
    }

    /// The identifier part: the first 16 bytes.
    pub fn id(&self) -> (r: &[u8])
        requires
            self.wf(),
        ensures
            r@ == self@.subrange(0, 16),
    {
        slice_subrange(self.clear.as_slice(), 0, 16)
    }

    /// Sign the key with the collaborator, producing the hex form of the key
    /// and of the signature the collaborator returned.
    pub fn sign<S: Signer>(self, signer: &S) -> (r: Result<SignedApiKey, ApiKeyError>)
        ensures
            match r {
                Ok(k) => k.key_spec() == hex_of(self@) && exists|b: Seq<u8>|
                    k.signature_spec() == hex_of(b),
                Err(e) => e matches ApiKeyError::Signing(_),
            },
    {
        match signer.sign(self.clear.as_slice()) {
            Ok(sig) => {
                let signature = hex_encode(sig.as_slice());
                proof {
                    assert(signature@ == hex_of(sig@));
                }
                let key = hex_encode(self.clear.as_slice());
                Ok(SignedApiKey::new(key, signature))
            },
            Err(e) => Err(ApiKeyError::Signing(e)),
        }
    }

    /// Check a hex-encoded signature over the key with the collaborator. A
    /// malformed hex signature is rejected with a decode error — and that
    /// error arises in no other way; on well-formed hex the only failure is
    /// the collaborator's, reported as a verification error; a true result
    /// is the only success.
    pub fn verify<S: Signer>(&self, signer: &S, signature: &[u8]) -> (r: Result<
        bool,
        ApiKeyError,
    >)
        ensures
            !hex_decode_ok(signature@) <==> (r matches Err(ApiKeyError::Decode(_))),
            match r {
                Ok(b) => b == true && hex_decode_ok(signature@),
                Err(e) => e matches ApiKeyError::Decode(_) || e matches ApiKeyError::Verify(_),
            },
    {
        let decoded = match hex_decode(signature) {
            Ok(v) => v,
            Err(e) => {
                return Err(ApiKeyError::Decode(e));
            },
        };
        match signer.verify(self.clear.as_slice(), decoded.as_slice()) {
            Ok(_) => Ok(true),
            Err(e) => Err(ApiKeyError::Verify(e)),
        }
    }

    /// Parse a key from its hex form. Succeeds exactly on well-formed hex
    /// that decodes to more than the identifier's 16 bytes; hex failures and
    /// short keys are told apart.
    pub fn try_from(value: &str) -> (r: Result<RawApiKey, ApiKeyError>)
        ensures
            match r {
                Ok(k) => hex_decode_ok(value.spec_bytes()) && hex_decoded(
                    value.spec_bytes(),
                ).len() > 16 && k@ == hex_decoded(value.spec_bytes()) && k.wf(),
                Err(e) => if !hex_decode_ok(value.spec_bytes()) {
                    e matches ApiKeyError::Decode(_)
                } else {
                    hex_decoded(value.spec_bytes()).len() <= 16 && (e
                        matches ApiKeyError::FailedToParse)
                },
            },
    {
        let decoded = match hex_decode(value.as_bytes()) {
            Ok(v) => v,
            Err(e) => {
                return Err(ApiKeyError::Decode(e));
            },
        };
        if decoded.len() > 16 {
            Ok(RawApiKey { clear: decoded })
        } else {
            Err(ApiKeyError::FailedToParse)
        }
    }
}

/// A signed API key: the key and its signature, both in lowercase hex.
pub struct SignedApiKey {
    key: String,
    signature: String,
}

impl SignedApiKey {
    /// The hex form of the key.
    pub closed spec fn key_spec(&self) -> Seq<char> {
        self.key@
    }

    /// The hex form of the signature.
    pub closed spec fn signature_spec(&self) -> Seq<char> {
        self.signature@
    }

    fn new(key: String, signature: String) -> (r: Self)
        ensures
            r.key_spec() == key@,
            r.signature_spec() == signature@,
    {
        SignedApiKey { key, signature }
    }

    /// Consume the signed key, returning the key's hex form.
    pub fn key(self) -> (r: String)
        ensures
            r@ == self.key_spec(),
    {
        self.key
    }

    /// The signature's hex form.
    pub fn signature(&self) -> (r: &str)
        ensures
            r@ == self.signature_spec(),
    {
        self.signature.as_str()
    }
}

} // verus!
