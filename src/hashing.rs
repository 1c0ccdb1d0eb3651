//! Content hashing (BLAKE3) and the encodings of digests used as cache keys.

use vstd::prelude::*;
use vstd::string::*;

verus! {

/// The 32 bytes of the BLAKE3 digest of some bytes.
pub uninterp spec fn blake3_digest(data: Seq<u8>) -> Seq<u8>;

/// The URL-safe base64 text of some bytes, without padding.
pub uninterp spec fn base64_url(data: Seq<u8>) -> Seq<char>;

/// The bytes fed so far to an incremental BLAKE3 hasher.
pub uninterp spec fn hasher_input(h: blake3::Hasher) -> Seq<u8>;

/// blake3's incremental hasher, carried as an opaque value.
#[verifier::external_type_specification]
#[verifier::external_body]
pub struct ExHasher(blake3::Hasher);

/// Relies on `blake3::hash` and `Hash::as_bytes`: the 32-byte digest.
#[verifier::external_body]
fn digest_bytes(data: &[u8]) -> (r: Vec<u8>)
    ensures
        r@ == blake3_digest(data@),
        r@.len() == 32,
{
    blake3::hash(data).as_bytes().to_vec()
}

/// Relies on base64's `URL_SAFE_NO_PAD` engine and `Engine::encode`.
#[verifier::external_body]
fn url_safe_base64(data: &[u8]) -> (r: String)
    ensures
        r@ == base64_url(data@),
{
    base64::Engine::encode(&base64::engine::general_purpose::URL_SAFE_NO_PAD, data)
}

/// Relies on `blake3::Hasher::new`: a hasher that has been fed nothing.
#[verifier::external_body]
fn new_hasher() -> (r: blake3::Hasher)
    ensures
        hasher_input(r) == Seq::<u8>::empty(),
{
    blake3::Hasher::new()
}

/// Relies on `blake3::Hasher::update`: the chunk is appended to the input.
#[verifier::external_body]
fn hasher_update(h: &mut blake3::Hasher, chunk: &[u8])
    ensures
        hasher_input(*final(h)) == hasher_input(*old(h)) + chunk@,
{
    h.update(chunk);
}

/// Relies on `blake3::Hasher::finalize` and `Hash::as_bytes`: the digest of
/// all input fed so far, the same as `blake3::hash` of that input.
#[verifier::external_body]
fn hasher_digest(h: &blake3::Hasher) -> (r: Vec<u8>)
    ensures
        r@ == blake3_digest(hasher_input(*h)),
        r@.len() == 32,
{
    h.finalize().as_bytes().to_vec()
}

/// The lowercase hexadecimal digit of a value below 16.
pub open spec fn hex_char(d: nat) -> char {
    if d < 10 {
        ('0' as nat + d) as char
    } else {
        ('a' as nat + d - 10) as char
    }
}

/// Two lowercase hexadecimal digits per byte, most significant first.
pub open spec fn hex_of(s: Seq<u8>) -> Seq<char>
    decreases s.len(),
{
    if s.len() == 0 {
        Seq::empty()
    } else {
        hex_of(s.drop_last()) + seq![hex_char(s.last() as nat / 16), hex_char(s.last() as nat % 16)]
    }
}

/// The content hash of some bytes: their BLAKE3 digest in hexadecimal.
pub open spec fn content_hash(data: Seq<u8>) -> Seq<char> {
    hex_of(blake3_digest(data))
}

fn hex_digit(d: u8) -> (r: &'static str)
    requires
        d < 16,
    ensures
        r@ == seq![hex_char(d as nat)],
{
    let digits = "0123456789abcdef";
    proof {
        reveal_strlit("0123456789abcdef");
    }
    digits.substring_ascii(d as usize, d as usize + 1)
}

/// The bytes in lowercase hexadecimal.
pub fn hex_text(b: &[u8]) -> (r: String)
    ensures
        r@ == hex_of(b@),
        r@.len() == 2 * b@.len(),
{
    let mut r = String::new();
    let mut i: usize = 0;
    while i < b.len()
        invariant
            0 <= i <= b@.len(),
            r@ == hex_of(b@.subrange(0, i as int)),
            r@.len() == 2 * i,
        decreases b@.len() - i,
    {
        proof {
            assert(b@.subrange(0, i + 1).drop_last() =~= b@.subrange(0, i as int));
        }
        let ghost before = r@;
        r.append(hex_digit(b[i] / 16));
        r.append(hex_digit(b[i] % 16));
        assert(r@ =~= hex_of(b@.subrange(0, i + 1)));
        i = i + 1;
    }
    assert(b@.subrange(0, b@.len() as int) =~= b@);
    r
}

/// The content hash of a buffer: its BLAKE3 digest in hexadecimal.
pub fn hash_bytes(data: &[u8]) -> (r: String)
    ensures
        r@ == content_hash(data@),
        r@.len() == 64,
{
    let d = digest_bytes(data);
    hex_text(d.as_slice())
}

/// Streams bytes, chunk by chunk, into a content hash; the result is that of
/// all chunks taken together.
pub struct ContentHasher {
    inner: blake3::Hasher,
}

impl ContentHasher {
    /// The bytes fed so far.
    pub closed spec fn input(&self) -> Seq<u8> {
        hasher_input(self.inner)
    }

    pub fn new() -> (r: ContentHasher)
        ensures
            r.input() == Seq::<u8>::empty(),
    {
        ContentHasher { inner: new_hasher() }
    }

    pub fn update(&mut self, chunk: &[u8])
        ensures
            final(self).input() == old(self).input() + chunk@,
    {
        hasher_update(&mut self.inner, chunk);
    }

    /// The content hash of everything fed so far.
    pub fn finalize(&self) -> (r: String)
        ensures
            r@ == content_hash(self.input()),
            r@.len() == 64,
    {
        let d = hasher_digest(&self.inner);
        hex_text(d.as_slice())
    }
}

/// The fingerprint of an encoded definition: its BLAKE3 digest in URL-safe
/// base64 without padding.
pub fn fingerprint_bytes(encoding: &[u8]) -> (r: String)
    ensures
        r@ == base64_url(blake3_digest(encoding@)),
{
    let digest = digest_bytes(encoding);
    url_safe_base64(digest.as_slice())
}

/// Hashing is deterministic: equal bytes, however they were fed, give equal
/// content hashes.
pub proof fn lemma_hash_deterministic(a: Seq<u8>, b: Seq<u8>)
    requires
        a == b,
    ensures
        content_hash(a) == content_hash(b),
{
}

} // verus!
