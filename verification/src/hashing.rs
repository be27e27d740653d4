//! SHA-1 digests and their hexadecimal writing.

use vstd::prelude::*;

verus! {

/// The length of a SHA-1 digest in bytes.
pub const DIGEST_LEN: usize = 20;

/// The lower-case hexadecimal digit for `n`.
pub open spec fn hex_digit(n: int) -> char
    recommends
        0 <= n < 16,
{
    if n < 10 {
        ('0' as int + n) as char
    } else {
        ('a' as int + n - 10) as char
    }
}

/// `bytes` in lower-case hexadecimal: two digits for each byte, the high half
/// first.
pub open spec fn hex_text(bytes: Seq<u8>) -> Seq<char> {
    Seq::new(
        2 * bytes.len(),
        |i: int|
            if i % 2 == 0 {
                hex_digit(bytes[i / 2] as int / 16)
            } else {
                hex_digit(bytes[i / 2] as int % 16)
            },
    )
}

/// The value of a hexadecimal digit of either case; `None` for any other
/// character.
pub open spec fn hex_value(c: char) -> Option<int> {
    if '0' <= c <= '9' {
        Some(c as int - '0' as int)
    } else if 'a' <= c <= 'f' {
        Some(c as int - 'a' as int + 10)
    } else if 'A' <= c <= 'F' {
        Some(c as int - 'A' as int + 10)
    } else {
        None
    }
}

/// Whether `text` writes `count` bytes in hexadecimal: two digits of either
/// case for each byte and nothing else.
pub open spec fn is_hex_of(text: Seq<char>, count: nat) -> bool {
    &&& text.len() == 2 * count
    &&& forall|i: int| 0 <= i < text.len() ==> hex_value(#[trigger] text[i]) is Some
}

/// The bytes that the hexadecimal `text` writes.
pub open spec fn hex_bytes(text: Seq<char>) -> Seq<u8>
    recommends
        is_hex_of(text, text.len() / 2),
{
    Seq::new(
        text.len() / 2,
        |i: int| (hex_value(text[2 * i])->0 * 16 + hex_value(text[2 * i + 1])->0) as u8,
    )
}

/// The SHA-1 digest of `data`, as the `sha1` crate computes it.
pub uninterp spec fn sha1_digest(data: Seq<u8>) -> Seq<u8>;

/// A SHA-1 computation in progress: a `sha1::Sha1`, kept closed. Trusted: what
/// it has taken in is known only through `hashed_bytes`, by what the three
/// functions below say of it.
#[verifier::external_body]
pub struct HashState {
    inner: sha1::Sha1,
}

/// The bytes that were fed to a SHA-1 computation so far.
pub uninterp spec fn hashed_bytes(state: HashState) -> Seq<u8>;

/// Writes bytes in hexadecimal. Calls `hex::encode`. Trusted: the text holds
/// two lower-case digits for each byte, the high half first.
#[verifier::external_body]
pub(crate) fn hex_encode(bytes: &[u8]) -> (r: String)
    ensures
        r@ == hex_text(bytes@),
{
    hex::encode(bytes)
}

/// Reads the twenty bytes of a digest from hexadecimal. Calls
/// `hex::decode_to_slice` with a buffer of twenty bytes. Trusted: it succeeds
/// exactly for forty hexadecimal digits of either case, and gives the bytes
/// that they write.
#[verifier::external_body]
pub(crate) fn hex_decode_digest(text: &str) -> (r: Option<[u8; 20]>)
    ensures
        r is Some == is_hex_of(text@, 20),
        r matches Some(bytes) ==> bytes@ == hex_bytes(text@),
{
    let mut out = [0u8; 20];
    match hex::decode_to_slice(text, &mut out) {
        Ok(()) => Some(out),
        Err(_) => None,
    }
}

/// Starts a SHA-1 computation. Calls `sha1::Digest::new` for `sha1::Sha1`.
/// Trusted: nothing was fed to it yet.
#[verifier::external_body]
pub(crate) fn hash_start() -> (r: HashState)
    ensures
        hashed_bytes(r) == Seq::<u8>::empty(),
{
    HashState { inner: sha1::Digest::new() }
}

/// Feeds `data` to a SHA-1 computation. Calls `sha1::Digest::update`.
/// Trusted: the bytes follow those that were fed before.
#[verifier::external_body]
pub(crate) fn hash_update(state: &mut HashState, data: &[u8])
    ensures
        hashed_bytes(*final(state)) == hashed_bytes(*old(state)) + data@,
{
    sha1::Digest::update(&mut state.inner, data);
}

/// Ends a SHA-1 computation. Calls `sha1::Digest::finalize`. Trusted: the
/// result is the digest of all bytes that were fed.
#[verifier::external_body]
pub(crate) fn hash_finish(state: HashState) -> (r: [u8; 20])
    ensures
        r@ == sha1_digest(hashed_bytes(state)),
{
    sha1::Digest::finalize(state.inner).into()
}

/// The SHA-1 digest of `data`.
pub fn sha1_of(data: &[u8]) -> (r: [u8; 20])
    ensures
        r@ == sha1_digest(data@),
{
    let mut state = hash_start();
    hash_update(&mut state, data);
    assert(Seq::<u8>::empty() + data@ =~= data@);
    hash_finish(state)
}

/// Whether two digests are the same.
pub fn same_digest(a: &[u8; 20], b: &[u8; 20]) -> (r: bool)
    ensures
        r == (a@ == b@),
{
    let mut i: usize = 0;
    while i < 20
        invariant
            i <= 20,
            forall|j: int| 0 <= j < i ==> a@[j] == b@[j],
        decreases 20 - i,
    {
        if a[i] != b[i] {
            return false;
        }
        i += 1;
    }
    assert(a@ =~= b@);
    true
}

/// The digest that `text` writes in hexadecimal; `None` where `text` is not
/// forty hexadecimal digits.
pub fn parse_digest(text: &str) -> (r: Option<[u8; 20]>)
    ensures
        r is Some == is_hex_of(text@, 20),
        r matches Some(bytes) ==> bytes@ == hex_bytes(text@),
{
    hex_decode_digest(text)
}

/// `digest` in lower-case hexadecimal.
pub fn digest_text(digest: &[u8; 20]) -> (r: String)
    ensures
        r@ == hex_text(digest@),
        r@.len() == 40,
{
    hex_encode(digest.as_slice())
}

} // verus!
