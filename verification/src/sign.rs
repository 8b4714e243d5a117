//! The handshake signer: the accept token that answers a client's
//! `Sec-WebSocket-Key`.

use sha1::Digest;
use base64::engine::Engine;
use vstd::prelude::*;
use vstd::string::StringSliceAdditionalSpecFns;

verus! {

/// The SHA-1 digest of a byte string, as the `sha1` crate computes it.
pub uninterp spec fn sha1_digest(data: Seq<u8>) -> Seq<u8>;

/// The base64 text of a byte string in the standard alphabet with padding,
/// as the `base64` crate's `STANDARD` engine encodes it.
pub uninterp spec fn base64_standard(data: Seq<u8>) -> Seq<char>;

/// The length of a SHA-1 digest, in bytes.
pub const DIGEST_LEN: usize = 20;

/// The length of an accept token, in characters: the base64 text of twenty
/// bytes.
pub const TOKEN_LEN: usize = 28;

/// Whether `c` belongs to the standard base64 alphabet: a letter, a digit,
/// `+` or `/`.
pub open spec fn is_base64_symbol(c: char) -> bool {
    ||| 'A' <= c <= 'Z'
    ||| 'a' <= c <= 'z'
    ||| '0' <= c <= '9'
    ||| c == '+'
    ||| c == '/'
}

/// How many padding characters end the base64 text of `len` bytes.
pub open spec fn padding_len(len: nat) -> nat {
    ((3 - len % 3) % 3) as nat
}

/// Whether `text` has the shape of the padded base64 text of `len` bytes:
/// four characters for every three bytes begun, symbols of the alphabet
/// first and the padding, `=`, at the end only.
pub open spec fn is_padded_base64(text: Seq<char>, len: nat) -> bool {
    &&& text.len() == 4 * ((len + 2) / 3)
    &&& forall|i: int|
        0 <= i < text.len() - padding_len(len) ==> is_base64_symbol(#[trigger] text[i])
    &&& forall|i: int| text.len() - padding_len(len) <= i < text.len() ==> #[trigger] text[i] == '='
}

/// The GUID that RFC 6455 appends to the client's key before hashing.
pub open spec fn magic_guid() -> Seq<u8> {
    "258EAFA5-E914-47DA-95CA-C5AB0DC85B11".spec_bytes()
}

/// The accept token for a client key: the base64 text of the SHA-1 digest
/// of the key followed by the magic GUID.
pub open spec fn accept_token(key: Seq<u8>) -> Seq<char> {
    base64_standard(sha1_digest(key + magic_guid()))
}

/// Hashes `data` with `sha1::Sha1` (`Digest::update`, then
/// `Digest::finalize`). Trusted: the result is the digest that `sha1_digest`
/// names, a function of the bytes alone, and it is twenty bytes long.
#[verifier::external_body]
fn sha1_of(data: &[u8]) -> (digest: Vec<u8>)
    ensures
        digest@ == sha1_digest(data@),
        digest@.len() == DIGEST_LEN,
{
    let mut hasher = sha1::Sha1::default();
    hasher.update(data);
    hasher.finalize().to_vec()
}

/// Encodes `data` with `base64::engine::general_purpose::STANDARD.encode`,
/// which panics where the length of the text does not fit a `usize`.
/// Trusted: the result is the text that `base64_standard` names, a function
/// of the bytes alone; it has four characters for every three bytes begun,
/// symbols of the standard alphabet followed by the padding that fills the
/// last four.
#[verifier::external_body]
fn base64_of(data: &[u8]) -> (text: String)
    requires
        4 * ((data@.len() + 2) / 3) <= usize::MAX,
    ensures
        text@ == base64_standard(data@),
        is_padded_base64(text@, data@.len()),
{
    base64::engine::general_purpose::STANDARD.encode(data)
}

/// Computes the `Sec-WebSocket-Accept` token for the raw bytes of a
/// client's `Sec-WebSocket-Key`. The token is twenty-seven symbols of the
/// base64 alphabet and one `=`, so it can always stand as a header value.
pub fn sign(key: &[u8]) -> (token: String)
    ensures
        token@ == accept_token(key@),
        token@.len() == TOKEN_LEN,
        token@[TOKEN_LEN - 1] == '=',
        forall|i: int| 0 <= i < TOKEN_LEN - 1 ==> is_base64_symbol(#[trigger] token@[i]),
{
    let guid = "258EAFA5-E914-47DA-95CA-C5AB0DC85B11".as_bytes();
    let mut input: Vec<u8> = Vec::with_capacity(0);
    input.extend_from_slice(key);
    input.extend_from_slice(guid);
    assert(input@ =~= key@ + magic_guid());
    let digest = sha1_of(input.as_slice());
    base64_of(digest.as_slice())
}

} // verus!
