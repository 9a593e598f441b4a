//! Session tokens: drawing them, and the keys under which the database keeps
//! them.
use vstd::prelude::*;

use blake2::Digest;

use crate::datatypes::DbError;
use rand::TryRng;

verus! {

/// The lowercase hexadecimal digit for a value below sixteen.
pub open spec fn hex_digit(value: int) -> char {
    if value < 10 {
        (48 + value) as char
    } else {
        (87 + value) as char
    }
}

/// `data` written as lowercase hexadecimal, two digits per byte, high nibble
/// first: what `hex::encode` returns.
pub open spec fn spec_hex(data: Seq<u8>) -> Seq<char> {
    Seq::new(
        2 * data.len(),
        |i: int|
            if i % 2 == 0 {
                hex_digit((data[i / 2] / 16) as int)
            } else {
                hex_digit((data[i / 2] % 16) as int)
            },
    )
}

/// The BLAKE2b-512 digest of `data`, as `blake2::Blake2b512` computes it.
pub uninterp spec fn blake2b512(data: Seq<u8>) -> Seq<u8>;

/// `hex::encode`: lowercase hexadecimal, as its documentation and source
/// (a table `"0123456789abcdef"` indexed by the high, then the low nibble of
/// each byte) show.
#[verifier::external_body]
fn hex_encode(data: &[u8]) -> (text: String)
    ensures
        text@ == spec_hex(data@),
{
    hex::encode(data)
}

/// `blake2::Blake2b512` (`new`, `update`, `finalize`): the digest of `data`,
/// which is 64 bytes long (`Blake2b512 = Blake2b<U64>`).
#[verifier::external_body]
fn blake2b512_digest(data: &[u8]) -> (digest: Vec<u8>)
    ensures
        digest@ == blake2b512(data@),
        digest@.len() == 64,
{
    let mut hasher = blake2::Blake2b512::new();
    hasher.update(data);
    hasher.finalize().to_vec()
}

/// `SysRng::try_fill_bytes` from `rand` on a 32-byte buffer that starts out
/// zeroed: the buffer afterwards, and whether filling it succeeded (or the
/// error of the operating system's random source). Which bytes come back is
/// chance, and nothing is promised of them, after a failure neither.
#[verifier::external_body]
pub(crate) fn fill_random_token() -> (filled: ([u8; 32], Result<(), rand::rngs::SysError>)) {
    let mut buffer = [0u8; 32];
    let status = rand::rngs::SysRng.try_fill_bytes(&mut buffer);
    (buffer, status)
}

/// The outcome of filling a token buffer: the buffer once filled, or the
/// error of the random source.
pub fn drawn_token(buffer: [u8; 32], status: Result<(), rand::rngs::SysError>) -> (drawn: Result<
    [u8; 32],
    rand::rngs::SysError,
>)
    ensures
        match status {
            Ok(()) => drawn == Ok::<[u8; 32], rand::rngs::SysError>(buffer),
            Err(e) => drawn == Err::<[u8; 32], rand::rngs::SysError>(e),
        },
{
    match status {
        Ok(()) => Ok(buffer),
        Err(e) => Err(e),
    }
}

/// Draws a new token from the operating system's random source.
pub(crate) fn draw_token() -> (drawn: Result<[u8; 32], rand::rngs::SysError>) {
    let (buffer, status) = fill_random_token();
    drawn_token(buffer, status)
}

/// A drawn token, or the failure of the random source as a
/// `DbError::TokenRngFailure`.
pub fn token_from_draw(drawn: Result<[u8; 32], rand::rngs::SysError>) -> (token: Result<
    [u8; 32],
    DbError,
>)
    ensures
        match drawn {
            Ok(t) => token == Ok::<[u8; 32], DbError>(t),
            Err(e) => token == Err::<[u8; 32], DbError>(DbError::TokenRngFailure(e)),
        },
{
    match drawn {
        Ok(t) => Ok(t),
        Err(e) => Err(DbError::TokenRngFailure(e)),
    }
}

/// Draws a new token from the operating system's random source; its failure
/// is a `DbError::TokenRngFailure`.
pub fn new_token() -> (token: Result<[u8; 32], DbError>)
    ensures
        token matches Err(e) ==> e is TokenRngFailure,
{
    token_from_draw(draw_token())
}

/// The key under which a token that is stored hashed is kept: the hex of its
/// BLAKE2b-512 digest.
pub open spec fn hashed_token_key(token: Seq<u8>) -> Seq<char> {
    spec_hex(blake2b512(token))
}

/// Hashes a token and writes the digest in hex (128 characters).
pub fn hashed_key(token: &[u8; 32]) -> (key: String)
    ensures
        key@ == hashed_token_key(token@),
        key@.len() == 128,
{
    let digest = blake2b512_digest(token.as_slice());
    hex_encode(digest.as_slice())
}

/// Hex encoding loses nothing: different byte strings get different texts.
pub proof fn hex_is_injective(a: Seq<u8>, b: Seq<u8>)
    ensures
        spec_hex(a) == spec_hex(b) ==> a == b,
{
    if spec_hex(a) == spec_hex(b) {
        assert(spec_hex(a).len() == 2 * a.len());
        assert(spec_hex(b).len() == 2 * b.len());
        assert(a.len() == b.len());
        assert forall|i: int| 0 <= i < a.len() implies a[i] == b[i] by {
            assert(spec_hex(a)[2 * i] == spec_hex(b)[2 * i]);
            assert(spec_hex(a)[2 * i + 1] == spec_hex(b)[2 * i + 1]);
            assert((2 * i) / 2 == i);
            assert((2 * i + 1) / 2 == i);
            assert((2 * i) % 2 == 0);
            assert((2 * i + 1) % 2 == 1);
            hex_digit_is_injective((a[i] / 16) as int, (b[i] / 16) as int);
            hex_digit_is_injective((a[i] % 16) as int, (b[i] % 16) as int);
        }
        assert(a =~= b);
    }
}

/// Distinct nibbles get distinct digits.
pub proof fn hex_digit_is_injective(x: int, y: int)
    requires
        0 <= x < 16,
        0 <= y < 16,
    ensures
        hex_digit(x) == hex_digit(y) ==> x == y,
{
}

/// A hex text is written in the characters `0`-`9` and `a`-`f` only.
pub proof fn hex_uses_lowercase_digits(data: Seq<u8>, i: int)
    requires
        0 <= i < spec_hex(data).len(),
    ensures
        ('0' <= spec_hex(data)[i] <= '9') || ('a' <= spec_hex(data)[i] <= 'f'),
{
}

} // verus!
