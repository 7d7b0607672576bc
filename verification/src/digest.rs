//! Content addresses: SHA-256 (from the `sha2` crate) written as
//! `sha256:` and 64 lower-case hexadecimal digits.
use sha2::Digest;
use vstd::prelude::*;

verus! {

/// The SHA-256 digest of `data`, as `sha2::Sha256::digest` computes it.
pub uninterp spec fn spec_sha256(data: Seq<u8>) -> Seq<u8>;

/// Calls `sha2::Sha256::digest` and copies the 32-byte digest into a vector.
/// The contract names the digest and states its length, which the
/// `Sha256` output size fixes at 32 bytes.
#[verifier::external_body]
fn sha256(data: &[u8]) -> (r: Vec<u8>)
    ensures
        r@ == spec_sha256(data@),
        r@.len() == 32,
{
    sha2::Sha256::digest(data).to_vec()
}

/// Lower-case hexadecimal digit of a value below 16.
pub open spec fn hex_char(n: u8) -> char {
    if n < 10 {
        ((0x30 + n) as u8) as char
    } else {
        ((0x57 + n) as u8) as char
    }
}

/// Two lower-case hexadecimal digits per byte.
pub open spec fn hex_lower(bytes: Seq<u8>) -> Seq<char>
    decreases bytes.len(),
{
    if bytes.len() == 0 {
        seq![]
    } else {
        hex_lower(bytes.drop_last()) + seq![hex_char(bytes.last() / 16), hex_char(bytes.last() % 16)]
    }
}

/// The content address of `data`: `sha256:` then the digest in hexadecimal.
pub open spec fn content_address(data: Seq<u8>) -> Seq<char> {
    "sha256:"@ + hex_lower(spec_sha256(data))
}

/// Calls `String::push`.
#[verifier::external_body]
fn push_char(s: &mut String, c: char)
    ensures
        final(s)@ == old(s)@.push(c),
{
    s.push(c)
}

fn hex_char_exec(n: u8) -> (r: char)
    requires
        n < 16,
    ensures
        r == hex_char(n),
{
    if n < 10 {
        (0x30 + n) as char
    } else {
        (0x57 + n) as char
    }
}

proof fn lemma_hex_len(bytes: Seq<u8>)
    ensures
        hex_lower(bytes).len() == 2 * bytes.len(),
    decreases bytes.len(),
{
    if bytes.len() > 0 {
        lemma_hex_len(bytes.drop_last());
    }
}

/// `prefix` followed by two lower-case hexadecimal digits per byte.
pub fn write_hex(prefix: String, bytes: &[u8]) -> (r: String)
    ensures
        r@ == prefix@ + hex_lower(bytes@),
{
    let mut out = prefix;
    for i in 0..bytes.len()
        invariant
            out@ == prefix@ + hex_lower(bytes@.take(i as int)),
    {
        let b = bytes[i];
        proof {
            assert(bytes@.take(i + 1).drop_last() =~= bytes@.take(i as int));
        }
        push_char(&mut out, hex_char_exec(b / 16));
        push_char(&mut out, hex_char_exec(b % 16));
        assert(out@ =~= prefix@ + hex_lower(bytes@.take(i + 1)));
    }
    assert(bytes@.take(bytes@.len() as int) =~= bytes@);
    out
}

/// The content address of `data`: `sha256:` then the SHA-256 digest in
/// lower-case hexadecimal.
pub fn sha256_hex(data: &[u8]) -> (r: String)
    ensures
        r@ == content_address(data@),
        r@.len() == 71,
        r@.subrange(0, 7) == "sha256:"@,
{
    let digest = sha256(data);
    let r = write_hex("sha256:".to_owned(), digest.as_slice());
    proof {
        reveal_strlit("sha256:");
        lemma_hex_len(digest@);
        assert(r@.subrange(0, 7) =~= "sha256:"@);
    }
    r
}

} // verus!
