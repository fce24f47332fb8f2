//! SHA-256 checksums, written as lower-case hexadecimal text.
use sha2::{Digest, Sha256};
use vstd::prelude::*;

verus! {

/// The SHA-256 digest of `data`, as `Sha256::digest` of sha2 computes it.
pub uninterp spec fn sha256(data: Seq<u8>) -> Seq<u8>;

/// `Sha256::digest` of sha2: the digest of the data, which has 32 bytes.
#[verifier::external_body]
fn sha256_digest(data: &[u8]) -> (digest: Vec<u8>)
    ensures
        digest@ == sha256(data@),
        digest@.len() == 32,
{
    Sha256::digest(data).to_vec()
}

/// The character of the hexadecimal digit `d`, lower case.
pub open spec fn hex_digit(d: nat) -> char {
    if d < 10 {
        (('0' as nat) + d) as char
    } else {
        (('a' as nat) + d - 10) as char
    }
}

/// Two hexadecimal digits for each byte, the high one first.
pub open spec fn hex_text(bytes: Seq<u8>) -> Seq<char>
    decreases bytes.len(),
{
    if bytes.len() == 0 {
        Seq::empty()
    } else {
        hex_text(bytes.drop_last()).push(hex_digit(bytes.last() as nat / 16)).push(
            hex_digit(bytes.last() as nat % 16),
        )
    }
}

fn hex_char(d: u8) -> (c: char)
    requires
        d < 16,
    ensures
        c == hex_digit(d as nat),
{
    if d < 10 {
        (48u8 + d) as char
    } else {
        (87u8 + d) as char
    }
}

/// Writes bytes as lower-case hexadecimal text.
pub fn hex(bytes: &[u8]) -> (text: String)
    ensures
        text@ == hex_text(bytes@),
{
    let mut text = String::new();
    let mut i: usize = 0;
    assert(bytes@.take(0) =~= Seq::<u8>::empty());
    while i < bytes.len()
        invariant
            i <= bytes.len(),
            text@ == hex_text(bytes@.take(i as int)),
        decreases bytes.len() - i,
    {
        let b = bytes[i];
        text.push(hex_char(b / 16));
        text.push(hex_char(b % 16));
        i += 1;
        proof {
            let now = bytes@.take(i as int);
            assert(now.drop_last() =~= bytes@.take(i - 1));
            assert(now.last() == b);
        }
    }
    assert(bytes@.take(i as int) =~= bytes@);
    text
}

/// Hexadecimal text has two digits for each byte.
pub proof fn lemma_hex_text_len(bytes: Seq<u8>)
    ensures
        hex_text(bytes).len() == 2 * bytes.len(),
    decreases bytes.len(),
{
    if bytes.len() > 0 {
        lemma_hex_text_len(bytes.drop_last());
    }
}

/// The SHA-256 checksum of `data`: 64 hexadecimal digits.
pub fn sha256_hex(data: &[u8]) -> (checksum: String)
    ensures
        checksum@ == hex_text(sha256(data@)),
        checksum@.len() == 64,
{
    let digest = sha256_digest(data);
    proof {
        lemma_hex_text_len(digest@);
    }
    hex(digest.as_slice())
}

} // verus!
