//! The content hash: the dedup key and the outside name of a message's
//! content.
//!
//! A content hash is the BLAKE2b-512 digest of the raw, uncompressed message
//! bytes, written as 128 lowercase hexadecimal digits.

use blake2::Digest;
use vstd::prelude::*;

verus! {

/// The BLAKE2b-512 digest of `data`.
pub uninterp spec fn blake2b512(data: Seq<u8>) -> Seq<u8>;

/// The lowercase hexadecimal digit for a value below 16.
pub open spec fn hex_digit(nibble: u8) -> char {
    if nibble == 0 {
        '0'
    } else if nibble == 1 {
        '1'
    } else if nibble == 2 {
        '2'
    } else if nibble == 3 {
        '3'
    } else if nibble == 4 {
        '4'
    } else if nibble == 5 {
        '5'
    } else if nibble == 6 {
        '6'
    } else if nibble == 7 {
        '7'
    } else if nibble == 8 {
        '8'
    } else if nibble == 9 {
        '9'
    } else if nibble == 10 {
        'a'
    } else if nibble == 11 {
        'b'
    } else if nibble == 12 {
        'c'
    } else if nibble == 13 {
        'd'
    } else if nibble == 14 {
        'e'
    } else {
        'f'
    }
}

/// Whether `c` is one of `0`-`9`, `a`-`f`.
pub open spec fn is_lower_hex(c: char) -> bool {
    exists|nibble: u8| nibble < 16 && c == hex_digit(nibble)
}

/// The bytes as hexadecimal text: two lowercase digits per byte, the high
/// half first.
pub open spec fn hex_encode(bytes: Seq<u8>) -> Seq<char> {
    Seq::new(
        2 * bytes.len(),
        |i: int|
            if i % 2 == 0 {
                hex_digit(bytes[i / 2] / 16)
            } else {
                hex_digit(bytes[i / 2] % 16)
            },
    )
}

/// The content hash of `data`.
pub open spec fn content_hash_of(data: Seq<u8>) -> Seq<char> {
    hex_encode(blake2b512(data))
}

/// The shape of every content hash: 128 lowercase hexadecimal digits.
pub open spec fn is_content_hash(text: Seq<char>) -> bool {
    &&& text.len() == 128
    &&& forall|i: int| 0 <= i < text.len() ==> is_lower_hex(#[trigger] text[i])
}

/// Hexadecimal text has two digits for each byte, all of them lowercase.
pub proof fn hex_encode_shape(bytes: Seq<u8>)
    ensures
        hex_encode(bytes).len() == 2 * bytes.len(),
        forall|i: int| 0 <= i < hex_encode(bytes).len() ==> is_lower_hex(#[trigger] hex_encode(bytes)[i]),
{
    assert forall|i: int| 0 <= i < hex_encode(bytes).len() implies is_lower_hex(
        #[trigger] hex_encode(bytes)[i],
    ) by {
        let byte = bytes[i / 2];
        if i % 2 == 0 {
            let nibble: u8 = byte / 16;
            assert(nibble < 16 && hex_encode(bytes)[i] == hex_digit(nibble));
        } else {
            let nibble: u8 = byte % 16;
            assert(nibble < 16 && hex_encode(bytes)[i] == hex_digit(nibble));
        }
    }
}

/// `String::push`. Trusted: the character is appended at the end.
pub assume_specification[ String::push ](s: &mut String, c: char)
    ensures
        final(s)@ == old(s)@.push(c),
;

/// `Blake2b512::new`, `update` with the whole input, then `finalize`.
/// Trusted: the digest is a function of the input alone and is 64 bytes
/// long.
#[verifier::external_body]
fn blake2b512_digest(data: &[u8]) -> (digest: Vec<u8>)
    ensures
        digest@ == blake2b512(data@),
        digest@.len() == 64,
{
    let mut hasher = blake2::Blake2b512::new();
    hasher.update(data);
    hasher.finalize().to_vec()
}

fn hex_char(nibble: u8) -> (c: char)
    requires
        nibble < 16,
    ensures
        c == hex_digit(nibble),
{
    match nibble {
        0 => '0',
        1 => '1',
        2 => '2',
        3 => '3',
        4 => '4',
        5 => '5',
        6 => '6',
        7 => '7',
        8 => '8',
        9 => '9',
        10 => 'a',
        11 => 'b',
        12 => 'c',
        13 => 'd',
        14 => 'e',
        _ => 'f',
    }
}

/// Writes bytes as lowercase hexadecimal text.
pub fn to_hex(bytes: &[u8]) -> (text: String)
    ensures
        text@ == hex_encode(bytes@),
{
    let mut text = String::new();
    let mut i: usize = 0;
    while i < bytes.len()
        invariant
            i <= bytes.len(),
            text@ == hex_encode(bytes@.take(i as int)),
        decreases bytes.len() - i,
    {
        let byte = bytes[i];
        text.push(hex_char(byte / 16));
        text.push(hex_char(byte % 16));
        proof {
            let before = bytes@.take(i as int);
            let after = bytes@.take(i as int + 1);
            assert forall|k: int| 0 <= k < 2 * (i + 1) implies #[trigger] text@[k] == hex_encode(
                after,
            )[k] by {
                if k < 2 * i {
                    assert(after[k / 2] == before[k / 2]);
                    assert(text@[k] == hex_encode(before)[k]);
                } else {
                    assert(after[k / 2] == byte);
                }
            }
            assert(text@ =~= hex_encode(after));
        }
        i += 1;
    }
    proof {
        assert(bytes@.take(bytes.len() as int) == bytes@);
    }
    text
}

/// Computes the content hash of raw message bytes. Equal bytes always give
/// the same hash.
pub fn content_hash(data: &[u8]) -> (hash: String)
    ensures
        hash@ == content_hash_of(data@),
        is_content_hash(hash@),
{
    let digest = blake2b512_digest(data);
    proof {
        hex_encode_shape(digest@);
    }
    to_hex(digest.as_slice())
}

} // verus!
