//! The quick fingerprint of a file: one XXH3-64 hash over its size (eight
//! little-endian bytes), its first 64 KiB and, for a larger file, its last
//! 64 KiB. It takes the same time for any size of file.

use vstd::prelude::*;
use crate::numfmt::{hex16_string, hex_padded};

verus! {

/// How much is read from each end of the file.
pub const CHUNK_SIZE: usize = 65536;

/// What `xxhash_rust::xxh3::xxh3_64_with_seed` returns for these bytes and
/// this seed.
pub uninterp spec fn xxh3_64(data: Seq<u8>, seed: u64) -> u64;

/// Calls `xxhash_rust::xxh3::xxh3_64_with_seed`. The hash is a function of
/// the bytes and the seed alone; its value is named `xxh3_64`.
#[verifier::external_body]
fn xxh3_64_seeded(data: &[u8], seed: u64) -> (r: u64)
    ensures
        r == xxh3_64(data@, seed),
{
    xxhash_rust::xxh3::xxh3_64_with_seed(data, seed)
}

/// The `k` low bytes of `n`, least significant first.
pub open spec fn le_bytes(n: nat, k: nat) -> Seq<u8>
    decreases k,
{
    if k == 0 {
        Seq::empty()
    } else {
        seq![(n % 256) as u8] + le_bytes(n / 256, (k - 1) as nat)
    }
}

fn push_le_bytes(out: &mut Vec<u8>, n: u64, k: u32)
    ensures
        final(out)@ == old(out)@ + le_bytes(n as nat, k as nat),
    decreases k,
{
    if k == 0 {
        assert(old(out)@ + le_bytes(n as nat, 0) =~= old(out)@);
        return;
    }
    out.push((n % 256) as u8);
    push_le_bytes(out, n / 256, k - 1);
    assert(final(out)@ =~= old(out)@ + le_bytes(n as nat, k as nat));
}

/// Where the tail of the file is read from: only a file longer than one
/// chunk has one, and it is its last chunk.
pub fn tail_offset(file_size: u64) -> (r: Option<u64>)
    ensures
        r == (if file_size > CHUNK_SIZE as u64 { Some((file_size - CHUNK_SIZE as u64) as u64) } else { None::<u64> }),
{
    if file_size > CHUNK_SIZE as u64 {
        Some(file_size - CHUNK_SIZE as u64)
    } else {
        None
    }
}

/// The bytes that are hashed: the size, then the head, then the tail (empty
/// when none was read).
pub open spec fn fingerprint_input(file_size: u64, head: Seq<u8>, tail: Seq<u8>) -> Seq<u8> {
    le_bytes(file_size as nat, 8) + head + tail
}

/// The fingerprint of a file of `file_size` bytes whose first bytes are
/// `head` and last bytes `tail`: the XXH3-64 hash (seed 0) of
/// `fingerprint_input`, in sixteen hexadecimal digits.
pub fn fingerprint_of(file_size: u64, head: &[u8], tail: &[u8]) -> (r: String)
    ensures
        r@ == hex_padded(xxh3_64(fingerprint_input(file_size, head@, tail@), 0) as nat, 16),
{
    let mut buf: Vec<u8> = Vec::new();
    push_le_bytes(&mut buf, file_size, 8);
    let mut i: usize = 0;
    while i < head.len()
        invariant
            i <= head.len(),
            buf@ == le_bytes(file_size as nat, 8) + head@.take(i as int),
        decreases head.len() - i,
    {
        buf.push(head[i]);
        i += 1;
        assert(buf@ =~= le_bytes(file_size as nat, 8) + head@.take(i as int));
    }
    assert(head@.take(head.len() as int) =~= head@);
    let mut j: usize = 0;
    while j < tail.len()
        invariant
            j <= tail.len(),
            buf@ == le_bytes(file_size as nat, 8) + head@ + tail@.take(j as int),
        decreases tail.len() - j,
    {
        buf.push(tail[j]);
        j += 1;
        assert(buf@ =~= le_bytes(file_size as nat, 8) + head@ + tail@.take(j as int));
    }
    assert(tail@.take(tail.len() as int) =~= tail@);
    assert(buf@ =~= fingerprint_input(file_size, head@, tail@));
    let h = xxh3_64_seeded(buf.as_slice(), 0);
    hex16_string(h)
}

proof fn lemma_hex_width(n: nat, width: nat)
    ensures
        hex_padded(n, width).len() == width,
    decreases width,
{
    if width > 0 {
        lemma_hex_width(n / 16, (width - 1) as nat);
    }
}

/// A fingerprint depends on the size, the head and the tail alone, and is
/// always sixteen hexadecimal digits long.
pub proof fn fingerprints_are_stable(size: u64, head: Seq<u8>, tail: Seq<u8>)
    ensures
        hex_padded(xxh3_64(fingerprint_input(size, head, tail), 0) as nat, 16).len() == 16,
        forall|c: char| #[trigger] hex_padded(xxh3_64(fingerprint_input(size, head, tail), 0) as nat, 16).contains(c)
            ==> crate::numfmt::digit_chars().contains(c),
{
    let h = xxh3_64(fingerprint_input(size, head, tail), 0) as nat;
    lemma_hex_width(h, 16);
    lemma_hex_digits_only(h, 16);
}

proof fn lemma_hex_digits_only(n: nat, width: nat)
    ensures
        forall|c: char| #[trigger] hex_padded(n, width).contains(c) ==> crate::numfmt::digit_chars().contains(c),
    decreases width,
{
    if width > 0 {
        lemma_hex_digits_only(n / 16, (width - 1) as nat);
        let d = hex_padded(n / 16, (width - 1) as nat);
        let last = crate::numfmt::digit_chars()[(n % 16) as int];
        assert forall|c: char| #[trigger] hex_padded(n, width).contains(c) implies crate::numfmt::digit_chars().contains(c) by {
            let k = choose|k: int| 0 <= k < hex_padded(n, width).len() && hex_padded(n, width)[k] == c;
            if k < d.len() {
                assert(d[k] == c);
                assert(d.contains(c));
            } else {
                assert(c == last);
                assert(crate::numfmt::digit_chars()[(n % 16) as int] == c);
            }
        }
    }
}

} // verus!
