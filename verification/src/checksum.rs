//! The Internet checksum (one's-complement sum of 16-bit big-endian
//! words, folded and complemented) used by both the ICMP header and
//! the IPv4 header.

use vstd::prelude::*;

verus! {

/// The 16-bit big-endian word at word index `w` of `b`.
pub open spec fn word_at(b: Seq<u8>, w: int) -> int {
    256 * (b[2 * w] as int) + (b[2 * w + 1] as int)
}

/// The plain sum of the first `n` 16-bit words of `b`.
pub open spec fn sum_words(b: Seq<u8>, n: int) -> int
    decreases n,
{
    if n <= 0 {
        0
    } else {
        sum_words(b, n - 1) + word_at(b, n - 1)
    }
}

/// One end-around-carry folding step: the high 16 bits are added back
/// onto the low 16 bits.
pub open spec fn fold_carry(s: int) -> int {
    s / 0x10000 + s % 0x10000
}

/// The Internet checksum of `b`: the one's complement of the folded
/// word sum. Two folding steps suffice for any sum below 2^32.
pub open spec fn checksum_of(b: Seq<u8>) -> int {
    0xFFFF - fold_carry(fold_carry(sum_words(b, b.len() as int / 2)))
}

pub proof fn lemma_sum_words_bound(b: Seq<u8>, n: int)
    requires
        0 <= n,
        2 * n <= b.len(),
    ensures
        0 <= sum_words(b, n) <= n * 0xFFFF,
    decreases n,
{
    if n > 0 {
        lemma_sum_words_bound(b, n - 1);
    }
}

pub proof fn lemma_checksum_of_bounds(b: Seq<u8>)
    requires
        b.len() <= 1500,
    ensures
        0 <= checksum_of(b) <= 0xFFFF,
{
    let n = b.len() as int / 2;
    lemma_sum_words_bound(b, n);
    let s = sum_words(b, n);
    assert(s <= 750 * 0xFFFF);
    assert(0 <= fold_carry(s) <= 0x102EB) by {
        assert(s / 0x10000 <= 749);
        assert(0 <= s % 0x10000 < 0x10000);
    }
    let s1 = fold_carry(s);
    assert(0 <= fold_carry(s1) <= 0xFFFF) by {
        assert(s1 / 0x10000 <= 1);
        assert(0 <= s1 % 0x10000 < 0x10000);
        if s1 >= 0x10000 {
            assert(s1 / 0x10000 == 1);
            assert(s1 % 0x10000 == s1 - 0x10000);
        }
    }
}

/// Computes the Internet checksum of an even-length byte buffer.
pub fn internet_checksum(b: &Vec<u8>) -> (r: u16)
    requires
        b@.len() % 2 == 0,
        b@.len() <= 1500,
    ensures
        r as int == checksum_of(b@),
{
    let n: usize = b.len() / 2;
    let mut sum: u32 = 0;
    let mut w: usize = 0;
    while w < n
        invariant
            0 <= w <= n,
            n == b@.len() / 2,
            b@.len() % 2 == 0,
            b@.len() <= 1500,
            sum as int == sum_words(b@, w as int),
            sum as int <= (w as int) * 0xFFFF,
        decreases n - w,
    {
        let hi: u32 = b[2 * w] as u32;
        let lo: u32 = b[2 * w + 1] as u32;
        sum = sum + hi * 256 + lo;
        w = w + 1;
    }
    proof {
        lemma_sum_words_bound(b@, n as int);
    }
    let s1: u32 = sum / 0x10000 + sum % 0x10000;
    let s2: u32 = s1 / 0x10000 + s1 % 0x10000;
    proof {
        lemma_checksum_of_bounds(b@);
    }
    (0xFFFF - s2) as u16
}

} // verus!
