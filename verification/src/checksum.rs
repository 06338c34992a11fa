//! The internet checksum: the ones'-complement of the ones'-complement sum of
//! the big-endian 16-bit words of a byte string.

use vstd::prelude::*;
use vstd::arithmetic::div_mod::{lemma_fundamental_div_mod, lemma_mod_multiples_vanish};

verus! {

/// The plain sum of the big-endian 16-bit words of `b`; a trailing odd byte
/// is padded with a zero low byte.
pub open spec fn sum_be_words(b: Seq<u8>) -> int
    decreases b.len(),
{
    if b.len() == 0 {
        0
    } else if b.len() == 1 {
        (b[0] as int) * 256
    } else {
        (b[0] as int) * 256 + (b[1] as int) + sum_be_words(b.skip(2))
    }
}

/// The ones'-complement residue of a plain word sum: the unique value in
/// 0..=65535 congruent to the sum modulo 65535, where a positive sum never
/// folds to zero.
pub open spec fn fold_sum(total: int) -> int {
    if total > 0 && total % 65535 == 0 {
        65535
    } else {
        total % 65535
    }
}

/// The internet checksum of `b`.
pub open spec fn checksum_of(b: Seq<u8>) -> u16 {
    (65535 - fold_sum(sum_be_words(b))) as u16
}

/// The word sum of a byte string is never negative.
pub proof fn lemma_sum_be_words_nonneg(b: Seq<u8>)
    ensures
        sum_be_words(b) >= 0,
    decreases b.len(),
{
    if b.len() >= 2 {
        lemma_sum_be_words_nonneg(b.skip(2));
    }
}

/// Computes the internet checksum of `data`.
pub fn internet_checksum(data: &Vec<u8>) -> (r: u16)
    requires
        data@.len() <= 65535,
    ensures
        r == checksum_of(data@),
{
    let n = data.len();
    let mut acc: u32 = 0;
    let mut i: usize = 0;
    proof {
        assert(data@.skip(0) =~= data@);
    }
    while i + 1 < n
        invariant
            n == data@.len(),
            n <= 65535,
            i <= n,
            i % 2 == 0,
            acc as int <= 33000 * i,
            sum_be_words(data@) == acc as int + sum_be_words(data@.skip(i as int)),
        decreases n - i,
    {
        let word: u32 = (data[i] as u32) * 256 + (data[i + 1] as u32);
        proof {
            let s = data@.skip(i as int);
            assert(s.len() >= 2);
            assert(s[0] == data@[i as int]);
            assert(s[1] == data@[i as int + 1]);
            assert(s.skip(2) =~= data@.skip(i as int + 2));
        }
        acc = acc + word;
        i = i + 2;
    }
    if i < n {
        proof {
            let s = data@.skip(i as int);
            assert(s.len() == 1);
            assert(s[0] == data@[i as int]);
        }
        acc = acc + (data[i] as u32) * 256;
        i = i + 1;
        proof {
            assert(data@.skip(i as int) =~= Seq::<u8>::empty());
        }
    } else {
        proof {
            assert(data@.skip(i as int) =~= Seq::<u8>::empty());
        }
    }
    let ghost total: int = sum_be_words(data@);
    assert(acc as int == total);
    let mut sum: u32 = acc;
    while sum > 65535
        invariant
            (sum as int) % 65535 == total % 65535,
            total > 0 ==> sum > 0,
            total == 0 ==> sum == 0,
        decreases sum,
    {
        let q = sum / 65536;
        let rem = sum % 65536;
        proof {
            lemma_fundamental_div_mod(sum as int, 65536);
            assert(sum as int == 65535 * (q as int) + (q as int + rem as int));
            lemma_mod_multiples_vanish(q as int, q as int + rem as int, 65535);
        }
        sum = rem + q;
    }
    proof {
        assert(sum as int == fold_sum(total));
    }
    (65535 - sum) as u16
}

} // verus!
