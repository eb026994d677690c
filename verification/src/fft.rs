//! Common interface of the FFT backend: the supported transform sizes and
//! the error a caller gets for a buffer of any other length.

pub mod microfft_complex;

use vstd::arithmetic::power2::{lemma2_to64, lemma_pow2_strictly_increases, pow2};
use vstd::prelude::*;

verus! {

/// Largest transform size the backend provides a kernel for.
pub const MAX_SAMPLES_LEN: usize = 4096;

/// The transform sizes the backend supports: every power of two from 2 up
/// to `MAX_SAMPLES_LEN`, with no gaps.
pub open spec fn is_supported_len(n: nat) -> bool {
    n == 2 || n == 4 || n == 8 || n == 16 || n == 32 || n == 64 || n == 128
        || n == 256 || n == 512 || n == 1024 || n == 2048 || n == 4096
}

/// The supported set is dense: it holds exactly the powers of two from 2
/// up to `MAX_SAMPLES_LEN`, with no gaps.
pub proof fn lemma_supported_len_iff_pow2(n: nat)
    ensures
        is_supported_len(n) <==> (2 <= n <= MAX_SAMPLES_LEN && (exists|k: nat| n
            == pow2(k))),
{
    lemma2_to64();
    if is_supported_len(n) {
        if n == 2 {
            assert(n == pow2(1));
        } else if n == 4 {
            assert(n == pow2(2));
        } else if n == 8 {
            assert(n == pow2(3));
        } else if n == 16 {
            assert(n == pow2(4));
        } else if n == 32 {
            assert(n == pow2(5));
        } else if n == 64 {
            assert(n == pow2(6));
        } else if n == 128 {
            assert(n == pow2(7));
        } else if n == 256 {
            assert(n == pow2(8));
        } else if n == 512 {
            assert(n == pow2(9));
        } else if n == 1024 {
            assert(n == pow2(10));
        } else if n == 2048 {
            assert(n == pow2(11));
        } else {
            assert(n == pow2(12));
        }
    }
    if 2 <= n <= MAX_SAMPLES_LEN && (exists|k: nat| n == pow2(k)) {
        let k = choose|k: nat| n == pow2(k);
        if k >= 13 {
            if k > 13 {
                lemma_pow2_strictly_increases(13, k);
            }
            assert(n >= 8192);
        } else if k == 1 {
            assert(n == 2);
        } else if k == 2 {
            assert(n == 4);
        } else if k == 3 {
            assert(n == 8);
        } else if k == 4 {
            assert(n == 16);
        } else if k == 5 {
            assert(n == 32);
        } else if k == 6 {
            assert(n == 64);
        } else if k == 7 {
            assert(n == 128);
        } else if k == 8 {
            assert(n == 256);
        } else if k == 9 {
            assert(n == 512);
        } else if k == 10 {
            assert(n == 1024);
        } else if k == 11 {
            assert(n == 2048);
        } else if k == 12 {
            assert(n == 4096);
        }
        assert(is_supported_len(n));
    }
}

/// Why a transform request was refused.
#[derive(Clone, Copy, Debug, PartialEq, Eq)]
pub enum FftError {
    /// The sample buffer's length is not one of the supported transform
    /// sizes, so no kernel can take it.
    UnsupportedLength,
}

} // verus!
