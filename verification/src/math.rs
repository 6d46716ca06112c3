//! Alignment arithmetic on byte offsets.

use vstd::prelude::*;
use vstd::arithmetic::power2::is_pow2;

verus! {

/// The largest record size a layout may have: sizes are kept within the
/// positive range of a signed 64-bit integer, so that a record can be
/// allocated and indexed on every supported target.
pub const MAX_RECORD_SIZE: u64 = 0x7fff_ffff_ffff_ffff;

/// The smallest multiple of `alignment` that is not below `n`. For an
/// alignment of zero nothing can be rounded and `n` itself is the value.
pub open spec fn align_up(n: int, alignment: int) -> int {
    if alignment <= 0 || n % alignment == 0 {
        n
    } else {
        n + (alignment - n % alignment)
    }
}

/// `align_up` yields a multiple of the alignment at or above `n`, less than
/// one alignment away from it.
pub proof fn lemma_align_up_is_multiple(n: int, alignment: int)
    requires
        0 <= n,
        0 < alignment,
    ensures
        n <= align_up(n, alignment) < n + alignment,
        align_up(n, alignment) % alignment == 0,
{
    let r = align_up(n, alignment);
    assert(r % alignment == 0 && n <= r < n + alignment) by (nonlinear_arith)
        requires
            0 <= n,
            0 < alignment,
            r == if n % alignment == 0 { n } else { n + (alignment - n % alignment) },
    ;
}

/// No multiple of the alignment lies between `n` and `align_up(n, alignment)`.
pub proof fn lemma_align_up_is_least(n: int, alignment: int, m: int)
    requires
        0 <= n <= m,
        0 < alignment,
        m % alignment == 0,
    ensures
        align_up(n, alignment) <= m,
{
    let r = align_up(n, alignment);
    lemma_align_up_is_multiple(n, alignment);
    if m < r {
        assert(false) by (nonlinear_arith)
            requires
                n <= m < r,
                r < n + alignment,
                0 < alignment,
                m % alignment == 0,
                r % alignment == 0,
        ;
    }
}

/// Rounds `n` up to the next multiple of `alignment`, or reports that the
/// rounded value does not fit in 64 bits.
pub fn align_to(n: u64, alignment: u64) -> (r: Option<u64>)
    requires
        alignment > 0,
    ensures
        r == if align_up(n as int, alignment as int) <= u64::MAX {
            Some(align_up(n as int, alignment as int) as u64)
        } else {
            None::<u64>
        },
{
    let rem: u64 = n % alignment;
    if rem == 0 {
        Some(n)
    } else {
        let pad: u64 = alignment - rem;
        n.checked_add(pad)
    }
}

/// A positive 64-bit number is a power of two exactly when it shares no bit
/// with its predecessor.
pub proof fn lemma_power_of_two_bits(x: u64)
    ensures
        is_pow2(x as int) <==> (x != 0 && x & ((x - 1) as u64) == 0),
    decreases x,
{
    reveal(is_pow2);
    if x == 1 {
        assert(1u64 & 0u64 == 0) by (bit_vector);
    } else if x >= 2 {
        let h: u64 = x / 2;
        lemma_power_of_two_bits(h);
        assert(x >= 2 ==> ((x & ((x - 1) as u64) == 0) <==> (x % 2 == 0 && (x / 2) & (((x / 2) - 1)
            as u64) == 0))) by (bit_vector);
    }
}

/// Tells whether `x` is a power of two.
pub fn is_power_of_two(x: u64) -> (yes: bool)
    ensures
        yes == is_pow2(x as int),
{
    proof {
        lemma_power_of_two_bits(x);
    }
    x != 0 && x & (x - 1) == 0
}

} // verus!
