//! Glue between block geometry and the transform taxonomy: shared
//! fixed-point numeric primitives of the separable transforms, the
//! transform-type legality gate, and the set of types the encoder
//! searches.

use vstd::prelude::*;

verus! {

use crate::block_size::BlockSize;
use crate::tx_size::TxSize;
use crate::tx_type::TxType;

/// Fixed-point precision of the square-root-of-two constants.
pub const SQRT2_BITS: usize = 12;

/// `sqrt(2)` in 12-bit fixed point.
pub const SQRT2: i32 = 5793;

/// `1/sqrt(2)` in 12-bit fixed point.
pub const INV_SQRT2: i32 = 2896;

/// The transform types the encoder searches during mode decision: the
/// flipped and remaining one-dimensional variants are deliberately left
/// out.
pub const RAV1E_TX_TYPES: [TxType; 7] = [
    TxType::DCT_DCT,
    TxType::ADST_DCT,
    TxType::DCT_ADST,
    TxType::ADST_ADST,
    TxType::IDTX,
    TxType::V_DCT,
    TxType::H_DCT,
];

/// A transform size seen as block geometry.
pub trait TxSizeExt: Sized {
    /// The coding-block shape with the same dimensions.
    spec fn spec_block_size(self) -> BlockSize;

    /// Width of the transform in units of the smallest codable block.
    spec fn spec_width_mi(self) -> usize;

    /// Height of the transform in units of the smallest codable block.
    spec fn spec_height_mi(self) -> usize;

    /// See [`TxSizeExt::spec_block_size`].
    fn block_size(self) -> (r: BlockSize)
        ensures
            r == self.spec_block_size(),
    ;

    /// See [`TxSizeExt::spec_width_mi`].
    fn width_mi(self) -> (r: usize)
        ensures
            r == self.spec_width_mi(),
    ;

    /// See [`TxSizeExt::spec_height_mi`].
    fn height_mi(self) -> (r: usize)
        ensures
            r == self.spec_height_mi(),
    ;
}

impl TxSizeExt for TxSize {
    open spec fn spec_block_size(self) -> BlockSize {
        match self {
            TxSize::TX_4X4 => BlockSize::BLOCK_4X4,
            TxSize::TX_8X8 => BlockSize::BLOCK_8X8,
            TxSize::TX_16X16 => BlockSize::BLOCK_16X16,
            TxSize::TX_32X32 => BlockSize::BLOCK_32X32,
            TxSize::TX_64X64 => BlockSize::BLOCK_64X64,
            TxSize::TX_4X8 => BlockSize::BLOCK_4X8,
            TxSize::TX_8X4 => BlockSize::BLOCK_8X4,
            TxSize::TX_8X16 => BlockSize::BLOCK_8X16,
            TxSize::TX_16X8 => BlockSize::BLOCK_16X8,
            TxSize::TX_16X32 => BlockSize::BLOCK_16X32,
            TxSize::TX_32X16 => BlockSize::BLOCK_32X16,
            TxSize::TX_32X64 => BlockSize::BLOCK_32X64,
            TxSize::TX_64X32 => BlockSize::BLOCK_64X32,
            TxSize::TX_4X16 => BlockSize::BLOCK_4X16,
            TxSize::TX_16X4 => BlockSize::BLOCK_16X4,
            TxSize::TX_8X32 => BlockSize::BLOCK_8X32,
            TxSize::TX_32X8 => BlockSize::BLOCK_32X8,
            TxSize::TX_16X64 => BlockSize::BLOCK_16X64,
            TxSize::TX_64X16 => BlockSize::BLOCK_64X16,
        }
    }

    open spec fn spec_width_mi(self) -> usize {
        (self.spec_width() / 4) as usize
    }

    open spec fn spec_height_mi(self) -> usize {
        (self.spec_height() / 4) as usize
    }

    fn block_size(self) -> (r: BlockSize) {
        match self {
            TxSize::TX_4X4 => BlockSize::BLOCK_4X4,
            TxSize::TX_8X8 => BlockSize::BLOCK_8X8,
            TxSize::TX_16X16 => BlockSize::BLOCK_16X16,
            TxSize::TX_32X32 => BlockSize::BLOCK_32X32,
            TxSize::TX_64X64 => BlockSize::BLOCK_64X64,
            TxSize::TX_4X8 => BlockSize::BLOCK_4X8,
            TxSize::TX_8X4 => BlockSize::BLOCK_8X4,
            TxSize::TX_8X16 => BlockSize::BLOCK_8X16,
            TxSize::TX_16X8 => BlockSize::BLOCK_16X8,
            TxSize::TX_16X32 => BlockSize::BLOCK_16X32,
            TxSize::TX_32X16 => BlockSize::BLOCK_32X16,
            TxSize::TX_32X64 => BlockSize::BLOCK_32X64,
            TxSize::TX_64X32 => BlockSize::BLOCK_64X32,
            TxSize::TX_4X16 => BlockSize::BLOCK_4X16,
            TxSize::TX_16X4 => BlockSize::BLOCK_16X4,
            TxSize::TX_8X32 => BlockSize::BLOCK_8X32,
            TxSize::TX_32X8 => BlockSize::BLOCK_32X8,
            TxSize::TX_16X64 => BlockSize::BLOCK_16X64,
            TxSize::TX_64X16 => BlockSize::BLOCK_64X16,
        }
    }

    fn width_mi(self) -> (r: usize) {
        let w = self.width();
        proof {
            vstd::arithmetic::power2::lemma2_to64();
            vstd::bits::lemma_usize_shr_is_div(w, crate::MI_SIZE_LOG2);
        }
        w >> crate::MI_SIZE_LOG2
    }

    fn height_mi(self) -> (r: usize) {
        let h = self.height();
        proof {
            vstd::arithmetic::power2::lemma2_to64();
            vstd::bits::lemma_usize_shr_is_div(h, crate::MI_SIZE_LOG2);
        }
        h >> crate::MI_SIZE_LOG2
    }
}

/// Position of the highest set bit of `x`, plus one; zero for zero.
pub open spec fn spec_ilog(x: int) -> int
    decreases x,
{
    if x <= 0 {
        0
    } else {
        1 + spec_ilog(x / 2)
    }
}

/// `spec_ilog` is never negative.
proof fn lemma_ilog_nonneg(x: int)
    ensures
        spec_ilog(x) >= 0,
    decreases x,
{
    if x > 0 {
        lemma_ilog_nonneg(x / 2);
    }
}

/// `spec_ilog` never exceeds the bit width that bounds its argument.
proof fn lemma_ilog_le(x: int, b: int)
    requires
        0 <= x,
        0 <= b,
        x < vstd::arithmetic::power2::pow2(b as nat),
    ensures
        spec_ilog(x) <= b,
    decreases b,
{
    if b > 0 && x > 0 {
        vstd::arithmetic::power2::lemma_pow2_unfold(b as nat);
        lemma_ilog_le(x / 2, b - 1);
    } else if b == 0 {
        vstd::arithmetic::power2::lemma_pow2(0);
        vstd::arithmetic::power::lemma_pow0(2);
    }
}

/// See [`spec_ilog`].
fn ilog(x: usize) -> (r: usize)
    ensures
        r == spec_ilog(x as int),
        r <= 64,
{
    proof {
        vstd::arithmetic::power2::lemma2_to64_rest();
        assert(usize::MAX < 0x1_0000_0000_0000_0000);
        lemma_ilog_le(x as int, 64);
    }
    proof {
        lemma_ilog_nonneg(x as int);
    }
    let mut v = x;
    let mut n: usize = 0;
    while v > 0
        invariant
            n + spec_ilog(v as int) == spec_ilog(x as int),
            spec_ilog(v as int) >= 0,
            spec_ilog(x as int) <= 64,
        decreases v,
    {
        v = v / 2;
        n = n + 1;
        proof {
            lemma_ilog_nonneg(v as int);
        }
    }
    n
}

/// The base-2 logarithm of the ratio of the column and row counts of a
/// rectangular transform: how far from square it is, signed.
pub fn get_rect_tx_log_ratio(col: usize, row: usize) -> (r: i8)
    requires
        col > 0,
        row > 0,
    ensures
        r == spec_ilog(col as int) - spec_ilog(row as int),
{
    let a = ilog(col);
    let b = ilog(row);
    (a as i8) - (b as i8)
}

/// One half-butterfly step of the fixed-point separable transform:
/// `w0*in0 + w1*in1`, accumulated with wrapping addition, then rounded
/// right by `bit` positions with round-half-up.
pub open spec fn spec_half_btf(w0: i32, in0: i32, w1: i32, in1: i32, bit: usize) -> i32 {
    let sum = vstd::wrapping::i32_specs::wrapping_add(
        (w0 * in0) as i32,
        (w1 * in1) as i32,
    );
    if bit == 0 {
        sum
    } else {
        vstd::wrapping::i32_specs::wrapping_add(sum, 1i32 << ((bit - 1) as usize)) >> bit
    }
}

/// See [`spec_half_btf`]. The products must not overflow; the rounding
/// addition is deliberately wrapping, so that a sum that overflows while
/// its rounded value does not stays defined.
pub fn half_btf(w0: i32, in0: i32, w1: i32, in1: i32, bit: usize) -> (r: i32)
    requires
        i32::MIN <= w0 * in0 <= i32::MAX,
        i32::MIN <= w1 * in1 <= i32::MAX,
        bit < 32,
    ensures
        r == spec_half_btf(w0, in0, w1, in1, bit),
{
    let result = (w0 * in0).wrapping_add(w1 * in1);
    if bit == 0 {
        result
    } else {
        result.wrapping_add(1i32 << (bit - 1)) >> bit
    }
}

/// Clamp a value to the range of a signed integer of `bit` bits.
pub fn clamp_value(value: i32, bit: usize) -> (r: i32)
    requires
        1 <= bit <= 32,
    ensures
        r == if (value as int) > vstd::arithmetic::power2::pow2((bit - 1) as nat) - 1 {
            vstd::arithmetic::power2::pow2((bit - 1) as nat) - 1
        } else if (value as int) < -(vstd::arithmetic::power2::pow2((bit - 1) as nat) as int) {
            -(vstd::arithmetic::power2::pow2((bit - 1) as nat) as int)
        } else {
            value as int
        },
{
    proof {
        vstd::arithmetic::power2::lemma2_to64();
        vstd::bits::lemma_u64_pow2_no_overflow((bit - 1) as nat);
        vstd::bits::lemma_u64_shl_is_mul(1u64, (bit - 1) as u64);
    }
    let m = 1u64 << ((bit - 1) as u64);
    let max_value: i32 = (m - 1) as i32;
    let min_value: i32 = (-(m as i64)) as i32;
    if value < min_value {
        min_value
    } else if value > max_value {
        max_value
    } else {
        value
    }
}

/// What one element becomes under `av1_round_shift_array`: unchanged for
/// a zero shift, rounded right with round-half-up for a positive one, and
/// shifted left for a negative one.
pub open spec fn spec_round_shifted(v: i32, bit: i8) -> i32 {
    if bit == 0 {
        v
    } else if bit > 0 {
        ((v + (1i32 << ((bit - 1) as usize))) as i32) >> (bit as usize)
    } else {
        v << ((-bit) as usize)
    }
}

/// Apply [`spec_round_shifted`] in place to the first `size` elements.
pub fn av1_round_shift_array(arr: &mut Vec<i32>, size: usize, bit: i8)
    requires
        size <= old(arr)@.len(),
        -31 <= bit <= 31,
        bit > 0 ==> forall|i: int|
            0 <= i < size ==> old(arr)@[i] + (1i32 << ((bit - 1) as usize)) <= i32::MAX,
    ensures
        final(arr)@.len() == old(arr)@.len(),
        forall|i: int| 0 <= i < size ==> final(arr)@[i] == spec_round_shifted(old(arr)@[i], bit),
        forall|i: int| size <= i < final(arr)@.len() ==> final(arr)@[i] == old(arr)@[i],
{
    if bit == 0 {
        return ;
    }
    if bit > 0 {
        let sh = (bit as usize) - 1;
        let mut i: usize = 0;
        while i < size
            invariant
                i <= size,
                size <= arr@.len(),
                arr@.len() == old(arr)@.len(),
                0 < bit <= 31,
                sh == bit - 1,
                forall|j: int| 0 <= j < i ==> arr@[j] == spec_round_shifted(old(arr)@[j], bit),
                forall|j: int| i <= j < arr@.len() ==> arr@[j] == old(arr)@[j],
                bit > 0 ==> forall|j: int|
                    0 <= j < size ==> old(arr)@[j] + (1i32 << ((bit - 1) as usize)) <= i32::MAX,
            decreases size - i,
        {
            let v = arr[i];
            proof {
                assert(v == old(arr)@[i as int]);
                assert((1i32 << sh) == (1i32 << ((bit - 1) as usize)));
                assert(sh < 31 ==> (1i32 << sh) > 0) by (bit_vector);
            }
            arr.set(i, (v + (1i32 << sh)) >> (bit as usize));
            i = i + 1;
        }
    } else {
        let sh = (-bit) as usize;
        let mut i: usize = 0;
        while i < size
            invariant
                i <= size,
                size <= arr@.len(),
                arr@.len() == old(arr)@.len(),
                -31 <= bit < 0,
                sh == -bit,
                forall|j: int| 0 <= j < i ==> arr@[j] == spec_round_shifted(old(arr)@[j], bit),
                forall|j: int| i <= j < arr@.len() ==> arr@[j] == old(arr)@[j],
            decreases size - i,
        {
            let v = arr[i];
            arr.set(i, v << sh);
            i = i + 1;
        }
    }
}

/// Whether a (size, type) combination may be signalled: 64-point
/// transforms admit only DCT_DCT, 32-point ones only DCT_DCT and IDTX,
/// and every smaller size admits all types.
pub open spec fn spec_valid_av1_transform(tx_size: TxSize, tx_type: TxType) -> bool {
    let size_sq = tx_size.spec_sqr_up();
    if size_sq == TxSize::TX_64X64 {
        tx_type == TxType::DCT_DCT
    } else if size_sq == TxSize::TX_32X32 {
        tx_type == TxType::DCT_DCT || tx_type == TxType::IDTX
    } else {
        true
    }
}

/// See [`spec_valid_av1_transform`]: the transform-type legality gate.
pub fn valid_av1_transform(tx_size: TxSize, tx_type: TxType) -> (r: bool)
    ensures
        r == spec_valid_av1_transform(tx_size, tx_type),
{
    let size_sq = tx_size.sqr_up();
    match (size_sq, tx_type) {
        (TxSize::TX_64X64, TxType::DCT_DCT) => true,
        (TxSize::TX_64X64, _) => false,
        (TxSize::TX_32X32, TxType::DCT_DCT) => true,
        (TxSize::TX_32X32, TxType::IDTX) => true,
        (TxSize::TX_32X32, _) => false,
        (_, _) => true,
    }
}

/// The transform types legal for a size, as a list: one type for the
/// 64-point class, two for the 32-point class, all seventeen at 4x4, and
/// the sixteen signalled types elsewhere.
pub fn get_valid_txfm_types(tx_size: TxSize) -> (r: Vec<TxType>)
    ensures
        forall|i: int| 0 <= i < r@.len() ==> spec_valid_av1_transform(tx_size, #[trigger] r@[i]),
        tx_size.spec_sqr_up() == TxSize::TX_64X64 ==> r@ =~= seq![TxType::DCT_DCT],
        tx_size.spec_sqr_up() == TxSize::TX_32X32 ==> r@ =~= seq![TxType::DCT_DCT, TxType::IDTX],
        tx_size.spec_sqr_up() == TxSize::TX_4X4 ==> r@.len() == 17,
        tx_size.spec_sqr_up() != TxSize::TX_64X64 && tx_size.spec_sqr_up() != TxSize::TX_32X32
            && tx_size.spec_sqr_up() != TxSize::TX_4X4 ==> r@.len() == 16,
        forall|i: int, j: int| 0 <= i < j < r@.len() ==> r@[i] != r@[j],
        forall|i: int| 0 <= i < r@.len() ==> (#[trigger] r@[i]).spec_ordinal() == (
        if tx_size.spec_sqr_up() == TxSize::TX_32X32 && i == 1 {
            9int
        } else {
            i
        }),
{
    let size_sq = tx_size.sqr_up();
    if size_sq == TxSize::TX_64X64 {
        vec![TxType::DCT_DCT]
    } else if size_sq == TxSize::TX_32X32 {
        vec![TxType::DCT_DCT, TxType::IDTX]
    } else if size_sq == TxSize::TX_4X4 {
        vec![
            TxType::DCT_DCT,
            TxType::ADST_DCT,
            TxType::DCT_ADST,
            TxType::ADST_ADST,
            TxType::FLIPADST_DCT,
            TxType::DCT_FLIPADST,
            TxType::FLIPADST_FLIPADST,
            TxType::ADST_FLIPADST,
            TxType::FLIPADST_ADST,
            TxType::IDTX,
            TxType::V_DCT,
            TxType::H_DCT,
            TxType::V_ADST,
            TxType::H_ADST,
            TxType::V_FLIPADST,
            TxType::H_FLIPADST,
            TxType::WHT_WHT,
        ]
    } else {
        vec![
            TxType::DCT_DCT,
            TxType::ADST_DCT,
            TxType::DCT_ADST,
            TxType::ADST_ADST,
            TxType::FLIPADST_DCT,
            TxType::DCT_FLIPADST,
            TxType::FLIPADST_FLIPADST,
            TxType::ADST_FLIPADST,
            TxType::FLIPADST_ADST,
            TxType::IDTX,
            TxType::V_DCT,
            TxType::H_DCT,
            TxType::V_ADST,
            TxType::H_ADST,
            TxType::V_FLIPADST,
            TxType::H_FLIPADST,
        ]
    }
}

} // verus!
