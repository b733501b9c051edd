//! Transform basis combinations: the 16 signalled two-dimensional types,
//! the lossless Walsh-Hadamard type, their decomposition into
//! one-dimensional bases, and the named reduced signalling sets.
#![allow(non_camel_case_types)]

use vstd::prelude::*;

verus! {

use crate::tx_size::TxSize;
use crate::tx_type::TxType::{
    DCT_DCT, ADST_DCT, DCT_ADST, ADST_ADST, FLIPADST_DCT, DCT_FLIPADST, FLIPADST_FLIPADST,
    ADST_FLIPADST, FLIPADST_ADST, IDTX, V_DCT, H_DCT, V_ADST, H_ADST, V_FLIPADST, H_FLIPADST,
    WHT_WHT,
};

/// Number of transform types signalled in the bitstream; WHT_WHT is not
/// among them.
pub const TX_TYPES: usize = 16;

/// Number of transform types including the lossless Walsh-Hadamard type.
pub const TX_TYPES_PLUS_LL: usize = 17;

#[derive(Copy, Clone, Debug, PartialEq, Eq, Structural)]
pub enum TxType {
    DCT_DCT,
    ADST_DCT,
    DCT_ADST,
    ADST_ADST,
    FLIPADST_DCT,
    DCT_FLIPADST,
    FLIPADST_FLIPADST,
    ADST_FLIPADST,
    FLIPADST_ADST,
    IDTX,
    V_DCT,
    H_DCT,
    V_ADST,
    H_ADST,
    V_FLIPADST,
    H_FLIPADST,
    WHT_WHT,
}

/// The five one-dimensional basis families a 2D transform type is built
/// from.
#[derive(Copy, Clone, Debug, PartialEq, Eq, Structural)]
pub enum TxType1D {
    DCT,
    ADST,
    FLIPADST,
    IDTX,
    WHT,
}

/// Named reduced transform-type sets used to bound how many types must be
/// signalled in a coding context.
#[derive(Copy, Clone, Debug, PartialEq, Eq, Structural)]
pub enum TxSet {
    /// DCT only.
    TX_SET_DCTONLY,
    /// DCT + identity.
    TX_SET_INTER_3,
    /// Discrete trig transforms without flip (4) + identity.
    TX_SET_INTRA_2,
    /// Discrete trig transforms without flip (4) + identity + 1D
    /// horizontal/vertical DCT (2).
    TX_SET_INTRA_1,
    /// Discrete trig transforms with flip (9) + identity + 1D
    /// horizontal/vertical DCT (2).
    TX_SET_INTER_2,
    /// Discrete trig transforms with flip (9) + identity + 1D
    /// horizontal/vertical (6).
    TX_SET_INTER_1,
}

impl TxType {
    /// Position of the variant in the declaration order, the index used by
    /// tables with one slot per type.
    pub open spec fn spec_ordinal(self) -> int {
        match self {
            DCT_DCT => 0,
            ADST_DCT => 1,
            DCT_ADST => 2,
            ADST_ADST => 3,
            FLIPADST_DCT => 4,
            DCT_FLIPADST => 5,
            FLIPADST_FLIPADST => 6,
            ADST_FLIPADST => 7,
            FLIPADST_ADST => 8,
            IDTX => 9,
            V_DCT => 10,
            H_DCT => 11,
            V_ADST => 12,
            H_ADST => 13,
            V_FLIPADST => 14,
            H_FLIPADST => 15,
            WHT_WHT => 16,
        }
    }

    /// See [`TxType::spec_ordinal`].
    pub fn ordinal(self) -> (r: usize)
        ensures
            r == self.spec_ordinal(),
            r < TX_TYPES_PLUS_LL,
    {
        match self {
            DCT_DCT => 0,
            ADST_DCT => 1,
            DCT_ADST => 2,
            ADST_ADST => 3,
            FLIPADST_DCT => 4,
            DCT_FLIPADST => 5,
            FLIPADST_FLIPADST => 6,
            ADST_FLIPADST => 7,
            FLIPADST_ADST => 8,
            IDTX => 9,
            V_DCT => 10,
            H_DCT => 11,
            V_ADST => 12,
            H_ADST => 13,
            V_FLIPADST => 14,
            H_FLIPADST => 15,
            WHT_WHT => 16,
        }
    }

    /// Slot of the type in a table with one entry per signalled type.
    /// WHT_WHT deliberately aliases onto the DCT_DCT slot; such tables are
    /// only consulted where WHT_WHT cannot occur.
    pub fn table_slot(self) -> (r: usize)
        ensures
            self != WHT_WHT ==> r == self.spec_ordinal(),
            self == WHT_WHT ==> r == 0,
            r < TX_TYPES,
    {
        if self == WHT_WHT {
            0
        } else {
            self.ordinal()
        }
    }

    /// What `uv_inter` returns: chroma transform types for inter blocks
    /// collapse towards DCT_DCT as the chroma transform grows.
    pub open spec fn spec_uv_inter(self, uv_tx_size: TxSize) -> TxType {
        if uv_tx_size.spec_sqr_up() == TxSize::TX_32X32 {
            if self == IDTX {
                IDTX
            } else {
                DCT_DCT
            }
        } else if uv_tx_size.spec_sqr() == TxSize::TX_16X16 {
            if self == V_ADST || self == H_ADST || self == V_FLIPADST || self == H_FLIPADST {
                DCT_DCT
            } else {
                self
            }
        } else {
            self
        }
    }

    /// Narrow an inter-coded luma transform type to the reduced set legal
    /// for a chroma transform of the given size.
    pub fn uv_inter(self, uv_tx_size: TxSize) -> (r: TxType)
        ensures
            r == self.spec_uv_inter(uv_tx_size),
    {
        if uv_tx_size.sqr_up() == TxSize::TX_32X32 {
            match self {
                IDTX => IDTX,
                _ => DCT_DCT,
            }
        } else if uv_tx_size.sqr() == TxSize::TX_16X16 {
            match self {
                V_ADST | H_ADST | V_FLIPADST | H_FLIPADST => DCT_DCT,
                _ => self,
            }
        } else {
            self
        }
    }

    /// Vertical 1D basis of the type.
    pub open spec fn spec_vtx(self) -> TxType1D {
        match self {
            DCT_DCT => TxType1D::DCT,
            ADST_DCT => TxType1D::ADST,
            DCT_ADST => TxType1D::DCT,
            ADST_ADST => TxType1D::ADST,
            FLIPADST_DCT => TxType1D::FLIPADST,
            DCT_FLIPADST => TxType1D::DCT,
            FLIPADST_FLIPADST => TxType1D::FLIPADST,
            ADST_FLIPADST => TxType1D::ADST,
            FLIPADST_ADST => TxType1D::FLIPADST,
            IDTX => TxType1D::IDTX,
            V_DCT => TxType1D::DCT,
            H_DCT => TxType1D::IDTX,
            V_ADST => TxType1D::ADST,
            H_ADST => TxType1D::IDTX,
            V_FLIPADST => TxType1D::FLIPADST,
            H_FLIPADST => TxType1D::IDTX,
            WHT_WHT => TxType1D::WHT,
        }
    }

    /// Horizontal 1D basis of the type.
    pub open spec fn spec_htx(self) -> TxType1D {
        match self {
            DCT_DCT => TxType1D::DCT,
            ADST_DCT => TxType1D::DCT,
            DCT_ADST => TxType1D::ADST,
            ADST_ADST => TxType1D::ADST,
            FLIPADST_DCT => TxType1D::DCT,
            DCT_FLIPADST => TxType1D::FLIPADST,
            FLIPADST_FLIPADST => TxType1D::FLIPADST,
            ADST_FLIPADST => TxType1D::FLIPADST,
            FLIPADST_ADST => TxType1D::ADST,
            IDTX => TxType1D::IDTX,
            V_DCT => TxType1D::IDTX,
            H_DCT => TxType1D::DCT,
            V_ADST => TxType1D::IDTX,
            H_ADST => TxType1D::ADST,
            V_FLIPADST => TxType1D::IDTX,
            H_FLIPADST => TxType1D::FLIPADST,
            WHT_WHT => TxType1D::WHT,
        }
    }

    /// Split the type into its (vertical, horizontal) 1D bases.
    pub fn into_1d_types(self) -> (r: (TxType1D, TxType1D))
        ensures
            r.0 == self.spec_vtx(),
            r.1 == self.spec_htx(),
    {
        match self {
            DCT_DCT => (TxType1D::DCT, TxType1D::DCT),
            ADST_DCT => (TxType1D::ADST, TxType1D::DCT),
            DCT_ADST => (TxType1D::DCT, TxType1D::ADST),
            ADST_ADST => (TxType1D::ADST, TxType1D::ADST),
            FLIPADST_DCT => (TxType1D::FLIPADST, TxType1D::DCT),
            DCT_FLIPADST => (TxType1D::DCT, TxType1D::FLIPADST),
            FLIPADST_FLIPADST => (TxType1D::FLIPADST, TxType1D::FLIPADST),
            ADST_FLIPADST => (TxType1D::ADST, TxType1D::FLIPADST),
            FLIPADST_ADST => (TxType1D::FLIPADST, TxType1D::ADST),
            IDTX => (TxType1D::IDTX, TxType1D::IDTX),
            V_DCT => (TxType1D::DCT, TxType1D::IDTX),
            H_DCT => (TxType1D::IDTX, TxType1D::DCT),
            V_ADST => (TxType1D::ADST, TxType1D::IDTX),
            H_ADST => (TxType1D::IDTX, TxType1D::ADST),
            V_FLIPADST => (TxType1D::FLIPADST, TxType1D::IDTX),
            H_FLIPADST => (TxType1D::IDTX, TxType1D::FLIPADST),
            WHT_WHT => (TxType1D::WHT, TxType1D::WHT),
        }
    }
}

/// Vertical 1D basis of each transform type, indexed by declaration order.
pub const VTX_TAB: [TxType1D; 17] = [
    TxType1D::DCT,
    TxType1D::ADST,
    TxType1D::DCT,
    TxType1D::ADST,
    TxType1D::FLIPADST,
    TxType1D::DCT,
    TxType1D::FLIPADST,
    TxType1D::ADST,
    TxType1D::FLIPADST,
    TxType1D::IDTX,
    TxType1D::DCT,
    TxType1D::IDTX,
    TxType1D::ADST,
    TxType1D::IDTX,
    TxType1D::FLIPADST,
    TxType1D::IDTX,
    TxType1D::WHT,
];

/// Horizontal 1D basis of each transform type, indexed by declaration
/// order.
pub const HTX_TAB: [TxType1D; 17] = [
    TxType1D::DCT,
    TxType1D::DCT,
    TxType1D::ADST,
    TxType1D::ADST,
    TxType1D::DCT,
    TxType1D::FLIPADST,
    TxType1D::FLIPADST,
    TxType1D::FLIPADST,
    TxType1D::ADST,
    TxType1D::IDTX,
    TxType1D::IDTX,
    TxType1D::DCT,
    TxType1D::IDTX,
    TxType1D::ADST,
    TxType1D::IDTX,
    TxType1D::FLIPADST,
    TxType1D::WHT,
];

} // verus!
