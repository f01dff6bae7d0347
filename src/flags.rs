//! The status register `P`.
//!
//! ```text
//!  7 6 5 4 3 2 1 0
//!  N V _ B D I Z C
//! ```
use vstd::prelude::*;

verus! {

/// Carry.
pub const C_FLAG: u8 = 0x01;
/// Zero.
pub const Z_FLAG: u8 = 0x02;
/// Interrupt disable.
pub const I_FLAG: u8 = 0x04;
/// Decimal mode: no effect on the 2A03, kept on.
pub const D_FLAG: u8 = 0x08;
/// Break: set only in the copy that BRK and PHP push.
pub const B_FLAG: u8 = 0x10;
/// Unused bit, kept on.
pub const X_FLAG: u8 = 0x20;
/// Overflow.
pub const V_FLAG: u8 = 0x40;
/// Negative.
pub const N_FLAG: u8 = 0x80;
/// The two always-on bits.
pub const DX_FLAG: u8 = 0x28;

/// The status register as one byte.
#[derive(Clone, Copy, Debug, PartialEq, Eq, Structural)]
pub struct CpuFlags {
    pub bits: u8,
}

/// `p` with Z and N recomputed from `v`.
pub open spec fn zn_bits(p: u8, v: u8) -> u8 {
    (p & 0x7D) | (if v == 0 { 0x02u8 } else { 0x00u8 }) | (v & 0x80)
}

/// `p` with V recomputed as the overflow of `a + b = c`.
pub open spec fn v_bits(p: u8, a: u8, b: u8, c: u8) -> u8 {
    (p & 0xBF) | (((a ^ c) & (b ^ c)) & 0x80) >> 1
}

/// `p` with C set iff `v` has a bit above bit 7.
pub open spec fn c_bits(p: u8, v: u16) -> u8 {
    (p & 0xFE) | (if v > 0xFF { 0x01u8 } else { 0x00u8 })
}

/// `p` with the bits of `mask` set when `on`, cleared otherwise.
pub open spec fn flag_bits(p: u8, mask: u8, on: bool) -> u8 {
    if on { p | mask } else { p & !mask }
}

impl CpuFlags {
    /// Whether every bit of `mask` is set.
    pub open spec fn has(self, mask: u8) -> bool {
        self.bits & mask == mask
    }

    /// The two always-on bits are set.
    pub open spec fn always_on(self) -> bool {
        self.bits & DX_FLAG == DX_FLAG
    }

    /// Only the two always-on bits.
    pub fn none() -> (r: CpuFlags)
        ensures
            r.bits == DX_FLAG,
    {
        CpuFlags { bits: DX_FLAG }
    }

    /// Resets to the two always-on bits only.
    pub fn clear(&mut self)
        ensures
            final(self).bits == DX_FLAG,
    {
        self.bits = DX_FLAG;
    }

    /// Sets every bit of `mask`.
    pub fn insert(&mut self, mask: u8)
        ensures
            final(self).bits == old(self).bits | mask,
    {
        self.bits = self.bits | mask;
    }

    /// Clears every bit of `mask`.
    pub fn remove(&mut self, mask: u8)
        ensures
            final(self).bits == old(self).bits & !mask,
    {
        self.bits = self.bits & !mask;
    }

    /// Whether every bit of `mask` is set.
    pub fn contains(&self, mask: u8) -> (r: bool)
        ensures
            r == self.has(mask),
    {
        self.bits & mask == mask
    }

    /// Sets the bits of `mask` when `on`, clears them otherwise.
    pub fn set_flag(&mut self, mask: u8, on: bool)
        ensures
            final(self).bits == flag_bits(old(self).bits, mask, on),
    {
        if on {
            self.bits = self.bits | mask;
        } else {
            self.bits = self.bits & !mask;
        }
    }

    /// The flags with the bits of `mask` set as well.
    pub fn with(self, mask: u8) -> (r: CpuFlags)
        ensures
            r.bits == self.bits | mask,
    {
        CpuFlags { bits: self.bits | mask }
    }

    /// Z from `v == 0`, N from bit 7 of `v`; other bits kept.
    pub fn set_zn(&mut self, v: u8)
        ensures
            final(self).bits == zn_bits(old(self).bits, v),
            final(self).has(Z_FLAG) <==> v == 0,
            final(self).has(N_FLAG) <==> v >= 0x80,
            final(self).bits & 0x7D == old(self).bits & 0x7D,
    {
        proof {
            lemma_setters();
            let p = self.bits;
            assert(zn_bits(p, v) & 0x7D == p & 0x7D) by (bit_vector);
        }
        let z: u8 = if v == 0 { 0x02 } else { 0x00 };
        self.bits = (self.bits & 0x7D) | z | (v & 0x80);
    }

    /// V from the overflow of `a + b = c`: `((a ^ c) & (b ^ c)) & 0x80 != 0`.
    pub fn set_v(&mut self, a: u8, b: u8, c: u8)
        ensures
            final(self).bits == v_bits(old(self).bits, a, b, c),
            final(self).has(V_FLAG) <==> ((a ^ c) & (b ^ c)) & 0x80 == 0x80,
            final(self).bits & 0xBF == old(self).bits & 0xBF,
    {
        proof {
            lemma_setters();
            let p = self.bits;
            assert(v_bits(p, a, b, c) & 0xBF == p & 0xBF) by (bit_vector);
        }
        self.bits = (self.bits & 0xBF) | (((a ^ c) & (b ^ c)) & 0x80) >> 1;
    }

    /// C set iff `v` has any bit above bit 7.
    pub fn set_c(&mut self, v: u16)
        ensures
            final(self).bits == c_bits(old(self).bits, v),
            final(self).has(C_FLAG) <==> v > 0xFF,
            final(self).bits & 0xFE == old(self).bits & 0xFE,
    {
        proof {
            lemma_setters();
            let p = self.bits;
            assert(c_bits(p, v) & 0xFE == p & 0xFE) by (bit_vector);
        }
        let c: u8 = if v > 0xFF { 0x01 } else { 0x00 };
        self.bits = (self.bits & 0xFE) | c;
    }
}

/// What each setter does, flag by flag: it sets its own flags from its
/// arguments and keeps every other bit.
pub proof fn lemma_setters()
    by (bit_vector)
    ensures
        forall|p: u8, v: u8|
            {
                &&& (#[trigger] zn_bits(p, v) & Z_FLAG == Z_FLAG <==> v == 0)
                &&& (zn_bits(p, v) & N_FLAG == N_FLAG <==> v >= 0x80)
                &&& zn_bits(p, v) & C_FLAG == p & C_FLAG
                &&& zn_bits(p, v) & V_FLAG == p & V_FLAG
                &&& zn_bits(p, v) & DX_FLAG == p & DX_FLAG
            },
        forall|p: u8, a: u8, b: u8, c: u8|
            {
                &&& (#[trigger] v_bits(p, a, b, c) & V_FLAG == V_FLAG <==> ((a ^ c) & (b ^ c)) & 0x80
                    == 0x80)
                &&& v_bits(p, a, b, c) & C_FLAG == p & C_FLAG
                &&& v_bits(p, a, b, c) & DX_FLAG == p & DX_FLAG
            },
        forall|p: u8, w: u16|
            {
                &&& (#[trigger] c_bits(p, w) & C_FLAG == C_FLAG <==> w > 0xFF)
                &&& c_bits(p, w) & DX_FLAG == p & DX_FLAG
            },
        forall|p: u8, on: bool|
            (#[trigger] flag_bits(p, C_FLAG, on) & C_FLAG == C_FLAG <==> on) && flag_bits(p, C_FLAG, on)
                & DX_FLAG == p & DX_FLAG,
        forall|p: u8, on: bool| #[trigger] flag_bits(p, Z_FLAG, on) & DX_FLAG == p & DX_FLAG,
        forall|p: u8, on: bool| #[trigger] flag_bits(p, N_FLAG, on) & DX_FLAG == p & DX_FLAG,
        forall|p: u8, on: bool| #[trigger] flag_bits(p, V_FLAG, on) & DX_FLAG == p & DX_FLAG,
        forall|p: u8| #[trigger] (p & !C_FLAG) & DX_FLAG == p & DX_FLAG && (p & !C_FLAG) & C_FLAG == 0,
        forall|p: u8| #[trigger] (p & !I_FLAG) & DX_FLAG == p & DX_FLAG,
        forall|p: u8| #[trigger] (p & !V_FLAG) & DX_FLAG == p & DX_FLAG,
        forall|p: u8| p & DX_FLAG == DX_FLAG ==> #[trigger] (p | C_FLAG) & DX_FLAG == DX_FLAG,
        forall|p: u8| p & DX_FLAG == DX_FLAG ==> #[trigger] (p | D_FLAG) & DX_FLAG == DX_FLAG,
        forall|p: u8| p & DX_FLAG == DX_FLAG ==> #[trigger] (p | I_FLAG) & DX_FLAG == DX_FLAG,
{
}

} // verus!
