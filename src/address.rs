//! 160-bit addresses and the alias that the bridge presents for a caller
//! from the other layer.

use vstd::prelude::*;

verus! {

/// The high 32 bits of the alias offset `0x1111000000000000000000000000000000001111`.
pub const ALIAS_OFFSET_HI: u32 = 0x1111_0000;

/// The middle 64 bits of the alias offset.
pub const ALIAS_OFFSET_MID: u64 = 0;

/// The low 64 bits of the alias offset.
pub const ALIAS_OFFSET_LO: u64 = 0x1111;

/// Number of distinct addresses: `2^160`.
pub open spec fn address_modulus() -> nat {
    0x1_0000_0000_0000_0000_0000_0000_0000_0000_0000_0000nat
}

/// The alias offset as a number.
pub open spec fn alias_offset() -> nat {
    0x1111_0000_0000_0000_0000_0000_0000_0000_0000_1111nat
}

/// The alias of the address whose number is `v`: `(v + offset) mod 2^160`.
pub open spec fn alias_value(v: nat) -> nat {
    (v + alias_offset()) % address_modulus()
}

/// A 160-bit address, held as three big-endian limbs: bits 159..128 in `hi`,
/// bits 127..64 in `mid` and bits 63..0 in `lo`.
#[derive(Clone, Copy, Debug, PartialEq, Eq, Structural)]
pub struct Address {
    pub hi: u32,
    pub mid: u64,
    pub lo: u64,
}

impl Address {
    /// The address read as an unsigned 160-bit number.
    pub open spec fn value(self) -> nat {
        self.hi as nat * 0x1_0000_0000_0000_0000_0000_0000_0000_0000nat
            + self.mid as nat * 0x1_0000_0000_0000_0000nat + self.lo as nat
    }

    /// The address made of the three limbs.
    pub fn new(hi: u32, mid: u64, lo: u64) -> (r: Address)
        ensures
            r.hi == hi,
            r.mid == mid,
            r.lo == lo,
            r.value() == hi as nat * 0x1_0000_0000_0000_0000_0000_0000_0000_0000nat
                + mid as nat * 0x1_0000_0000_0000_0000nat + lo as nat,
    {
        Address { hi, mid, lo }
    }

    /// The zero address, which also stands for "no counterpart registered".
    pub fn zero() -> (r: Address)
        ensures
            r.value() == 0,
    {
        Address { hi: 0, mid: 0, lo: 0 }
    }
}

/// Every address is below `2^160`.
pub proof fn lemma_value_bounded(a: Address)
    ensures
        a.value() < address_modulus(),
{
}

/// Two addresses are equal exactly when their numbers are.
pub proof fn lemma_value_injective(a: Address, b: Address)
    ensures
        a.value() == b.value() <==> a == b,
{
}

/// The alias that the bridge presents when `addr` calls across layers:
/// `addr + offset`, wrapping around modulo `2^160`.
pub fn alias_of(addr: Address) -> (r: Address)
    ensures
        r.value() == alias_value(addr.value()),
{
    let base: u128 = 0x1_0000_0000_0000_0000;
    let lo_sum: u128 = addr.lo as u128 + ALIAS_OFFSET_LO as u128;
    let c1: u128 = if lo_sum >= base { 1 } else { 0 };
    let lo: u64 = (lo_sum - c1 * base) as u64;
    let mid_sum: u128 = addr.mid as u128 + ALIAS_OFFSET_MID as u128 + c1;
    let c2: u128 = if mid_sum >= base { 1 } else { 0 };
    let mid: u64 = (mid_sum - c2 * base) as u64;
    let hi_sum: u64 = addr.hi as u64 + ALIAS_OFFSET_HI as u64 + c2 as u64;
    let c3: u64 = if hi_sum >= 0x1_0000_0000 { 1 } else { 0 };
    let hi: u32 = (hi_sum - c3 * 0x1_0000_0000) as u32;
    let r = Address { hi, mid, lo };
    proof {
        let m = address_modulus() as int;
        let s = (addr.value() + alias_offset()) as int;
        assert(r.value() + c3 * m == s);
        lemma_value_bounded(r);
        vstd::arithmetic::div_mod::lemma_fundamental_div_mod_converse(s, m, c3 as int, r.value() as int);
    }
    r
}

/// Aliasing is no involution: aliasing an alias never gives back the
/// address it started from.
pub proof fn lemma_alias_not_involution(a: Address)
    ensures
        alias_value(alias_value(a.value())) != a.value(),
{
    let m = address_modulus() as int;
    let v = a.value() as int;
    let k = alias_offset() as int;
    let x1 = alias_value(a.value()) as int;
    let x2 = alias_value(x1 as nat) as int;
    if v + k < m {
        vstd::arithmetic::div_mod::lemma_fundamental_div_mod_converse(v + k, m, 0, v + k);
    } else {
        vstd::arithmetic::div_mod::lemma_fundamental_div_mod_converse(v + k, m, 1, v + k - m);
    }
    if x1 + k < m {
        vstd::arithmetic::div_mod::lemma_fundamental_div_mod_converse(x1 + k, m, 0, x1 + k);
    } else {
        vstd::arithmetic::div_mod::lemma_fundamental_div_mod_converse(x1 + k, m, 1, x1 + k - m);
    }
}

/// No address is its own alias.
pub proof fn lemma_alias_differs(a: Address)
    ensures
        alias_value(a.value()) != a.value(),
{
    let m = address_modulus() as int;
    let v = a.value() as int;
    let k = alias_offset() as int;
    if v + k < m {
        vstd::arithmetic::div_mod::lemma_fundamental_div_mod_converse(v + k, m, 0, v + k);
    } else {
        vstd::arithmetic::div_mod::lemma_fundamental_div_mod_converse(v + k, m, 1, v + k - m);
    }
}

} // verus!
