//! Arithmetic on the protection-key rights register.

use vstd::prelude::*;

verus! {

/// Rights bit: the domain can be neither read nor written.
pub const PKEY_DISABLE_ACCESS: u32 = 0x1;

/// Rights bit: the domain can be read but not written.
pub const PKEY_DISABLE_WRITE: u32 = 0x2;

/// The two rights bits that `pkru` holds for domain `pkey`.
pub open spec fn pkru_rights(pkru: u32, pkey: int) -> u32
    recommends
        0 <= pkey < 16,
{
    (pkru >> ((2 * pkey) as u32)) & 0x3u32
}

/// `pkru` with the rights of domain `pkey` replaced by `prot`.
pub open spec fn pkru_with(pkru: u32, pkey: int, prot: u32) -> u32
    recommends
        0 <= pkey < 16,
        prot < 4,
{
    (pkru & !(0x3u32 << ((2 * pkey) as u32))) | (prot << ((2 * pkey) as u32))
}

/// `pkru` with the rights in `prot` taken from domain `pkey`, on top of those that it
/// lacks already.
pub open spec fn pkru_denying(pkru: u32, pkey: int, prot: u32) -> u32
    recommends
        0 <= pkey < 16,
        prot < 4,
{
    pkru | (prot << ((2 * pkey) as u32))
}

/// Reads the rights of one domain out of a register value.
pub fn pkru_get(pkru: u32, pkey: i32) -> (r: u32)
    requires
        0 <= pkey < 16,
    ensures
        r == pkru_rights(pkru, pkey as int),
        r < 4,
{
    let shift: u32 = pkey as u32 * 2;
    let r = (pkru >> shift) & 0x3u32;
    assert((pkru >> shift) & 0x3u32 < 4) by (bit_vector);
    r
}

/// Takes rights away from one domain in a register value. No domain gains a right by it.
pub fn pkru_deny(pkru: u32, pkey: i32, prot: u32) -> (r: u32)
    requires
        0 <= pkey < 16,
        prot < 4,
    ensures
        r == pkru_denying(pkru, pkey as int, prot),
        pkru_rights(r, pkey as int) == pkru_rights(pkru, pkey as int) | prot,
        forall|k: int| 0 <= k < 16 && k != pkey ==> pkru_rights(r, k) == pkru_rights(pkru, k),
        r & pkru == pkru,
{
    let held = pkru_get(pkru, pkey);
    proof {
        lemma_pkru_denying(pkru, pkey as int, prot);
        assert(held | prot < 4) by (bit_vector)
            requires
                held < 4,
                prot < 4,
        ;
    }
    pkru_set(pkru, pkey, held | prot)
}

/// Replaces the rights of one domain in a register value.
pub fn pkru_set(pkru: u32, pkey: i32, prot: u32) -> (r: u32)
    requires
        0 <= pkey < 16,
        prot < 4,
    ensures
        r == pkru_with(pkru, pkey as int, prot),
        pkru_rights(r, pkey as int) == prot,
        forall|k: int| 0 <= k < 16 && k != pkey ==> pkru_rights(r, k) == pkru_rights(pkru, k),
{
    let shift: u32 = pkey as u32 * 2;
    let mask: u32 = 0x3u32 << shift;
    let r = (pkru & !mask) | (prot << shift);
    proof {
        lemma_pkru_with(pkru, pkey as int, prot);
    }
    r
}

/// Writing the rights of one domain sets exactly those two bits.
pub proof fn lemma_pkru_with(pkru: u32, pkey: int, prot: u32)
    requires
        0 <= pkey < 16,
        prot < 4,
    ensures
        pkru_rights(pkru_with(pkru, pkey, prot), pkey) == prot,
        forall|k: int|
            0 <= k < 16 && k != pkey ==> pkru_rights(pkru_with(pkru, pkey, prot), k)
                == pkru_rights(pkru, k),
{
    let s: u32 = (2 * pkey) as u32;
    assert((((pkru & !(0x3u32 << s)) | (prot << s)) >> s) & 0x3u32 == prot) by (bit_vector)
        requires
            s <= 30,
            prot < 4,
    ;
    assert forall|k: int| 0 <= k < 16 && k != pkey implies pkru_rights(
        pkru_with(pkru, pkey, prot),
        k,
    ) == pkru_rights(pkru, k) by {
        let t: u32 = (2 * k) as u32;
        assert((((pkru & !(0x3u32 << s)) | (prot << s)) >> t) & 0x3u32 == (pkru >> t) & 0x3u32)
            by (bit_vector)
            requires
                s <= 30,
                t <= 30,
                s % 2 == 0,
                t % 2 == 0,
                s != t,
                prot < 4,
        ;
    }
}

/// Taking rights from one domain sets their bits for that domain and changes no other
/// bit: it is the same as writing back what the domain lacked together with what it loses.
pub proof fn lemma_pkru_denying(pkru: u32, pkey: int, prot: u32)
    requires
        0 <= pkey < 16,
        prot < 4,
    ensures
        pkru_denying(pkru, pkey, prot) == pkru_with(pkru, pkey, pkru_rights(pkru, pkey) | prot),
        pkru_rights(pkru_denying(pkru, pkey, prot), pkey) == pkru_rights(pkru, pkey) | prot,
        forall|k: int|
            0 <= k < 16 && k != pkey ==> pkru_rights(pkru_denying(pkru, pkey, prot), k)
                == pkru_rights(pkru, k),
        pkru_denying(pkru, pkey, prot) & pkru == pkru,
{
    let s: u32 = (2 * pkey) as u32;
    assert(pkru | (prot << s) == (pkru & !(0x3u32 << s)) | ((((pkru >> s) & 0x3u32) | prot) << s))
        by (bit_vector)
        requires
            s <= 30,
            prot < 4,
    ;
    assert(((pkru | (prot << s)) >> s) & 0x3u32 == ((pkru >> s) & 0x3u32) | prot) by (bit_vector)
        requires
            s <= 30,
            prot < 4,
    ;
    assert((pkru | (prot << s)) & pkru == pkru) by (bit_vector);
    assert forall|k: int| 0 <= k < 16 && k != pkey implies pkru_rights(
        pkru_denying(pkru, pkey, prot),
        k,
    ) == pkru_rights(pkru, k) by {
        let t: u32 = (2 * k) as u32;
        assert(((pkru | (prot << s)) >> t) & 0x3u32 == (pkru >> t) & 0x3u32) by (bit_vector)
            requires
                s <= 30,
                t <= 30,
                s % 2 == 0,
                t % 2 == 0,
                s != t,
                prot < 4,
        ;
    }
}

} // verus!
