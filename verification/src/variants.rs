//! The five SHA-3 variants and their sponge parameters: rate, output-length
//! policy and domain-separation suffix, per FIPS 202.

use vstd::prelude::*;

verus! {

/// Identifier of a member of the SHA-3 family.
#[allow(non_camel_case_types)]
#[derive(Clone, Copy, PartialEq, Eq, Structural, Debug)]
pub enum Sha3Id {
    SHA3_224,
    SHA3_256,
    SHA3_384,
    SHA3_512,
    SHAKE128,
    SHAKE256,
}

/// Errors of the digest API. Both kinds report misuse by the caller; neither
/// is transient.
#[derive(Clone, Copy, PartialEq, Eq, Structural, Debug)]
pub enum Sha3Error {
    /// An absorb operation was attempted after output extraction began, or an
    /// output operation before absorption ended, without an intervening reset.
    InvalidStateTransition,
    /// A fixed-output operation was used on an extendable-output variant, or
    /// the other way round, or an extendable output of length zero was asked.
    UnsupportedOperation,
}

/// Rate in bytes: how much of the 200-byte state each absorbed or squeezed
/// block covers.
pub open spec fn rate_of(id: Sha3Id) -> int {
    match id {
        Sha3Id::SHA3_224 => 144,
        Sha3Id::SHA3_256 => 136,
        Sha3Id::SHA3_384 => 104,
        Sha3Id::SHA3_512 => 72,
        Sha3Id::SHAKE128 => 168,
        Sha3Id::SHAKE256 => 136,
    }
}

/// Fixed digest length in bytes; 0 for the extendable-output variants, whose
/// length the caller chooses.
pub open spec fn out_len_of(id: Sha3Id) -> nat {
    match id {
        Sha3Id::SHA3_224 => 28,
        Sha3Id::SHA3_256 => 32,
        Sha3Id::SHA3_384 => 48,
        Sha3Id::SHA3_512 => 64,
        Sha3Id::SHAKE128 => 0,
        Sha3Id::SHAKE256 => 0,
    }
}

/// The domain-separation suffix bits together with the first multi-rate
/// padding bit, as one byte appended after the message: 0x06 encodes the
/// two-bit SHA3 suffix `01` followed by the padding `1`, 0x1f the four-bit
/// SHAKE suffix `1111` followed by the padding `1` (bits taken LSB first).
pub open spec fn suffix_of(id: Sha3Id) -> u8 {
    match id {
        Sha3Id::SHA3_224 => 0x06,
        Sha3Id::SHA3_256 => 0x06,
        Sha3Id::SHA3_384 => 0x06,
        Sha3Id::SHA3_512 => 0x06,
        Sha3Id::SHAKE128 => 0x1f,
        Sha3Id::SHAKE256 => 0x1f,
    }
}

/// Whether the variant has extendable output.
pub open spec fn is_xof_of(id: Sha3Id) -> bool {
    match id {
        Sha3Id::SHAKE128 => true,
        Sha3Id::SHAKE256 => true,
        _ => false,
    }
}

/// Immutable per-variant sponge configuration: an entry of the variant table.
#[allow(non_camel_case_types)]
#[derive(Clone)]
pub struct spongeDesc {
    r: usize,
    d: usize,
    sfx: u8,
    xof: bool,
    name: &'static str,
}

impl spongeDesc {
    /// A descriptor is well formed when its rate fits the 200-byte state.
    pub closed spec fn wf(&self) -> bool {
        0 < self.r <= 200
    }

    /// Rate in bytes.
    pub closed spec fn r_spec(&self) -> int {
        self.r as int
    }

    /// Fixed output length in bytes (0 for extendable output).
    pub closed spec fn d_spec(&self) -> nat {
        self.d as nat
    }

    /// Domain-separation suffix byte.
    pub closed spec fn sfx_spec(&self) -> u8 {
        self.sfx
    }

    /// Whether the output is extendable.
    pub closed spec fn xof_spec(&self) -> bool {
        self.xof
    }

    /// Rate in bytes.
    pub fn rate(&self) -> (r: usize)
        ensures
            r == self.r_spec(),
            self.wf() ==> 0 < r <= 200,
    {
        self.r
    }

    /// Capacity in bytes: what the rate leaves of the 200-byte state.
    pub fn capacity(&self) -> (c: usize)
        requires
            self.wf(),
        ensures
            c == 200 - self.r_spec(),
    {
        200 - self.r
    }

    /// Fixed output length in bytes (0 for extendable output).
    pub fn output_len(&self) -> (d: usize)
        ensures
            d == self.d_spec(),
    {
        self.d
    }

    /// Domain-separation suffix byte.
    pub fn suffix(&self) -> (s: u8)
        ensures
            s == self.sfx_spec(),
    {
        self.sfx
    }

    /// Whether the output is extendable.
    pub fn is_xof(&self) -> (x: bool)
        ensures
            x == self.xof_spec(),
    {
        self.xof
    }

    /// The variant's standard name.
    pub fn name(&self) -> &'static str {
        self.name
    }
}

/// Look a variant up in the table: the rate, output policy and
/// domain-separation suffix that FIPS 202 assigns to it.
pub fn lookup(id: Sha3Id) -> (d: spongeDesc)
    ensures
        d.wf(),
        d.r_spec() == rate_of(id),
        d.d_spec() == out_len_of(id),
        d.sfx_spec() == suffix_of(id),
        d.xof_spec() == is_xof_of(id),
{
    match id {
        Sha3Id::SHA3_224 => spongeDesc { r: 144, d: 28, sfx: 0x06, xof: false, name: "SHA3-224" },
        Sha3Id::SHA3_256 => spongeDesc { r: 136, d: 32, sfx: 0x06, xof: false, name: "SHA3-256" },
        Sha3Id::SHA3_384 => spongeDesc { r: 104, d: 48, sfx: 0x06, xof: false, name: "SHA3-384" },
        Sha3Id::SHA3_512 => spongeDesc { r: 72, d: 64, sfx: 0x06, xof: false, name: "SHA3-512" },
        Sha3Id::SHAKE128 => spongeDesc { r: 168, d: 0, sfx: 0x1f, xof: true, name: "SHAKE128" },
        Sha3Id::SHAKE256 => spongeDesc { r: 136, d: 0, sfx: 0x1f, xof: true, name: "SHAKE256" },
    }
}

} // verus!
