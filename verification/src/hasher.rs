//! The streaming digest API: construct a hash instance for a variant, feed it
//! bytes with `update`, close it with `finalize` (fixed-output variants) or
//! `finalize_xof` (extendable-output variants), and reuse it after `reset`.
//!
//! Every result is pinned to a spec-level pipeline over the sponge model:
//! absorb the message, pad with the variant's suffix, squeeze the output.
//! The same input therefore always yields the same bytes.

use vstd::prelude::*;
use crate::sponge::{
    SpongeModel, SpongeState, absorb_bytes, init_model, lemma_squeeze_len, lemma_squeeze_split,
    pad_model, squeeze_bytes, squeeze_state,
};
use crate::variants::{
    Sha3Error, Sha3Id, is_xof_of, lookup, out_len_of, rate_of, spongeDesc, suffix_of,
};

verus! {

/// The bytes a sponge with the given rate and suffix emits for a message:
/// absorb it all, pad, squeeze `n` bytes.
pub open spec fn sponge_output(rate: int, domain: u8, msg: Seq<u8>, n: nat) -> Seq<u8> {
    squeeze_bytes(rate, pad_model(rate, absorb_bytes(rate, init_model(), msg), domain), n)
}

/// The digest a fixed-output variant assigns to a message.
pub open spec fn sha3_digest(id: Sha3Id, msg: Seq<u8>) -> Seq<u8>
    recommends
        !is_xof_of(id),
{
    sponge_output(rate_of(id), suffix_of(id), msg, out_len_of(id))
}

/// The first `n` output bytes an extendable-output variant assigns to a
/// message.
pub open spec fn shake_output(id: Sha3Id, msg: Seq<u8>, n: nat) -> Seq<u8>
    recommends
        is_xof_of(id),
{
    sponge_output(rate_of(id), suffix_of(id), msg, n)
}

/// A fixed-output digest is exactly as long as its variant prescribes:
/// 28, 32, 48 or 64 bytes.
pub proof fn lemma_digest_len(id: Sha3Id, msg: Seq<u8>)
    ensures
        sha3_digest(id, msg).len() == out_len_of(id),
{
    lemma_squeeze_len(
        rate_of(id),
        pad_model(rate_of(id), absorb_bytes(rate_of(id), init_model(), msg), suffix_of(id)),
        out_len_of(id),
    );
}

/// An extendable output is exactly as long as was asked.
pub proof fn lemma_shake_len(id: Sha3Id, msg: Seq<u8>, n: nat)
    ensures
        shake_output(id, msg, n).len() == n,
{
    lemma_squeeze_len(
        rate_of(id),
        pad_model(rate_of(id), absorb_bytes(rate_of(id), init_model(), msg), suffix_of(id)),
        n,
    );
}

/// Chunking invariance at the digest level: the digest of `a + b` equals the
/// output of a sponge that absorbed `a` and then `b` in separate calls — the
/// state `update(a); update(b); finalize()` reaches by the contracts below.
pub proof fn lemma_digest_chunked(id: Sha3Id, a: Seq<u8>, b: Seq<u8>)
    ensures
        sha3_digest(id, a + b) == squeeze_bytes(
            rate_of(id),
            pad_model(
                rate_of(id),
                absorb_bytes(rate_of(id), absorb_bytes(rate_of(id), init_model(), a), b),
                suffix_of(id),
            ),
            out_len_of(id),
        ),
{
    crate::sponge::lemma_absorb_append(rate_of(id), init_model(), a, b);
}

/// Prefix consistency of extendable output: the first `n` bytes of a longer
/// request agree with a shorter request, and the `k` bytes squeezed after the
/// first `n` — what a second `finalize_xof` call on the same instance
/// returns — complete it.
pub proof fn lemma_shake_prefix(id: Sha3Id, msg: Seq<u8>, n: nat, k: nat)
    ensures
        shake_output(id, msg, n) == shake_output(id, msg, (n + k) as nat).take(n as int),
        shake_output(id, msg, (n + k) as nat) == shake_output(id, msg, n) + squeeze_bytes(
            rate_of(id),
            squeeze_state(
                rate_of(id),
                pad_model(
                    rate_of(id),
                    absorb_bytes(rate_of(id), init_model(), msg),
                    suffix_of(id),
                ),
                n,
            ),
            k,
        ),
{
    let rate = rate_of(id);
    let base = pad_model(rate, absorb_bytes(rate, init_model(), msg), suffix_of(id));
    lemma_squeeze_split(rate, base, n, k);
    lemma_squeeze_len(rate, base, n);
    lemma_squeeze_len(rate, squeeze_state(rate, base, n), k);
    assert((squeeze_bytes(rate, base, n) + squeeze_bytes(
        rate,
        squeeze_state(rate, base, n),
        k,
    )).take(n as int) =~= squeeze_bytes(rate, base, n));
}

/// A hash instance: a sponge configured by one variant-table entry.
#[derive(Clone)]
pub struct Sha3 {
    sponge: SpongeState,
    desc: spongeDesc,
}

impl View for Sha3 {
    type V = SpongeModel;

    closed spec fn view(&self) -> SpongeModel {
        self.sponge@
    }
}

impl Sha3 {
    /// Internal invariant: the sponge is well formed and runs at the
    /// descriptor's rate.
    pub closed spec fn wf(&self) -> bool {
        &&& self.sponge.wf()
        &&& self.desc.wf()
        &&& self.sponge.rate_spec() == self.desc.r_spec()
    }

    /// Rate in bytes.
    pub closed spec fn rate(&self) -> int {
        self.desc.r_spec()
    }

    /// Fixed output length in bytes (0 for extendable output).
    pub closed spec fn out_len(&self) -> nat {
        self.desc.d_spec()
    }

    /// Domain-separation suffix byte.
    pub closed spec fn domain(&self) -> u8 {
        self.desc.sfx_spec()
    }

    /// Whether the variant has extendable output.
    pub closed spec fn is_xof(&self) -> bool {
        self.desc.xof_spec()
    }

    /// Both instances carry the same variant parameters.
    pub open spec fn same_variant(&self, other: &Sha3) -> bool {
        &&& self.rate() == other.rate()
        &&& self.out_len() == other.out_len()
        &&& self.domain() == other.domain()
        &&& self.is_xof() == other.is_xof()
    }

    /// The instance carries exactly the parameters of the given variant.
    pub open spec fn configured_for(&self, id: Sha3Id) -> bool {
        &&& self.rate() == rate_of(id)
        &&& self.out_len() == out_len_of(id)
        &&& self.domain() == suffix_of(id)
        &&& self.is_xof() == is_xof_of(id)
    }

    /// A fresh instance for the given variant descriptor: sponge zeroed,
    /// absorbing.
    pub fn new(desc: spongeDesc) -> (h: Sha3)
        requires
            desc.wf(),
        ensures
            h.wf(),
            h@ == init_model(),
            h.rate() == desc.r_spec(),
            h.out_len() == desc.d_spec(),
            h.domain() == desc.sfx_spec(),
            h.is_xof() == desc.xof_spec(),
    {
        let r = desc.rate();
        let c = desc.capacity();
        Sha3 { sponge: SpongeState::init(r, c), desc }
    }

    /// A fresh instance for the given variant, configured from the variant
    /// table.
    pub fn for_variant(id: Sha3Id) -> (h: Sha3)
        ensures
            h.wf(),
            h@ == init_model(),
            h.configured_for(id),
    {
        Sha3::new(lookup(id))
    }

    /// A fresh SHA3-224 instance.
    pub fn sha3_224() -> (h: Sha3)
        ensures
            h.wf(),
            h@ == init_model(),
            h.configured_for(Sha3Id::SHA3_224),
    {
        Sha3::for_variant(Sha3Id::SHA3_224)
    }

    /// A fresh SHA3-256 instance.
    pub fn sha3_256() -> (h: Sha3)
        ensures
            h.wf(),
            h@ == init_model(),
            h.configured_for(Sha3Id::SHA3_256),
    {
        Sha3::for_variant(Sha3Id::SHA3_256)
    }

    /// A fresh SHA3-384 instance.
    pub fn sha3_384() -> (h: Sha3)
        ensures
            h.wf(),
            h@ == init_model(),
            h.configured_for(Sha3Id::SHA3_384),
    {
        Sha3::for_variant(Sha3Id::SHA3_384)
    }

    /// A fresh SHA3-512 instance.
    pub fn sha3_512() -> (h: Sha3)
        ensures
            h.wf(),
            h@ == init_model(),
            h.configured_for(Sha3Id::SHA3_512),
    {
        Sha3::for_variant(Sha3Id::SHA3_512)
    }

    /// A fresh SHAKE128 instance.
    pub fn shake128() -> (h: Sha3)
        ensures
            h.wf(),
            h@ == init_model(),
            h.configured_for(Sha3Id::SHAKE128),
    {
        Sha3::for_variant(Sha3Id::SHAKE128)
    }

    /// A fresh SHAKE256 instance.
    pub fn shake256() -> (h: Sha3)
        ensures
            h.wf(),
            h@ == init_model(),
            h.configured_for(Sha3Id::SHAKE256),
    {
        Sha3::for_variant(Sha3Id::SHAKE256)
    }

    /// Absorb more message bytes. Fails with `InvalidStateTransition` exactly
    /// when output extraction has begun and no reset intervened; the split of
    /// the message into calls cannot be observed in the digest.
    pub fn update(&mut self, data: &[u8]) -> (r: Result<(), Sha3Error>)
        requires
            old(self).wf(),
        ensures
            final(self).wf(),
            final(self).same_variant(old(self)),
            final(self)@.squeezing == old(self)@.squeezing,
            old(self)@.squeezing ==> r == Err::<(), Sha3Error>(Sha3Error::InvalidStateTransition)
                && final(self)@ == old(self)@,
            !old(self)@.squeezing ==> r == Ok::<(), Sha3Error>(()) && final(self)@ == absorb_bytes(
                old(self).rate(),
                old(self)@,
                data@,
            ),
    {
        self.sponge.absorb(data)
    }

    /// Absorb more message bytes, consuming and returning the instance for
    /// fluent composition. Propagates `update`'s error.
    pub fn chain(self, data: &[u8]) -> (r: Result<Sha3, Sha3Error>)
        requires
            self.wf(),
        ensures
            self@.squeezing ==> r == Err::<Sha3, Sha3Error>(Sha3Error::InvalidStateTransition),
            !self@.squeezing ==> r is Ok && r->Ok_0.wf() && r->Ok_0.same_variant(&self)
                && r->Ok_0@ == absorb_bytes(self.rate(), self@, data@),
    {
        let mut h = self;
        match h.update(data) {
            Ok(()) => Ok(h),
            Err(e) => Err(e),
        }
    }

    /// Close absorption and return the fixed-length digest. Fails with
    /// `UnsupportedOperation` on an extendable-output variant, and with
    /// `InvalidStateTransition` when output extraction had already begun.
    pub fn finalize(&mut self) -> (r: Result<Vec<u8>, Sha3Error>)
        requires
            old(self).wf(),
        ensures
            final(self).wf(),
            final(self).same_variant(old(self)),
            old(self).is_xof() ==> r == Err::<Vec<u8>, Sha3Error>(Sha3Error::UnsupportedOperation)
                && final(self)@ == old(self)@,
            !old(self).is_xof() && old(self)@.squeezing ==> r == Err::<Vec<u8>, Sha3Error>(
                Sha3Error::InvalidStateTransition,
            ) && final(self)@ == old(self)@,
            !old(self).is_xof() && !old(self)@.squeezing ==> {
                let padded = pad_model(old(self).rate(), old(self)@, old(self).domain());
                &&& r is Ok
                &&& r->Ok_0@ == squeeze_bytes(old(self).rate(), padded, old(self).out_len())
                &&& r->Ok_0@.len() == old(self).out_len()
                &&& final(self)@ == squeeze_state(old(self).rate(), padded, old(self).out_len())
                &&& final(self)@.squeezing
            },
    {
        if self.desc.is_xof() {
            return Err(Sha3Error::UnsupportedOperation);
        }
        match self.sponge.finalize_absorption(self.desc.suffix()) {
            Err(e) => Err(e),
            Ok(()) => {
                let d = self.desc.output_len();
                proof {
                    lemma_squeeze_len(self.sponge.rate_spec(), self.sponge@, d as nat);
                }
                match self.sponge.squeeze(d) {
                    Ok(v) => Ok(v),
                    Err(e) => Err(e),
                }
            },
        }
    }

    /// Close absorption if still open and return the next `n` output bytes of
    /// an extendable-output variant; on an instance that is already squeezing
    /// it continues where the previous request stopped. Fails with
    /// `UnsupportedOperation` on a fixed-output variant and when `n` is zero.
    pub fn finalize_xof(&mut self, n: usize) -> (r: Result<Vec<u8>, Sha3Error>)
        requires
            old(self).wf(),
        ensures
            final(self).wf(),
            final(self).same_variant(old(self)),
            !old(self).is_xof() || n == 0 ==> r == Err::<Vec<u8>, Sha3Error>(
                Sha3Error::UnsupportedOperation,
            ) && final(self)@ == old(self)@,
            old(self).is_xof() && n > 0 && !old(self)@.squeezing ==> {
                let padded = pad_model(old(self).rate(), old(self)@, old(self).domain());
                &&& r is Ok
                &&& r->Ok_0@ == squeeze_bytes(old(self).rate(), padded, n as nat)
                &&& r->Ok_0@.len() == n
                &&& final(self)@ == squeeze_state(old(self).rate(), padded, n as nat)
            },
            old(self).is_xof() && n > 0 && old(self)@.squeezing ==> r is Ok && r->Ok_0@
                == squeeze_bytes(old(self).rate(), old(self)@, n as nat) && r->Ok_0@.len() == n
                && final(self)@ == squeeze_state(old(self).rate(), old(self)@, n as nat),
    {
        if !self.desc.is_xof() {
            return Err(Sha3Error::UnsupportedOperation);
        }
        if n == 0 {
            return Err(Sha3Error::UnsupportedOperation);
        }
        if !self.sponge.is_squeezing() {
            match self.sponge.finalize_absorption(self.desc.suffix()) {
                Err(e) => {
                    return Err(e);
                },
                Ok(()) => {},
            }
        }
        proof {
            lemma_squeeze_len(self.sponge.rate_spec(), self.sponge@, n as nat);
        }
        match self.sponge.squeeze(n) {
            Ok(v) => Ok(v),
            Err(e) => Err(e),
        }
    }

    /// As `finalize`, then reset: the digest of what was absorbed is
    /// returned and the instance is left as freshly constructed, ready for a
    /// new message with no residue of the old one. On failure the instance is
    /// unchanged.
    pub fn finalize_reset(&mut self) -> (r: Result<Vec<u8>, Sha3Error>)
        requires
            old(self).wf(),
        ensures
            final(self).wf(),
            final(self).same_variant(old(self)),
            old(self).is_xof() ==> r == Err::<Vec<u8>, Sha3Error>(Sha3Error::UnsupportedOperation)
                && final(self)@ == old(self)@,
            !old(self).is_xof() && old(self)@.squeezing ==> r == Err::<Vec<u8>, Sha3Error>(
                Sha3Error::InvalidStateTransition,
            ) && final(self)@ == old(self)@,
            !old(self).is_xof() && !old(self)@.squeezing ==> r is Ok && r->Ok_0@ == squeeze_bytes(
                old(self).rate(),
                pad_model(old(self).rate(), old(self)@, old(self).domain()),
                old(self).out_len(),
            ) && final(self)@ == init_model(),
    {
        match self.finalize() {
            Ok(v) => {
                self.reset();
                Ok(v)
            },
            Err(e) => Err(e),
        }
    }

    /// Zero the sponge and return to absorbing: the instance is exactly as
    /// freshly constructed for its variant.
    pub fn reset(&mut self)
        requires
            old(self).wf(),
        ensures
            final(self).wf(),
            final(self).same_variant(old(self)),
            final(self)@ == init_model(),
    {
        self.sponge.reset()
    }

    /// The fixed digest length of the variant, in bytes (0 for extendable
    /// output).
    pub fn output_size(&self) -> (n: usize)
        ensures
            n == self.out_len(),
    {
        self.desc.output_len()
    }

    /// One-shot digest of a fixed-output variant: construct, absorb, close.
    /// The result is a function of the variant and the message bytes alone,
    /// so repeated calls return identical bytes.
    pub fn digest(id: Sha3Id, data: &[u8]) -> (r: Result<Vec<u8>, Sha3Error>)
        ensures
            is_xof_of(id) ==> r == Err::<Vec<u8>, Sha3Error>(Sha3Error::UnsupportedOperation),
            !is_xof_of(id) ==> r is Ok && r->Ok_0@ == sha3_digest(id, data@) && r->Ok_0@.len()
                == out_len_of(id),
    {
        let mut h = Sha3::for_variant(id);
        match h.update(data) {
            Ok(()) => h.finalize(),
            Err(e) => Err(e),
        }
    }
}

/// One-shot digest of a fixed-output variant. The result is a function of
/// the variant and the message bytes alone, so two calls on the same input
/// yield identical bytes.
pub fn digest_oneshot(id: Sha3Id, data: &[u8]) -> (r: Result<Vec<u8>, Sha3Error>)
    ensures
        is_xof_of(id) ==> r == Err::<Vec<u8>, Sha3Error>(Sha3Error::UnsupportedOperation),
        !is_xof_of(id) ==> r is Ok && r->Ok_0@ == sha3_digest(id, data@) && r->Ok_0@.len()
            == out_len_of(id),
{
    Sha3::digest(id, data)
}

} // verus!
