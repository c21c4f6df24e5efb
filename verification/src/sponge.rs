//! The sponge construction over Keccak-f[1600]: a 200-byte state absorbed
//! byte by byte at the given rate, multi-rate padding with a
//! domain-separation suffix, and byte-by-byte squeezing of output.
//!
//! The mathematical model of a sponge is [`SpongeModel`]: the 25 lanes, the
//! byte cursor inside the current rate window, and the absorb/squeeze mode.
//! Every operation of [`SpongeState`] is specified as a pure function of that
//! model.

use vstd::prelude::*;
use crate::keccak;
use crate::keccak::keccak_f;
use crate::variants::Sha3Error;

verus! {

/// The abstract state of a sponge: lane values, byte cursor into the current
/// rate-sized window, and whether output extraction has begun.
#[verifier::ext_equal]
pub struct SpongeModel {
    pub lanes: Seq<u64>,
    pub idx: nat,
    pub squeezing: bool,
}

/// The state right after construction or reset: all lanes zero, cursor at the
/// start, absorbing.
pub open spec fn init_model() -> SpongeModel {
    SpongeModel { lanes: Seq::new(25, |i: int| 0u64), idx: 0, squeezing: false }
}

/// Byte `i` of the 200-byte state: byte `i % 8` of lane `i / 8`
/// (little-endian).
pub open spec fn lane_byte(lanes: Seq<u64>, i: int) -> u8
    recommends
        lanes.len() == 25,
        0 <= i < 200,
{
    (lanes[i / 8] >> (((i % 8) * 8) as u64)) as u8
}

/// XOR the byte `b` into byte `i` of the 200-byte state.
pub open spec fn xor_lane_byte(lanes: Seq<u64>, i: int, b: u8) -> Seq<u64>
    recommends
        lanes.len() == 25,
        0 <= i < 200,
{
    lanes.update(i / 8, lanes[i / 8] ^ ((b as u64) << (((i % 8) * 8) as u64)))
}

/// Absorb one byte: XOR it in at the cursor; when the cursor reaches the
/// rate, apply the permutation and wrap to the start of the window.
pub open spec fn absorb_one(rate: int, m: SpongeModel, b: u8) -> SpongeModel
    recommends
        m.lanes.len() == 25,
        0 < rate <= 200,
        m.idx < rate,
{
    let lanes = xor_lane_byte(m.lanes, m.idx as int, b);
    if m.idx + 1 == rate {
        SpongeModel { lanes: keccak_f(lanes), idx: 0, squeezing: m.squeezing }
    } else {
        SpongeModel { lanes, idx: (m.idx + 1) as nat, squeezing: m.squeezing }
    }
}

/// Absorb a whole sequence of bytes, first byte first.
pub open spec fn absorb_bytes(rate: int, m: SpongeModel, data: Seq<u8>) -> SpongeModel
    recommends
        m.lanes.len() == 25,
        0 < rate <= 200,
    decreases data.len(),
{
    if data.len() == 0 {
        m
    } else {
        absorb_bytes(rate, absorb_one(rate, m, data[0]), data.drop_first())
    }
}

/// Close absorption: XOR the domain-separation suffix (with the first padding
/// bit) at the cursor and the final padding bit into the last byte of the
/// rate window, permute once, and switch to squeezing.
pub open spec fn pad_model(rate: int, m: SpongeModel, domain: u8) -> SpongeModel
    recommends
        m.lanes.len() == 25,
        0 < rate <= 200,
        m.idx < rate,
{
    SpongeModel {
        lanes: keccak_f(xor_lane_byte(xor_lane_byte(m.lanes, m.idx as int, domain), rate - 1, 0x80)),
        idx: 0,
        squeezing: true,
    }
}

/// Advance the cursor past one squeezed byte: when it reaches the rate, apply
/// the permutation and wrap to the start of a fresh window.
pub open spec fn squeeze_step(rate: int, m: SpongeModel) -> SpongeModel
    recommends
        m.lanes.len() == 25,
        0 < rate <= 200,
        m.idx < rate,
{
    if m.idx + 1 == rate {
        SpongeModel { lanes: keccak_f(m.lanes), idx: 0, squeezing: m.squeezing }
    } else {
        SpongeModel { lanes: m.lanes, idx: (m.idx + 1) as nat, squeezing: m.squeezing }
    }
}

/// The `n` bytes squeezed from state `m` on.
pub open spec fn squeeze_bytes(rate: int, m: SpongeModel, n: nat) -> Seq<u8>
    recommends
        m.lanes.len() == 25,
        0 < rate <= 200,
    decreases n,
{
    if n == 0 {
        Seq::empty()
    } else {
        seq![lane_byte(m.lanes, m.idx as int)] + squeeze_bytes(
            rate,
            squeeze_step(rate, m),
            (n - 1) as nat,
        )
    }
}

/// The state left behind after squeezing `n` bytes from state `m`.
pub open spec fn squeeze_state(rate: int, m: SpongeModel, n: nat) -> SpongeModel
    recommends
        m.lanes.len() == 25,
        0 < rate <= 200,
    decreases n,
{
    if n == 0 {
        m
    } else {
        squeeze_state(rate, squeeze_step(rate, m), (n - 1) as nat)
    }
}

/// Absorbing a single byte as a sequence is the single-byte absorb step.
proof fn lemma_absorb_one_byte(rate: int, m: SpongeModel, b: u8)
    ensures
        absorb_bytes(rate, m, seq![b]) == absorb_one(rate, m, b),
{
    let e = seq![b].drop_first();
    assert(e.len() == 0);
    assert(seq![b][0] == b);
    assert(absorb_bytes(rate, absorb_one(rate, m, b), e) == absorb_one(rate, m, b));
}

/// Chunking invariance of absorption: absorbing `a` and then `b` leaves the
/// sponge exactly where absorbing their concatenation does, for every split,
/// zero-length and rate-boundary pieces included.
pub proof fn lemma_absorb_append(rate: int, m: SpongeModel, a: Seq<u8>, b: Seq<u8>)
    ensures
        absorb_bytes(rate, m, a + b) == absorb_bytes(rate, absorb_bytes(rate, m, a), b),
    decreases a.len(),
{
    if a.len() == 0 {
        assert(a + b =~= b);
    } else {
        assert((a + b)[0] == a[0]);
        assert((a + b).drop_first() =~= a.drop_first() + b);
        lemma_absorb_append(rate, absorb_one(rate, m, a[0]), a.drop_first(), b);
    }
}

/// Squeezing yields exactly as many bytes as were asked for.
pub proof fn lemma_squeeze_len(rate: int, m: SpongeModel, n: nat)
    ensures
        squeeze_bytes(rate, m, n).len() == n,
    decreases n,
{
    if n != 0 {
        lemma_squeeze_len(rate, squeeze_step(rate, m), (n - 1) as nat);
    }
}

/// Prefix consistency of squeezing: taking `n` bytes and then `k` more yields
/// the same bytes, and leaves the same state, as taking `n + k` at once.
pub proof fn lemma_squeeze_split(rate: int, m: SpongeModel, n: nat, k: nat)
    ensures
        squeeze_bytes(rate, m, n + k) == squeeze_bytes(rate, m, n) + squeeze_bytes(
            rate,
            squeeze_state(rate, m, n),
            k,
        ),
        squeeze_state(rate, m, n + k) == squeeze_state(rate, squeeze_state(rate, m, n), k),
    decreases n,
{
    if n == 0 {
        assert(squeeze_bytes(rate, m, 0) + squeeze_bytes(rate, m, k) =~= squeeze_bytes(
            rate,
            m,
            k,
        ));
    } else {
        let step = squeeze_step(rate, m);
        let b0 = seq![lane_byte(m.lanes, m.idx as int)];
        lemma_squeeze_split(rate, step, (n - 1) as nat, k);
        assert((n + k - 1) as nat == (n - 1) as nat + k);
        assert(b0 + (squeeze_bytes(rate, step, (n - 1) as nat) + squeeze_bytes(
            rate,
            squeeze_state(rate, step, (n - 1) as nat),
            k,
        )) =~= (b0 + squeeze_bytes(rate, step, (n - 1) as nat)) + squeeze_bytes(
            rate,
            squeeze_state(rate, step, (n - 1) as nat),
            k,
        ));
    }
}

/// The sponge state machine: 25 lanes of 64 bits (200 bytes), the rate of the
/// chosen variant, the byte cursor into the current rate window, and the
/// absorb/squeeze mode.
#[derive(Clone)]
pub struct SpongeState {
    state: Vec<u64>,
    rate: usize,
    idx: usize,
    squeezing: bool,
}

impl View for SpongeState {
    type V = SpongeModel;

    closed spec fn view(&self) -> SpongeModel {
        SpongeModel { lanes: self.state@, idx: self.idx as nat, squeezing: self.squeezing }
    }
}

impl SpongeState {
    /// Internal invariant: full-size state, rate within the state, cursor
    /// within the rate window.
    pub closed spec fn wf(&self) -> bool {
        &&& self.state@.len() == 25
        &&& 0 < self.rate <= 200
        &&& self.idx < self.rate
    }

    /// The configured rate, in bytes.
    pub closed spec fn rate_spec(&self) -> int {
        self.rate as int
    }

    /// Whether output extraction has begun.
    pub fn is_squeezing(&self) -> (b: bool)
        ensures
            b == self@.squeezing,
    {
        self.squeezing
    }

    /// A fresh sponge for the given rate and capacity: state zeroed, cursor
    /// at the start, absorbing.
    pub fn init(rate: usize, capacity: usize) -> (s: SpongeState)
        requires
            0 < rate,
            rate + capacity == 200,
        ensures
            s.wf(),
            s@ == init_model(),
            s.rate_spec() == rate,
    {
        let mut v: Vec<u64> = Vec::new();
        while v.len() < 25
            invariant
                v@.len() <= 25,
                forall|k: int| 0 <= k < v@.len() ==> v@[k] == 0u64,
            decreases 25 - v.len(),
        {
            v.push(0);
        }
        proof {
            assert(v@ =~= init_model().lanes);
        }
        SpongeState { state: v, rate, idx: 0, squeezing: false }
    }

    /// XOR input into the state at the cursor, permuting at each rate
    /// boundary. Rejected once squeezing has begun; the split of the input
    /// into calls cannot be observed in the result.
    #[verifier::loop_isolation(false)]
    pub fn absorb(&mut self, data: &[u8]) -> (r: Result<(), Sha3Error>)
        requires
            old(self).wf(),
        ensures
            final(self).wf(),
            final(self).rate_spec() == old(self).rate_spec(),
            final(self)@.squeezing == old(self)@.squeezing,
            old(self)@.squeezing ==> r == Err::<(), Sha3Error>(Sha3Error::InvalidStateTransition)
                && final(self)@ == old(self)@,
            !old(self)@.squeezing ==> r == Ok::<(), Sha3Error>(()) && final(self)@ == absorb_bytes(
                old(self).rate_spec(),
                old(self)@,
                data@,
            ),
    {
        if self.squeezing {
            return Err(Sha3Error::InvalidStateTransition);
        }
        let ghost m0 = self@;
        let ghost rate = self.rate_spec();
        let mut i: usize = 0;
        while i < data.len()
            invariant
                i <= data.len(),
                self.wf(),
                self.rate_spec() == rate,
                self@.squeezing == m0.squeezing,
                self@ == absorb_bytes(rate, m0, data@.take(i as int)),
            decreases data.len() - i,
        {
            let ghost mpre = self@;
            let b: u8 = data[i];
            let li: usize = self.idx / 8;
            let sh: u64 = ((self.idx % 8) * 8) as u64;
            let v: u64 = self.state[li] ^ ((b as u64) << sh);
            self.state[li] = v;
            self.idx = self.idx + 1;
            if self.idx == self.rate {
                keccak::permute(&mut self.state);
                self.idx = 0;
            }
            proof {
                assert(self@ == absorb_one(rate, mpre, b));
                lemma_absorb_one_byte(rate, mpre, b);
                lemma_absorb_append(rate, m0, data@.take(i as int), seq![b]);
                assert(data@.take(i + 1) =~= data@.take(i as int) + seq![b]);
            }
            i = i + 1;
        }
        proof {
            assert(data@.take(data@.len() as int) =~= data@);
        }
        Ok(())
    }

    /// Append the domain-separation suffix and the multi-rate padding, XOR
    /// them into the current window, permute once, and switch to squeezing.
    /// Rejected when squeezing has already begun.
    pub fn finalize_absorption(&mut self, domain: u8) -> (r: Result<(), Sha3Error>)
        requires
            old(self).wf(),
        ensures
            final(self).wf(),
            final(self).rate_spec() == old(self).rate_spec(),
            old(self)@.squeezing ==> r == Err::<(), Sha3Error>(Sha3Error::InvalidStateTransition)
                && final(self)@ == old(self)@,
            !old(self)@.squeezing ==> r == Ok::<(), Sha3Error>(()) && final(self)@ == pad_model(
                old(self).rate_spec(),
                old(self)@,
                domain,
            ),
    {
        if self.squeezing {
            return Err(Sha3Error::InvalidStateTransition);
        }
        let li: usize = self.idx / 8;
        let sh: u64 = ((self.idx % 8) * 8) as u64;
        let v: u64 = self.state[li] ^ ((domain as u64) << sh);
        self.state[li] = v;
        let lr: usize = (self.rate - 1) / 8;
        let shr: u64 = (((self.rate - 1) % 8) * 8) as u64;
        let w: u64 = self.state[lr] ^ (0x80u64 << shr);
        self.state[lr] = w;
        keccak::permute(&mut self.state);
        self.idx = 0;
        self.squeezing = true;
        Ok(())
    }

    /// Read `n` output bytes from the state at the cursor, permuting whenever
    /// a rate window is exhausted. Rejected until absorption has been closed.
    #[verifier::loop_isolation(false)]
    pub fn squeeze(&mut self, n: usize) -> (r: Result<Vec<u8>, Sha3Error>)
        requires
            old(self).wf(),
        ensures
            final(self).wf(),
            final(self).rate_spec() == old(self).rate_spec(),
            final(self)@.squeezing == old(self)@.squeezing,
            !old(self)@.squeezing ==> r == Err::<Vec<u8>, Sha3Error>(
                Sha3Error::InvalidStateTransition,
            ) && final(self)@ == old(self)@,
            old(self)@.squeezing ==> r is Ok && r->Ok_0@ == squeeze_bytes(
                old(self).rate_spec(),
                old(self)@,
                n as nat,
            ) && final(self)@ == squeeze_state(old(self).rate_spec(), old(self)@, n as nat),
    {
        if !self.squeezing {
            return Err(Sha3Error::InvalidStateTransition);
        }
        let ghost m0 = self@;
        let ghost rate = self.rate_spec();
        let mut out: Vec<u8> = Vec::new();
        let mut i: usize = 0;
        while i < n
            invariant
                i <= n,
                self.wf(),
                self.rate_spec() == rate,
                self@.squeezing == m0.squeezing,
                out@ == squeeze_bytes(rate, m0, i as nat),
                self@ == squeeze_state(rate, m0, i as nat),
            decreases n - i,
        {
            let ghost mpre = self@;
            let b: u8 = #[verifier::truncate] ((self.state[self.idx / 8] >> (((self.idx % 8) * 8)
                as u64)) as u8);
            self.idx = self.idx + 1;
            if self.idx == self.rate {
                keccak::permute(&mut self.state);
                self.idx = 0;
            }
            out.push(b);
            proof {
                assert(b == lane_byte(mpre.lanes, mpre.idx as int));
                assert(self@ == squeeze_step(rate, mpre));
                lemma_squeeze_split(rate, m0, i as nat, 1);
                assert(squeeze_bytes(rate, squeeze_step(rate, mpre), 0) =~= Seq::<u8>::empty());
                assert(squeeze_state(rate, squeeze_step(rate, mpre), 0) == squeeze_step(rate, mpre));
                assert(squeeze_bytes(rate, mpre, 1) =~= seq![lane_byte(mpre.lanes, mpre.idx as int)]);
                assert(squeeze_state(rate, mpre, 1) == squeeze_step(rate, mpre));
            }
            i = i + 1;
        }
        Ok(out)
    }

    /// Zero the state and return to absorbing at the start of the window, so
    /// the instance can be reused without reconstruction.
    #[verifier::loop_isolation(false)]
    pub fn reset(&mut self)
        requires
            old(self).wf(),
        ensures
            final(self).wf(),
            final(self).rate_spec() == old(self).rate_spec(),
            final(self)@ == init_model(),
    {
        let mut i: usize = 0;
        while i < 25
            invariant
                i <= 25,
                self.state@.len() == 25,
                self.rate == old(self).rate,
                forall|k: int| 0 <= k < i ==> self.state@[k] == 0u64,
            decreases 25 - i,
        {
            self.state[i] = 0;
            i = i + 1;
        }
        self.idx = 0;
        self.squeezing = false;
        proof {
            assert(self.state@ =~= init_model().lanes);
        }
    }
}

} // verus!
