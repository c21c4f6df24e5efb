//! The Keccak-f[1600] permutation: 24 rounds, each applying the step mappings
//! theta, rho, pi, chi and iota to a state of 25 lanes of 64 bits.
//!
//! The state is held row-major: the lane at column `x`, row `y` of the 5x5
//! array sits at index `x + 5 * y`. Bytes of the 200-byte sponge state map to
//! lanes little-endian: byte `i` is byte `i % 8` of lane `i / 8`.

use vstd::prelude::*;

verus! {

/// Left-rotation of a 64-bit lane by `n` bits.
pub open spec fn rotl64(x: u64, n: u64) -> u64
    recommends
        n < 64,
{
    if n == 0 {
        x
    } else {
        (x << n) | (x >> ((64 - n) as u64))
    }
}

fn rotl(x: u64, n: u64) -> (r: u64)
    requires
        n < 64,
    ensures
        r == rotl64(x, n),
{
    if n == 0 {
        x
    } else {
        (x << n) | (x >> (64 - n))
    }
}

/// The round constant XORed into lane (0, 0) by the iota step of round `i`.
pub open spec fn rc(i: int) -> u64 {
    if i == 0 {
        0x0000000000000001
    } else if i == 1 {
        0x0000000000008082
    } else if i == 2 {
        0x800000000000808a
    } else if i == 3 {
        0x8000000080008000
    } else if i == 4 {
        0x000000000000808b
    } else if i == 5 {
        0x0000000080000001
    } else if i == 6 {
        0x8000000080008081
    } else if i == 7 {
        0x8000000000008009
    } else if i == 8 {
        0x000000000000008a
    } else if i == 9 {
        0x0000000000000088
    } else if i == 10 {
        0x0000000080008009
    } else if i == 11 {
        0x000000008000000a
    } else if i == 12 {
        0x000000008000808b
    } else if i == 13 {
        0x800000000000008b
    } else if i == 14 {
        0x8000000000008089
    } else if i == 15 {
        0x8000000000008003
    } else if i == 16 {
        0x8000000000008002
    } else if i == 17 {
        0x8000000000000080
    } else if i == 18 {
        0x000000000000800a
    } else if i == 19 {
        0x800000008000000a
    } else if i == 20 {
        0x8000000080008081
    } else if i == 21 {
        0x8000000000008080
    } else if i == 22 {
        0x0000000080000001
    } else {
        0x8000000080008008
    }
}

fn round_constant(i: usize) -> (r: u64)
    requires
        i < 24,
    ensures
        r == rc(i as int),
{
    if i == 0 {
        0x0000000000000001
    } else if i == 1 {
        0x0000000000008082
    } else if i == 2 {
        0x800000000000808a
    } else if i == 3 {
        0x8000000080008000
    } else if i == 4 {
        0x000000000000808b
    } else if i == 5 {
        0x0000000080000001
    } else if i == 6 {
        0x8000000080008081
    } else if i == 7 {
        0x8000000000008009
    } else if i == 8 {
        0x000000000000008a
    } else if i == 9 {
        0x0000000000000088
    } else if i == 10 {
        0x0000000080008009
    } else if i == 11 {
        0x000000008000000a
    } else if i == 12 {
        0x000000008000808b
    } else if i == 13 {
        0x800000000000008b
    } else if i == 14 {
        0x8000000000008089
    } else if i == 15 {
        0x8000000000008003
    } else if i == 16 {
        0x8000000000008002
    } else if i == 17 {
        0x8000000000000080
    } else if i == 18 {
        0x000000000000800a
    } else if i == 19 {
        0x800000008000000a
    } else if i == 20 {
        0x8000000080008081
    } else if i == 21 {
        0x8000000000008080
    } else if i == 22 {
        0x0000000080000001
    } else {
        0x8000000080008008
    }
}

/// The rho rotation offset of the lane at index `i` (column `i % 5`,
/// row `i / 5`).
pub open spec fn rho_off(i: int) -> u64 {
    if i == 0 {
        0
    } else if i == 1 {
        1
    } else if i == 2 {
        62
    } else if i == 3 {
        28
    } else if i == 4 {
        27
    } else if i == 5 {
        36
    } else if i == 6 {
        44
    } else if i == 7 {
        6
    } else if i == 8 {
        55
    } else if i == 9 {
        20
    } else if i == 10 {
        3
    } else if i == 11 {
        10
    } else if i == 12 {
        43
    } else if i == 13 {
        25
    } else if i == 14 {
        39
    } else if i == 15 {
        41
    } else if i == 16 {
        45
    } else if i == 17 {
        15
    } else if i == 18 {
        21
    } else if i == 19 {
        8
    } else if i == 20 {
        18
    } else if i == 21 {
        2
    } else if i == 22 {
        61
    } else if i == 23 {
        56
    } else {
        14
    }
}

fn rho_offset(i: usize) -> (r: u64)
    requires
        i < 25,
    ensures
        r == rho_off(i as int),
        r < 64,
{
    if i == 0 {
        0
    } else if i == 1 {
        1
    } else if i == 2 {
        62
    } else if i == 3 {
        28
    } else if i == 4 {
        27
    } else if i == 5 {
        36
    } else if i == 6 {
        44
    } else if i == 7 {
        6
    } else if i == 8 {
        55
    } else if i == 9 {
        20
    } else if i == 10 {
        3
    } else if i == 11 {
        10
    } else if i == 12 {
        43
    } else if i == 13 {
        25
    } else if i == 14 {
        39
    } else if i == 15 {
        41
    } else if i == 16 {
        45
    } else if i == 17 {
        15
    } else if i == 18 {
        21
    } else if i == 19 {
        8
    } else if i == 20 {
        18
    } else if i == 21 {
        2
    } else if i == 22 {
        61
    } else if i == 23 {
        56
    } else {
        14
    }
}

/// The pi step moves the rotated lane at index `pi_src(j)` to index `j`:
/// the lane landing at column `X`, row `Y` comes from column `(X + 3 * Y) % 5`,
/// row `X`.
pub open spec fn pi_src(j: int) -> int {
    if j == 0 {
        0
    } else if j == 1 {
        6
    } else if j == 2 {
        12
    } else if j == 3 {
        18
    } else if j == 4 {
        24
    } else if j == 5 {
        3
    } else if j == 6 {
        9
    } else if j == 7 {
        10
    } else if j == 8 {
        16
    } else if j == 9 {
        22
    } else if j == 10 {
        1
    } else if j == 11 {
        7
    } else if j == 12 {
        13
    } else if j == 13 {
        19
    } else if j == 14 {
        20
    } else if j == 15 {
        4
    } else if j == 16 {
        5
    } else if j == 17 {
        11
    } else if j == 18 {
        17
    } else if j == 19 {
        23
    } else if j == 20 {
        2
    } else if j == 21 {
        8
    } else if j == 22 {
        14
    } else if j == 23 {
        15
    } else {
        21
    }
}

fn pi_source(j: usize) -> (r: usize)
    requires
        j < 25,
    ensures
        r == pi_src(j as int),
        r < 25,
{
    if j == 0 {
        0
    } else if j == 1 {
        6
    } else if j == 2 {
        12
    } else if j == 3 {
        18
    } else if j == 4 {
        24
    } else if j == 5 {
        3
    } else if j == 6 {
        9
    } else if j == 7 {
        10
    } else if j == 8 {
        16
    } else if j == 9 {
        22
    } else if j == 10 {
        1
    } else if j == 11 {
        7
    } else if j == 12 {
        13
    } else if j == 13 {
        19
    } else if j == 14 {
        20
    } else if j == 15 {
        4
    } else if j == 16 {
        5
    } else if j == 17 {
        11
    } else if j == 18 {
        17
    } else if j == 19 {
        23
    } else if j == 20 {
        2
    } else if j == 21 {
        8
    } else if j == 22 {
        14
    } else if j == 23 {
        15
    } else {
        21
    }
}

/// Parity of column `x`: the XOR of its five lanes.
pub open spec fn theta_c(s: Seq<u64>, x: int) -> u64
    recommends
        s.len() == 25,
        0 <= x < 5,
{
    s[x] ^ s[x + 5] ^ s[x + 10] ^ s[x + 15] ^ s[x + 20]
}

/// The theta correction for column `x`: parity of the column to its left XOR
/// the rotated parity of the column to its right.
pub open spec fn theta_d(s: Seq<u64>, x: int) -> u64
    recommends
        s.len() == 25,
        0 <= x < 5,
{
    theta_c(s, (x + 4) % 5) ^ rotl64(theta_c(s, (x + 1) % 5), 1)
}

/// Theta: XOR each lane with the parity correction of its column.
pub open spec fn theta(s: Seq<u64>) -> Seq<u64>
    recommends
        s.len() == 25,
{
    Seq::new(25, |j: int| s[j] ^ theta_d(s, j % 5))
}

/// Rho and pi combined: each lane is rotated by its fixed offset and moved to
/// its new position.
pub open spec fn rho_pi(s: Seq<u64>) -> Seq<u64>
    recommends
        s.len() == 25,
{
    Seq::new(25, |j: int| rotl64(s[pi_src(j)], rho_off(pi_src(j))))
}

/// Chi: XOR each lane with the AND of the complement of the next lane in its
/// row and the lane after that (the only non-linear step).
pub open spec fn chi(s: Seq<u64>) -> Seq<u64>
    recommends
        s.len() == 25,
{
    Seq::new(
        25,
        |j: int| s[j] ^ ((!s[5 * (j / 5) + (j % 5 + 1) % 5]) & s[5 * (j / 5) + (j % 5 + 2) % 5]),
    )
}

/// Iota: XOR the round constant of round `i` into lane (0, 0).
pub open spec fn iota(s: Seq<u64>, i: int) -> Seq<u64>
    recommends
        s.len() == 25,
{
    s.update(0, s[0] ^ rc(i))
}

/// One Keccak round: theta, rho, pi, chi, iota, in that order.
pub open spec fn keccak_round(s: Seq<u64>, i: int) -> Seq<u64>
    recommends
        s.len() == 25,
{
    iota(chi(rho_pi(theta(s))), i)
}

/// The first `n` rounds of Keccak-f[1600], applied to `s`.
pub open spec fn keccak_rounds(s: Seq<u64>, n: nat) -> Seq<u64>
    recommends
        s.len() == 25,
    decreases n,
{
    if n == 0 {
        s
    } else {
        keccak_round(keccak_rounds(s, (n - 1) as nat), n - 1)
    }
}

/// The full Keccak-f[1600] permutation: 24 rounds.
pub open spec fn keccak_f(s: Seq<u64>) -> Seq<u64>
    recommends
        s.len() == 25,
{
    keccak_rounds(s, 24)
}

#[verifier::loop_isolation(false)]
fn theta_step(a: &mut Vec<u64>)
    requires
        old(a)@.len() == 25,
    ensures
        final(a)@ == theta(old(a)@),
{
    let c0: u64 = a[0] ^ a[5] ^ a[10] ^ a[15] ^ a[20];
    let c1: u64 = a[1] ^ a[6] ^ a[11] ^ a[16] ^ a[21];
    let c2: u64 = a[2] ^ a[7] ^ a[12] ^ a[17] ^ a[22];
    let c3: u64 = a[3] ^ a[8] ^ a[13] ^ a[18] ^ a[23];
    let c4: u64 = a[4] ^ a[9] ^ a[14] ^ a[19] ^ a[24];
    let d0: u64 = c4 ^ rotl(c1, 1);
    let d1: u64 = c0 ^ rotl(c2, 1);
    let d2: u64 = c1 ^ rotl(c3, 1);
    let d3: u64 = c2 ^ rotl(c4, 1);
    let d4: u64 = c3 ^ rotl(c0, 1);
    assert(d0 == theta_d(a@, 0));
    assert(d1 == theta_d(a@, 1));
    assert(d2 == theta_d(a@, 2));
    assert(d3 == theta_d(a@, 3));
    assert(d4 == theta_d(a@, 4));
    let mut b: Vec<u64> = Vec::new();
    let mut j: usize = 0;
    while j < 25
        invariant
            j <= 25,
            b@.len() == j as int,
            forall|k: int| 0 <= k < j ==> b@[k] == theta(a@)[k],
        decreases 25 - j,
    {
        let x: usize = j % 5;
        let d: u64 = if x == 0 {
            d0
        } else if x == 1 {
            d1
        } else if x == 2 {
            d2
        } else if x == 3 {
            d3
        } else {
            d4
        };
        b.push(a[j] ^ d);
        j = j + 1;
    }
    assert(b@ =~= theta(a@));
    *a = b;
}

#[verifier::loop_isolation(false)]
fn rho_pi_step(a: &mut Vec<u64>)
    requires
        old(a)@.len() == 25,
    ensures
        final(a)@ == rho_pi(old(a)@),
{
    let mut b: Vec<u64> = Vec::new();
    let mut j: usize = 0;
    while j < 25
        invariant
            j <= 25,
            b@.len() == j as int,
            forall|k: int| 0 <= k < j ==> b@[k] == rho_pi(a@)[k],
        decreases 25 - j,
    {
        let s: usize = pi_source(j);
        let off: u64 = rho_offset(s);
        b.push(rotl(a[s], off));
        j = j + 1;
    }
    assert(b@ =~= rho_pi(a@));
    *a = b;
}

#[verifier::loop_isolation(false)]
fn chi_step(a: &mut Vec<u64>)
    requires
        old(a)@.len() == 25,
    ensures
        final(a)@ == chi(old(a)@),
{
    let mut b: Vec<u64> = Vec::new();
    let mut j: usize = 0;
    while j < 25
        invariant
            j <= 25,
            b@.len() == j as int,
            forall|k: int| 0 <= k < j ==> b@[k] == chi(a@)[k],
        decreases 25 - j,
    {
        let x: usize = j % 5;
        let row: usize = j - x;
        let t1: u64 = a[row + (x + 1) % 5];
        let t2: u64 = a[row + (x + 2) % 5];
        b.push(a[j] ^ ((!t1) & t2));
        j = j + 1;
    }
    assert(b@ =~= chi(a@));
    *a = b;
}

fn round_step(a: &mut Vec<u64>, i: usize)
    requires
        old(a)@.len() == 25,
        i < 24,
    ensures
        final(a)@ == keccak_round(old(a)@, i as int),
        final(a)@.len() == 25,
{
    theta_step(a);
    rho_pi_step(a);
    chi_step(a);
    let v: u64 = a[0] ^ round_constant(i);
    a[0] = v;
}

/// Apply the full Keccak-f[1600] permutation to the state in place.
#[verifier::loop_isolation(false)]
pub fn permute(a: &mut Vec<u64>)
    requires
        old(a)@.len() == 25,
    ensures
        final(a)@ == keccak_f(old(a)@),
        final(a)@.len() == 25,
{
    let mut i: usize = 0;
    while i < 24
        invariant
            i <= 24,
            a@.len() == 25,
            a@ == keccak_rounds(old(a)@, i as nat),
        decreases 24 - i,
    {
        round_step(a, i);
        i = i + 1;
    }
}

} // verus!
