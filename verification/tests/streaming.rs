//! Scenario tests of the streaming API: determinism, output lengths,
//! chunking invariance, extendable-output prefix consistency, illegal
//! transitions and reuse after reset.

use sha3::{digest_oneshot, lookup, Sha3, Sha3Error, Sha3Id};

const ALL_IDS: [Sha3Id; 6] = [
    Sha3Id::SHA3_224,
    Sha3Id::SHA3_256,
    Sha3Id::SHA3_384,
    Sha3Id::SHA3_512,
    Sha3Id::SHAKE128,
    Sha3Id::SHAKE256,
];

const FIXED_IDS: [(Sha3Id, usize); 4] = [
    (Sha3Id::SHA3_224, 28),
    (Sha3Id::SHA3_256, 32),
    (Sha3Id::SHA3_384, 48),
    (Sha3Id::SHA3_512, 64),
];

fn sample_message(len: usize) -> Vec<u8> {
    let mut v = Vec::new();
    let mut i: usize = 0;
    while i < len {
        v.push((i % 251) as u8);
        i += 1;
    }
    v
}

#[test]
fn oneshot_is_deterministic() {
    let msg = sample_message(300);
    for (id, _) in FIXED_IDS {
        let a = digest_oneshot(id, &msg).unwrap();
        let b = digest_oneshot(id, &msg).unwrap();
        assert_eq!(a, b);
    }
}

#[test]
fn xof_is_deterministic() {
    let msg = sample_message(300);
    for id in [Sha3Id::SHAKE128, Sha3Id::SHAKE256] {
        let mut h1 = Sha3::for_variant(id);
        h1.update(&msg).unwrap();
        let mut h2 = Sha3::for_variant(id);
        h2.update(&msg).unwrap();
        assert_eq!(h1.finalize_xof(64).unwrap(), h2.finalize_xof(64).unwrap());
    }
}

#[test]
fn fixed_output_lengths() {
    let msg = sample_message(77);
    for (id, len) in FIXED_IDS {
        assert_eq!(digest_oneshot(id, &msg).unwrap().len(), len);
        assert_eq!(Sha3::for_variant(id).output_size(), len);
    }
}

#[test]
fn xof_output_lengths() {
    for id in [Sha3Id::SHAKE128, Sha3Id::SHAKE256] {
        for n in [1usize, 31, 136, 168, 169, 500] {
            let mut h = Sha3::for_variant(id);
            h.update(b"length probe").unwrap();
            assert_eq!(h.finalize_xof(n).unwrap().len(), n);
        }
    }
}

#[test]
fn chunking_invariance() {
    // Splits at zero-length pieces and exactly at the SHA3-256 rate (136).
    let msg = sample_message(300);
    let whole = digest_oneshot(Sha3Id::SHA3_256, &msg).unwrap();
    for split in [0usize, 1, 135, 136, 137, 144, 272, 300] {
        let mut h = Sha3::sha3_256();
        h.update(&msg[..split]).unwrap();
        h.update(&msg[split..]).unwrap();
        assert_eq!(h.finalize().unwrap(), whole);
    }
}

#[test]
fn chunking_invariance_many_pieces() {
    let msg = sample_message(300);
    let whole = digest_oneshot(Sha3Id::SHA3_512, &msg).unwrap();
    let mut h = Sha3::sha3_512();
    for piece in msg.chunks(7) {
        h.update(piece).unwrap();
    }
    assert_eq!(h.finalize().unwrap(), whole);
}

#[test]
fn chain_matches_update() {
    let msg = sample_message(100);
    let whole = digest_oneshot(Sha3Id::SHA3_224, &msg).unwrap();
    let h = Sha3::sha3_224();
    let mut h = h.chain(&msg[..40]).unwrap().chain(&msg[40..]).unwrap();
    assert_eq!(h.finalize().unwrap(), whole);
}

#[test]
fn xof_prefix_consistency() {
    // Two squeezes on one instance equal the prefix split of one squeeze on a
    // fresh instance, also across the SHAKE128 rate boundary (168).
    for (n, k) in [(10usize, 20usize), (160, 20), (168, 1), (167, 2)] {
        let mut h1 = Sha3::shake128();
        h1.update(b"prefix probe").unwrap();
        let first = h1.finalize_xof(n).unwrap();
        let second = h1.finalize_xof(k).unwrap();

        let mut h2 = Sha3::shake128();
        h2.update(b"prefix probe").unwrap();
        let all = h2.finalize_xof(n + k).unwrap();

        assert_eq!(&all[..n], &first[..]);
        assert_eq!(&all[n..], &second[..]);
    }
}

#[test]
fn update_after_finalize_fails() {
    let mut h = Sha3::sha3_256();
    h.update(b"input").unwrap();
    h.finalize().unwrap();
    assert_eq!(h.update(b"more"), Err(Sha3Error::InvalidStateTransition));
}

#[test]
fn update_after_finalize_xof_fails() {
    let mut h = Sha3::shake256();
    h.update(b"input").unwrap();
    h.finalize_xof(16).unwrap();
    assert_eq!(h.update(b"more"), Err(Sha3Error::InvalidStateTransition));
}

#[test]
fn double_finalize_fails() {
    let mut h = Sha3::sha3_384();
    h.finalize().unwrap();
    assert_eq!(h.finalize(), Err(Sha3Error::InvalidStateTransition));
    assert_eq!(h.finalize_reset(), Err(Sha3Error::InvalidStateTransition));
}

#[test]
fn finalize_xof_on_fixed_variant_fails() {
    let mut h = Sha3::sha3_512();
    assert_eq!(h.finalize_xof(64), Err(Sha3Error::UnsupportedOperation));
}

#[test]
fn finalize_on_xof_variant_fails() {
    let mut h = Sha3::shake128();
    assert_eq!(h.finalize(), Err(Sha3Error::UnsupportedOperation));
    assert_eq!(h.finalize_reset(), Err(Sha3Error::UnsupportedOperation));
    assert_eq!(
        digest_oneshot(Sha3Id::SHAKE128, b"x"),
        Err(Sha3Error::UnsupportedOperation)
    );
}

#[test]
fn finalize_xof_zero_length_fails() {
    let mut h = Sha3::shake256();
    h.update(b"input").unwrap();
    assert_eq!(h.finalize_xof(0), Err(Sha3Error::UnsupportedOperation));
    // The instance is untouched by the failed call.
    let out = h.finalize_xof(32).unwrap();
    let mut f = Sha3::shake256();
    f.update(b"input").unwrap();
    assert_eq!(out, f.finalize_xof(32).unwrap());
}

#[test]
fn reset_discards_absorbed_input() {
    let mut h = Sha3::sha3_256();
    h.update(b"to be discarded").unwrap();
    h.reset();
    h.update(b"kept").unwrap();
    assert_eq!(
        h.finalize().unwrap(),
        digest_oneshot(Sha3Id::SHA3_256, b"kept").unwrap()
    );
}

#[test]
fn reuse_after_finalize_reset() {
    let mut h = Sha3::sha3_256();
    h.update(b"first message").unwrap();
    let d1 = h.finalize_reset().unwrap();
    assert_eq!(d1, digest_oneshot(Sha3Id::SHA3_256, b"first message").unwrap());
    // No residue of the first computation.
    h.update(b"second message").unwrap();
    let d2 = h.finalize().unwrap();
    assert_eq!(d2, digest_oneshot(Sha3Id::SHA3_256, b"second message").unwrap());
}

#[test]
fn variant_table_entries() {
    let expected: [(Sha3Id, usize, usize, bool, &str); 6] = [
        (Sha3Id::SHA3_224, 144, 28, false, "SHA3-224"),
        (Sha3Id::SHA3_256, 136, 32, false, "SHA3-256"),
        (Sha3Id::SHA3_384, 104, 48, false, "SHA3-384"),
        (Sha3Id::SHA3_512, 72, 64, false, "SHA3-512"),
        (Sha3Id::SHAKE128, 168, 0, true, "SHAKE128"),
        (Sha3Id::SHAKE256, 136, 0, true, "SHAKE256"),
    ];
    for (id, rate, out, xof, name) in expected {
        let d = lookup(id);
        assert_eq!(d.rate(), rate);
        assert_eq!(d.capacity(), 200 - rate);
        assert_eq!(d.output_len(), out);
        assert_eq!(d.is_xof(), xof);
        assert_eq!(d.name(), name);
    }
}

#[test]
fn new_from_descriptor() {
    let mut h = Sha3::new(lookup(Sha3Id::SHA3_384));
    h.update(b"abc").unwrap();
    assert_eq!(
        h.finalize().unwrap(),
        digest_oneshot(Sha3Id::SHA3_384, b"abc").unwrap()
    );
}

#[test]
fn empty_update_is_no_op() {
    let mut h = Sha3::sha3_224();
    h.update(b"").unwrap();
    h.update(b"abc").unwrap();
    h.update(b"").unwrap();
    assert_eq!(
        h.finalize().unwrap(),
        digest_oneshot(Sha3Id::SHA3_224, b"abc").unwrap()
    );
}

#[test]
fn all_variants_accept_all_input_sizes() {
    for id in ALL_IDS {
        for len in [0usize, 1, 71, 72, 73, 104, 135, 136, 137, 143, 144, 145, 167, 168, 169] {
            let msg = sample_message(len);
            let mut h = Sha3::for_variant(id);
            h.update(&msg).unwrap();
            if lookup(id).is_xof() {
                assert_eq!(h.finalize_xof(48).unwrap().len(), 48);
            } else {
                assert_eq!(h.finalize().unwrap().len(), h.output_size());
            }
        }
    }
}
