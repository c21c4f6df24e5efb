//! Known-answer tests: FIPS 202 test vectors, byte-exact.

use sha3::{digest_oneshot, Sha3, Sha3Id};

fn hex(bytes: &[u8]) -> String {
    let mut s = String::new();
    for b in bytes {
        s.push_str(&format!("{:02x}", b));
    }
    s
}

fn oneshot_hex(id: Sha3Id, msg: &[u8]) -> String {
    hex(&digest_oneshot(id, msg).unwrap())
}

#[test]
fn sha3_224_empty() {
    assert_eq!(
        oneshot_hex(Sha3Id::SHA3_224, b""),
        "6b4e03423667dbb73b6e15454f0eb1abd4597f9a1b078e3f5b5a6bc7"
    );
}

#[test]
fn sha3_256_empty() {
    assert_eq!(
        oneshot_hex(Sha3Id::SHA3_256, b""),
        "a7ffc6f8bf1ed76651c14756a061d662f580ff4de43b49fa82d80a4b80f8434a"
    );
}

#[test]
fn sha3_384_empty() {
    assert_eq!(
        oneshot_hex(Sha3Id::SHA3_384, b""),
        "0c63a75b845e4f7d01107d852e4c2485c51a50aaaa94fc61995e71bbee983a2ac3713831264adb47fb6bd1e058d5f004"
    );
}

#[test]
fn sha3_512_empty() {
    assert_eq!(
        oneshot_hex(Sha3Id::SHA3_512, b""),
        "a69f73cca23a9ac5c8b567dc185a756e97c982164fe25859e0d1dcc1475c80a615b2123af1f5f94c11e3e9402c3ac558f500199d95b6d3e301758586281dcd26"
    );
}

#[test]
fn sha3_224_abc() {
    assert_eq!(
        oneshot_hex(Sha3Id::SHA3_224, b"abc"),
        "e642824c3f8cf24ad09234ee7d3c766fc9a3a5168d0c94ad73b46fdf"
    );
}

#[test]
fn sha3_256_abc() {
    assert_eq!(
        oneshot_hex(Sha3Id::SHA3_256, b"abc"),
        "3a985da74fe225b2045c172d6bd390bd855f086e3e9d525b46bfe24511431532"
    );
}

#[test]
fn sha3_384_abc() {
    assert_eq!(
        oneshot_hex(Sha3Id::SHA3_384, b"abc"),
        "ec01498288516fc926459f58e2c6ad8df9b473cb0fc08c2596da7cf0e49be4b298d88cea927ac7f539f1edf228376d25"
    );
}

#[test]
fn sha3_512_abc() {
    assert_eq!(
        oneshot_hex(Sha3Id::SHA3_512, b"abc"),
        "b751850b1a57168a5693cd924b6b096e08f621827444f70d884f5d0240d2712e10e116e9192af3c91a7ec57647e3934057340b4cf408d5a56592f8274eec53f0"
    );
}

#[test]
fn sha3_256_multi_block() {
    // 200 bytes of 0xa3 spans two rate-sized blocks of SHA3-256 (rate 136).
    let msg = [0xa3u8; 200];
    assert_eq!(
        oneshot_hex(Sha3Id::SHA3_256, &msg),
        "79f38adec5c20307a98ef76e8324afbfd46cfd81b22e3973c65fa1bd9de31787"
    );
}

#[test]
fn shake128_empty_32() {
    let mut h = Sha3::shake128();
    let out = h.finalize_xof(32).unwrap();
    assert_eq!(
        hex(&out),
        "7f9c2ba4e88f827d616045507605853ed73b8093f6efbc88eb1a6eacfa66ef26"
    );
}

#[test]
fn shake256_empty_32() {
    let mut h = Sha3::shake256();
    let out = h.finalize_xof(32).unwrap();
    assert_eq!(
        hex(&out),
        "46b9dd2b0ba88d13233b3feb743eeb243fcd52ea62b81b82b50c27646ed5762f"
    );
}

#[test]
fn shake128_abc_32() {
    let mut h = Sha3::shake128();
    h.update(b"abc").unwrap();
    let out = h.finalize_xof(32).unwrap();
    assert_eq!(
        hex(&out),
        "5881092dd818bf5cf8a3ddb793fbcba74097d5c526a6d35f97b83351940f2cc8"
    );
}
