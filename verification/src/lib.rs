//! The SHA-3 family of hash functions (FIPS 202): the fixed-output digests
//! SHA3-224/256/384/512 and the extendable-output functions SHAKE128/SHAKE256,
//! built from the Keccak-f[1600] permutation driven through a sponge.

pub mod hasher;
pub mod keccak;
pub mod sponge;
pub mod variants;

pub use hasher::digest_oneshot;
pub use hasher::Sha3;
pub use sponge::SpongeState;
pub use variants::lookup;
pub use variants::spongeDesc;
pub use variants::Sha3Error;
pub use variants::Sha3Id;
