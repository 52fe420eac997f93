//! Proof-of-work targets.

use vstd::prelude::*;

verus! {

/// A 256-bit proof-of-work target, held as its upper and lower 128 bits.
///
/// A larger target is easier to meet. This library only stores and compares targets.
#[derive(Clone, Copy, Debug, PartialEq, Eq, Hash, Structural)]
pub struct Target {
    /// The upper 128 bits.
    pub hi: u128,
    /// The lower 128 bits.
    pub lo: u128,
}

/// Upper half of the loosest target attainable on the main chain (`0xffff << 208`).
pub const MAX_ATTAINABLE_MAINNET_HI: u128 = 0xFFFF_0000_0000_0000_0000_0000;

/// Upper half of the loosest target attainable on the public test chain.
pub const MAX_ATTAINABLE_TESTNET_HI: u128 = 0xFFFF_0000_0000_0000_0000_0000;

/// Upper half of the loosest target attainable on the signed test chain.
pub const MAX_ATTAINABLE_SIGNET_HI: u128 = 0x0377_AE00_0000_0000_0000_0000_0000;

/// Upper half of the loosest target attainable on the regression-test chain.
pub const MAX_ATTAINABLE_REGTEST_HI: u128 = 0x7FFF_FF00_0000_0000_0000_0000_0000_0000;

} // verus!
