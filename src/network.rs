//! The chains for which consensus parameters are defined.

use vstd::prelude::*;

verus! {

/// A supported chain.
#[derive(Clone, Copy, Debug, PartialEq, Eq, Hash, Structural)]
pub enum Network {
    /// The main chain.
    Bitcoin,
    /// The public test chain.
    Testnet,
    /// The signed test chain.
    Signet,
    /// The local regression-test chain.
    Regtest,
}

} // verus!
