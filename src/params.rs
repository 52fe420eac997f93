//! The consensus parameter set of each supported chain.

use vstd::prelude::*;

use crate::network::Network;
use crate::pow::{
    MAX_ATTAINABLE_MAINNET_HI, MAX_ATTAINABLE_REGTEST_HI, MAX_ATTAINABLE_SIGNET_HI,
    MAX_ATTAINABLE_TESTNET_HI, Target,
};

verus! {

/// Parameters that influence chain consensus.
#[non_exhaustive]
#[derive(Clone, Copy, Debug, PartialEq, Eq, Structural)]
pub struct Params {
    /// Network for which parameters are valid.
    pub network: Network,
    /// Time when BIP16 becomes active.
    pub bip16_time: u32,
    /// Block height at which BIP34 becomes active.
    pub bip34_height: u32,
    /// Block height at which BIP65 becomes active.
    pub bip65_height: u32,
    /// Block height at which BIP66 becomes active.
    pub bip66_height: u32,
    /// Minimum number of signalling blocks, out of a confirmation window, that activates a
    /// soft-fork rule change.
    pub rule_change_activation_threshold: u32,
    /// Number of blocks with the same set of rules.
    pub miner_confirmation_window: u32,
    /// Proof of work limit value. Deprecated: the same value as `max_attainable_target`,
    /// kept under its old name.
    pub pow_limit: Target,
    /// The maximum **attainable** target value for these params: the loosest target that the
    /// compact encoding can express.
    pub max_attainable_target: Target,
    /// Expected amount of time to mine one block, in seconds.
    pub pow_target_spacing: u64,
    /// Difficulty recalculation interval, in seconds.
    pub pow_target_timespan: u64,
    /// Determines whether minimal difficulty may be used for blocks or not.
    pub allow_min_difficulty_blocks: bool,
    /// Determines whether retargeting is disabled for this network or not.
    pub no_pow_retargeting: bool,
}

/// The parameter table: the record of each supported network.
pub open spec fn params_for(network: Network) -> Params {
    match network {
        Network::Bitcoin => Params {
            network: Network::Bitcoin,
            bip16_time: 1333238400,
            bip34_height: 227931,
            bip65_height: 388381,
            bip66_height: 363725,
            rule_change_activation_threshold: 95,
            miner_confirmation_window: 120,
            pow_limit: Target { hi: MAX_ATTAINABLE_MAINNET_HI, lo: 0 },
            max_attainable_target: Target { hi: MAX_ATTAINABLE_MAINNET_HI, lo: 0 },
            pow_target_spacing: 30,
            pow_target_timespan: 3600,
            allow_min_difficulty_blocks: false,
            no_pow_retargeting: false,
        },
        Network::Testnet => Params {
            network: Network::Testnet,
            bip16_time: 1333238400,
            bip34_height: 21111,
            bip65_height: 581885,
            bip66_height: 330776,
            rule_change_activation_threshold: 1512,
            miner_confirmation_window: 2016,
            pow_limit: Target { hi: MAX_ATTAINABLE_TESTNET_HI, lo: 0 },
            max_attainable_target: Target { hi: MAX_ATTAINABLE_TESTNET_HI, lo: 0 },
            pow_target_spacing: 600,
            pow_target_timespan: 1209600,
            allow_min_difficulty_blocks: true,
            no_pow_retargeting: false,
        },
        Network::Signet => Params {
            network: Network::Signet,
            bip16_time: 1333238400,
            bip34_height: 1,
            bip65_height: 1,
            bip66_height: 1,
            rule_change_activation_threshold: 1916,
            miner_confirmation_window: 2016,
            pow_limit: Target { hi: MAX_ATTAINABLE_SIGNET_HI, lo: 0 },
            max_attainable_target: Target { hi: MAX_ATTAINABLE_SIGNET_HI, lo: 0 },
            pow_target_spacing: 600,
            pow_target_timespan: 1209600,
            allow_min_difficulty_blocks: false,
            no_pow_retargeting: false,
        },
        Network::Regtest => Params {
            network: Network::Regtest,
            bip16_time: 1333238400,
            bip34_height: 100000000,
            bip65_height: 1351,
            bip66_height: 1251,
            rule_change_activation_threshold: 108,
            miner_confirmation_window: 144,
            pow_limit: Target { hi: MAX_ATTAINABLE_REGTEST_HI, lo: 0 },
            max_attainable_target: Target { hi: MAX_ATTAINABLE_REGTEST_HI, lo: 0 },
            pow_target_spacing: 600,
            pow_target_timespan: 1209600,
            allow_min_difficulty_blocks: true,
            no_pow_retargeting: true,
        },
    }
}

impl Network {
    /// Returns a reference to the parameter record of this network, which lives for the whole
    /// run of the program.
    pub fn params(self) -> (r: &'static Params)
        ensures
            *r == params_for(self),
    {
        match self {
            Network::Bitcoin => &Params {
                network: Network::Bitcoin,
                bip16_time: 1333238400,
                bip34_height: 227931,
                bip65_height: 388381,
                bip66_height: 363725,
                rule_change_activation_threshold: 95,
                miner_confirmation_window: 120,
                pow_limit: Target { hi: MAX_ATTAINABLE_MAINNET_HI, lo: 0 },
                max_attainable_target: Target { hi: MAX_ATTAINABLE_MAINNET_HI, lo: 0 },
                pow_target_spacing: 30,
                pow_target_timespan: 3600,
                allow_min_difficulty_blocks: false,
                no_pow_retargeting: false,
            },
            Network::Testnet => &Params {
                network: Network::Testnet,
                bip16_time: 1333238400,
                bip34_height: 21111,
                bip65_height: 581885,
                bip66_height: 330776,
                rule_change_activation_threshold: 1512,
                miner_confirmation_window: 2016,
                pow_limit: Target { hi: MAX_ATTAINABLE_TESTNET_HI, lo: 0 },
                max_attainable_target: Target { hi: MAX_ATTAINABLE_TESTNET_HI, lo: 0 },
                pow_target_spacing: 600,
                pow_target_timespan: 1209600,
                allow_min_difficulty_blocks: true,
                no_pow_retargeting: false,
            },
            Network::Signet => &Params {
                network: Network::Signet,
                bip16_time: 1333238400,
                bip34_height: 1,
                bip65_height: 1,
                bip66_height: 1,
                rule_change_activation_threshold: 1916,
                miner_confirmation_window: 2016,
                pow_limit: Target { hi: MAX_ATTAINABLE_SIGNET_HI, lo: 0 },
                max_attainable_target: Target { hi: MAX_ATTAINABLE_SIGNET_HI, lo: 0 },
                pow_target_spacing: 600,
                pow_target_timespan: 1209600,
                allow_min_difficulty_blocks: false,
                no_pow_retargeting: false,
            },
            Network::Regtest => &Params {
                network: Network::Regtest,
                bip16_time: 1333238400,
                bip34_height: 100000000,
                bip65_height: 1351,
                bip66_height: 1251,
                rule_change_activation_threshold: 108,
                miner_confirmation_window: 144,
                pow_limit: Target { hi: MAX_ATTAINABLE_REGTEST_HI, lo: 0 },
                max_attainable_target: Target { hi: MAX_ATTAINABLE_REGTEST_HI, lo: 0 },
                pow_target_spacing: 600,
                pow_target_timespan: 1209600,
                allow_min_difficulty_blocks: true,
                no_pow_retargeting: true,
            },
        }
    }
}

impl Params {
    /// Creates the parameter set for the given network.
    pub fn new(network: Network) -> (r: Params)
        ensures
            r == params_for(network),
            r.wf(),
    {
        proof {
            lemma_table_wf(network);
        }
        *network.params()
    }

    /// The invariants that every record of the table meets: the deprecated `pow_limit` equals
    /// `max_attainable_target`, and the retargeting period is a whole number of block spacings.
    pub open spec fn wf(self) -> bool {
        &&& self.pow_limit == self.max_attainable_target
        &&& self.pow_target_spacing > 0
        &&& self.pow_target_timespan % self.pow_target_spacing == 0
    }

    /// Calculates the number of blocks between difficulty adjustments, rounding down.
    pub fn difficulty_adjustment_interval(&self) -> (r: u64)
        requires
            self.pow_target_spacing > 0,
        ensures
            r == self.pow_target_timespan / self.pow_target_spacing,
    {
        self.pow_target_timespan / self.pow_target_spacing
    }
}

impl From<Network> for Params {
    fn from(value: Network) -> (r: Params) {
        Self::new(value)
    }
}

impl vstd::std_specs::convert::FromSpecImpl<Network> for Params {
    open spec fn obeys_from_spec() -> bool {
        true
    }

    open spec fn from_spec(v: Network) -> Params {
        params_for(v)
    }
}

impl From<&Network> for Params {
    fn from(value: &Network) -> (r: Params) {
        Self::new(*value)
    }
}

impl vstd::std_specs::convert::FromSpecImpl<&Network> for Params {
    open spec fn obeys_from_spec() -> bool {
        true
    }

    open spec fn from_spec(v: &Network) -> Params {
        params_for(*v)
    }
}

impl From<Network> for &'static Params {
    fn from(value: Network) -> (r: &'static Params) {
        value.params()
    }
}

impl vstd::std_specs::convert::FromSpecImpl<Network> for &'static Params {
    open spec fn obeys_from_spec() -> bool {
        true
    }

    open spec fn from_spec(v: Network) -> &'static Params {
        &params_for(v)
    }
}

impl From<&Network> for &'static Params {
    fn from(value: &Network) -> (r: &'static Params) {
        value.params()
    }
}

impl vstd::std_specs::convert::FromSpecImpl<&Network> for &'static Params {
    open spec fn obeys_from_spec() -> bool {
        true
    }

    open spec fn from_spec(v: &Network) -> &'static Params {
        &params_for(*v)
    }
}

impl AsRef<Params> for Params {
    fn as_ref(&self) -> (r: &Params)
        ensures
            *r == *self,
    {
        self
    }
}

impl AsRef<Params> for Network {
    fn as_ref(&self) -> (r: &Params)
        ensures
            *r == params_for(*self),
    {
        self.params()
    }
}

/// Every record of the table is well formed: `pow_limit` equals `max_attainable_target`, and
/// the retargeting timespan is a positive whole multiple of the block spacing.
pub proof fn lemma_table_wf(network: Network)
    ensures
        params_for(network).wf(),
{
    lemma_interval_is_exact(network);
}

/// Resolution is deterministic and tells networks apart: two networks resolve to the same
/// record exactly when they are the same network, and a record names the network it was
/// resolved for.
pub proof fn lemma_resolution_deterministic(a: Network, b: Network)
    ensures
        params_for(a) == params_for(b) <==> a == b,
        params_for(a).network == a,
{
}

/// On every network the deprecated `pow_limit` holds the same target as
/// `max_attainable_target`.
pub proof fn lemma_pow_limit_is_max_attainable(network: Network)
    ensures
        params_for(network).pow_limit == params_for(network).max_attainable_target,
{
}

/// On every network the retargeting timespan divides evenly by the block spacing, so the
/// difficulty adjustment interval loses nothing to rounding: that many spacings make up
/// exactly one timespan.
pub proof fn lemma_interval_is_exact(network: Network)
    ensures
        params_for(network).pow_target_spacing > 0,
        params_for(network).pow_target_timespan % params_for(network).pow_target_spacing == 0,
        (params_for(network).pow_target_timespan / params_for(network).pow_target_spacing)
            * params_for(network).pow_target_spacing == params_for(network).pow_target_timespan,
{
    match network {
        Network::Bitcoin => {
            assert(3600u64 % 30u64 == 0 && (3600u64 / 30u64) * 30u64 == 3600u64)
                by (nonlinear_arith);
        },
        _ => {
            assert(1209600u64 % 600u64 == 0 && (1209600u64 / 600u64) * 600u64 == 1209600u64)
                by (nonlinear_arith);
        },
    }
}

/// Converting a network into a record and converting it into a reference to the static table
/// row give records with the same field values.
pub proof fn lemma_conversions_agree(network: Network)
    ensures
        <Params as vstd::std_specs::convert::FromSpec<Network>>::from_spec(network)
            == *<&'static Params as vstd::std_specs::convert::FromSpec<Network>>::from_spec(network),
        <Params as vstd::std_specs::convert::FromSpec<&Network>>::from_spec(&network)
            == *<&'static Params as vstd::std_specs::convert::FromSpec<&Network>>::from_spec(&network),
        <Params as vstd::std_specs::convert::FromSpec<Network>>::from_spec(network)
            == params_for(network),
{
}

} // verus!
