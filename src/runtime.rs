//! Selection of the network behaviour from the chain's address-format
//! identifier.
use vstd::prelude::*;

verus! {

/// The chain-address-format (SS58) identifier a node reports.
pub type ChainPrefix = u16;

/// The prefix of the Polkadot network.
pub const POLKADOT_PREFIX: ChainPrefix = 0;

/// The prefix of the Kusama network.
pub const KUSAMA_PREFIX: ChainPrefix = 2;

/// The prefix of the Westend network.
pub const WESTEND_PREFIX: ChainPrefix = 42;

/// The networks whose session events this agent knows how to follow.
#[derive(Clone, Copy, Debug, PartialEq, Eq, Structural)]
pub enum SupportedRuntime {
    Polkadot,
    Kusama,
    Westend,
}

/// Whether `p` names one of the supported networks.
pub open spec fn is_supported_prefix(p: ChainPrefix) -> bool {
    p == POLKADOT_PREFIX || p == KUSAMA_PREFIX || p == WESTEND_PREFIX
}

/// The runtime selected for prefix `p`. A prefix outside the supported set
/// falls back to `Polkadot`, the runtime of the neutral prefix 0.
pub open spec fn runtime_of(p: ChainPrefix) -> SupportedRuntime {
    if p == KUSAMA_PREFIX {
        SupportedRuntime::Kusama
    } else if p == WESTEND_PREFIX {
        SupportedRuntime::Westend
    } else {
        SupportedRuntime::Polkadot
    }
}

/// The prefix to use for an `ss58Format` property: 0 when the node reports
/// none, or one that does not fit a prefix.
pub open spec fn prefix_of(ss58_format: Option<u64>) -> ChainPrefix {
    match ss58_format {
        Some(v) => if v <= u16::MAX { v as u16 } else { POLKADOT_PREFIX },
        None => POLKADOT_PREFIX,
    }
}

/// The chain prefix for the `ss58Format` property a node reported.
pub fn chain_prefix(ss58_format: Option<u64>) -> (r: ChainPrefix)
    ensures
        r == prefix_of(ss58_format),
{
    match ss58_format {
        Some(v) => if v <= u16::MAX as u64 { v as u16 } else { POLKADOT_PREFIX },
        None => POLKADOT_PREFIX,
    }
}

impl SupportedRuntime {
    /// Whether `prefix` names one of the supported networks.
    pub fn is_supported(prefix: ChainPrefix) -> (r: bool)
        ensures
            r == is_supported_prefix(prefix),
    {
        prefix == POLKADOT_PREFIX || prefix == KUSAMA_PREFIX || prefix == WESTEND_PREFIX
    }
}

impl From<ChainPrefix> for SupportedRuntime {
    fn from(p: ChainPrefix) -> (r: SupportedRuntime)
        ensures
            r == runtime_of(p),
    {
        if p == KUSAMA_PREFIX {
            SupportedRuntime::Kusama
        } else if p == WESTEND_PREFIX {
            SupportedRuntime::Westend
        } else {
            SupportedRuntime::Polkadot
        }
    }
}

impl vstd::std_specs::convert::FromSpecImpl<ChainPrefix> for SupportedRuntime {
    open spec fn obeys_from_spec() -> bool {
        true
    }

    open spec fn from_spec(p: ChainPrefix) -> SupportedRuntime {
        runtime_of(p)
    }
}

/// Each supported prefix selects its own runtime, and every other prefix
/// selects `Polkadot`: the selection is a fixed function of the prefix, so
/// repeated selections with one prefix always agree.
pub proof fn lemma_runtime_selection(p: ChainPrefix, q: ChainPrefix)
    ensures
        p == q ==> runtime_of(p) == runtime_of(q),
        runtime_of(POLKADOT_PREFIX) == SupportedRuntime::Polkadot,
        runtime_of(KUSAMA_PREFIX) == SupportedRuntime::Kusama,
        runtime_of(WESTEND_PREFIX) == SupportedRuntime::Westend,
        !is_supported_prefix(p) ==> runtime_of(p) == SupportedRuntime::Polkadot,
{
}

} // verus!
