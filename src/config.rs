//! Connection parameters of each node, as the configuration supplies them.
use vstd::prelude::*;

use crate::text::str_eq;

verus! {

#[derive(Clone, Debug, Default)]
pub struct BitcoinCoreSettings {
    pub host: String,
    pub rpc_port: String,
    pub rpc_user: String,
    pub rpc_password: String,
    pub zmq_port: String,
}

#[derive(Clone, Debug, Default)]
pub struct CoreLightningSettings {
    pub rest_address: String,
    pub rest_rune: String,
}

#[derive(Clone, Debug, Default)]
pub struct LndSettings {
    pub rest_address: String,
    pub macaroon_hex: String,
}

#[derive(Clone, Debug)]
pub struct PriceSettings {
    pub enabled: bool,
    pub currency: String,
    pub big_text: bool,
}

#[derive(Clone, Debug)]
pub struct FeesSettings {
    pub enabled: bool,
}

/// One entry of the list of monitored nodes.
#[derive(Clone, Debug)]
pub struct NodeConfig {
    pub provider: String,
    pub bitcoin_core: Option<BitcoinCoreSettings>,
    pub core_lightning: Option<CoreLightningSettings>,
    pub lnd: Option<LndSettings>,
}

#[derive(Clone, Debug)]
pub struct AppConfig {
    pub tick_rate: String,
    pub node_switch_interval: String,
    pub streamer_mode: bool,
    pub price: PriceSettings,
    pub fees: FeesSettings,
    pub bitcoin_core: BitcoinCoreSettings,
    pub core_lightning: CoreLightningSettings,
    pub lnd: LndSettings,
    pub nodes: Vec<NodeConfig>,
}

/// Reads a flag given on the command line: `true` and `1` are set, anything
/// else is not.
pub fn match_string_to_bool(value: &str) -> (r: bool)
    ensures
        r == (value@ == seq!['t', 'r', 'u', 'e'] || value@ == seq!['1']),
{
    proof {
        reveal_strlit("true");
        reveal_strlit("1");
        assert("true"@ =~= seq!['t', 'r', 'u', 'e']);
        assert("1"@ =~= seq!['1']);
    }
    str_eq(value, "true") || str_eq(value, "1")
}

} // verus!
