//! Fee estimates shown beside the node panel.
use vstd::prelude::*;

verus! {

/// Fee rates in satoshis per virtual byte, as displayed.
#[derive(Clone, Debug)]
pub struct FeeResult {
    pub low: String,
    pub medium: String,
    pub high: String,
}

/// The last fee estimates received.
#[derive(Clone, Debug)]
pub struct FeesState {
    pub result: FeeResult,
}

impl FeesState {
    /// No estimate yet: each rate shows a dash.
    pub fn new() -> (r: FeesState)
        ensures
            r.result.low@ == seq!['-'],
            r.result.medium@ == seq!['-'],
            r.result.high@ == seq!['-'],
    {
        proof {
            reveal_strlit("-");
            assert("-"@ =~= seq!['-']);
        }
        FeesState {
            result: FeeResult {
                low: "-".to_owned(),
                medium: "-".to_owned(),
                high: "-".to_owned(),
            },
        }
    }
}

/// A source of fee estimates.
pub trait FeeServiceProvider: Sized {
    fn new() -> Self;
}

/// A fee source together with its last result.
pub struct FeeService<TProvider: FeeServiceProvider> {
    pub provider: TProvider,
    pub result: Option<FeeResult>,
}

impl<TProvider: FeeServiceProvider> FeeService<TProvider> {
    /// A service that has fetched nothing yet.
    pub fn new() -> (r: Self)
        ensures
            r.result is None,
    {
        FeeService { provider: TProvider::new(), result: None }
    }
}

/// Fee estimates from the blockchain.info mempool API.
#[derive(Clone, Copy, Debug, PartialEq, Eq, Structural)]
pub struct FeesBlockchainInfo;

impl FeeServiceProvider for FeesBlockchainInfo {
    fn new() -> Self {
        FeesBlockchainInfo
    }
}

} // verus!
