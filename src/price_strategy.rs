//! Price sources chosen by ticker pair.
use vstd::prelude::*;

verus! {

/// The traded pairs a price can be asked for.
#[derive(Clone, Copy, Debug, PartialEq, Eq, Structural)]
pub enum PriceTickerPair {
    USDBTC,
}

/// The currency of a pair's quote.
#[derive(Clone, Copy, Debug, PartialEq, Eq, Structural)]
pub enum PriceCurrency {
    USD,
}

impl PriceTickerPair {
    /// The currency the pair is quoted in.
    pub fn currency(&self) -> (r: PriceCurrency)
        ensures
            *self == PriceTickerPair::USDBTC ==> r == PriceCurrency::USD,
    {
        match self {
            PriceTickerPair::USDBTC => PriceCurrency::USD,
        }
    }
}

/// A price as fetched, in the provider's decimal notation.
#[derive(Clone, Debug)]
pub struct PriceResult {
    pub price_in_currency: String,
}

/// A way of fetching the price of a pair.
pub trait PriceStrategy: Sized {
    fn new() -> Self;
}

/// A strategy together with its last result.
pub struct PriceProvider<TProvider: PriceStrategy> {
    pub provider: TProvider,
    pub last_price_in_currency: Option<String>,
}

impl<TProvider: PriceStrategy> PriceProvider<TProvider> {
    /// A provider that has fetched nothing yet.
    pub fn new() -> (r: Self)
        ensures
            r.last_price_in_currency is None,
    {
        PriceProvider { provider: TProvider::new(), last_price_in_currency: None }
    }
}

/// Prices of the pair from Coinbase.
#[derive(Clone, Copy, Debug, PartialEq, Eq, Structural)]
pub struct CoinbasePrice;

impl PriceStrategy for CoinbasePrice {
    fn new() -> Self {
        CoinbasePrice
    }
}

} // verus!
