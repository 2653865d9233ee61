//! The price ticker's state and its source.
use vstd::prelude::*;

use crate::text::str_eq;
use vstd::string::StringExecFns;

verus! {

/// Currencies the price is quoted in.
#[derive(Clone, Copy, Debug, PartialEq, Eq, Structural)]
pub enum PriceCurrency {
    USD,
    EUR,
}

pub open spec fn currency_code(c: PriceCurrency) -> Seq<char> {
    match c {
        PriceCurrency::USD => seq!['U', 'S', 'D'],
        PriceCurrency::EUR => seq!['E', 'U', 'R'],
    }
}

/// A currency code that names no supported currency.
#[derive(Clone, Copy, Debug, PartialEq, Eq, Structural)]
pub struct UnknownCurrency;

impl PriceCurrency {
    /// The currency's three-letter code.
    pub fn as_str(&self) -> (r: &'static str)
        ensures
            r@ == currency_code(*self),
    {
        proof {
            reveal_strlit("USD");
            reveal_strlit("EUR");
            assert("USD"@ =~= seq!['U', 'S', 'D']);
            assert("EUR"@ =~= seq!['E', 'U', 'R']);
        }
        match self {
            PriceCurrency::USD => "USD",
            PriceCurrency::EUR => "EUR",
        }
    }

    /// The currency whose code is `input`, exactly.
    pub fn from_code(input: &str) -> (r: Result<PriceCurrency, UnknownCurrency>)
        ensures
            input@ == currency_code(PriceCurrency::USD) ==> r == Ok::<
                PriceCurrency,
                UnknownCurrency,
            >(PriceCurrency::USD),
            input@ == currency_code(PriceCurrency::EUR) ==> r == Ok::<
                PriceCurrency,
                UnknownCurrency,
            >(PriceCurrency::EUR),
            input@ != currency_code(PriceCurrency::USD) && input@ != currency_code(
                PriceCurrency::EUR,
            ) ==> r == Err::<PriceCurrency, UnknownCurrency>(UnknownCurrency),
    {
        proof {
            reveal_strlit("USD");
            reveal_strlit("EUR");
            assert("USD"@ =~= seq!['U', 'S', 'D']);
            assert("EUR"@ =~= seq!['E', 'U', 'R']);
        }
        if str_eq(input, "USD") {
            Ok(PriceCurrency::USD)
        } else if str_eq(input, "EUR") {
            Ok(PriceCurrency::EUR)
        } else {
            Err(UnknownCurrency)
        }
    }
}

impl std::str::FromStr for PriceCurrency {
    type Err = UnknownCurrency;

    fn from_str(input: &str) -> Result<PriceCurrency, UnknownCurrency> {
        PriceCurrency::from_code(input)
    }
}

/// A price as fetched, in the provider's decimal notation.
#[derive(Clone, Debug)]
pub struct PriceResult {
    pub price_in_currency: String,
}

/// The last price received, in whole units of the currency.
#[derive(Clone, Copy, Debug, PartialEq, Eq, Structural)]
pub struct PriceState {
    pub currency: PriceCurrency,
    pub last_price_in_currency: Option<u64>,
}

impl PriceState {
    /// No price yet, quoted in US dollars.
    pub fn new() -> (r: PriceState)
        ensures
            r.currency == PriceCurrency::USD,
            r.last_price_in_currency is None,
    {
        PriceState { currency: PriceCurrency::USD, last_price_in_currency: None }
    }
}

/// A source of prices.
pub trait PriceProvider: Sized {
    fn new() -> Self;
}

/// A price source together with its last result.
pub struct Price<TProvider: PriceProvider> {
    pub provider: TProvider,
    pub last_price_in_currency: Option<String>,
}

impl<TProvider: PriceProvider> Price<TProvider> {
    /// A source that has fetched nothing yet.
    pub fn new() -> (r: Self)
        ensures
            r.last_price_in_currency is None,
    {
        Price { provider: TProvider::new(), last_price_in_currency: None }
    }
}

/// Prices from Coinbase's public market API.
#[derive(Clone, Copy, Debug, PartialEq, Eq, Structural)]
pub struct PriceCoinbase;

pub open spec fn coinbase_product_prefix() -> Seq<char> {
    seq![
        'h', 't', 't', 'p', 's', ':', '/', '/', 'a', 'p', 'i', '.', 'c', 'o', 'i', 'n', 'b', 'a',
        's', 'e', '.', 'c', 'o', 'm', '/', 'a', 'p', 'i', '/', 'v', '3', '/', 'b', 'r', 'o', 'k',
        'e', 'r', 'a', 'g', 'e', '/', 'm', 'a', 'r', 'k', 'e', 't', '/', 'p', 'r', 'o', 'd', 'u',
        'c', 't', 's', '/', 'B', 'T', 'C', '-',
    ]
}

impl PriceProvider for PriceCoinbase {
    fn new() -> Self {
        PriceCoinbase
    }
}

impl PriceCoinbase {
    /// The market endpoint of bitcoin quoted in `currency`.
    pub fn product_url(currency: PriceCurrency) -> (r: String)
        ensures
            r@ == coinbase_product_prefix() + currency_code(currency),
    {
        proof {
            reveal_strlit("https://api.coinbase.com/api/v3/brokerage/market/products/BTC-");
        }
        let mut url = "https://api.coinbase.com/api/v3/brokerage/market/products/BTC-".to_owned();
        proof {
            assert(url@ =~= coinbase_product_prefix());
        }
        url.append(currency.as_str());
        url
    }
}

} // verus!
