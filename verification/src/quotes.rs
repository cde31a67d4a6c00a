//! Selecting a stock quote from an exchange answer.
//!
//! The exchange reports a list of quotes; the caller wants the first one,
//! and an empty list means no data was found. Fetching and decoding the
//! answer is I/O and stays outside the library.

use vstd::prelude::*;

verus! {

/// One quote as the exchange reports it: code, display name, and the last
/// price as the decimal text the exchange sent.
pub struct StockQuote {
    pub code: String,
    pub name: String,
    pub price: String,
}

/// The first quote of the answer; `None` exactly when the exchange sent
/// no quote at all.
pub fn first_stock(mut quotes: Vec<StockQuote>) -> (r: Option<StockQuote>)
    ensures
        match r {
            Some(q) => quotes@.len() > 0 && q == quotes@[0],
            None => quotes@.len() == 0,
        },
{
    if quotes.len() == 0 {
        None
    } else {
        let q = quotes.remove(0);
        Some(q)
    }
}

} // verus!
