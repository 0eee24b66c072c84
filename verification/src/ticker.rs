use vstd::prelude::*;

use crate::types::Error;

verus! {

/// What `serde_json` reads from the JSON text `text`: `None` when the text is not a
/// JSON document; otherwise, for the entry at `position` of the top-level array,
/// the member `key` as a `u64`, or `None` when it is absent or not a `u64`.
pub uninterp spec fn json_array_field_u64(text: Seq<u8>, position: int, key: Seq<char>) -> Option<
    Option<u64>,
>;

/// Parses `text` with `serde_json::from_slice` into a `serde_json::Value`, indexes
/// it with `[position][key]` and converts the member with
/// `serde_json::from_value::<u64>`. The contract names the result and says no more:
/// the JSON grammar and serde's number conversion are serde_json's.
#[verifier::external_body]
fn read_json_field_u64(text: &[u8], position: usize, key: &str) -> (field: Option<Option<u64>>)
    ensures
        field == json_array_field_u64(text@, position as int, key@),
{
    match serde_json::from_slice::<serde_json::Value>(text) {
        Err(_) => None,
        Ok(document) => Some(serde_json::from_value::<u64>(document[position][key].clone()).ok()),
    }
}

/// The member that holds a ticker's price: `price_in_usd`.
pub open spec fn price_key() -> Seq<char> {
    seq!['p', 'r', 'i', 'c', 'e', '_', 'i', 'n', '_', 'u', 's', 'd']
}

/// The prices, or the error, given what was read for UMI (entry 0) and PHPU
/// (entry 1): text that is not JSON is `TickerPriceDataInvalid`, a missing or
/// malformed price is `TickerPriceInvalid`; UMI is checked first.
pub open spec fn spec_prices_from_fields(umi: Option<Option<u64>>, phpu: Option<Option<u64>>) -> Result<
    (u64, u64),
    Error,
> {
    match umi {
        None => Err(Error::TickerPriceDataInvalid),
        Some(None) => Err(Error::TickerPriceInvalid),
        Some(Some(umi_price)) => match phpu {
            None => Err(Error::TickerPriceDataInvalid),
            Some(None) => Err(Error::TickerPriceInvalid),
            Some(Some(phpu_price)) => Ok((umi_price, phpu_price)),
        },
    }
}

/// The UMI and PHPU prices held by the stored ticker data.
pub open spec fn spec_ticker_prices(data: Seq<u8>) -> Result<(u64, u64), Error> {
    spec_prices_from_fields(
        json_array_field_u64(data, 0, price_key()),
        json_array_field_u64(data, 1, price_key()),
    )
}

/// Decides the prices, or the error, from what was read for each ticker.
pub fn prices_from_fields(umi: Option<Option<u64>>, phpu: Option<Option<u64>>) -> (r: Result<
    (u64, u64),
    Error,
>)
    ensures
        r == spec_prices_from_fields(umi, phpu),
{
    match umi {
        None => Err(Error::TickerPriceDataInvalid),
        Some(None) => Err(Error::TickerPriceInvalid),
        Some(Some(umi_price)) => match phpu {
            None => Err(Error::TickerPriceDataInvalid),
            Some(None) => Err(Error::TickerPriceInvalid),
            Some(Some(phpu_price)) => Ok((umi_price, phpu_price)),
        },
    }
}

/// Reads the UMI price (`[0]["price_in_usd"]`) and the PHPU price
/// (`[1]["price_in_usd"]`) from the ticker data.
pub fn ticker_prices(data: &[u8]) -> (r: Result<(u64, u64), Error>)
    ensures
        r == spec_ticker_prices(data@),
{
    let key = "price_in_usd";
    proof {
        reveal_strlit("price_in_usd");
        assert(key@ =~= price_key());
    }
    let umi = read_json_field_u64(data, 0, key);
    match umi {
        None => Err(Error::TickerPriceDataInvalid),
        Some(None) => Err(Error::TickerPriceInvalid),
        Some(Some(_)) => {
            let phpu = read_json_field_u64(data, 1, key);
            prices_from_fields(umi, phpu)
        },
    }
}

/// The ASCII bytes of a ticker symbol.
pub open spec fn umi_symbol() -> Seq<u8> {
    seq![0x55u8, 0x4du8, 0x49u8]
}

/// `PHPU`.
pub open spec fn phpu_symbol() -> Seq<u8> {
    seq![0x50u8, 0x48u8, 0x50u8, 0x55u8]
}

/// `lUMI`, the UMI liquidity token.
pub open spec fn lumi_symbol() -> Seq<u8> {
    seq![0x6cu8, 0x55u8, 0x4du8, 0x49u8]
}

/// `lPHPU`, the PHPU liquidity token.
pub open spec fn lphpu_symbol() -> Seq<u8> {
    seq![0x6cu8, 0x50u8, 0x48u8, 0x50u8, 0x55u8]
}

/// Whether `bytes` spell `symbol` exactly.
pub fn is_symbol(bytes: &[u8], symbol: &[u8]) -> (r: bool)
    ensures
        r == (bytes@ == symbol@),
{
    if bytes.len() != symbol.len() {
        assert(bytes@.len() != symbol@.len());
        return false;
    }
    let mut i: usize = 0;
    while i < bytes.len()
        invariant
            bytes@.len() == symbol@.len(),
            i <= bytes@.len(),
            forall|j: int| 0 <= j < i ==> bytes@[j] == symbol@[j],
        decreases bytes@.len() - i,
    {
        if bytes[i] != symbol[i] {
            return false;
        }
        i = i + 1;
    }
    assert(bytes@ =~= symbol@);
    true
}

} // verus!
