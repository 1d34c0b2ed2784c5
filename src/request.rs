//! The parameters of a raw-transaction request to the data provider.
use vstd::prelude::*;

verus! {

/// The provider that serves raw transaction bytes.
pub const HOST: &'static str = "btcscan.org";

/// The client name sent with every request.
pub const USER_AGENT: &'static str = "bitcoin_inputs_collector";

/// The largest response accepted: 400 KiB.
pub const MAX_RESPONSE_BYTES: u64 = 400 * 1024;

/// Cycles attached to one request: a 1 KiB request and a 400 KiB response.
pub const REQUEST_CYCLES: u128 = 49_140_000 + 1024 * 5_200 + 10_400 * 400 * 1024;

/// The provider's address for the raw bytes of transaction `tx_id`.
pub fn raw_tx_url(tx_id: &String) -> (r: String)
    ensures
        r@ == "https://btcscan.org/api/tx/"@ + tx_id@ + "/raw"@,
{
    let mut url = String::from_str("https://btcscan.org/api/tx/");
    url.append(tx_id.as_str());
    url.append("/raw");
    url
}

} // verus!
