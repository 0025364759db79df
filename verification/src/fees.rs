//! The fee estimation response of the Archway rewards module, and the
//! strings the deploy tooling derives from it.

use vstd::prelude::*;
use vstd::string::*;

verus! {

/// The response of the chain's fee estimator.
#[derive(Debug, Clone)]
pub struct EstimateFeesResponse {
    pub gas_unit_price: GasUnitPrice,
    pub estimated_fee: Vec<EstimatedFee>,
}

/// The price of one gas unit.
#[derive(Debug, Clone)]
pub struct GasUnitPrice {
    pub denom: String,
    pub amount: String,
}

/// One estimated fee amount.
#[derive(Debug, Clone)]
pub struct EstimatedFee {
    pub denom: String,
    pub amount: String,
}

impl EstimateFeesResponse {
    /// The gas price as passed to `--gas-prices`: amount immediately
    /// followed by denomination.
    pub fn get_gas_price(&self) -> (r: String)
        ensures
            r@ == self.gas_unit_price.amount@ + self.gas_unit_price.denom@,
    {
        let mut r = self.gas_unit_price.amount.clone();
        r.append(self.gas_unit_price.denom.as_str());
        r
    }

    /// The first estimated fee: amount immediately followed by denomination.
    pub fn get_fee(&self) -> (r: String)
        requires
            self.estimated_fee@.len() > 0,
        ensures
            r@ == self.estimated_fee@[0].amount@ + self.estimated_fee@[0].denom@,
    {
        let fee = &self.estimated_fee[0];
        let mut r = fee.amount.clone();
        r.append(fee.denom.as_str());
        r
    }
}

} // verus!
