//! Records decoded from the headless wallet service's JSON responses, as
//! far as the local logic reads them.  They are fetched fresh per
//! invocation and never cached.

use vstd::prelude::*;

verus! {

/// The decoded part of a transaction output or input: the spending address
/// the service could resolve, or none for non-standard scripts.
pub struct DecodedOutput {
    pub address: Option<String>,
    pub timelock: Option<u64>,
    pub data: Option<String>,
}

/// One output of a transaction in the wallet's history.
pub struct HistoryOutput {
    pub value: u64,
    pub token_data: u8,
    pub script: String,
    pub decoded: DecodedOutput,
    pub token: String,
    pub spent_by: Option<String>,
}

/// One input of a transaction in the wallet's history.
pub struct HistoryInput {
    pub value: u64,
    pub token_data: u8,
    pub script: String,
    pub decoded: DecodedOutput,
    pub token: String,
    pub tx_id: String,
    pub index: u32,
}

/// One transaction in the wallet's history, with its inputs and outputs.
/// The service also reports a fractional weight for each transaction;
/// nothing here reads it, so the record does not carry it.
pub struct HistoryTx {
    pub tx_id: String,
    pub version: u32,
    pub timestamp: u64,
    pub is_voided: bool,
    pub inputs: Vec<HistoryInput>,
    pub outputs: Vec<HistoryOutput>,
    pub parents: Vec<String>,
    pub token_name: Option<String>,
    pub token_symbol: Option<String>,
    pub tokens: Option<Vec<String>>,
}

/// The service's answer to an address-info request.
pub struct AddressInfoResponse {
    pub success: bool,
    // For success messages
    pub total_amount_received: Option<u32>,
    pub total_amount_sent: Option<u32>,
    pub total_amount_available: Option<u32>,
    pub total_amount_locked: Option<u32>,
    pub token: Option<String>,
    pub index: Option<u32>,
    // For fail messages
    pub error: Option<String>,
}

impl AddressInfoResponse {
    /// Whether the queried address belongs to the wallet: the service
    /// answers with success exactly for owned addresses.
    pub fn is_mine(&self) -> (r: bool)
        ensures
            r == self.success,
    {
        self.success
    }
}

} // verus!
