//! The messages that the contract takes and the responses it gives.
use vstd::prelude::*;

verus! {

/// The Paloma signers that relay the job.
#[derive(Debug)]
pub struct Metadata {
    pub creator: String,
    pub signers: Vec<String>,
}

impl Metadata {
    /// A copy with the same creator and the same signers.
    pub fn copy(&self) -> (m: Metadata)
        ensures
            m.creator == self.creator,
            m.signers@ == self.signers@,
    {
        let mut signers: Vec<String> = Vec::new();
        let mut i: usize = 0;
        while i < self.signers.len()
            invariant
                i <= self.signers@.len(),
                signers@.len() == i,
                forall|j: int| 0 <= j < i ==> #[trigger] signers@[j] == self.signers@[j],
            decreases self.signers@.len() - i,
        {
            signers.push(self.signers[i].clone());
            i = i + 1;
        }
        assert(signers@ =~= self.signers@);
        Metadata { creator: self.creator.clone(), signers }
    }
}

#[derive(Debug)]
pub struct InstantiateMsg {
    pub retry_delay: u64,
    pub job_id: String,
    pub creator: String,
    pub signers: Vec<String>,
}

/// One swap that the Vyper contract runs for a bot. Amounts are 256-bit unsigned
/// integers as 32 big-endian bytes.
#[derive(Debug)]
pub struct SwapInfo {
    pub route: Vec<String>,
    pub swap_params: Vec<Vec<[u8; 32]>>,
    pub amount: [u8; 32],
    pub expected: [u8; 32],
    pub pools: Vec<String>,
}

/// A bot (an EVM address) with its collateral token and the amount to add or repay.
#[derive(Debug)]
pub struct BotInfo {
    pub bot: String,
    pub swap_infos: Vec<SwapInfo>,
    pub collateral: String,
    pub amount: [u8; 32],
}

#[derive(Debug)]
pub enum ExecuteMsg {
    AddCollateral { bot_info: Vec<BotInfo> },
    Repay { bot_info: Vec<BotInfo> },
    SetPaloma,
    UpdateCompass { new_compass: String },
    UpdateBlueprint { new_blueprint: String },
    UpdateRefundWallet { new_refund_wallet: String },
    UpdateGasFee { new_gas_fee: [u8; 32] },
    UpdateServiceFeeCollector { new_service_fee_collector: String },
    UpdateServiceFee { new_service_fee: [u8; 32] },
}

#[derive(Debug)]
pub enum QueryMsg {
    GetJobId,
}

#[derive(Debug)]
pub struct GetJobIdResponse {
    pub job_id: String,
}

#[derive(Debug)]
pub enum QueryResponse {
    GetJobId(GetJobIdResponse),
}

/// The custom message that asks Paloma to run `payload` as job `job_id`.
#[derive(Debug)]
pub struct PalomaMsg {
    pub job_id: String,
    pub payload: Vec<u8>,
    pub metadata: Metadata,
}

#[derive(Debug)]
pub struct Attribute {
    pub key: String,
    pub value: String,
}

/// The messages to dispatch and the attributes to log.
#[derive(Debug)]
pub struct Response {
    pub messages: Vec<PalomaMsg>,
    pub attributes: Vec<Attribute>,
}

} // verus!
