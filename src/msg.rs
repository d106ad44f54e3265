//! Commands, queries and the effects that commands hand to the host.
use vstd::prelude::*;

use crate::state::{BurnInfo, ChainSetting, State};

verus! {

/// Parameters of a new contract.
#[derive(Clone, Debug, PartialEq, Eq)]
pub struct InstantiateMsg {
    pub retry_delay: u64,
    pub minter: String,
    pub denom: String,
}

/// Parameters of the upgrade that introduces the minter.
#[derive(Clone, Debug, PartialEq, Eq)]
pub struct MigrateMsg {
    pub minter: String,
}

/// A command to the contract.
#[derive(Clone, Debug, PartialEq, Eq)]
pub enum ExecuteMsg {
    /// Registers, or replaces, the setting of a chain.
    RegisterChain { chain_id: String, chain_setting: ChainSetting },
    /// Binds a remote token to the contract's denomination.
    SetBridge { chain_reference_id: String, erc20_address: String },
    /// Sends an amount of the held asset to a recipient.
    MintPusd { recipient: String, amount: u128 },
    /// Takes the attached deposit and asks the remote chain to pay it out.
    Withdraw { chain_id: String, recipient: String },
    /// Dispatches a pending withdrawal again.
    ReWithdraw { nonce: u64 },
    /// Returns an amount of the held asset to the minter.
    UnmintPusd { amount: u128 },
    /// Settles a pending withdrawal.
    BurnPusd { nonce: u64 },
    /// Abandons a pending withdrawal and refunds its burner.
    CancelWithdraw { nonce: u64 },
    /// Changes the retry delay and/or the owner.
    UpdateConfig { retry_delay: Option<u64>, owner: Option<String> },
    SetPaloma { chain_id: String },
    UpdateCompass { chain_id: String, new_compass: String },
    UpdateRefundWallet { chain_id: String, new_refund_wallet: String },
    UpdateRedemptionFee { chain_id: String, new_redemption_fee: u128 },
}

/// A message to the host chain's own modules.
#[derive(Clone, Debug, PartialEq, Eq)]
pub enum PalomaMsg {
    /// Runs a job on a remote chain.
    SchedulerMsg { execute_job: ExecuteJob },
    SkywayMsg { set_erc20_to_denom: SetErc20ToDenom },
    TokenFactoryMsg { change_admin: ChangeAdminMsg },
}

/// A remote job and the call data it runs with.
#[derive(Clone, Debug, PartialEq, Eq)]
pub struct ExecuteJob {
    pub job_id: String,
    pub payload: Vec<u8>,
}

#[derive(Clone, Debug, PartialEq, Eq)]
pub struct CreateDenomMsg {
    pub subdenom: String,
    pub metadata: Metadata,
}

#[derive(Clone, Debug, PartialEq, Eq)]
pub struct DenomUnit {
    pub denom: String,
    pub exponent: u32,
    pub aliases: Vec<String>,
}

#[derive(Clone, Debug, PartialEq, Eq)]
pub struct Metadata {
    pub description: String,
    pub denom_units: Vec<DenomUnit>,
    pub base: String,
    pub display: String,
    pub name: String,
    pub symbol: String,
}

#[derive(Clone, Debug, PartialEq, Eq)]
pub struct MintMsg {
    pub denom: String,
    pub amount: u128,
    pub mint_to_address: String,
}

#[derive(Clone, Debug, PartialEq, Eq)]
pub struct BurnMsg {
    pub denom: String,
    pub amount: u128,
    /// Must be empty for now.
    pub burn_from_address: String,
}

#[derive(Clone, Debug, PartialEq, Eq)]
pub struct ChangeAdminMsg {
    pub denom: String,
    pub new_admin_address: String,
}

/// A read-only request.
#[derive(Clone, Debug, PartialEq, Eq)]
pub enum QueryMsg {
    GetState {},
    GetChainSettings {},
    GetJobId { chain_id: String },
    GetWithdrawList {},
    GetBurnInfo { nonce: u64 },
    ReWithdrawable {},
    PusdBalance {},
}

/// The answer to a query.
#[derive(Clone, Debug, PartialEq, Eq)]
pub enum QueryResponse {
    State(State),
    ChainSettings(Vec<ChainSettingInfo>),
    JobId(ChainSetting),
    WithdrawList(Vec<(u64, BurnInfo)>),
    BurnInfo(BurnInfo),
    ReWithdrawable(bool),
    /// The host is to answer with the contract's balance of this denomination.
    PusdBalance { denom: String },
}

/// One registered chain, as listed by a query.
#[derive(Clone, Debug, PartialEq, Eq)]
pub struct ChainSettingInfo {
    pub chain_id: String,
    pub job_id: String,
    pub minimum_amount: u128,
}

#[derive(Clone, Debug, PartialEq, Eq)]
pub struct SetErc20ToDenom {
    pub erc20_address: String,
    pub token_denom: String,
    pub chain_reference_id: String,
}

#[derive(Clone, Debug, PartialEq, Eq)]
pub struct BalanceResponse {
    pub balance: u128,
}

/// What a successful command asks the host to carry out.
#[derive(Clone, Debug, PartialEq, Eq)]
pub enum Effect {
    /// Sends coins held by the contract.
    BankSend { to_address: String, denom: String, amount: u128 },
    Custom(PalomaMsg),
}

/// The effect is a job dispatch of `payload` to `job_id`.
pub open spec fn is_job(e: Effect, job_id: Seq<char>, payload: Seq<u8>) -> bool {
    match e {
        Effect::Custom(PalomaMsg::SchedulerMsg { execute_job }) => {
            execute_job.job_id@ == job_id && execute_job.payload@ == payload
        },
        _ => false,
    }
}

/// The effect sends `amount` of `denom` to `to`.
pub open spec fn is_send(e: Effect, to: Seq<char>, denom: Seq<char>, amount: u128) -> bool {
    match e {
        Effect::BankSend { to_address, denom: d, amount: a } => {
            to_address@ == to && d@ == denom && a == amount
        },
        _ => false,
    }
}

} // verus!
