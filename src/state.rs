//! The records that the contract keeps: its configuration, one setting per
//! remote chain, and one record per pending withdrawal.
use vstd::prelude::*;

verus! {

/// An amount of one asset, as attached to a command or moved by an effect.
#[derive(Clone, Debug, PartialEq, Eq)]
pub struct Coin {
    pub denom: String,
    pub amount: u128,
}

/// The contract's configuration.
#[derive(Clone, Debug, PartialEq, Eq)]
pub struct State {
    /// Seconds that must pass after a dispatch before a retry or a cancellation.
    pub retry_delay: u64,
    pub owner: String,
    pub minter: String,
    pub denom: String,
    /// The nonce of the latest withdrawal; 0 before the first.
    pub last_nonce: u64,
}

pub struct StateView {
    pub retry_delay: u64,
    pub owner: Seq<char>,
    pub minter: Seq<char>,
    pub denom: Seq<char>,
    pub last_nonce: u64,
}

impl View for State {
    type V = StateView;

    open spec fn view(&self) -> StateView {
        StateView {
            retry_delay: self.retry_delay,
            owner: self.owner@,
            minter: self.minter@,
            denom: self.denom@,
            last_nonce: self.last_nonce,
        }
    }
}

impl State {
    /// A copy of the configuration.
    pub fn duplicate(&self) -> (r: State)
        ensures
            r@ == self@,
    {
        State {
            retry_delay: self.retry_delay,
            owner: self.owner.clone(),
            minter: self.minter.clone(),
            denom: self.denom.clone(),
            last_nonce: self.last_nonce,
        }
    }
}

/// A pending withdrawal: what was deposited, by whom, for which recipient on
/// which chain, and when it was last dispatched.
#[derive(Clone, Debug, PartialEq, Eq)]
pub struct BurnInfo {
    pub chain_id: String,
    pub burner: String,
    pub recipient: String,
    pub amount: u128,
    /// Time of the last dispatch, in nanoseconds.
    pub timestamp: u64,
}

pub struct BurnInfoView {
    pub chain_id: Seq<char>,
    pub burner: Seq<char>,
    pub recipient: Seq<char>,
    pub amount: u128,
    pub timestamp: u64,
}

impl View for BurnInfo {
    type V = BurnInfoView;

    open spec fn view(&self) -> BurnInfoView {
        BurnInfoView {
            chain_id: self.chain_id@,
            burner: self.burner@,
            recipient: self.recipient@,
            amount: self.amount,
            timestamp: self.timestamp,
        }
    }
}

impl BurnInfo {
    /// A copy of the record.
    pub fn duplicate(&self) -> (r: BurnInfo)
        ensures
            r@ == self@,
    {
        BurnInfo {
            chain_id: self.chain_id.clone(),
            burner: self.burner.clone(),
            recipient: self.recipient.clone(),
            amount: self.amount,
            timestamp: self.timestamp,
        }
    }
}

/// What the bridge knows of one remote chain.
#[derive(Clone, Debug, PartialEq, Eq)]
pub struct ChainSetting {
    /// The scheduler job that runs calls on the chain.
    pub job_id: String,
    /// A withdrawal to the chain must deposit more than this.
    pub minimum_amount: u128,
}

pub struct ChainSettingView {
    pub job_id: Seq<char>,
    pub minimum_amount: u128,
}

impl View for ChainSetting {
    type V = ChainSettingView;

    open spec fn view(&self) -> ChainSettingView {
        ChainSettingView { job_id: self.job_id@, minimum_amount: self.minimum_amount }
    }
}

impl ChainSetting {
    /// A copy of the setting.
    pub fn duplicate(&self) -> (r: ChainSetting)
        ensures
            r@ == self@,
    {
        ChainSetting { job_id: self.job_id.clone(), minimum_amount: self.minimum_amount }
    }
}

} // verus!
