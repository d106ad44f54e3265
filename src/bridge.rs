//! The contract: its configuration, chain registry and withdrawal ledger, and
//! the commands that move it from one state to the next. A command either
//! fails with an error and leaves the state as it was, or applies its whole
//! change and returns the effects for the host to carry out.
use vstd::prelude::*;

use crate::abi::{
    address_from_text, address_of_text, address_word, be_word, encode_address_call, encode_call,
    encode_uint_call, encode_withdraw, selector, withdraw_call, RemoteFunction,
};
use crate::error::ContractError;
use crate::ledger::{nonces_ascending, Ledger};
use crate::msg::{
    is_job, is_send, ChainSettingInfo, ChangeAdminMsg, Effect, ExecuteJob, ExecuteMsg,
    InstantiateMsg, MigrateMsg, PalomaMsg, QueryMsg, QueryResponse, SetErc20ToDenom,
};
use crate::registry::{ids_ascending, ChainRegistry};
use crate::state::{BurnInfo, BurnInfoView, ChainSetting, ChainSettingView, Coin, State, StateView};

verus! {

pub const NANOS_PER_SECOND: u64 = 1_000_000_000;

/// The amount of `denom` among the attached coins; where several coins carry
/// it, the last one counts.
pub open spec fn deposited(funds: Seq<Coin>, denom: Seq<char>) -> u128
    decreases funds.len(),
{
    if funds.len() == 0 {
        0
    } else if funds.last().denom@ == denom {
        funds.last().amount
    } else {
        deposited(funds.drop_last(), denom)
    }
}

/// At `now` (nanoseconds), `retry_delay` seconds have passed since `timestamp`.
pub open spec fn delay_elapsed(timestamp: u64, retry_delay: u64, now: u64) -> bool {
    now as int >= timestamp as int + retry_delay as int * NANOS_PER_SECOND as int
}

/// The settings that a list of (chain id, setting) entries registers, a
/// later entry for an id replacing an earlier one.
pub open spec fn settings_of(entries: Seq<(String, ChainSetting)>) -> Map<Seq<char>, ChainSettingView>
    decreases entries.len(),
{
    if entries.len() == 0 {
        Map::empty()
    } else {
        settings_of(entries.drop_last()).insert(entries.last().0@, entries.last().1@)
    }
}

/// The records that a list of (nonce, record) entries holds.
pub open spec fn records_of(entries: Seq<(u64, BurnInfo)>) -> Map<u64, BurnInfoView>
    decreases entries.len(),
{
    if entries.len() == 0 {
        Map::empty()
    } else {
        records_of(entries.drop_last()).insert(entries.last().0, entries.last().1@)
    }
}

/// Stored records that a contract can be rebuilt from: a positive retry
/// delay, and nonces in strictly ascending order within `1..=last_nonce`.
pub open spec fn stored_records_valid(state: StateView, withdrawals: Seq<(u64, BurnInfo)>) -> bool {
    &&& state.retry_delay > 0
    &&& forall|j: int| 0 <= j < withdrawals.len() ==> 1 <= #[trigger] withdrawals[j].0 <= state.last_nonce
    &&& forall|j: int, k: int|
        0 <= j < k < withdrawals.len() ==> (#[trigger] withdrawals[j]).0 < (#[trigger] withdrawals[k]).0
}

/// The configuration of a previous version, which had no minter.
#[derive(Clone, Debug, PartialEq, Eq)]
pub struct PreviousState {
    pub retry_delay: u64,
    pub owner: String,
    pub denom: String,
    pub last_nonce: u64,
}

/// Who sends a command, with what, and when.
pub struct Context {
    pub sender: String,
    /// The host's canonical form of `sender`.
    pub sender_canonical: Vec<u8>,
    /// For a retry, the host's canonical form of the withdrawal's burner.
    pub burner_canonical: Vec<u8>,
    /// The coins attached to the command.
    pub funds: Vec<Coin>,
    /// The block time, in nanoseconds.
    pub now: u64,
}

pub struct Bridge {
    state: State,
    chains: ChainRegistry,
    ledger: Ledger,
}

impl Bridge {
    /// The configuration.
    pub closed spec fn config(&self) -> StateView {
        self.state@
    }

    /// The registered chains by id.
    pub closed spec fn chains(&self) -> Map<Seq<char>, ChainSettingView> {
        self.chains.view()
    }

    /// The pending withdrawals by nonce.
    pub closed spec fn ledger(&self) -> Map<u64, BurnInfoView> {
        self.ledger.view()
    }

    /// The registered chain ids in listing order.
    pub closed spec fn chain_order(&self) -> Seq<Seq<char>> {
        self.chains.ids()
    }

    /// The pending nonces in listing order.
    pub closed spec fn nonce_order(&self) -> Seq<u64> {
        self.ledger.nonces()
    }

    /// The retry delay is positive and every pending nonce lies in
    /// `1..=last_nonce`.
    pub closed spec fn wf(&self) -> bool {
        &&& self.chains.wf()
        &&& self.ledger.wf()
        &&& self.state.retry_delay > 0
        &&& forall|k: u64| #[trigger]
            self.ledger.view().contains_key(k) ==> 1 <= k <= self.state.last_nonce
    }

    /// A well-formed contract has a positive retry delay.
    pub proof fn lemma_retry_delay_positive(&self)
        requires
            self.wf(),
        ensures
            self.config().retry_delay > 0,
    {
    }

    /// A new contract owned by `sender`. Fails when no funds are attached or
    /// the retry delay is zero.
    pub fn instantiate(sender: &String, funds: &Vec<Coin>, msg: InstantiateMsg) -> (r: Result<
        Bridge,
        ContractError,
    >)
        ensures
            funds.len() == 0 ==> r == Err::<Bridge, ContractError>(ContractError::InsufficientFunds),
            funds.len() > 0 && msg.retry_delay == 0 ==> r == Err::<Bridge, ContractError>(
                ContractError::InvalidRetryDelay,
            ),
            funds.len() > 0 && msg.retry_delay > 0 ==> (r matches Ok(b) && {
                &&& b.wf()
                &&& b.config() == StateView {
                    retry_delay: msg.retry_delay,
                    owner: sender@,
                    minter: msg.minter@,
                    denom: msg.denom@,
                    last_nonce: 0,
                }
                &&& b.chains() == Map::<Seq<char>, ChainSettingView>::empty()
                &&& b.ledger() == Map::<u64, BurnInfoView>::empty()
            }),
    {
        if funds.len() == 0 {
            return Err(ContractError::InsufficientFunds);
        }
        if msg.retry_delay == 0 {
            return Err(ContractError::InvalidRetryDelay);
        }
        let state = State {
            retry_delay: msg.retry_delay,
            owner: sender.clone(),
            minter: msg.minter,
            denom: msg.denom,
            last_nonce: 0,
        };
        Ok(Bridge { state, chains: ChainRegistry::new(), ledger: Ledger::new() })
    }

    /// Rebuilds a contract from stored records: the chain settings (a later
    /// entry for an id replaces an earlier one) and the pending withdrawals,
    /// which must come in strictly ascending order of nonce, each in
    /// `1..=last_nonce`. Fails when the records break that, or the retry delay
    /// is zero.
    pub fn restore(state: State, chains: Vec<(String, ChainSetting)>, withdrawals: Vec<(u64, BurnInfo)>) -> (r:
        Option<Bridge>)
        ensures
            r is Some <==> stored_records_valid(state@, withdrawals@),
            r matches Some(b) ==> {
                &&& b.wf()
                &&& b.config() == state@
                &&& b.chains() == settings_of(chains@)
                &&& b.ledger() == records_of(withdrawals@)
            },
    {
        if state.retry_delay == 0 {
            return None;
        }
        let mut registry = ChainRegistry::new();
        let mut i: usize = 0;
        while i < chains.len()
            invariant
                registry.wf(),
                0 <= i <= chains.len(),
                registry.view() == settings_of(chains@.subrange(0, i as int)),
            decreases chains.len() - i,
        {
            registry.upsert(chains[i].0.clone(), chains[i].1.duplicate());
            assert(chains@.subrange(0, i + 1).drop_last() == chains@.subrange(0, i as int));
            i = i + 1;
        }
        assert(chains@.subrange(0, chains.len() as int) == chains@);
        let ghost w = withdrawals@;
        let mut ledger = Ledger::new();
        let mut prev: u64 = 0;
        let mut i: usize = 0;
        while i < withdrawals.len()
            invariant
                ledger.wf(),
                0 <= i <= w.len(),
                w == withdrawals@,
                prev <= state.last_nonce,
                i == 0 ==> prev == 0,
                i > 0 ==> prev == w[i - 1].0,
                forall|j: int| 0 <= j < i ==> 1 <= #[trigger] w[j].0 <= state.last_nonce,
                forall|j: int, k: int| 0 <= j < k < i ==> (#[trigger] w[j]).0 < (#[trigger] w[k]).0,
                forall|k: u64| #[trigger] ledger.view().contains_key(k) ==> 1 <= k <= prev,
                ledger.view() == records_of(w.subrange(0, i as int)),
            decreases withdrawals.len() - i,
        {
            let nonce = withdrawals[i].0;
            if nonce <= prev || nonce > state.last_nonce {
                proof {
                    if nonce <= prev && i > 0 {
                        assert(!(w[i - 1].0 < w[i as int].0));
                    }
                }
                return None;
            }
            ledger.push(nonce, withdrawals[i].1.duplicate());
            assert(w.subrange(0, i + 1).drop_last() == w.subrange(0, i as int));
            prev = nonce;
            i = i + 1;
        }
        assert(w.subrange(0, w.len() as int) == w);
        Some(Bridge { state, chains: registry, ledger })
    }

    /// The error that `register_chain` gives, if any.
    pub open spec fn register_chain_error(&self, sender: Seq<char>, chain_id: Seq<char>, job_id: Seq<char>) -> Option<
        ContractError,
    > {
        if sender != self.config().owner {
            Some(ContractError::Unauthorized)
        } else if chain_id.len() == 0 || job_id.len() == 0 {
            Some(ContractError::EmptyId)
        } else {
            None
        }
    }

    /// What `register_chain` does: the setting is upserted, or the command
    /// fails with the error above and changes nothing.
    pub open spec fn register_chain_post(
        pre: Bridge,
        post: Bridge,
        sender: Seq<char>,
        chain_id: Seq<char>,
        setting: ChainSettingView,
        r: Result<Vec<Effect>, ContractError>,
    ) -> bool {
        let err = pre.register_chain_error(sender, chain_id, setting.job_id);
        match r {
            Err(e) => err == Some(e) && post == pre,
            Ok(v) => {
                &&& err is None
                &&& v.len() == 0
                &&& post.chains() == pre.chains().insert(chain_id, setting)
                &&& post.config() == pre.config()
                &&& post.ledger() == pre.ledger()
            },
        }
    }

    /// Registers `chain_setting` for `chain_id`, replacing an earlier setting.
    pub fn register_chain(&mut self, sender: &String, chain_id: String, chain_setting: ChainSetting) -> (r:
        Result<Vec<Effect>, ContractError>)
        requires
            old(self).wf(),
        ensures
            final(self).wf(),
            Bridge::register_chain_post(
                *old(self),
                *final(self),
                sender@,
                chain_id@,
                chain_setting@,
                r,
            ),
    {
        if *sender != self.state.owner {
            return Err(ContractError::Unauthorized);
        }
        if chain_id.as_str().is_empty() || chain_setting.job_id.as_str().is_empty() {
            return Err(ContractError::EmptyId);
        }
        self.chains.upsert(chain_id, chain_setting);
        Ok(Vec::new())
    }

    /// The error that a command open to the owner alone gives, if any.
    pub open spec fn owner_error(&self, sender: Seq<char>) -> Option<ContractError> {
        if sender != self.config().owner {
            Some(ContractError::Unauthorized)
        } else {
            None
        }
    }

    /// What `set_bridge` returns.
    pub open spec fn set_bridge_post(
        b: Bridge,
        sender: Seq<char>,
        chain_reference_id: Seq<char>,
        erc20_address: Seq<char>,
        r: Result<Vec<Effect>, ContractError>,
    ) -> bool {
        match r {
            Err(e) => b.owner_error(sender) == Some(e),
            Ok(v) => {
                &&& b.owner_error(sender) is None
                &&& v.len() == 1
                &&& match v[0] {
                    Effect::Custom(PalomaMsg::SkywayMsg { set_erc20_to_denom: m }) => {
                        &&& m.erc20_address@ == erc20_address
                        &&& m.token_denom@ == b.config().denom
                        &&& m.chain_reference_id@ == chain_reference_id
                    },
                    _ => false,
                }
            },
        }
    }

    /// Asks the host to bind the remote token `erc20_address` to the
    /// contract's denomination.
    pub fn set_bridge(&self, sender: &String, chain_reference_id: String, erc20_address: String) -> (r:
        Result<Vec<Effect>, ContractError>)
        requires
            self.wf(),
        ensures
            Bridge::set_bridge_post(*self, sender@, chain_reference_id@, erc20_address@, r),
    {
        if *sender != self.state.owner {
            return Err(ContractError::Unauthorized);
        }
        let m = SetErc20ToDenom {
            erc20_address,
            token_denom: self.state.denom.clone(),
            chain_reference_id,
        };
        Ok(vec![Effect::Custom(PalomaMsg::SkywayMsg { set_erc20_to_denom: m })])
    }

    /// The error that `mint_pusd` gives, if any.
    pub open spec fn mint_error(&self, sender: Seq<char>, amount: u128) -> Option<ContractError> {
        if sender != self.config().owner {
            Some(ContractError::Unauthorized)
        } else if amount == 0 {
            Some(ContractError::ZeroAmount)
        } else {
            None
        }
    }

    /// What `mint_pusd` returns.
    pub open spec fn mint_post(
        b: Bridge,
        sender: Seq<char>,
        recipient: Seq<char>,
        amount: u128,
        r: Result<Vec<Effect>, ContractError>,
    ) -> bool {
        match r {
            Err(e) => b.mint_error(sender, amount) == Some(e),
            Ok(v) => b.mint_error(sender, amount) is None && v.len() == 1 && is_send(
                v[0],
                recipient,
                b.config().denom,
                amount,
            ),
        }
    }

    /// Sends `amount` of the contract's denomination to `recipient`.
    pub fn mint_pusd(&self, sender: &String, recipient: &String, amount: u128) -> (r: Result<
        Vec<Effect>,
        ContractError,
    >)
        requires
            self.wf(),
        ensures
            Bridge::mint_post(*self, sender@, recipient@, amount, r),
    {
        if *sender != self.state.owner {
            return Err(ContractError::Unauthorized);
        }
        if amount == 0 {
            return Err(ContractError::ZeroAmount);
        }
        Ok(
            vec![
                Effect::BankSend {
                    to_address: recipient.clone(),
                    denom: self.state.denom.clone(),
                    amount,
                },
            ],
        )
    }

    /// The error that `unmint_pusd` gives, if any.
    pub open spec fn unmint_error(&self, sender: Seq<char>, amount: u128) -> Option<ContractError> {
        if sender != self.config().minter {
            Some(ContractError::Unauthorized)
        } else if amount == 0 {
            Some(ContractError::ZeroAmount)
        } else {
            None
        }
    }

    /// What `unmint_pusd` returns.
    pub open spec fn unmint_post(b: Bridge, sender: Seq<char>, amount: u128, r: Result<Vec<Effect>, ContractError>) -> bool {
        match r {
            Err(e) => b.unmint_error(sender, amount) == Some(e),
            Ok(v) => b.unmint_error(sender, amount) is None && v.len() == 1 && is_send(
                v[0],
                b.config().minter,
                b.config().denom,
                amount,
            ),
        }
    }

    /// Returns `amount` of the contract's denomination to the minter.
    pub fn unmint_pusd(&self, sender: &String, amount: u128) -> (r: Result<Vec<Effect>, ContractError>)
        requires
            self.wf(),
        ensures
            Bridge::unmint_post(*self, sender@, amount, r),
    {
        if *sender != self.state.minter {
            return Err(ContractError::Unauthorized);
        }
        if amount == 0 {
            return Err(ContractError::ZeroAmount);
        }
        Ok(
            vec![
                Effect::BankSend {
                    to_address: sender.clone(),
                    denom: self.state.denom.clone(),
                    amount,
                },
            ],
        )
    }

    /// The error that `withdraw` gives, if any.
    pub open spec fn withdraw_error(
        &self,
        funds: Seq<Coin>,
        chain_id: Seq<char>,
        recipient: Seq<char>,
        sender_canonical: Seq<u8>,
    ) -> Option<ContractError> {
        if !self.chains().contains_key(chain_id) {
            Some(ContractError::NoChainSetting)
        } else if deposited(funds, self.config().denom) <= self.chains()[chain_id].minimum_amount {
            Some(ContractError::BelowMinimum)
        } else if self.config().last_nonce == u64::MAX {
            Some(ContractError::NonceExhausted)
        } else if address_of_text(recipient) is None {
            Some(ContractError::InvalidAddress)
        } else if sender_canonical.len() > 32 {
            Some(ContractError::EncodingMismatch)
        } else {
            None
        }
    }

    /// `post` is `pre` after a withdrawal that recorded `record` under the
    /// next nonce.
    pub open spec fn withdrawal_step(pre: Bridge, post: Bridge, record: BurnInfoView) -> bool {
        let nonce = (pre.config().last_nonce + 1) as u64;
        &&& pre.config().last_nonce < u64::MAX
        &&& post.config() == StateView { last_nonce: nonce, ..pre.config() }
        &&& !pre.ledger().contains_key(nonce)
        &&& post.ledger() == pre.ledger().insert(nonce, record)
        &&& post.chains() == pre.chains()
    }

    /// What `withdraw` does: the deposit is recorded under the next nonce and
    /// the encoded call dispatched, or the command fails with the error above
    /// and changes nothing.
    pub open spec fn withdraw_post(
        pre: Bridge,
        post: Bridge,
        sender: Seq<char>,
        sender_canonical: Seq<u8>,
        funds: Seq<Coin>,
        now: u64,
        chain_id: Seq<char>,
        recipient: Seq<char>,
        r: Result<Vec<Effect>, ContractError>,
    ) -> bool {
        let err = pre.withdraw_error(funds, chain_id, recipient, sender_canonical);
        let amount = deposited(funds, pre.config().denom);
        let nonce = (pre.config().last_nonce + 1) as u64;
        match r {
            Err(e) => err == Some(e) && post == pre,
            Ok(v) => {
                &&& err is None
                &&& Bridge::withdrawal_step(
                    pre,
                    post,
                    BurnInfoView { chain_id, burner: sender, recipient, amount, timestamp: now },
                )
                &&& v.len() == 1
                &&& is_job(
                    v[0],
                    pre.chains()[chain_id].job_id,
                    withdraw_call(sender_canonical, address_of_text(recipient)->0, amount, nonce),
                )
            },
        }
    }

    /// Takes the attached deposit of the contract's denomination, records it
    /// under the next nonce, and dispatches `withdraw(sender, recipient,
    /// amount, nonce)` to the chain's job. `sender_canonical` is the canonical
    /// form of `sender`; `now` is the time in nanoseconds.
    pub fn withdraw(
        &mut self,
        sender: &String,
        sender_canonical: &Vec<u8>,
        funds: &Vec<Coin>,
        now: u64,
        chain_id: &String,
        recipient: &String,
    ) -> (r: Result<Vec<Effect>, ContractError>)
        requires
            old(self).wf(),
        ensures
            final(self).wf(),
            Bridge::withdraw_post(
                *old(self),
                *final(self),
                sender@,
                sender_canonical@,
                funds@,
                now,
                chain_id@,
                recipient@,
                r,
            ),
    {
        let job_id = match self.chains.get(chain_id) {
            Some(setting) => {
                let amount = deposited_amount(funds, &self.state.denom);
                if amount <= setting.minimum_amount {
                    return Err(ContractError::BelowMinimum);
                }
                setting.job_id.clone()
            },
            None => {
                return Err(ContractError::NoChainSetting);
            },
        };
        let amount = deposited_amount(funds, &self.state.denom);
        if self.state.last_nonce == u64::MAX {
            return Err(ContractError::NonceExhausted);
        }
        let nonce = self.state.last_nonce + 1;
        let address = address_from_text(recipient)?;
        let payload = encode_withdraw(sender_canonical, address, amount, nonce)?;
        let info = BurnInfo {
            chain_id: chain_id.clone(),
            burner: sender.clone(),
            recipient: recipient.clone(),
            amount,
            timestamp: now,
        };
        proof {
            if self.ledger.view().contains_key(nonce) {
                assert(nonce <= self.state.last_nonce);
            }
        }
        self.ledger.push(nonce, info);
        self.state.last_nonce = nonce;
        Ok(vec![Effect::Custom(PalomaMsg::SchedulerMsg { execute_job: ExecuteJob { job_id, payload } })])
    }

    /// The error that `re_withdraw` gives, if any.
    pub open spec fn re_withdraw_error(&self, nonce: u64, now: u64, burner_canonical: Seq<u8>) -> Option<
        ContractError,
    > {
        if !self.ledger().contains_key(nonce) {
            Some(ContractError::NotFound)
        } else if !delay_elapsed(self.ledger()[nonce].timestamp, self.config().retry_delay, now) {
            Some(ContractError::RetryTooEarly)
        } else if !self.chains().contains_key(self.ledger()[nonce].chain_id) {
            Some(ContractError::NoChainSetting)
        } else if address_of_text(self.ledger()[nonce].recipient) is None {
            Some(ContractError::InvalidAddress)
        } else if burner_canonical.len() > 32 {
            Some(ContractError::EncodingMismatch)
        } else {
            None
        }
    }

    /// The payload that `re_withdraw` dispatches for the record under `nonce`.
    pub open spec fn re_withdraw_payload(&self, nonce: u64, burner_canonical: Seq<u8>) -> Seq<u8> {
        let rec = self.ledger()[nonce];
        withdraw_call(burner_canonical, address_of_text(rec.recipient)->0, rec.amount, nonce)
    }

    /// What `re_withdraw` does: the record's dispatch time becomes `now` and
    /// its call is dispatched again, or the command fails with the error above
    /// and changes nothing.
    pub open spec fn re_withdraw_post(
        pre: Bridge,
        post: Bridge,
        nonce: u64,
        now: u64,
        burner_canonical: Seq<u8>,
        r: Result<Vec<Effect>, ContractError>,
    ) -> bool {
        let err = pre.re_withdraw_error(nonce, now, burner_canonical);
        let rec = pre.ledger()[nonce];
        match r {
            Err(e) => err == Some(e) && post == pre,
            Ok(v) => {
                &&& err is None
                &&& post.ledger() == pre.ledger().insert(nonce, BurnInfoView { timestamp: now, ..rec })
                &&& post.config() == pre.config()
                &&& post.chains() == pre.chains()
                &&& v.len() == 1
                &&& is_job(
                    v[0],
                    pre.chains()[rec.chain_id].job_id,
                    pre.re_withdraw_payload(nonce, burner_canonical),
                )
            },
        }
    }

    /// Dispatches the pending withdrawal under `nonce` again, once the retry
    /// delay has passed since its last dispatch, and makes `now` its dispatch
    /// time. `burner_canonical` is the canonical form of its burner.
    pub fn re_withdraw(&mut self, nonce: u64, now: u64, burner_canonical: &Vec<u8>) -> (r: Result<
        Vec<Effect>,
        ContractError,
    >)
        requires
            old(self).wf(),
        ensures
            final(self).wf(),
            Bridge::re_withdraw_post(*old(self), *final(self), nonce, now, burner_canonical@, r),
    {
        let (job_id, payload) = match self.ledger.get(nonce) {
            None => {
                return Err(ContractError::NotFound);
            },
            Some(info) => {
                if !delay_elapsed_exec(info.timestamp, self.state.retry_delay, now) {
                    return Err(ContractError::RetryTooEarly);
                }
                let job_id = match self.chains.get(&info.chain_id) {
                    Some(setting) => setting.job_id.clone(),
                    None => {
                        return Err(ContractError::NoChainSetting);
                    },
                };
                let address = address_from_text(&info.recipient)?;
                let payload = encode_withdraw(burner_canonical, address, info.amount, nonce)?;
                (job_id, payload)
            },
        };
        self.ledger.set_timestamp(nonce, now);
        Ok(vec![Effect::Custom(PalomaMsg::SchedulerMsg { execute_job: ExecuteJob { job_id, payload } })])
    }

    /// What `burn_pusd` does: the record under `nonce` is gone, or the command
    /// fails and changes nothing.
    pub open spec fn burn_post(
        pre: Bridge,
        post: Bridge,
        sender: Seq<char>,
        nonce: u64,
        r: Result<Vec<Effect>, ContractError>,
    ) -> bool {
        match r {
            Err(e) => pre.owner_error(sender) == Some(e) && post == pre,
            Ok(v) => {
                &&& pre.owner_error(sender) is None
                &&& v.len() == 0
                &&& post.ledger() == pre.ledger().remove(nonce)
                &&& post.config() == pre.config()
                &&& post.chains() == pre.chains()
            },
        }
    }

    /// Settles the withdrawal under `nonce`: its record is deleted, if there
    /// is one. Open to the owner alone.
    pub fn burn_pusd(&mut self, sender: &String, nonce: u64) -> (r: Result<Vec<Effect>, ContractError>)
        requires
            old(self).wf(),
        ensures
            final(self).wf(),
            Bridge::burn_post(*old(self), *final(self), sender@, nonce, r),
    {
        if *sender != self.state.owner {
            return Err(ContractError::Unauthorized);
        }
        self.ledger.remove(nonce);
        Ok(Vec::new())
    }

    /// The error that `cancel_withdraw` gives, if any.
    pub open spec fn cancel_error(&self, sender: Seq<char>, nonce: u64, now: u64) -> Option<ContractError> {
        if !self.ledger().contains_key(nonce) {
            Some(ContractError::NotFound)
        } else if sender != self.ledger()[nonce].burner {
            Some(ContractError::Unauthorized)
        } else if !delay_elapsed(self.ledger()[nonce].timestamp, self.config().retry_delay, now) {
            Some(ContractError::WithdrawPending)
        } else {
            None
        }
    }

    /// What `cancel_withdraw` does: the record is deleted and its amount sent
    /// back to the burner, or the command fails with the error above and
    /// changes nothing.
    pub open spec fn cancel_post(
        pre: Bridge,
        post: Bridge,
        sender: Seq<char>,
        nonce: u64,
        now: u64,
        r: Result<Vec<Effect>, ContractError>,
    ) -> bool {
        let err = pre.cancel_error(sender, nonce, now);
        let rec = pre.ledger()[nonce];
        match r {
            Err(e) => err == Some(e) && post == pre,
            Ok(v) => {
                &&& err is None
                &&& post.ledger() == pre.ledger().remove(nonce)
                &&& post.config() == pre.config()
                &&& post.chains() == pre.chains()
                &&& v.len() == 1
                &&& is_send(v[0], rec.burner, pre.config().denom, rec.amount)
            },
        }
    }

    /// Abandons the withdrawal under `nonce` and refunds its amount to the
    /// burner. Open to the burner alone, once the retry delay has passed since
    /// the last dispatch.
    pub fn cancel_withdraw(&mut self, sender: &String, nonce: u64, now: u64) -> (r: Result<
        Vec<Effect>,
        ContractError,
    >)
        requires
            old(self).wf(),
        ensures
            final(self).wf(),
            Bridge::cancel_post(*old(self), *final(self), sender@, nonce, now, r),
    {
        let amount = match self.ledger.get(nonce) {
            None => {
                return Err(ContractError::NotFound);
            },
            Some(info) => {
                if info.burner != *sender {
                    return Err(ContractError::Unauthorized);
                }
                if !delay_elapsed_exec(info.timestamp, self.state.retry_delay, now) {
                    return Err(ContractError::WithdrawPending);
                }
                info.amount
            },
        };
        self.ledger.remove(nonce);
        Ok(
            vec![
                Effect::BankSend {
                    to_address: sender.clone(),
                    denom: self.state.denom.clone(),
                    amount,
                },
            ],
        )
    }

    /// The error that `update_config` gives, if any.
    pub open spec fn update_config_error(&self, sender: Seq<char>, retry_delay: Option<u64>) -> Option<
        ContractError,
    > {
        if sender != self.config().owner {
            Some(ContractError::Unauthorized)
        } else if retry_delay == Some(0u64) {
            Some(ContractError::InvalidRetryDelay)
        } else {
            None
        }
    }

    /// What `update_config` does: the given fields are replaced, or the
    /// command fails with the error above and changes nothing.
    pub open spec fn update_config_post(
        pre: Bridge,
        post: Bridge,
        sender: Seq<char>,
        retry_delay: Option<u64>,
        owner: Option<Seq<char>>,
        r: Result<Vec<Effect>, ContractError>,
    ) -> bool {
        let err = pre.update_config_error(sender, retry_delay);
        let c = pre.config();
        match r {
            Err(e) => err == Some(e) && post == pre,
            Ok(v) => {
                &&& err is None
                &&& v.len() == 0
                &&& post.config() == StateView {
                    retry_delay: match retry_delay {
                        Some(d) => d,
                        None => c.retry_delay,
                    },
                    owner: match owner {
                        Some(o) => o,
                        None => c.owner,
                    },
                    ..c
                }
                &&& post.chains() == pre.chains()
                &&& post.ledger() == pre.ledger()
            },
        }
    }

    /// Sets the retry delay and/or the owner, where given.
    pub fn update_config(&mut self, sender: &String, retry_delay: Option<u64>, owner: Option<String>) -> (r:
        Result<Vec<Effect>, ContractError>)
        requires
            old(self).wf(),
        ensures
            final(self).wf(),
            Bridge::update_config_post(
                *old(self),
                *final(self),
                sender@,
                retry_delay,
                match owner {
                    Some(o) => Some(o@),
                    None => None,
                },
                r,
            ),
    {
        if *sender != self.state.owner {
            return Err(ContractError::Unauthorized);
        }
        if let Some(d) = retry_delay {
            if d == 0 {
                return Err(ContractError::InvalidRetryDelay);
            }
            self.state.retry_delay = d;
        }
        if let Some(o) = owner {
            self.state.owner = o;
        }
        Ok(Vec::new())
    }

    /// The error that a remote administration call gives, if any.
    pub open spec fn remote_call_error(&self, sender: Seq<char>, chain_id: Seq<char>) -> Option<ContractError> {
        if sender != self.config().owner {
            Some(ContractError::Unauthorized)
        } else if !self.chains().contains_key(chain_id) {
            Some(ContractError::NoChainSetting)
        } else {
            None
        }
    }

    /// The error that a remote administration call with an address gives, if any.
    pub open spec fn address_call_error(&self, sender: Seq<char>, chain_id: Seq<char>, address: Seq<char>) -> Option<
        ContractError,
    > {
        if self.remote_call_error(sender, chain_id) is Some {
            self.remote_call_error(sender, chain_id)
        } else if address_of_text(address) is None {
            Some(ContractError::InvalidAddress)
        } else {
            None
        }
    }

    /// What a remote administration call returns: `payload` dispatched to the
    /// chain's job.
    pub open spec fn remote_call_post(
        b: Bridge,
        sender: Seq<char>,
        chain_id: Seq<char>,
        payload: Seq<u8>,
        r: Result<Vec<Effect>, ContractError>,
    ) -> bool {
        match r {
            Err(e) => b.remote_call_error(sender, chain_id) == Some(e),
            Ok(v) => b.remote_call_error(sender, chain_id) is None && v.len() == 1 && is_job(
                v[0],
                b.chains()[chain_id].job_id,
                payload,
            ),
        }
    }

    /// What a remote administration call of `f` with an address returns.
    pub open spec fn address_call_post(
        b: Bridge,
        sender: Seq<char>,
        chain_id: Seq<char>,
        f: RemoteFunction,
        address: Seq<char>,
        r: Result<Vec<Effect>, ContractError>,
    ) -> bool {
        match r {
            Err(e) => b.address_call_error(sender, chain_id, address) == Some(e),
            Ok(v) => b.address_call_error(sender, chain_id, address) is None && v.len() == 1
                && is_job(
                v[0],
                b.chains()[chain_id].job_id,
                selector(f) + address_word(address_of_text(address)->0),
            ),
        }
    }

    fn job_of(&self, sender: &String, chain_id: &String) -> (r: Result<String, ContractError>)
        requires
            self.wf(),
        ensures
            r matches Err(e) ==> Some(e) == self.remote_call_error(sender@, chain_id@),
            r is Ok <==> self.remote_call_error(sender@, chain_id@) is None,
            r matches Ok(j) ==> j@ == self.chains()[chain_id@].job_id,
    {
        if *sender != self.state.owner {
            return Err(ContractError::Unauthorized);
        }
        match self.chains.get(chain_id) {
            Some(setting) => Ok(setting.job_id.clone()),
            None => Err(ContractError::NoChainSetting),
        }
    }

    /// Dispatches `set_paloma()` to the chain's job.
    pub fn set_paloma(&self, sender: &String, chain_id: &String) -> (r: Result<Vec<Effect>, ContractError>)
        requires
            self.wf(),
        ensures
            Bridge::remote_call_post(
                *self,
                sender@,
                chain_id@,
                selector(RemoteFunction::SetPaloma),
                r,
            ),
    {
        let job_id = self.job_of(sender, chain_id)?;
        let payload = encode_call(RemoteFunction::SetPaloma);
        Ok(vec![Effect::Custom(PalomaMsg::SchedulerMsg { execute_job: ExecuteJob { job_id, payload } })])
    }

    fn address_call(&self, sender: &String, chain_id: &String, f: RemoteFunction, address: &String) -> (r:
        Result<Vec<Effect>, ContractError>)
        requires
            self.wf(),
            f.spec_params() == seq![crate::abi::ParamKind::Address],
        ensures
            Bridge::address_call_post(*self, sender@, chain_id@, f, address@, r),
    {
        let job_id = self.job_of(sender, chain_id)?;
        let a = address_from_text(address)?;
        let payload = encode_address_call(f, a);
        Ok(vec![Effect::Custom(PalomaMsg::SchedulerMsg { execute_job: ExecuteJob { job_id, payload } })])
    }

    /// Dispatches `update_compass(new_compass)` to the chain's job.
    pub fn update_compass(&self, sender: &String, chain_id: &String, new_compass: &String) -> (r: Result<
        Vec<Effect>,
        ContractError,
    >)
        requires
            self.wf(),
        ensures
            Bridge::address_call_post(
                *self,
                sender@,
                chain_id@,
                RemoteFunction::UpdateCompass,
                new_compass@,
                r,
            ),
    {
        self.address_call(sender, chain_id, RemoteFunction::UpdateCompass, new_compass)
    }

    /// Dispatches `update_refund_wallet(new_refund_wallet)` to the chain's job.
    pub fn update_refund_wallet(&self, sender: &String, chain_id: &String, new_refund_wallet: &String) -> (r:
        Result<Vec<Effect>, ContractError>)
        requires
            self.wf(),
        ensures
            Bridge::address_call_post(
                *self,
                sender@,
                chain_id@,
                RemoteFunction::UpdateRefundWallet,
                new_refund_wallet@,
                r,
            ),
    {
        self.address_call(sender, chain_id, RemoteFunction::UpdateRefundWallet, new_refund_wallet)
    }

    /// Dispatches `update_redemption_fee(new_redemption_fee)` to the chain's job.
    pub fn update_redemption_fee(&self, sender: &String, chain_id: &String, new_redemption_fee: u128) -> (r:
        Result<Vec<Effect>, ContractError>)
        requires
            self.wf(),
        ensures
            Bridge::remote_call_post(
                *self,
                sender@,
                chain_id@,
                selector(RemoteFunction::UpdateRedemptionFee) + be_word(new_redemption_fee),
                r,
            ),
    {
        let job_id = self.job_of(sender, chain_id)?;
        let payload = encode_uint_call(RemoteFunction::UpdateRedemptionFee, new_redemption_fee);
        Ok(vec![Effect::Custom(PalomaMsg::SchedulerMsg { execute_job: ExecuteJob { job_id, payload } })])
    }

    /// Carries out one command: either the whole change it makes, with the
    /// effects it hands to the host, or an error and no change.
    pub fn execute(&mut self, ctx: &Context, msg: ExecuteMsg) -> (r: Result<Vec<Effect>, ContractError>)
        requires
            old(self).wf(),
        ensures
            final(self).wf(),
            match msg {
                ExecuteMsg::RegisterChain { chain_id, chain_setting } => Bridge::register_chain_post(
                    *old(self),
                    *final(self),
                    ctx.sender@,
                    chain_id@,
                    chain_setting@,
                    r,
                ),
                ExecuteMsg::SetBridge { chain_reference_id, erc20_address } => *final(self) == *old(self)
                    && Bridge::set_bridge_post(
                    *old(self),
                    ctx.sender@,
                    chain_reference_id@,
                    erc20_address@,
                    r,
                ),
                ExecuteMsg::MintPusd { recipient, amount } => *final(self) == *old(self)
                    && Bridge::mint_post(*old(self), ctx.sender@, recipient@, amount, r),
                ExecuteMsg::Withdraw { chain_id, recipient } => Bridge::withdraw_post(
                    *old(self),
                    *final(self),
                    ctx.sender@,
                    ctx.sender_canonical@,
                    ctx.funds@,
                    ctx.now,
                    chain_id@,
                    recipient@,
                    r,
                ),
                ExecuteMsg::ReWithdraw { nonce } => Bridge::re_withdraw_post(
                    *old(self),
                    *final(self),
                    nonce,
                    ctx.now,
                    ctx.burner_canonical@,
                    r,
                ),
                ExecuteMsg::UnmintPusd { amount } => *final(self) == *old(self) && Bridge::unmint_post(
                    *old(self),
                    ctx.sender@,
                    amount,
                    r,
                ),
                ExecuteMsg::BurnPusd { nonce } => Bridge::burn_post(
                    *old(self),
                    *final(self),
                    ctx.sender@,
                    nonce,
                    r,
                ),
                ExecuteMsg::CancelWithdraw { nonce } => Bridge::cancel_post(
                    *old(self),
                    *final(self),
                    ctx.sender@,
                    nonce,
                    ctx.now,
                    r,
                ),
                ExecuteMsg::UpdateConfig { retry_delay, owner } => Bridge::update_config_post(
                    *old(self),
                    *final(self),
                    ctx.sender@,
                    retry_delay,
                    match owner {
                        Some(o) => Some(o@),
                        None => None,
                    },
                    r,
                ),
                ExecuteMsg::SetPaloma { chain_id } => *final(self) == *old(self)
                    && Bridge::remote_call_post(
                    *old(self),
                    ctx.sender@,
                    chain_id@,
                    selector(RemoteFunction::SetPaloma),
                    r,
                ),
                ExecuteMsg::UpdateCompass { chain_id, new_compass } => *final(self) == *old(self)
                    && Bridge::address_call_post(
                    *old(self),
                    ctx.sender@,
                    chain_id@,
                    RemoteFunction::UpdateCompass,
                    new_compass@,
                    r,
                ),
                ExecuteMsg::UpdateRefundWallet { chain_id, new_refund_wallet } => *final(self) == *old(self)
                    && Bridge::address_call_post(
                    *old(self),
                    ctx.sender@,
                    chain_id@,
                    RemoteFunction::UpdateRefundWallet,
                    new_refund_wallet@,
                    r,
                ),
                ExecuteMsg::UpdateRedemptionFee { chain_id, new_redemption_fee } => *final(self)
                    == *old(self) && Bridge::remote_call_post(
                    *old(self),
                    ctx.sender@,
                    chain_id@,
                    selector(RemoteFunction::UpdateRedemptionFee) + be_word(new_redemption_fee),
                    r,
                ),
            },
    {
        match msg {
            ExecuteMsg::RegisterChain { chain_id, chain_setting } => {
                self.register_chain(&ctx.sender, chain_id, chain_setting)
            },
            ExecuteMsg::SetBridge { chain_reference_id, erc20_address } => {
                self.set_bridge(&ctx.sender, chain_reference_id, erc20_address)
            },
            ExecuteMsg::MintPusd { recipient, amount } => self.mint_pusd(&ctx.sender, &recipient, amount),
            ExecuteMsg::Withdraw { chain_id, recipient } => self.withdraw(
                &ctx.sender,
                &ctx.sender_canonical,
                &ctx.funds,
                ctx.now,
                &chain_id,
                &recipient,
            ),
            ExecuteMsg::ReWithdraw { nonce } => self.re_withdraw(nonce, ctx.now, &ctx.burner_canonical),
            ExecuteMsg::UnmintPusd { amount } => self.unmint_pusd(&ctx.sender, amount),
            ExecuteMsg::BurnPusd { nonce } => self.burn_pusd(&ctx.sender, nonce),
            ExecuteMsg::CancelWithdraw { nonce } => self.cancel_withdraw(&ctx.sender, nonce, ctx.now),
            ExecuteMsg::UpdateConfig { retry_delay, owner } => {
                self.update_config(&ctx.sender, retry_delay, owner)
            },
            ExecuteMsg::SetPaloma { chain_id } => self.set_paloma(&ctx.sender, &chain_id),
            ExecuteMsg::UpdateCompass { chain_id, new_compass } => {
                self.update_compass(&ctx.sender, &chain_id, &new_compass)
            },
            ExecuteMsg::UpdateRefundWallet { chain_id, new_refund_wallet } => {
                self.update_refund_wallet(&ctx.sender, &chain_id, &new_refund_wallet)
            },
            ExecuteMsg::UpdateRedemptionFee { chain_id, new_redemption_fee } => {
                self.update_redemption_fee(&ctx.sender, &chain_id, new_redemption_fee)
            },
        }
    }

    /// `v` lists every registered chain with its setting, in ascending order
    /// of id.
    pub open spec fn chain_list(b: Bridge, v: Seq<ChainSettingInfo>) -> bool {
        &&& v.len() == b.chain_order().len()
        &&& ids_ascending(b.chain_order())
        &&& forall|k: Seq<char>| b.chains().contains_key(k) <==> b.chain_order().contains(k)
        &&& forall|i: int|
            0 <= i < v.len() ==> {
                &&& (#[trigger] v[i]).chain_id@ == b.chain_order()[i]
                &&& v[i].job_id@ == b.chains()[b.chain_order()[i]].job_id
                &&& v[i].minimum_amount == b.chains()[b.chain_order()[i]].minimum_amount
            }
    }

    /// `v` lists every pending withdrawal with its nonce, in ascending order
    /// of nonce.
    pub open spec fn withdraw_list(b: Bridge, v: Seq<(u64, BurnInfo)>) -> bool {
        &&& v.len() == b.nonce_order().len()
        &&& nonces_ascending(b.nonce_order())
        &&& forall|k: u64| b.ledger().contains_key(k) <==> b.nonce_order().contains(k)
        &&& forall|i: int|
            0 <= i < v.len() ==> (#[trigger] v[i]).0 == b.nonce_order()[i] && v[i].1@ == b.ledger()[b.nonce_order()[i]]
    }

    /// Answers a query from the contract's records.
    pub fn query(&self, msg: &QueryMsg) -> (r: Result<QueryResponse, ContractError>)
        requires
            self.wf(),
        ensures
            match *msg {
                QueryMsg::GetState {} => r matches Ok(QueryResponse::State(s)) && s@ == self.config(),
                QueryMsg::GetChainSettings {} => r matches Ok(QueryResponse::ChainSettings(v))
                    && Bridge::chain_list(*self, v@),
                QueryMsg::GetJobId { chain_id } => {
                    &&& r is Ok <==> self.chains().contains_key(chain_id@)
                    &&& r matches Ok(QueryResponse::JobId(c)) ==> c@ == self.chains()[chain_id@]
                    &&& r matches Ok(x) ==> x is JobId
                    &&& r matches Err(e) ==> e == ContractError::NoChainSetting
                },
                QueryMsg::GetWithdrawList {} => r matches Ok(QueryResponse::WithdrawList(v))
                    && Bridge::withdraw_list(*self, v@),
                QueryMsg::GetBurnInfo { nonce } => {
                    &&& r is Ok <==> self.ledger().contains_key(nonce)
                    &&& r matches Ok(QueryResponse::BurnInfo(b)) ==> b@ == self.ledger()[nonce]
                    &&& r matches Ok(x) ==> x is BurnInfo
                    &&& r matches Err(e) ==> e == ContractError::NotFound
                },
                QueryMsg::ReWithdrawable {} => r matches Ok(QueryResponse::ReWithdrawable(x)) && (x
                    <==> !self.ledger().dom().is_empty()),
                QueryMsg::PusdBalance {} => r matches Ok(QueryResponse::PusdBalance { denom })
                    && denom@ == self.config().denom,
            },
    {
        match msg {
            QueryMsg::GetState {} => Ok(QueryResponse::State(self.get_state())),
            QueryMsg::GetChainSettings {} => Ok(QueryResponse::ChainSettings(self.get_chain_settings())),
            QueryMsg::GetJobId { chain_id } => match self.get_job_id(chain_id) {
                Ok(c) => Ok(QueryResponse::JobId(c)),
                Err(e) => Err(e),
            },
            QueryMsg::GetWithdrawList {} => Ok(QueryResponse::WithdrawList(self.get_withdraw_list())),
            QueryMsg::GetBurnInfo { nonce } => match self.get_burn_info(*nonce) {
                Ok(b) => Ok(QueryResponse::BurnInfo(b)),
                Err(e) => Err(e),
            },
            QueryMsg::ReWithdrawable {} => Ok(QueryResponse::ReWithdrawable(self.re_withdrawable())),
            QueryMsg::PusdBalance {} => Ok(QueryResponse::PusdBalance { denom: self.state.denom.clone() }),
        }
    }

    /// The configuration.
    pub fn get_state(&self) -> (r: State)
        ensures
            r@ == self.config(),
    {
        self.state.duplicate()
    }

    /// Every registered chain with its setting, in ascending order of id.
    pub fn get_chain_settings(&self) -> (r: Vec<ChainSettingInfo>)
        requires
            self.wf(),
        ensures
            Bridge::chain_list(*self, r@),
    {
        self.chains.list()
    }

    /// The setting of `chain_id`.
    pub fn get_job_id(&self, chain_id: &String) -> (r: Result<ChainSetting, ContractError>)
        requires
            self.wf(),
        ensures
            r is Ok <==> self.chains().contains_key(chain_id@),
            r matches Ok(s) ==> s@ == self.chains()[chain_id@],
            r matches Err(e) ==> e == ContractError::NoChainSetting,
    {
        match self.chains.get(chain_id) {
            Some(s) => Ok(s.duplicate()),
            None => Err(ContractError::NoChainSetting),
        }
    }

    /// Every pending withdrawal with its nonce, in ascending order of nonce.
    pub fn get_withdraw_list(&self) -> (r: Vec<(u64, BurnInfo)>)
        requires
            self.wf(),
        ensures
            Bridge::withdraw_list(*self, r@),
    {
        self.ledger.list()
    }

    /// The pending withdrawal under `nonce`.
    pub fn get_burn_info(&self, nonce: u64) -> (r: Result<BurnInfo, ContractError>)
        requires
            self.wf(),
        ensures
            r is Ok <==> self.ledger().contains_key(nonce),
            r matches Ok(b) ==> b@ == self.ledger()[nonce],
            r matches Err(e) ==> e == ContractError::NotFound,
    {
        match self.ledger.get(nonce) {
            Some(b) => Ok(b.duplicate()),
            None => Err(ContractError::NotFound),
        }
    }

    /// Whether any withdrawal is pending.
    pub fn re_withdrawable(&self) -> (r: bool)
        requires
            self.wf(),
        ensures
            r <==> !self.ledger().dom().is_empty(),
    {
        !self.ledger.is_empty()
    }
}

/// The amount of `denom` among `funds`, the last matching coin counting.
pub fn deposited_amount(funds: &Vec<Coin>, denom: &String) -> (r: u128)
    ensures
        r == deposited(funds@, denom@),
{
    let mut amount: u128 = 0;
    let mut i: usize = 0;
    while i < funds.len()
        invariant
            0 <= i <= funds.len(),
            amount == deposited(funds@.subrange(0, i as int), denom@),
        decreases funds.len() - i,
    {
        assert(funds@.subrange(0, i + 1).drop_last() == funds@.subrange(0, i as int));
        if funds[i].denom == *denom {
            amount = funds[i].amount;
        }
        i = i + 1;
    }
    assert(funds@.subrange(0, funds.len() as int) == funds@);
    amount
}

/// Whether `retry_delay` seconds have passed since `timestamp`, at `now`.
pub fn delay_elapsed_exec(timestamp: u64, retry_delay: u64, now: u64) -> (r: bool)
    ensures
        r == delay_elapsed(timestamp, retry_delay, now),
{
    let wait = (retry_delay as u128) * (NANOS_PER_SECOND as u128);
    assert(wait <= 0xffff_ffff_ffff_ffffu128 * 1_000_000_000u128) by (nonlinear_arith)
        requires
            wait == retry_delay as u128 * 1_000_000_000u128,
            retry_delay <= 0xffff_ffff_ffff_ffffu64,
    ;
    (now as u128) >= (timestamp as u128) + wait
}

/// The configuration of this version from that of the previous one: the
/// minter is added, and the host is asked to make it the admin of the
/// denomination. Fails when there is no previous configuration.
pub fn migrate(previous: Option<PreviousState>, msg: MigrateMsg) -> (r: Result<(State, Vec<Effect>), ContractError>)
    ensures
        previous is None ==> r == Err::<(State, Vec<Effect>), ContractError>(ContractError::MigrationFailed),
        previous matches Some(p) ==> (r matches Ok((s, v)) && {
            &&& s@ == StateView {
                retry_delay: p.retry_delay,
                owner: p.owner@,
                minter: msg.minter@,
                denom: p.denom@,
                last_nonce: p.last_nonce,
            }
            &&& v.len() == 1
            &&& match v[0] {
                Effect::Custom(PalomaMsg::TokenFactoryMsg { change_admin: c }) => c.denom@ == p.denom@
                    && c.new_admin_address@ == msg.minter@,
                _ => false,
            }
        }),
{
    match previous {
        None => Err(ContractError::MigrationFailed),
        Some(p) => {
            let change_admin = ChangeAdminMsg {
                denom: p.denom.clone(),
                new_admin_address: msg.minter.clone(),
            };
            let state = State {
                retry_delay: p.retry_delay,
                owner: p.owner,
                minter: msg.minter,
                denom: p.denom,
                last_nonce: p.last_nonce,
            };
            Ok((state, vec![Effect::Custom(PalomaMsg::TokenFactoryMsg { change_admin })]))
        },
    }
}

} // verus!
