//! Laws that relate several commands, or several calls of one.
use vstd::prelude::*;

use crate::abi::{
    abi_value, address_of_text, call_data, withdraw_call, function_of_payload, remote_functions, selector, selectors_distinct,
    word_of, words_of, AbiArg, RemoteFunction,
};
use crate::bridge::Bridge;
use crate::error::ContractError;
use crate::state::BurnInfoView;

verus! {

/// Successful withdrawals from a fresh contract take the nonces 1, 2, 3, ...
/// in turn: the `i`-th is recorded under nonce `i`, which no pending
/// withdrawal held before, so no nonce is skipped or given twice.
pub proof fn lemma_withdraw_nonces_consecutive(states: Seq<Bridge>, records: Seq<BurnInfoView>)
    requires
        states.len() == records.len() + 1,
        states[0].config().last_nonce == 0,
        forall|i: int|
            0 <= i < records.len() ==> Bridge::withdrawal_step(
                states[i],
                states[i + 1],
                #[trigger] records[i],
            ),
    ensures
        forall|i: int|
            0 <= i < records.len() ==> #[trigger] states[i + 1].config().last_nonce == i + 1,
        forall|i: int|
            0 <= i < records.len() ==> !(#[trigger] states[i].ledger()).contains_key((i + 1) as u64),
        forall|i: int|
            0 <= i < records.len() ==> #[trigger] states[i + 1].ledger() == states[i].ledger().insert(
                (i + 1) as u64,
                records[i],
            ),
{
    assert forall|i: int| 0 <= i <= records.len() implies #[trigger] states[i].config().last_nonce
        == i by {
        lemma_last_nonce_counts(states, records, i);
    }
    assert forall|i: int| 0 <= i < records.len() implies #[trigger] states[i + 1].config().last_nonce
        == i + 1 && !states[i].ledger().contains_key((i + 1) as u64) && states[i + 1].ledger()
        == states[i].ledger().insert((i + 1) as u64, records[i]) by {
        assert(Bridge::withdrawal_step(states[i], states[i + 1], records[i]));
        assert(states[i].config().last_nonce == i);
    }
    assert forall|i: int| 0 <= i < records.len() implies !(#[trigger] states[i].ledger()).contains_key(
        (i + 1) as u64,
    ) by {
        assert(Bridge::withdrawal_step(states[i], states[i + 1], records[i]));
        assert(states[i].config().last_nonce == i);
    }
}

proof fn lemma_last_nonce_counts(states: Seq<Bridge>, records: Seq<BurnInfoView>, i: int)
    requires
        states.len() == records.len() + 1,
        states[0].config().last_nonce == 0,
        forall|j: int|
            0 <= j < records.len() ==> Bridge::withdrawal_step(
                states[j],
                states[j + 1],
                #[trigger] records[j],
            ),
        0 <= i <= records.len(),
    ensures
        states[i].config().last_nonce == i,
    decreases i,
{
    if i > 0 {
        lemma_last_nonce_counts(states, records, i - 1);
        assert(Bridge::withdrawal_step(states[i - 1], states[i], records[i - 1]));
    }
}

/// A retry only refreshes the dispatch time: the next retry of the same
/// withdrawal sends the very same payload.
pub proof fn lemma_retry_payload_stable(pre: Bridge, post: Bridge, nonce: u64, now: u64, burner_canonical: Seq<u8>)
    requires
        pre.ledger().contains_key(nonce),
        post.ledger() == pre.ledger().insert(nonce, BurnInfoView { timestamp: now, ..pre.ledger()[nonce] }),
    ensures
        post.ledger()[nonce].timestamp == now,
        post.re_withdraw_payload(nonce, burner_canonical) == pre.re_withdraw_payload(
            nonce,
            burner_canonical,
        ),
{
}

/// A retry sends the call that the withdrawal itself sent: `withdraw` with the
/// same sender, recipient, amount and nonce.
pub proof fn lemma_retry_repeats_withdrawal(pre: Bridge, post: Bridge, record: BurnInfoView, canonical: Seq<u8>)
    requires
        Bridge::withdrawal_step(pre, post, record),
    ensures
        post.re_withdraw_payload((pre.config().last_nonce + 1) as u64, canonical) == withdraw_call(
            canonical,
            address_of_text(record.recipient)->0,
            record.amount,
            (pre.config().last_nonce + 1) as u64,
        ),
{
}

/// Right after a retry at `now`, a second retry at the same time is too early.
pub proof fn lemma_retry_not_twice_at_once(post: Bridge, nonce: u64, now: u64, burner_canonical: Seq<u8>)
    requires
        post.wf(),
        post.ledger().contains_key(nonce),
        post.ledger()[nonce].timestamp == now,
    ensures
        post.re_withdraw_error(nonce, now, burner_canonical) == Some(ContractError::RetryTooEarly),
{
    post.lemma_retry_delay_positive();
}

/// Only the burner may cancel a pending withdrawal.
pub proof fn lemma_cancel_burner_only(b: Bridge, sender: Seq<char>, nonce: u64, now: u64)
    requires
        b.ledger().contains_key(nonce),
        sender != b.ledger()[nonce].burner,
    ensures
        b.cancel_error(sender, nonce, now) == Some(ContractError::Unauthorized),
{
}

/// Once a withdrawal is settled (or cancelled), retrying or cancelling it
/// fails with `NotFound`.
pub proof fn lemma_settled_withdrawal_gone(
    pre: Bridge,
    post: Bridge,
    nonce: u64,
    now: u64,
    burner_canonical: Seq<u8>,
    sender: Seq<char>,
)
    requires
        post.ledger() == pre.ledger().remove(nonce),
    ensures
        post.re_withdraw_error(nonce, now, burner_canonical) == Some(ContractError::NotFound),
        post.cancel_error(sender, nonce, now) == Some(ContractError::NotFound),
{
}

/// Every administrative command turns away a caller other than the owner with
/// `Unauthorized` (and a command that fails leaves the state as it was).
pub proof fn lemma_admin_commands_owner_only(
    b: Bridge,
    sender: Seq<char>,
    chain_id: Seq<char>,
    job_id: Seq<char>,
    amount: u128,
    retry_delay: Option<u64>,
    address: Seq<char>,
)
    requires
        sender != b.config().owner,
    ensures
        b.register_chain_error(sender, chain_id, job_id) == Some(ContractError::Unauthorized),
        b.owner_error(sender) == Some(ContractError::Unauthorized),
        b.mint_error(sender, amount) == Some(ContractError::Unauthorized),
        b.update_config_error(sender, retry_delay) == Some(ContractError::Unauthorized),
        b.remote_call_error(sender, chain_id) == Some(ContractError::Unauthorized),
        b.address_call_error(sender, chain_id, address) == Some(ContractError::Unauthorized),
{
}

/// Encoding depends on the values of the arguments alone: the same call
/// encoded twice gives the same bytes.
pub proof fn lemma_encoding_deterministic(f: RemoteFunction, a: Seq<AbiArg>, b: Seq<AbiArg>)
    requires
        a.map_values(|x: AbiArg| abi_value(x)) == b.map_values(|x: AbiArg| abi_value(x)),
    ensures
        call_data(f, a) == call_data(f, b),
    decreases a.len(),
{
    lemma_same_words(a, b);
}

proof fn lemma_same_words(a: Seq<AbiArg>, b: Seq<AbiArg>)
    requires
        a.map_values(|x: AbiArg| abi_value(x)) == b.map_values(|x: AbiArg| abi_value(x)),
    ensures
        words_of(a) == words_of(b),
    decreases a.len(),
{
    let va = a.map_values(|x: AbiArg| abi_value(x));
    let vb = b.map_values(|x: AbiArg| abi_value(x));
    assert(va.len() == a.len() && vb.len() == b.len());
    if a.len() > 0 {
        assert(a.drop_last().map_values(|x: AbiArg| abi_value(x)) =~= b.drop_last().map_values(
            |x: AbiArg| abi_value(x),
        )) by {
            assert forall|i: int| 0 <= i < a.len() - 1 implies abi_value(a.drop_last()[i])
                == abi_value(b.drop_last()[i]) by {
                assert(a.drop_last()[i] == a[i] && b.drop_last()[i] == b[i]);
                assert(va[i] == abi_value(a[i]) && vb[i] == abi_value(b[i]));
            }
        }
        lemma_same_words(a.drop_last(), b.drop_last());
        assert(va[a.len() - 1] == abi_value(a.last()) && vb[a.len() - 1] == abi_value(b.last()));
        assert(word_of(a.last()) == word_of(b.last()));
    }
}

/// Where the remote functions' selectors are four bytes long and distinct,
/// the selector that opens an encoded call names the function called.
pub proof fn lemma_selector_names_function(f: RemoteFunction, args: Seq<AbiArg>)
    requires
        selectors_distinct(),
    ensures
        function_of_payload(call_data(f, args)) == Some(f),
{
    let p = call_data(f, args);
    assert(selector(f).len() == 4);
    assert(p.subrange(0, 4) =~= selector(f));
    let fs = remote_functions();
    let k: int = match f {
        RemoteFunction::Withdraw => 0,
        RemoteFunction::SetPaloma => 1,
        RemoteFunction::UpdateCompass => 2,
        RemoteFunction::UpdateRefundWallet => 3,
        RemoteFunction::UpdateRedemptionFee => 4,
    };
    assert(fs[k] == f);
    assert(selector(fs[k]) == p.subrange(0, 4));
    assert forall|i: int| 0 <= i < 5 && selector(fs[i]) == p.subrange(0, 4) implies fs[i] == f by {
        if fs[i] != f {
            assert(selector(fs[i]) != selector(f));
        }
    }
}

} // verus!
