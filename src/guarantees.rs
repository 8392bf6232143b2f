//! What every dispatch guarantees, over any sequence of node responses.

use crate::config::{send_config_spec, SEND_ATTEMPTS};
use crate::dispatch::{
    assembled_from, assembly_outcome, action_of, after_assembly, after_resolution_failure, after_send, after_sends, last_accepted,
    ready_to_broadcast, Action, DispatchError, DispatchState,
};
use crate::ledger::{fits_message, signed_only_by};
use solana_program::hash;
use solana_program::instruction::Instruction;
use solana_program::pubkey::Pubkey;
use solana_sdk::signature::Signature;
use solana_sdk::transaction::Transaction;
use vstd::prelude::*;

verus! {

/// Within the budget, each response counts one attempt and leaves the signed
/// transaction and its slot alone; the kept signature is the last accepted one.
proof fn lemma_sends_within_budget(s: DispatchState, rs: Seq<Option<Signature>>)
    requires
        ready_to_broadcast(s),
        rs.len() <= SEND_ATTEMPTS,
    ensures
        after_sends(s, rs) == (DispatchState {
            attempts: rs.len(),
            last_sig: last_accepted(rs),
            ..s
        }),
    decreases rs.len(),
{
    if rs.len() > 0 {
        lemma_sends_within_budget(s, rs.drop_last());
    }
}

/// Facts on the last accepted response of `rs`.
proof fn lemma_last_accepted(rs: Seq<Option<Signature>>, sig: Signature)
    ensures
        (exists|i: int| 0 <= i < rs.len() && rs[i] is Some) ==> last_accepted(rs) is Some,
        (forall|i: int| 0 <= i < rs.len() ==> rs[i] is None) ==> last_accepted(rs) is None,
        (forall|i: int| 0 <= i < rs.len() && rs[i] is Some ==> rs[i] == Some(sig))
            ==> (last_accepted(rs) is None || last_accepted(rs) == Some(sig)),
    decreases rs.len(),
{
    if rs.len() > 0 {
        let prefix = rs.drop_last();
        lemma_last_accepted(prefix, sig);
        assert forall|i: int| 0 <= i < prefix.len() implies prefix[i] == rs[i] by {}
        if exists|i: int| 0 <= i < rs.len() && rs[i] is Some {
            if rs.last() is None {
                let i = choose|i: int| 0 <= i < rs.len() && rs[i] is Some;
                assert(prefix[i] is Some);
            }
        }
    }
}

/// Sends leave the signed transaction, the stage and the slot alone.
proof fn lemma_sends_keep_payload(s: DispatchState, rs: Seq<Option<Signature>>)
    requires
        ready_to_broadcast(s),
    ensures
        after_sends(s, rs).tx == s.tx,
        after_sends(s, rs).stage == s.stage,
        after_sends(s, rs).min_slot == s.min_slot,
    decreases rs.len(),
{
    if rs.len() > 0 {
        lemma_sends_keep_payload(s, rs.drop_last());
    }
}

/// A dispatch signs its transaction once and sends it exactly as signed:
/// once a signed transaction `tx` is reported, the dispatch is ready to
/// broadcast `tx`; no later assembly result or blockhash failure changes
/// anything, before or after any sends; and whatever the nodes answer, the
/// transaction that each broadcast transmits stays `tx`.
pub proof fn single_signed_payload(
    s: DispatchState,
    tx: Transaction,
    slot: u64,
    later: Result<Transaction, DispatchError>,
    later_slot: u64,
    rs: Seq<Option<Signature>>,
)
    requires
        s.stage is Resolving,
    ensures
        ready_to_broadcast(after_assembly(s, Ok(tx), slot)),
        after_assembly(s, Ok(tx), slot).tx == Some(tx),
        after_assembly(s, Ok(tx), slot).min_slot == slot,
        after_sends(after_assembly(s, Ok(tx), slot), rs).tx == Some(tx),
        after_sends(after_assembly(s, Ok(tx), slot), rs).min_slot == slot,
        after_assembly(after_sends(after_assembly(s, Ok(tx), slot), rs), later, later_slot)
            == after_sends(after_assembly(s, Ok(tx), slot), rs),
        after_resolution_failure(after_sends(after_assembly(s, Ok(tx), slot), rs))
            == after_sends(after_assembly(s, Ok(tx), slot), rs),
{
    lemma_sends_keep_payload(after_assembly(s, Ok(tx), slot), rs);
}

/// The broadcast loop makes exactly its full budget of attempts: after
/// fewer responses than the budget it asks for another send with the fixed
/// configuration, whatever those responses were (accepted ones included),
/// and once the budget is spent it finishes and ignores further responses.
pub proof fn attempt_budget_is_spent(s: DispatchState, rs: Seq<Option<Signature>>)
    requires
        ready_to_broadcast(s),
        rs.len() == SEND_ATTEMPTS,
    ensures
        forall|i: int|
            0 <= i < SEND_ATTEMPTS ==> action_of(#[trigger] after_sends(s, rs.take(i)))
                == Action::Broadcast(send_config_spec(s.min_slot)),
        action_of(after_sends(s, rs)) is Finish,
        after_sends(s, rs).attempts == SEND_ATTEMPTS,
        forall|r: Option<Signature>| after_send(after_sends(s, rs), r) == after_sends(s, rs),
{
    assert forall|i: int| 0 <= i < SEND_ATTEMPTS implies action_of(
        #[trigger] after_sends(s, rs.take(i)),
    ) == Action::Broadcast(send_config_spec(s.min_slot)) by {
        lemma_sends_within_budget(s, rs.take(i));
    }
    lemma_sends_within_budget(s, rs);
}

/// When at least one attempt is accepted, the dispatch returns the signature
/// of the last accepted attempt; when each acceptance reports the same
/// signature `sig` (the signature of the one signed transaction), it returns
/// exactly `sig`.
pub proof fn accepted_signature_returned(
    s: DispatchState,
    rs: Seq<Option<Signature>>,
    sig: Signature,
)
    requires
        ready_to_broadcast(s),
        rs.len() == SEND_ATTEMPTS,
        exists|i: int| 0 <= i < rs.len() && rs[i] is Some,
    ensures
        last_accepted(rs) is Some,
        action_of(after_sends(s, rs)) == Action::Finish(Ok(last_accepted(rs)->0)),
        (forall|i: int| 0 <= i < rs.len() && rs[i] is Some ==> rs[i] == Some(sig))
            ==> action_of(after_sends(s, rs)) == Action::Finish(Ok(sig)),
{
    lemma_sends_within_budget(s, rs);
    lemma_last_accepted(rs, sig);
}

/// A dispatch of instructions that fit in one message, and that ask no key
/// but the signer's `payer` to sign, signs one transaction: `payer` pays,
/// the instructions keep their order, the blockhash is the resolved `hash`,
/// and there is exactly one signature. Every broadcast sends that
/// transaction, and when at least one attempt is accepted and each
/// acceptance reports the transaction's signature, that signature is the
/// result.
pub proof fn signed_transaction_returned(
    s: DispatchState,
    ixs: Seq<Instruction>,
    payer: Pubkey,
    hash: hash::Hash,
    slot: u64,
    assembled: Result<Transaction, DispatchError>,
    rs: Seq<Option<Signature>>,
)
    requires
        s.stage is Resolving,
        fits_message(ixs),
        signed_only_by(ixs, payer),
        assembly_outcome(ixs, payer, hash, assembled),
        rs.len() == SEND_ATTEMPTS,
        exists|i: int| 0 <= i < rs.len() && rs[i] is Some,
        forall|i: int|
            0 <= i < rs.len() && rs[i] is Some ==> rs[i] == Some(assembled->Ok_0.signatures@[0]),
    ensures
        assembled is Ok,
        assembled_from(assembled->Ok_0, ixs, payer, hash),
        assembled->Ok_0.signatures@.len() == 1,
        ready_to_broadcast(after_assembly(s, assembled, slot)),
        after_sends(after_assembly(s, assembled, slot), rs).tx == Some(assembled->Ok_0),
        action_of(after_sends(after_assembly(s, assembled, slot), rs)) == Action::Finish(
            Ok(assembled->Ok_0.signatures@[0]),
        ),
{
    let b = after_assembly(s, assembled, slot);
    lemma_sends_keep_payload(b, rs);
    accepted_signature_returned(b, rs, assembled->Ok_0.signatures@[0]);
}

/// When every attempt is rejected or fails, the dispatch ends with the
/// exhaustion error and no signature.
pub proof fn all_rejected_is_exhaustion(s: DispatchState, rs: Seq<Option<Signature>>)
    requires
        ready_to_broadcast(s),
        rs.len() == SEND_ATTEMPTS,
        forall|i: int| 0 <= i < rs.len() ==> rs[i] is None,
    ensures
        action_of(after_sends(s, rs)) == Action::Finish(Err(DispatchError::Exhausted)),
{
    lemma_sends_within_budget(s, rs);
    lemma_last_accepted(rs, arbitrary());
}

/// When the blockhash cannot be fetched, the dispatch ends with the
/// resolution error and never asks for a send, whatever is reported to it
/// afterwards.
pub proof fn resolution_failure_sends_nothing(s: DispatchState, rs: Seq<Option<Signature>>)
    requires
        s.stage is Resolving,
    ensures
        after_sends(after_resolution_failure(s), rs) == after_resolution_failure(s),
        action_of(after_sends(after_resolution_failure(s), rs))
            == Action::Finish(Err(DispatchError::Resolution)),
    decreases rs.len(),
{
    if rs.len() > 0 {
        resolution_failure_sends_nothing(s, rs.drop_last());
    }
}

} // verus!
