//! The dispatch of one transaction as a state machine.
//!
//! The caller performs the I/O that each `Action` asks for (fetching a
//! blockhash, sending the signed transaction) and reports what happened; the
//! machine decides everything else: when to sign, how many sends to make,
//! with which options, and what the caller finally gets back.

use crate::config::{send_config, send_config_spec, Commitment, SendConfig, SEND_ATTEMPTS};
use crate::ledger::{
    fits_in_message, fits_message, keypair_pubkey, lemma_key_refs_bound, message_of,
    sign_transaction, signed_only_by, signer_pubkey, unsigned_transaction,
};
use solana_program::pubkey::Pubkey;
use solana_program::hash;
use solana_program::instruction::Instruction;
use solana_sdk::signature::Signature;
use solana_sdk::signer::keypair::Keypair;
use solana_sdk::transaction::Transaction;
use vstd::prelude::*;

verus! {

/// Why a dispatch produced no signature.
#[derive(Clone, Copy, Debug, PartialEq, Eq, Structural)]
pub enum DispatchError {
    /// The recent blockhash could not be fetched.
    Resolution,
    /// The instructions do not fit in one message: too many account keys, or
    /// an instruction's data too long to encode.
    MessageTooLarge,
    /// The signer could not sign the assembled transaction.
    Signing,
    /// No broadcast attempt was accepted.
    Exhausted,
}

impl DispatchError {
    /// A human-readable description of the failure.
    pub fn message(&self) -> (r: &'static str)
        ensures
            *self == DispatchError::Resolution ==> r@ == "Failed to fetch a recent blockhash"@,
            *self == DispatchError::MessageTooLarge ==> r@
                == "Instructions do not fit in one transaction message"@,
            *self == DispatchError::Signing ==> r@ == "Failed to sign the transaction"@,
            *self == DispatchError::Exhausted ==> r@
                == "Failed to submit transaction after multiple attempts"@,
    {
        match self {
            DispatchError::Resolution => "Failed to fetch a recent blockhash",
            DispatchError::MessageTooLarge => "Instructions do not fit in one transaction message",
            DispatchError::Signing => "Failed to sign the transaction",
            DispatchError::Exhausted => "Failed to submit transaction after multiple attempts",
        }
    }
}

/// Where a dispatch stands.
#[derive(Clone, Copy, Debug, PartialEq, Eq, Structural)]
pub enum Stage {
    /// Waiting for a recent blockhash.
    Resolving,
    /// The transaction is signed; sends are made until the budget is spent.
    Broadcasting,
    /// Stopped before any send.
    Aborted(DispatchError),
}

/// What the caller has to do next.
#[derive(Debug)]
pub enum Action {
    /// Fetch a recent blockhash at this commitment.
    FetchBlockhash(Commitment),
    /// Send the signed transaction once, with these options.
    Broadcast(SendConfig),
    /// The dispatch is over; hand this result to the caller.
    Finish(Result<Signature, DispatchError>),
}

/// The abstract state of a dispatch.
pub struct DispatchState {
    pub stage: Stage,
    /// The signed transaction, present once the blockhash is resolved.
    pub tx: Option<Transaction>,
    /// Slot at which the blockhash was resolved.
    pub min_slot: u64,
    /// Broadcast attempts made so far.
    pub attempts: nat,
    /// Signature returned by the most recent accepted attempt.
    pub last_sig: Option<Signature>,
}

/// The state of a dispatch that has done nothing yet.
pub open spec fn initial_state() -> DispatchState {
    DispatchState {
        stage: Stage::Resolving,
        tx: None,
        min_slot: 0,
        attempts: 0,
        last_sig: None,
    }
}

/// The result a dispatch in state `s` hands back.
pub open spec fn outcome_of(s: DispatchState) -> Result<Signature, DispatchError> {
    match s.stage {
        Stage::Aborted(e) => Err(e),
        _ => match s.last_sig {
            Some(sig) => Ok(sig),
            None => Err(DispatchError::Exhausted),
        },
    }
}

/// The action a dispatch in state `s` asks for.
pub open spec fn action_of(s: DispatchState) -> Action {
    match s.stage {
        Stage::Resolving => Action::FetchBlockhash(Commitment::Confirmed),
        Stage::Broadcasting => if s.attempts < SEND_ATTEMPTS {
            Action::Broadcast(send_config_spec(s.min_slot))
        } else {
            Action::Finish(outcome_of(s))
        },
        Stage::Aborted(e) => Action::Finish(Err(e)),
    }
}

/// The state after the blockhash fetch failed.
pub open spec fn after_resolution_failure(s: DispatchState) -> DispatchState {
    if s.stage is Resolving {
        DispatchState { stage: Stage::Aborted(DispatchError::Resolution), ..s }
    } else {
        s
    }
}

/// A state in which the transaction has just been signed and nothing sent.
pub open spec fn ready_to_broadcast(s: DispatchState) -> bool {
    &&& s.stage is Broadcasting
    &&& s.tx is Some
    &&& s.attempts == 0
    &&& s.last_sig is None
}

/// The state after one send, accepted with signature `sig` when the response
/// is `Some(sig)`, and rejected or failed when it is `None`.
pub open spec fn after_send(s: DispatchState, response: Option<Signature>) -> DispatchState {
    if s.stage is Broadcasting && s.attempts < SEND_ATTEMPTS {
        DispatchState {
            attempts: s.attempts + 1,
            last_sig: if response is Some { response } else { s.last_sig },
            ..s
        }
    } else {
        s
    }
}

/// The state after the responses of `rs` are reported in order.
pub open spec fn after_sends(s: DispatchState, rs: Seq<Option<Signature>>) -> DispatchState
    decreases rs.len(),
{
    if rs.len() == 0 {
        s
    } else {
        after_send(after_sends(s, rs.drop_last()), rs.last())
    }
}

/// The signature of the last accepted response in `rs`, if any.
pub open spec fn last_accepted(rs: Seq<Option<Signature>>) -> Option<Signature>
    decreases rs.len(),
{
    if rs.len() == 0 {
        None
    } else if rs.last() is Some {
        rs.last()
    } else {
        last_accepted(rs.drop_last())
    }
}

/// `tx` is the transaction of `ixs`, paid for by `payer`, made over the
/// blockhash `hash`, with one signature slot per required signer.
pub open spec fn assembled_from(tx: Transaction, ixs: Seq<Instruction>, payer: Pubkey, hash: hash::Hash) -> bool {
    &&& message_of(tx.message, ixs, payer)
    &&& tx.message.recent_blockhash == hash
    &&& tx.signatures@.len() == tx.message.header.num_required_signatures as int
}

/// What assembling and signing the transaction of `ixs` for the key `payer`
/// over `hash` gives: the size error exactly when the message would not fit;
/// a signed transaction, with exactly one signature, whenever no other key
/// is asked to sign; otherwise a signed transaction or the signing error.
pub open spec fn assembly_outcome(
    ixs: Seq<Instruction>,
    payer: Pubkey,
    hash: hash::Hash,
    r: Result<Transaction, DispatchError>,
) -> bool {
    &&& !fits_message(ixs) ==> r == Err::<Transaction, DispatchError>(DispatchError::MessageTooLarge)
    &&& fits_message(ixs) ==> (r is Ok || r == Err::<Transaction, DispatchError>(DispatchError::Signing))
    &&& fits_message(ixs) && signed_only_by(ixs, payer) ==> (r matches Ok(tx) && tx.signatures@.len() == 1)
    &&& r matches Ok(tx) ==> assembled_from(tx, ixs, payer, hash)
}

/// The state after assembly and signing gave `assembled`, with a blockhash
/// resolved at `slot`.
pub open spec fn after_assembly(
    s: DispatchState,
    assembled: Result<Transaction, DispatchError>,
    slot: u64,
) -> DispatchState {
    if s.stage is Resolving {
        match assembled {
            Ok(tx) => DispatchState {
                stage: Stage::Broadcasting,
                tx: Some(tx),
                min_slot: slot,
                attempts: 0,
                last_sig: None,
            },
            Err(e) => DispatchState { stage: Stage::Aborted(e), ..s },
        }
    } else {
        s
    }
}

/// Assembles the transaction of `ixs` with `signer` as fee payer and signs
/// it with `signer` over the blockhash `hash`.
pub fn assemble(ixs: &[Instruction], signer: &Keypair, hash: hash::Hash) -> (r: Result<
    Transaction,
    DispatchError,
>)
    ensures
        assembly_outcome(ixs@, keypair_pubkey(*signer), hash, r),
{
    if !fits_in_message(ixs) {
        return Err(DispatchError::MessageTooLarge);
    }
    let payer = signer_pubkey(signer);
    let mut tx = unsigned_transaction(ixs, &payer);
    proof {
        lemma_key_refs_bound(ixs@);
    }
    match sign_transaction(&mut tx, signer, hash) {
        Ok(()) => Ok(tx),
        Err(_) => Err(DispatchError::Signing),
    }
}

/// One dispatch of one transaction.
pub struct Dispatcher {
    stage: Stage,
    tx: Option<Transaction>,
    min_slot: u64,
    attempts: u64,
    last_sig: Option<Signature>,
}

impl View for Dispatcher {
    type V = DispatchState;

    closed spec fn view(&self) -> DispatchState {
        DispatchState {
            stage: self.stage,
            tx: self.tx,
            min_slot: self.min_slot,
            attempts: self.attempts as nat,
            last_sig: self.last_sig,
        }
    }
}

impl Dispatcher {
    #[verifier::type_invariant]
    spec fn inv(self) -> bool {
        &&& self.attempts <= SEND_ATTEMPTS
        &&& (self.stage is Broadcasting <==> self.tx is Some)
        &&& !(self.stage is Broadcasting) ==> self.attempts == 0 && self.last_sig is None
    }

    /// A dispatch that has done nothing yet.
    pub fn new() -> (d: Dispatcher)
        ensures
            d@ == initial_state(),
    {
        Dispatcher { stage: Stage::Resolving, tx: None, min_slot: 0, attempts: 0, last_sig: None }
    }

    /// What the caller has to do next.
    pub fn next_action(&self) -> (a: Action)
        ensures
            a == action_of(self@),
    {
        proof {
            use_type_invariant(self);
        }
        match self.stage {
            Stage::Resolving => Action::FetchBlockhash(Commitment::Confirmed),
            Stage::Broadcasting => if self.attempts < SEND_ATTEMPTS {
                Action::Broadcast(send_config(self.min_slot))
            } else {
                Action::Finish(self.outcome())
            },
            Stage::Aborted(e) => Action::Finish(Err(e)),
        }
    }

    /// The result the dispatch hands back in its current state.
    pub fn outcome(&self) -> (r: Result<Signature, DispatchError>)
        ensures
            r == outcome_of(self@),
    {
        match self.stage {
            Stage::Aborted(e) => Err(e),
            _ => match self.last_sig {
                Some(sig) => Ok(sig),
                None => Err(DispatchError::Exhausted),
            },
        }
    }

    /// The signed transaction, once there is one; there is one whenever a
    /// broadcast is asked for.
    pub fn transaction(&self) -> (r: Option<&Transaction>)
        ensures
            action_of(self@) is Broadcast ==> r is Some,
            r matches Some(t) ==> self@.tx == Some(*t),
            r is None ==> self@.tx is None,
    {
        proof {
            use_type_invariant(self);
        }
        self.tx.as_ref()
    }

    /// Reports that the blockhash fetch failed: the dispatch stops before
    /// any send.
    pub fn blockhash_failed(&mut self)
        ensures
            final(self)@ == after_resolution_failure(old(self)@),
    {
        proof {
            use_type_invariant(&*self);
        }
        if let Stage::Resolving = self.stage {
            self.stage = Stage::Aborted(DispatchError::Resolution);
        }
    }

    /// Reports the outcome of assembling and signing the transaction, made
    /// with a blockhash resolved at `slot`: a signed transaction starts the
    /// broadcasts, a failure stops the dispatch. Only the first report counts.
    pub fn signed(&mut self, assembled: Result<Transaction, DispatchError>, slot: u64)
        ensures
            final(self)@ == after_assembly(old(self)@, assembled, slot),
    {
        proof {
            use_type_invariant(&*self);
        }
        if let Stage::Resolving = self.stage {
            match assembled {
                Ok(tx) => {
                    *self = Dispatcher {
                        stage: Stage::Broadcasting,
                        tx: Some(tx),
                        min_slot: slot,
                        attempts: 0,
                        last_sig: None,
                    };
                },
                Err(e) => {
                    self.stage = Stage::Aborted(e);
                },
            }
        }
    }

    /// Reports the blockhash `hash`, resolved at `slot`: unless the dispatch
    /// is past resolution, the transaction of `ixs`, paid for by `signer`, is
    /// assembled and signed, once.
    pub fn blockhash_resolved(
        &mut self,
        ixs: &[Instruction],
        signer: &Keypair,
        hash: hash::Hash,
        slot: u64,
    )
        ensures
            !(old(self)@.stage is Resolving) ==> final(self)@ == old(self)@,
            old(self)@.stage is Resolving ==> exists|r: Result<Transaction, DispatchError>|
                assembly_outcome(ixs@, keypair_pubkey(*signer), hash, r) && final(self)@ == #[trigger] after_assembly(
                    old(self)@,
                    r,
                    slot,
                ),
    {
        if let Stage::Resolving = self.stage {
            let assembled = assemble(ixs, signer, hash);
            self.signed(assembled, slot);
        }
    }

    /// Reports the result of one send: `Some(sig)` when the node accepted
    /// it and returned `sig`, `None` when it was rejected or failed.
    pub fn send_completed(&mut self, response: Option<Signature>)
        ensures
            final(self)@ == after_send(old(self)@, response),
    {
        proof {
            use_type_invariant(&*self);
        }
        if let Stage::Broadcasting = self.stage {
            if self.attempts < SEND_ATTEMPTS {
                self.attempts = self.attempts + 1;
                if response.is_some() {
                    self.last_sig = response;
                }
            }
        }
    }
}

} // verus!
