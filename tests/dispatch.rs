use solana_program::instruction::{AccountMeta, Instruction};
use solana_program::pubkey::Pubkey;
use solana_program::system_instruction;
use solana_sdk::signature::Signature;
use solana_sdk::signer::keypair::Keypair;
use solana_sdk::signer::Signer;
use solana_sdk::transaction::Transaction;
use tx_dispatch::config::{send_config, Commitment, Encoding, RPC_RETRIES, SEND_ATTEMPTS};
use tx_dispatch::dispatch::{assemble, Action, DispatchError, Dispatcher};
use tx_dispatch::ledger::fits_in_message;

fn transfer_to_new_account(signer: &Keypair) -> Vec<Instruction> {
    vec![system_instruction::transfer(&signer.pubkey(), &Pubkey::new_unique(), 1_000)]
}

fn resolved(ixs: &[Instruction], signer: &Keypair, slot: u64) -> Dispatcher {
    let mut d = Dispatcher::new();
    assert!(matches!(d.next_action(), Action::FetchBlockhash(Commitment::Confirmed)));
    d.blockhash_resolved(ixs, signer, solana_sdk::hash::Hash::new_unique(), slot);
    d
}

/// Runs the broadcast loop, answering attempt `n` (counted from 1) with
/// `respond(n, tx)`; returns the result and the number of sends made and
/// the transactions that were sent.
fn broadcast(
    d: &mut Dispatcher,
    respond: impl Fn(u64, &Transaction) -> Option<Signature>,
) -> (Result<Signature, DispatchError>, u64, Vec<Transaction>) {
    let mut sends: u64 = 0;
    let mut sent = Vec::new();
    loop {
        match d.next_action() {
            Action::FetchBlockhash(_) => panic!("blockhash asked for twice"),
            Action::Broadcast(_) => {
                sends += 1;
                let tx = d.transaction().expect("a signed transaction").clone();
                let response = respond(sends, &tx);
                sent.push(tx);
                d.send_completed(response);
            }
            Action::Finish(result) => return (result, sends, sent),
        }
    }
}

#[test]
fn accepts_third_attempt_returns_its_signature() {
    let signer = Keypair::new();
    let ixs = transfer_to_new_account(&signer);
    let mut d = resolved(&ixs, &signer, 42);
    let third = Signature::from([3u8; 64]);
    let (result, sends, _) = broadcast(&mut d, |n, _| if n == 3 { Some(third) } else { None });
    assert_eq!(result, Ok(third));
    assert_eq!(sends, 100);
}

#[test]
fn all_attempts_rejected_is_exhaustion() {
    let signer = Keypair::new();
    let ixs = transfer_to_new_account(&signer);
    let mut d = resolved(&ixs, &signer, 7);
    let (result, sends, _) = broadcast(&mut d, |_, _| None);
    assert_eq!(result, Err(DispatchError::Exhausted));
    assert_eq!(sends, 100);
    assert_eq!(
        DispatchError::Exhausted.message(),
        "Failed to submit transaction after multiple attempts"
    );
}

#[test]
fn resolution_failure_makes_no_send() {
    let mut d = Dispatcher::new();
    d.blockhash_failed();
    let (result, sends, _) = broadcast(&mut d, |_, _| panic!("no send expected"));
    assert_eq!(result, Err(DispatchError::Resolution));
    assert_eq!(sends, 0);
    assert!(d.transaction().is_none());
    d.send_completed(Some(Signature::new_unique()));
    assert_eq!(d.outcome(), Err(DispatchError::Resolution));
}

#[test]
fn full_budget_spent_after_early_success() {
    let signer = Keypair::new();
    let ixs = transfer_to_new_account(&signer);
    let mut d = resolved(&ixs, &signer, 1);
    let first = Signature::from([1u8; 64]);
    let (result, sends, _) = broadcast(&mut d, |n, _| if n == 1 { Some(first) } else { None });
    assert_eq!(result, Ok(first));
    assert_eq!(sends, SEND_ATTEMPTS);
    assert_eq!(SEND_ATTEMPTS, 100);
}

#[test]
fn last_accepted_signature_wins() {
    let signer = Keypair::new();
    let ixs = transfer_to_new_account(&signer);
    let mut d = resolved(&ixs, &signer, 1);
    let (result, sends, _) = broadcast(&mut d, |n, _| {
        if n % 10 == 0 {
            Some(Signature::from([n as u8; 64]))
        } else {
            None
        }
    });
    assert_eq!(result, Ok(Signature::from([100u8; 64])));
    assert_eq!(sends, 100);
}

#[test]
fn every_send_carries_the_same_signed_transaction() {
    let signer = Keypair::new();
    let ixs = transfer_to_new_account(&signer);
    let mut d = resolved(&ixs, &signer, 5);
    let (result, sends, sent) = broadcast(&mut d, |_, tx| Some(tx.signatures[0]));
    assert_eq!(sends, 100);
    assert_eq!(sent.len(), 100);
    for tx in &sent {
        assert_eq!(tx, &sent[0]);
    }
    let tx = &sent[0];
    assert!(tx.is_signed());
    assert!(tx.verify().is_ok());
    assert_eq!(tx.signatures.len(), 1);
    assert_eq!(tx.message.account_keys[0], signer.pubkey());
    assert_eq!(result, Ok(tx.signatures[0]));
    assert_ne!(tx.signatures[0], Signature::default());
}

#[test]
fn second_blockhash_does_not_sign_again() {
    let signer = Keypair::new();
    let ixs = transfer_to_new_account(&signer);
    let mut d = resolved(&ixs, &signer, 5);
    let before = d.transaction().unwrap().clone();
    d.blockhash_resolved(&ixs, &signer, solana_sdk::hash::Hash::new_unique(), 9);
    d.blockhash_failed();
    assert_eq!(d.transaction().unwrap(), &before);
    match d.next_action() {
        Action::Broadcast(cfg) => assert_eq!(cfg.min_context_slot, Some(5)),
        other => panic!("unexpected action {:?}", other),
    }
}

#[test]
fn broadcast_uses_fixed_send_config() {
    let signer = Keypair::new();
    let ixs = transfer_to_new_account(&signer);
    let d = resolved(&ixs, &signer, 1234);
    match d.next_action() {
        Action::Broadcast(cfg) => {
            assert!(cfg.skip_preflight);
            assert_eq!(cfg.preflight_commitment, Some(Commitment::Confirmed));
            assert_eq!(cfg.encoding, Some(Encoding::Base64));
            assert_eq!(cfg.max_retries, Some(1));
            assert_eq!(cfg.min_context_slot, Some(1234));
        }
        other => panic!("unexpected action {:?}", other),
    }
    assert_eq!(RPC_RETRIES, 1);
    assert_eq!(send_config(1234), send_config(1234));
    assert_eq!(send_config(0).min_context_slot, Some(0));
}

#[test]
fn missing_co_signer_aborts_before_any_send() {
    let signer = Keypair::new();
    let other = Pubkey::new_unique();
    let ixs = vec![system_instruction::transfer(&other, &signer.pubkey(), 5)];
    let mut d = resolved(&ixs, &signer, 1);
    assert!(d.transaction().is_none());
    let (result, sends, _) = broadcast(&mut d, |_, _| panic!("no send expected"));
    assert_eq!(result, Err(DispatchError::Signing));
    assert_eq!(sends, 0);
}

fn instruction_with_accounts(n: usize) -> Instruction {
    let accounts = (0..n)
        .map(|_| AccountMeta::new_readonly(Pubkey::new_unique(), false))
        .collect();
    Instruction::new_with_bytes(Pubkey::new_unique(), &[], accounts)
}

#[test]
fn key_limit_boundary() {
    assert!(fits_in_message(&[]));
    assert!(fits_in_message(&[instruction_with_accounts(253)]));
    assert!(!fits_in_message(&[instruction_with_accounts(254)]));
    assert!(fits_in_message(&[instruction_with_accounts(100), instruction_with_accounts(152)]));
    assert!(!fits_in_message(&[instruction_with_accounts(100), instruction_with_accounts(153)]));
}

#[test]
fn too_many_accounts_aborts_before_signing() {
    let signer = Keypair::new();
    let ixs = vec![instruction_with_accounts(300)];
    let mut d = resolved(&ixs, &signer, 1);
    assert!(d.transaction().is_none());
    let (result, sends, _) = broadcast(&mut d, |_, _| panic!("no send expected"));
    assert_eq!(result, Err(DispatchError::MessageTooLarge));
    assert_eq!(sends, 0);
}

#[test]
fn fresh_dispatch_asks_for_blockhash() {
    let d = Dispatcher::new();
    assert!(matches!(d.next_action(), Action::FetchBlockhash(Commitment::Confirmed)));
    assert!(d.transaction().is_none());
    assert_eq!(d.outcome(), Err(DispatchError::Exhausted));
}

#[test]
fn assemble_signs_with_payer_and_blockhash() {
    let signer = Keypair::new();
    let ixs = transfer_to_new_account(&signer);
    let hash = solana_sdk::hash::Hash::new_unique();
    let tx = assemble(&ixs, &signer, hash).expect("signed");
    assert_eq!(tx.message.recent_blockhash, hash);
    assert_eq!(tx.message.account_keys[0], signer.pubkey());
    assert_eq!(tx.message.instructions.len(), 1);
    assert!(tx.is_signed());
    assert!(tx.verify().is_ok());
    let again = assemble(&ixs, &signer, hash).expect("signed");
    assert_eq!(again.signatures, tx.signatures);
}

#[test]
fn assemble_errors() {
    let signer = Keypair::new();
    let hash = solana_sdk::hash::Hash::new_unique();
    let co_signed = vec![system_instruction::transfer(&Pubkey::new_unique(), &signer.pubkey(), 5)];
    assert_eq!(assemble(&co_signed, &signer, hash), Err(DispatchError::Signing));
    let wide = vec![instruction_with_accounts(254)];
    assert_eq!(assemble(&wide, &signer, hash), Err(DispatchError::MessageTooLarge));
}

#[test]
fn signed_report_counts_once() {
    let signer = Keypair::new();
    let ixs = transfer_to_new_account(&signer);
    let tx = assemble(&ixs, &signer, solana_sdk::hash::Hash::new_unique()).unwrap();
    let mut d = Dispatcher::new();
    d.signed(Ok(tx.clone()), 77);
    d.signed(Err(DispatchError::Signing), 78);
    assert_eq!(d.transaction(), Some(&tx));
    match d.next_action() {
        Action::Broadcast(cfg) => assert_eq!(cfg.min_context_slot, Some(77)),
        other => panic!("unexpected action {:?}", other),
    }

    let mut failed = Dispatcher::new();
    failed.signed(Err(DispatchError::Signing), 1);
    failed.signed(Ok(tx), 2);
    assert!(failed.transaction().is_none());
    assert!(matches!(failed.next_action(), Action::Finish(Err(DispatchError::Signing))));
}

#[test]
fn error_messages() {
    assert_eq!(DispatchError::Resolution.message(), "Failed to fetch a recent blockhash");
    assert_eq!(DispatchError::Signing.message(), "Failed to sign the transaction");
    assert_eq!(
        DispatchError::MessageTooLarge.message(),
        "Instructions do not fit in one transaction message"
    );
}

#[test]
fn long_instruction_data_is_too_large() {
    let signer = Keypair::new();
    let hash = solana_sdk::hash::Hash::new_unique();
    let long = Instruction::new_with_bytes(Pubkey::new_unique(), &vec![7u8; 70_000], vec![]);
    assert!(!fits_in_message(&[long.clone()]));
    assert_eq!(assemble(&[long.clone()], &signer, hash), Err(DispatchError::MessageTooLarge));
    let mut d = resolved(&[long], &signer, 1);
    let (result, sends, _) = broadcast(&mut d, |_, _| panic!("no send expected"));
    assert_eq!(result, Err(DispatchError::MessageTooLarge));
    assert_eq!(sends, 0);

    let edge = Instruction::new_with_bytes(Pubkey::new_unique(), &vec![7u8; 65_535], vec![]);
    assert!(fits_in_message(&[edge.clone()]));
    let tx = assemble(&[edge], &signer, hash).expect("signed");
    assert_eq!(tx.message.instructions[0].data.len(), 65_535);
}

#[test]
fn assembled_instructions_keep_their_order() {
    let signer = Keypair::new();
    let a = system_instruction::transfer(&signer.pubkey(), &Pubkey::new_unique(), 1);
    let b = Instruction::new_with_bytes(Pubkey::new_unique(), &[1, 2, 3], vec![]);
    let hash = solana_sdk::hash::Hash::new_unique();
    let tx = assemble(&[a.clone(), b.clone()], &signer, hash).unwrap();
    let keys = &tx.message.account_keys;
    assert_eq!(tx.signatures.len(), 1);
    assert_eq!(tx.message.header.num_required_signatures, 1);
    assert_eq!(keys[tx.message.instructions[0].program_id_index as usize], a.program_id);
    assert_eq!(keys[tx.message.instructions[1].program_id_index as usize], b.program_id);
    assert_eq!(tx.message.instructions[0].data, a.data);
    assert_eq!(tx.message.instructions[1].data, b.data);
}
