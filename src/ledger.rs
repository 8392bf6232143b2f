//! The ledger SDK's types and the few calls the dispatcher makes into it.
//!
//! Every value of these types is opaque here: the dispatcher carries
//! instructions, keys, hashes, transactions and signatures through without
//! looking inside them.

use solana_program::hash;
use solana_program::instruction::{AccountMeta, CompiledInstruction, Instruction};
use solana_program::message::{Message, MessageHeader};
use solana_program::pubkey::Pubkey;
use solana_sdk::signature::Signature;
use solana_sdk::signer::keypair::Keypair;
use solana_sdk::signer::{Signer, SignerError};
use solana_sdk::transaction::Transaction;
use vstd::prelude::*;

verus! {

#[verifier::external_type_specification]
#[verifier::external_body]
pub struct ExHash(hash::Hash);

#[verifier::external_type_specification]
pub struct ExInstruction(Instruction);

#[verifier::external_type_specification]
pub struct ExAccountMeta(AccountMeta);

#[verifier::external_type_specification]
pub struct ExCompiledInstruction(CompiledInstruction);

#[verifier::external_type_specification]
pub struct ExMessageHeader(MessageHeader);

#[verifier::external_type_specification]
pub struct ExMessage(Message);

#[verifier::external_type_specification]
pub struct ExTransaction(Transaction);

#[verifier::external_type_specification]
#[verifier::external_body]
pub struct ExPubkey(Pubkey);

#[verifier::external_type_specification]
#[verifier::external_body]
pub struct ExSignature(Signature);

// `Signature` implements `TryFrom<&[u8]>` with this error type, so Verus
// asks for it to be declared along with `Signature`.
#[verifier::external_type_specification]
#[verifier::external_body]
pub struct ExTryFromSliceError(core::array::TryFromSliceError);

#[verifier::external_type_specification]
#[verifier::external_body]
pub struct ExKeypair(Keypair);

#[verifier::external_type_specification]
#[verifier::external_body]
pub struct ExSignerError(SignerError);

/// The public key of a keypair.
pub uninterp spec fn keypair_pubkey(k: Keypair) -> Pubkey;

/// Most account keys a message can index: positions are stored in a byte.
pub const MAX_MESSAGE_KEYS: usize = 255;

/// Longest vector a message encodes: lengths are written as 16-bit values.
pub const MAX_ENCODED_LEN: usize = 65535;

/// Number of account-key references made by `ixs`: each instruction's
/// program id and each of its account entries, repeats counted.
pub open spec fn key_refs(ixs: Seq<Instruction>) -> nat
    decreases ixs.len(),
{
    if ixs.len() == 0 {
        0
    } else {
        key_refs(ixs.drop_last()) + 1 + ixs.last().accounts@.len()
    }
}

/// A message of these instructions and a fee payer can be built and encoded:
/// it references at most `MAX_MESSAGE_KEYS` keys, repeats counted (so its
/// distinct keys fit too), and no instruction's data is longer than
/// `MAX_ENCODED_LEN` bytes.
pub open spec fn fits_message(ixs: Seq<Instruction>) -> bool {
    &&& 1 + key_refs(ixs) <= MAX_MESSAGE_KEYS
    &&& forall|i: int| 0 <= i < ixs.len() ==> (#[trigger] ixs[i]).data@.len() <= MAX_ENCODED_LEN
}

/// Every account that `ixs` marks as a signer is `key`.
pub open spec fn signed_only_by(ixs: Seq<Instruction>, key: Pubkey) -> bool {
    forall|i: int, j: int|
        0 <= i < ixs.len() && 0 <= j < ixs[i].accounts@.len() && (
        #[trigger] ixs[i].accounts@[j]).is_signer ==> ixs[i].accounts@[j].pubkey == key
}

/// `ci` is `ix` compiled against the account list `keys`: same program,
/// same accounts in the same order, same data.
pub open spec fn compiled_from(ci: CompiledInstruction, keys: Seq<Pubkey>, ix: Instruction) -> bool {
    &&& (ci.program_id_index as int) < keys.len()
    &&& keys[ci.program_id_index as int] == ix.program_id
    &&& ci.accounts@.len() == ix.accounts@.len()
    &&& forall|j: int|
        0 <= j < ci.accounts@.len() ==> (#[trigger] ci.accounts@[j] as int) < keys.len()
            && keys[ci.accounts@[j] as int] == ix.accounts@[j].pubkey
    &&& ci.data@ == ix.data@
}

/// `m` holds the instructions `ixs`, in order, with `payer` first among its
/// account keys.
pub open spec fn message_of(m: Message, ixs: Seq<Instruction>, payer: Pubkey) -> bool {
    &&& m.account_keys@.len() >= 1
    &&& m.account_keys@[0] == payer
    &&& m.header.num_required_signatures >= 1
    &&& m.instructions@.len() == ixs.len()
    &&& forall|i: int|
        0 <= i < ixs.len() ==> compiled_from(#[trigger] m.instructions@[i], m.account_keys@, ixs[i])
}

/// Every vector in `m` is short enough for the message encoding.
pub open spec fn encodable(m: Message) -> bool {
    &&& m.account_keys@.len() <= MAX_ENCODED_LEN
    &&& m.instructions@.len() <= MAX_ENCODED_LEN
    &&& forall|i: int|
        0 <= i < m.instructions@.len() ==> (#[trigger] m.instructions@[i]).accounts@.len()
            <= MAX_ENCODED_LEN && m.instructions@[i].data@.len() <= MAX_ENCODED_LEN
}

proof fn lemma_key_refs_prefix(ixs: Seq<Instruction>, i: int)
    requires
        0 <= i < ixs.len(),
    ensures
        key_refs(ixs.take(i + 1)) == key_refs(ixs.take(i)) + 1 + ixs[i].accounts@.len(),
{
    assert(ixs.take(i + 1).drop_last() =~= ixs.take(i));
}

proof fn lemma_key_refs_monotone(ixs: Seq<Instruction>, i: int, j: int)
    requires
        0 <= i <= j <= ixs.len(),
    ensures
        key_refs(ixs.take(i)) <= key_refs(ixs.take(j)),
    decreases j - i,
{
    if i < j {
        lemma_key_refs_prefix(ixs, j - 1);
        lemma_key_refs_monotone(ixs, i, j - 1);
    }
}

/// Each instruction, and their number, is bounded by the reference count.
pub proof fn lemma_key_refs_bound(ixs: Seq<Instruction>)
    ensures
        ixs.len() <= key_refs(ixs),
        forall|i: int| 0 <= i < ixs.len() ==> 1 + (#[trigger] ixs[i]).accounts@.len() <= key_refs(ixs),
    decreases ixs.len(),
{
    if ixs.len() > 0 {
        let prefix = ixs.drop_last();
        lemma_key_refs_bound(prefix);
        assert forall|i: int| 0 <= i < ixs.len() implies 1 + (#[trigger] ixs[i]).accounts@.len()
            <= key_refs(ixs) by {
            if i < prefix.len() {
                assert(prefix[i] == ixs[i]);
            }
        }
    }
}

/// Whether a message of `ixs` and a fee payer can be built and encoded.
pub fn fits_in_message(ixs: &[Instruction]) -> (r: bool)
    ensures
        r == fits_message(ixs@),
{
    let mut total: usize = 1;
    let mut i: usize = 0;
    while i < ixs.len()
        invariant
            i <= ixs@.len(),
            total == 1 + key_refs(ixs@.take(i as int)),
            total <= MAX_MESSAGE_KEYS,
            forall|k: int| 0 <= k < i ==> (#[trigger] ixs@[k]).data@.len() <= MAX_ENCODED_LEN,
        decreases ixs@.len() - i,
    {
        let n = ixs[i].accounts.len();
        proof {
            lemma_key_refs_prefix(ixs@, i as int);
        }
        if n >= MAX_MESSAGE_KEYS - total {
            proof {
                lemma_key_refs_monotone(ixs@, i as int + 1, ixs@.len() as int);
                assert(ixs@.take(ixs@.len() as int) =~= ixs@);
            }
            return false;
        }
        if ixs[i].data.len() > MAX_ENCODED_LEN {
            return false;
        }
        total = total + 1 + n;
        i = i + 1;
    }
    proof {
        assert(ixs@.take(i as int) =~= ixs@);
    }
    true
}

/// Relies on `Signer::pubkey` of `Keypair`: the key pair's public key, a
/// function of the key pair alone.
#[verifier::external_body]
pub(crate) fn signer_pubkey(signer: &Keypair) -> (r: Pubkey)
    ensures
        r == keypair_pubkey(*signer),
{
    signer.pubkey()
}

/// Relies on `Transaction::new_with_payer`: an unsigned transaction of `ixs`
/// with `payer` as fee payer. The message lists `payer` first, as a required
/// signer, and each instruction compiled in order against its account keys,
/// of which there are no more than the references made; there is one
/// signature slot per required signer, and `payer` is the only one when no
/// other account is marked as a signer. It panics only when a count of
/// signer or read-only keys overflows a byte, which a message of at most 255
/// keys cannot reach.
#[verifier::external_body]
pub(crate) fn unsigned_transaction(ixs: &[Instruction], payer: &Pubkey) -> (r: Transaction)
    requires
        fits_message(ixs@),
    ensures
        message_of(r.message, ixs@, *payer),
        r.message.account_keys@.len() <= 1 + key_refs(ixs@),
        r.signatures@.len() == r.message.header.num_required_signatures as int,
        signed_only_by(ixs@, *payer) ==> r.message.header.num_required_signatures == 1,
{
    Transaction::new_with_payer(ixs, Some(payer))
}

/// Relies on `Transaction::try_sign`: on success the message's blockhash is
/// `hash` and nothing else of it changes; the number of signatures never
/// changes. It succeeds when the transaction has one signature slot, for one
/// required signer, the first account key, which is `signer`'s: a key pair
/// always signs, and its signature is never the all-zero placeholder. It
/// indexes the signature slots by signer position and encodes the message,
/// so `requires` keeps the slots and the encoded vectors within bounds.
#[verifier::external_body]
pub(crate) fn sign_transaction(tx: &mut Transaction, signer: &Keypair, hash: hash::Hash) -> (r:
    Result<(), SignerError>)
    requires
        old(tx).signatures@.len() >= old(tx).message.header.num_required_signatures,
        encodable(old(tx).message),
    ensures
        final(tx).signatures@.len() == old(tx).signatures@.len(),
        r is Ok ==> final(tx).message == (Message { recent_blockhash: hash, ..old(tx).message }),
        ({
            &&& old(tx).signatures@.len() == 1
            &&& old(tx).message.header.num_required_signatures == 1
            &&& old(tx).message.account_keys@.len() >= 1
            &&& old(tx).message.account_keys@[0] == keypair_pubkey(*signer)
        }) ==> r is Ok,
{
    tx.try_sign(&[signer], hash)
}

} // verus!
