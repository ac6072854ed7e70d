//! Decomposition of a fetched transaction into the indexer's model.
use vstd::prelude::*;
use crate::fetcher::fetcher_error::{FetchingError, FetchingResult, NativeFetchingError};
use crate::fetcher::raw::{RawMessage, RawTransaction, TxEnvelope, TxMessage};
use crate::fetcher::tx::{IndexingStatus, ParsedAccount, Tx};
use crate::utils::{
    account_writable, decode_keys, has_upgradeable_loader, is_acc_signer, key_bytes, keys_decode,
    loader_present, signer_slot, writable_flag,
};

verus! {

/// The accounts of a decomposed transaction: the message's keys in order,
/// each with the writable and signer flags the chain derives for it.
pub open spec fn accounts_of(accs: Seq<ParsedAccount>, m: RawMessage) -> bool {
    &&& accs.len() == m.account_keys@.len()
    &&& forall|i: int|
        0 <= i < accs.len() ==> {
            &&& (#[trigger] accs[i]).pubkey@ == m.account_keys@[i]@
            &&& accs[i].writable == account_writable(m, i)
            &&& accs[i].signer == signer_slot(m.header, i)
        }
}

/// The failure that decomposition reports before the signature and block
/// time are read, if any.
pub open spec fn message_failure(raw: RawTransaction) -> Option<NativeFetchingError> {
    match raw.transaction {
        TxEnvelope::Other => Some(NativeFetchingError::WrongEncoding),
        TxEnvelope::Json { message: TxMessage::Parsed, .. } => Some(NativeFetchingError::WrongMsgType),
        TxEnvelope::Json { message: TxMessage::Raw(m), .. } => if m.account_keys@.len() == 0 {
            Some(NativeFetchingError::TxWithoutAccounts)
        } else {
            None
        },
    }
}

/// What decomposition yields for `raw`. The checks come in this order, each
/// with its own failure: the envelope is the JSON encoding, its message is
/// raw, it has accounts, every account key decodes, it has a signature (the
/// first is the hash), and it has a block time. Otherwise the result is the
/// pending transaction built from the message, first recorded at `now`.
pub open spec fn create_tx_post(raw: RawTransaction, now: i64, r: FetchingResult<Tx>) -> bool {
    match message_failure(raw) {
        Some(e) => r matches Err(FetchingError::NativeFetcher(f)) && f == e,
        None => match raw.transaction {
            TxEnvelope::Json { signatures, message: TxMessage::Raw(m) } => {
                if !keys_decode(m) {
                    r matches Err(FetchingError::ParsePubkey(_))
                } else if signatures@.len() == 0 {
                    r matches Err(FetchingError::NativeFetcher(NativeFetchingError::TxWithoutSignatures))
                } else if raw.block_time is None {
                    r matches Err(FetchingError::NativeFetcher(NativeFetchingError::TxWithoutBlocktime))
                } else {
                    r matches Ok(tx) && {
                        &&& tx.hash@ == signatures@[0]@
                        &&& raw.block_time == Some(tx.blocktime)
                        &&& tx.instructions@ == m.instructions@
                        &&& accounts_of(tx.account_keys@, m)
                        &&& tx.indexing_status == IndexingStatus::Pending
                        &&& tx.indexing_timestamp == now
                    }
                }
            },
            _ => false,
        },
    }
}

/// Builds the indexer's transaction from what the remote node returned, at
/// time `now` (seconds since the epoch).
pub fn create_tx(raw: RawTransaction, now: i64) -> (r: FetchingResult<Tx>)
    ensures
        create_tx_post(raw, now, r),
{
    let RawTransaction { transaction, log_messages: _, block_time } = raw;
    let (signatures, message) = match transaction {
        TxEnvelope::Json { signatures, message } => (signatures, message),
        TxEnvelope::Other => {
            return Err(FetchingError::NativeFetcher(NativeFetchingError::WrongEncoding));
        },
    };
    let msg = match message {
        TxMessage::Raw(m) => m,
        TxMessage::Parsed => {
            return Err(FetchingError::NativeFetcher(NativeFetchingError::WrongMsgType));
        },
    };
    if msg.account_keys.len() == 0 {
        return Err(FetchingError::NativeFetcher(NativeFetchingError::TxWithoutAccounts));
    }
    let ks = match decode_keys(&msg) {
        Ok(ks) => ks,
        Err(e) => {
            return Err(FetchingError::ParsePubkey(e));
        },
    };
    let loader = has_upgradeable_loader(&msg, &ks);
    let mut account_keys: Vec<ParsedAccount> = Vec::new();
    let mut i: usize = 0;
    while i < msg.account_keys.len()
        invariant
            i <= msg.account_keys@.len(),
            ks@.len() == msg.account_keys@.len(),
            forall|k: int| 0 <= k < ks@.len() ==> (#[trigger] ks@[k])@ == key_bytes(msg, k),
            loader == loader_present(msg),
            account_keys@.len() == i,
            forall|k: int|
                0 <= k < i ==> {
                    &&& (#[trigger] account_keys@[k]).pubkey@ == msg.account_keys@[k]@
                    &&& account_keys@[k].writable == account_writable(msg, k)
                    &&& account_keys@[k].signer == signer_slot(msg.header, k)
                },
        decreases msg.account_keys@.len() - i,
    {
        let acc = ParsedAccount {
            pubkey: msg.account_keys[i].clone(),
            writable: writable_flag(i, &msg, &ks, loader),
            signer: is_acc_signer(i, &msg),
        };
        account_keys.push(acc);
        i = i + 1;
    }
    if signatures.len() == 0 {
        return Err(FetchingError::NativeFetcher(NativeFetchingError::TxWithoutSignatures));
    }
    let hash = signatures[0].clone();
    let blocktime = match block_time {
        Some(t) => t,
        None => {
            return Err(FetchingError::NativeFetcher(NativeFetchingError::TxWithoutBlocktime));
        },
    };
    let RawMessage { header: _, account_keys: _, instructions } = msg;
    Ok(Tx::new(hash, blocktime, instructions, account_keys, now))
}

} // verus!
