//! The chain-specific policy of the extrinsic pool: how a submitted
//! extrinsic is verified and scored, and what an import reports back.

use std::cmp::Ordering;
use std::collections::HashMap;

use vstd::prelude::*;

use crate::hashing::{blake2_256, blake2_256_digest};
use crate::hex::{lemma_parse_hex_text, parse_h256, spec_hex_text, spec_parse_h256};
use crate::primitives::H256;
use crate::runtime::{AccountId, Address, UncheckedExtrinsic};

verus! {

/// A block, named by its hash or by its number.
#[derive(Clone, Copy, Debug)]
pub enum BlockId {
    Hash(H256),
    Number(u64),
}

/// An extrinsic that passed verification, with what the pool keeps of it.
#[derive(Clone, Copy, Debug)]
pub struct VerifiedExtrinsic {
    sender: Option<H256>,
    hash: H256,
    encoded_size: usize,
}

impl VerifiedExtrinsic {
    pub closed spec fn spec_sender(&self) -> Option<H256> {
        self.sender
    }

    pub closed spec fn spec_hash(&self) -> H256 {
        self.hash
    }

    pub closed spec fn spec_encoded_size(&self) -> usize {
        self.encoded_size
    }

    /// Get the 256-bit hash of this transaction.
    pub fn hash(&self) -> (h: &H256)
        ensures
            *h == self.spec_hash(),
    {
        &self.hash
    }

    /// Get encoded size of the transaction.
    pub fn encoded_size(&self) -> (n: usize)
        ensures
            n == self.spec_encoded_size(),
    {
        self.encoded_size
    }

    /// Get the account ID of the sender of this transaction: none when the
    /// transaction is signed by an account index that names no known account.
    pub fn sender(&self) -> (s: Option<H256>)
        ensures
            s == self.spec_sender(),
    {
        self.sender
    }

    /// The memory that the pool accounts to this transaction: its encoded size.
    pub fn mem_usage(&self) -> (n: usize)
        ensures
            n == self.spec_encoded_size(),
    {
        self.encoded_size
    }
}

/// Whether a transaction can be included now.
#[derive(Clone, Copy, Debug, PartialEq, Eq, Structural)]
pub enum Readiness {
    /// Can never be included.
    Stale,
    /// Can be included later.
    Future,
    /// Can be included now.
    Ready,
}

/// What the pool does when a new transaction meets an old one.
#[derive(Clone, Copy, Debug, PartialEq, Eq, Structural)]
pub enum Choice {
    /// Reject the new transaction.
    RejectNew,
    /// Replace the old transaction with the new one.
    ReplaceOld,
    /// Keep both.
    InsertNew,
}

/// The change of the pool after which scores are updated.
#[derive(Clone, Copy, Debug, PartialEq, Eq, Structural)]
pub enum Change {
    InsertedAt(usize),
    RemovedAt(usize),
    ReplacedAt(usize),
    Culled(usize),
    Event,
}

/// An error of the extrinsic pool, as far as this library tells errors apart.
pub enum PoolError {
    /// The extrinsic is in the pool already; the text names its hash.
    AlreadyImported(String),
    /// Any other error.
    Other,
}

/// The scoring of transactions in the pool.
#[derive(Clone, Copy, Debug)]
pub struct Scoring;

/// The chain-specific part of the extrinsic pool.
#[derive(Clone, Copy, Debug)]
pub struct PoolApi;

impl PoolApi {
    /// The pool API.
    pub fn default() -> (api: Self)
        ensures
            api == PoolApi,
    {
        PoolApi
    }

    /// Verifies an extrinsic. `encoded` is its encoding, and
    /// `index_account` is the account that the caller looked up for the
    /// signer when the signer is given by an account index. Every extrinsic
    /// is taken. It is known by the BLAKE2b-256 hash of its encoding, and its
    /// sender is the account that signed it, if that account is known.
    pub fn verify_transaction(
        &self,
        at: &BlockId,
        uxt: &UncheckedExtrinsic,
        encoded: &[u8],
        index_account: Option<AccountId>,
    ) -> (verified: Result<VerifiedExtrinsic, PoolError>)
        ensures
            verified matches Ok(v) && {
                &&& v.spec_hash()@ == blake2_256(encoded@)
                &&& v.spec_encoded_size() == encoded@.len()
                &&& match signer_account(uxt.extrinsic.signed, index_account) {
                    Some(a) => v.spec_sender() matches Some(s) && s@ == a.0@,
                    None => v.spec_sender() is None,
                }
            },
    {
        let sender = match uxt.extrinsic.signed {
            Address::Id(a) => Some(a.0),
            Address::Index(_) => match index_account {
                Some(a) => Some(a.0),
                None => None,
            },
        };
        let encoded_size = encoded.len();
        let hash = blake2_256_digest(encoded);
        Ok(VerifiedExtrinsic { sender, hash, encoded_size })
    }

    /// The cache of account nonces with which readiness is decided: empty.
    pub fn ready(&self) -> (cache: HashMap<H256, u64>)
        ensures
            cache@ == Map::<H256, u64>::empty(),
    {
        HashMap::new()
    }

    /// Every transaction is ready, and the cache is left as it is.
    pub fn is_ready(
        &self,
        at: &BlockId,
        nonce_cache: &mut HashMap<H256, u64>,
        xt: &VerifiedExtrinsic,
    ) -> (readiness: Readiness)
        ensures
            readiness == Readiness::Ready,
            final(nonce_cache)@ == old(nonce_cache)@,
    {
        Readiness::Ready
    }

    /// All transactions compare equal.
    pub fn compare(old: &VerifiedExtrinsic, other: &VerifiedExtrinsic) -> (order: Ordering)
        ensures
            order == Ordering::Equal,
    {
        Ordering::Equal
    }

    /// A new transaction is kept beside an old one.
    pub fn choose_between(old: &VerifiedExtrinsic, new: &VerifiedExtrinsic) -> (choice: Choice)
        ensures
            choice == Choice::InsertNew,
    {
        Choice::InsertNew
    }

    /// Scores are left as they are, whatever changed.
    pub fn update_scores(xts: &[VerifiedExtrinsic], scores: &mut [u64], change: Change)
        ensures
            final(scores)@ == old(scores)@,
    {
    }

    /// A full pool keeps the old transaction and also takes the new one.
    pub fn should_replace(old: &VerifiedExtrinsic, new: &VerifiedExtrinsic) -> (choice: Choice)
        ensures
            choice == Choice::InsertNew,
    {
        Choice::InsertNew
    }
}

/// The account that signed an extrinsic: the account itself, or, for an
/// account index, the account that the caller looked up for it.
pub open spec fn signer_account(signed: Address, index_account: Option<AccountId>) -> Option<AccountId> {
    match signed {
        Address::Id(a) => Some(a),
        Address::Index(_) => index_account,
    }
}

/// What an import reports of the pool's answer: the hash of the extrinsic
/// when the pool took it or had it already, else nothing.
pub open spec fn spec_import_result(submitted: Result<H256, PoolError>) -> Option<Seq<u8>> {
    match submitted {
        Ok(h) => Some(h@),
        Err(PoolError::AlreadyImported(text)) => spec_parse_h256(text@),
        Err(_) => None,
    }
}

/// When the pool took the extrinsic, an import reports exactly the hash
/// that the pool gave; when the pool had it already, the hash that the
/// pool's text names; on any other error, nothing.
pub proof fn lemma_import_result_laws(h: H256, text: String)
    ensures
        spec_import_result(Ok(h)) == Some(h@),
        spec_import_result(Err(PoolError::AlreadyImported(text))) == spec_parse_h256(text@),
        spec_import_result(Err(PoolError::Other)) is None,
{
}

/// When the pool answers that it had the extrinsic already, naming its hash
/// by the lower-case hex text, with or without `0x`, the import reports that
/// hash: a second import of a taken extrinsic reports the hash of the first.
pub proof fn lemma_already_imported_reports_hash(h: H256, text: String)
    requires
        text@ == spec_hex_text(h@) || text@ == seq!['0', 'x'] + spec_hex_text(h@),
    ensures
        spec_import_result(Err(PoolError::AlreadyImported(text))) == Some(h@),
        spec_import_result(Err(PoolError::AlreadyImported(text))) == spec_import_result(Ok(h)),
{
    lemma_parse_hex_text(h@);
}

/// Turns the pool's answer to a submission into the hash that an import
/// reports. The text of an `AlreadyImported` error must name a hash.
pub fn import_result(submitted: Result<H256, PoolError>) -> (imported: Option<H256>)
    requires
        submitted matches Err(PoolError::AlreadyImported(text)) ==> spec_parse_h256(text@) is Some,
    ensures
        submitted matches Ok(h) ==> imported == Some(h),
        submitted matches Err(PoolError::Other) ==> imported is None,
        match imported {
            Some(h) => spec_import_result(submitted) == Some(h@),
            None => spec_import_result(submitted) is None,
        },
{
    match submitted {
        Ok(h) => Some(h),
        Err(PoolError::AlreadyImported(text)) => parse_h256(text.as_str()),
        Err(_) => None,
    }
}

/// The outcome of an import: the hash that the pool's answer names, or
/// nothing when the extrinsic was not submitted (it did not decode, or the
/// best block is unknown).
pub fn import_outcome(submitted: Option<Result<H256, PoolError>>) -> (imported: Option<H256>)
    requires
        submitted matches Some(Err(PoolError::AlreadyImported(text))) ==> spec_parse_h256(text@) is Some,
    ensures
        submitted matches Some(Ok(h)) ==> imported == Some(h),
        match submitted {
            Some(r) => match imported {
                Some(h) => spec_import_result(r) == Some(h@),
                None => spec_import_result(r) is None,
            },
            None => imported is None,
        },
{
    match submitted {
        Some(r) => import_result(r),
        None => None,
    }
}

/// The pending transactions that the network layer is handed: those that
/// the pool culled and handed out at the best block, or none when the best
/// block is unknown (`None`) or the pool failed.
pub fn pending_transactions<T>(pending: Option<Result<Vec<(H256, T)>, PoolError>>) -> (out: Vec<(H256, T)>)
    ensures
        out@ == match pending {
            Some(Ok(v)) => v@,
            _ => Seq::<(H256, T)>::empty(),
        },
{
    match pending {
        Some(Ok(v)) => v,
        _ => Vec::new(),
    }
}

} // verus!
