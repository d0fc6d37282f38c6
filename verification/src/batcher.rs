//! From payload bytes to what the signer is asked to sign: one transaction,
//! then one batch that holds that transaction and nothing else.
//!
//! Signing itself is the caller's: the batcher says what is to be signed and
//! judges what came back.

use vstd::prelude::*;
use vstd::string::*;
use vstd::slice::slice_to_vec;
use crate::error::{ErrorKind, PCError};
use crate::handler::{PRODUCE_CONSUME, VERSION};

verus! {

/// How the payload of a transaction is hashed.
#[derive(Clone, Copy, Debug, PartialEq, Eq, Structural)]
pub enum HashMethod {
    /// SHA-512.
    Sha512,
}

/// What a transaction is built from.
#[derive(Clone, Debug, PartialEq, Eq)]
pub struct TransactionRequest {
    /// The public key of the batcher that will sign the batch.
    pub batcher_public_key: Vec<u8>,
    /// The family that routes the payload to its handler.
    pub family_name: String,
    /// The family's version.
    pub family_version: String,
    /// The addresses the transaction may read.
    pub inputs: Vec<Vec<u8>>,
    /// The addresses the transaction may write.
    pub outputs: Vec<Vec<u8>>,
    /// What tells this transaction from another with the same payload.
    pub nonce: Vec<u8>,
    /// How the payload is hashed.
    pub payload_hash_method: HashMethod,
    /// The payload.
    pub payload: Vec<u8>,
}

/// A signed transaction.
#[derive(Clone, Debug, PartialEq, Eq)]
pub struct Transaction {
    /// The serialized header.
    pub header: Vec<u8>,
    /// The signature over the header.
    pub header_signature: String,
    /// The payload.
    pub payload: Vec<u8>,
}

/// What a batch is built from.
#[derive(Clone, Debug, PartialEq, Eq)]
pub struct BatchRequest {
    /// The transactions of the batch, in order.
    pub transactions: Vec<Transaction>,
}

/// A signed batch.
#[derive(Clone, Debug, PartialEq, Eq)]
pub struct Batch {
    /// The serialized header.
    pub header: Vec<u8>,
    /// The signature over the header.
    pub header_signature: String,
    /// The transactions of the batch, in order.
    pub transactions: Vec<Transaction>,
}

/// Holds the signing identity's public key and shapes what it signs.
#[derive(Clone, Debug, PartialEq, Eq)]
pub struct Batcher {
    public_key: Vec<u8>,
}

/// The name of the family whose handler applies the payloads.
pub open spec fn family_name() -> Seq<char> {
    PRODUCE_CONSUME@
}

/// The version of the family.
pub open spec fn family_version() -> Seq<char> {
    VERSION@
}

/// The words put before the cause when a transaction cannot be built.
pub open spec fn transaction_failure_prefix() -> Seq<char> {
    "Txn Builder: "@
}

/// The words put before the cause when a batch cannot be built.
pub open spec fn batch_failure_prefix() -> Seq<char> {
    "BatchBuilder: "@
}

impl Batcher {
    /// A batcher for the signing identity with the given public key.
    pub fn new(public_key: Vec<u8>) -> (batcher: Batcher)
        ensures
            batcher.public_key_bytes() == public_key@,
    {
        Batcher { public_key }
    }

    /// The public key of the signing identity.
    pub closed spec fn public_key_bytes(&self) -> Seq<u8> {
        self.public_key@
    }

    /// The public key of the signing identity.
    pub fn public_key(&self) -> (key: Vec<u8>)
        ensures
            key@ == self.public_key_bytes(),
    {
        self.public_key.clone()
    }

    /// What the transaction for a payload is built from: the batcher's key,
    /// the family and its version, the given addresses and nonce, SHA-512 as
    /// the payload's hash, and the payload.
    pub fn get_txn(
        &self,
        raw_bytes: &[u8],
        inputs: Vec<Vec<u8>>,
        outputs: Vec<Vec<u8>>,
        nonce: Vec<u8>,
    ) -> (request: TransactionRequest)
        ensures
            request.batcher_public_key@ == self.public_key_bytes(),
            request.family_name@ == family_name(),
            request.family_version@ == family_version(),
            request.inputs == inputs,
            request.outputs == outputs,
            request.nonce == nonce,
            request.payload_hash_method == HashMethod::Sha512,
            request.payload@ == raw_bytes@,
    {
        TransactionRequest {
            batcher_public_key: self.public_key.clone(),
            family_name: String::from_str(PRODUCE_CONSUME),
            family_version: String::from_str(VERSION),
            inputs,
            outputs,
            nonce,
            payload_hash_method: HashMethod::Sha512,
            payload: slice_to_vec(raw_bytes),
        }
    }

    /// Judges what the signer made of a transaction request: the signed
    /// transaction as it is, or a signing error that names the builder and
    /// gives the signer's words.
    pub fn signed_txn(outcome: Result<Transaction, String>) -> (r: Result<Transaction, PCError>)
        ensures
            match outcome {
                Ok(transaction) => r == Ok::<Transaction, PCError>(transaction),
                Err(cause) => r matches Err(e) && e.kind == ErrorKind::SigningError && e.message@
                    == transaction_failure_prefix() + cause@,
            },
    {
        match outcome {
            Ok(transaction) => Ok(transaction),
            Err(cause) => Err(
                PCError::new(
                    ErrorKind::SigningError,
                    String::from_str("Txn Builder: ").concat(cause.as_str()),
                ),
            ),
        }
    }

    /// What the batch for a signed transaction is built from: that
    /// transaction and no other.
    pub fn get_batch(&self, transaction: Transaction) -> (request: BatchRequest)
        ensures
            request.transactions@ == seq![transaction],
    {
        let mut transactions: Vec<Transaction> = Vec::new();
        transactions.push(transaction);
        assert(transactions@ =~= seq![transaction]);
        BatchRequest { transactions }
    }

    /// Judges what the signer made of a batch request: the signed batch as
    /// it is, or a signing error that names the builder and gives the
    /// signer's words.
    pub fn signed_batch(outcome: Result<Batch, String>) -> (r: Result<Batch, PCError>)
        ensures
            match outcome {
                Ok(batch) => r == Ok::<Batch, PCError>(batch),
                Err(cause) => r matches Err(e) && e.kind == ErrorKind::SigningError && e.message@
                    == batch_failure_prefix() + cause@,
            },
    {
        match outcome {
            Ok(batch) => Ok(batch),
            Err(cause) => Err(
                PCError::new(
                    ErrorKind::SigningError,
                    String::from_str("BatchBuilder: ").concat(cause.as_str()),
                ),
            ),
        }
    }
}

} // verus!
