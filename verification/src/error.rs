//! The closed set of rejection kinds. Every rejection is a deterministic
//! function of the input; none is transient or retriable.

use vstd::prelude::*;

verus! {

/// A structural rejection surfaced by validation.
#[derive(Clone, Copy, Debug, PartialEq, Eq, Structural)]
pub enum Error {
    InvalidTransaction,
    InvalidBlock,
    InvalidBlockHeader,
    InvalidTransactionInput,
    InvalidTransactionOutput,
    InvalidMerkleRoot,
    InvalidHash,
    InvalidSignature,
    InvalidPublicKey,
}

impl Error {
    /// A short description of the rejection.
    pub fn message(&self) -> (r: &'static str)
        ensures
            r@.len() > 0,
    {
        let r = match self {
            Error::InvalidTransaction => "Invalid transaction",
            Error::InvalidBlock => "Invalid block",
            Error::InvalidBlockHeader => "Invalid block header",
            Error::InvalidTransactionInput => "Invalid transaction input",
            Error::InvalidTransactionOutput => "Invalid transaction output",
            Error::InvalidMerkleRoot => "Invalid Merkle root",
            Error::InvalidHash => "Invalid hash",
            Error::InvalidSignature => "Invalid signature",
            Error::InvalidPublicKey => "Invalid public key",
        };
        proof {
            reveal_strlit("Invalid transaction");
            reveal_strlit("Invalid block");
            reveal_strlit("Invalid block header");
            reveal_strlit("Invalid transaction input");
            reveal_strlit("Invalid transaction output");
            reveal_strlit("Invalid Merkle root");
            reveal_strlit("Invalid hash");
            reveal_strlit("Invalid signature");
            reveal_strlit("Invalid public key");
        }
        r
    }
}

} // verus!
