//! The transaction data this subsystem reads, modelled as plain values.
//!
//! The ledger's full transaction structures live outside this crate; only the
//! fields the verification subsystem inspects are held here. Account addresses and
//! key fingerprints are carried as plain integers and byte vectors.

use vstd::prelude::*;

verus! {

/// Typed failure of a verification request. Every request resolves to either
/// a verified transaction or one of these kinds.
#[derive(Clone, Copy, Debug, PartialEq, Eq, Structural)]
pub enum TxAddError {
    /// A pubkey-change lacked an embedded signature and the authority denied
    /// the delegated authorization.
    ChangePkNotAuthorized,
    /// Direct-scheme signature recovery failed, or the recovered account did
    /// not match the transaction's declared account.
    IncorrectEthSignature,
    /// The authority itself errored while evaluating a contract-based
    /// signature.
    EIP1271SignatureVerificationFail,
    /// The contract-based signature was judged invalid by the authority, or
    /// the native correctness check failed.
    IncorrectTx,
}

/// A pubkey-change transaction: rotates the signing key of `account`.
///
/// `eth_signature` is the signature embedded in the transaction itself; it is
/// absent when a previously recorded delegation authorizes the rotation, in
/// which case the authority is consulted instead.
#[derive(Clone, Debug, PartialEq)]
pub struct ChangePubKeyTx {
    pub account: u64,
    pub nonce: u32,
    pub new_pk_hash: Vec<u8>,
    pub eth_signature: Option<Vec<u8>>,
}

/// A funds transfer; this subsystem reads only its owning account.
#[derive(Clone, Debug, PartialEq)]
pub struct TransferTx {
    pub account: u64,
}

/// A ledger transaction, polymorphic over its kind. The verification subsystem
/// distinguishes the pubkey-change kind; every kind exposes its owning
/// account.
#[derive(Clone, Debug, PartialEq)]
pub enum ZkSyncTx {
    ChangePubKey(ChangePubKeyTx),
    Transfer(TransferTx),
}

impl ZkSyncTx {
    /// The account that owns this transaction.
    pub open spec fn spec_account(&self) -> u64 {
        match self {
            ZkSyncTx::ChangePubKey(change_pk) => change_pk.account,
            ZkSyncTx::Transfer(transfer) => transfer.account,
        }
    }

    /// Returns the account that owns this transaction.
    pub fn account(&self) -> (account: u64)
        ensures
            account == self.spec_account(),
    {
        match self {
            ZkSyncTx::ChangePubKey(change_pk) => change_pk.account,
            ZkSyncTx::Transfer(transfer) => transfer.account,
        }
    }
}

/// An external signature attached to a verification request, tagged with its
/// scheme.
#[derive(Clone, Debug, PartialEq)]
pub enum TxEthSignature {
    /// Direct scheme: a recoverable signature over the raw message bytes; the
    /// signing account is recovered locally.
    EthereumSignature(Vec<u8>),
    /// Contract-based scheme: opaque signature bytes judged by the external
    /// authority over the prefixed personal-message encoding.
    EIP1271Signature(Vec<u8>),
}

/// External signature data: the signed message together with the signature
/// and its scheme.
#[derive(Clone, Debug, PartialEq)]
pub struct EthSignData {
    pub signature: TxEthSignature,
    pub message: Vec<u8>,
}

/// A transaction together with its (possibly absent) external signature data.
#[derive(Clone, Debug, PartialEq)]
pub struct SignedZkSyncTx {
    pub tx: ZkSyncTx,
    pub eth_sign_data: Option<EthSignData>,
}

/// An error reported by the external authority while it evaluated a
/// contract-based signature.
#[derive(Clone, Debug, PartialEq)]
pub struct AuthorityError {
    pub message: String,
}

/// Request for the signature check: the transaction and its optional external
/// signature data. The surrounding worker pairs each request with a private
/// single-use reply channel.
#[derive(Clone, Debug, PartialEq)]
pub struct VerifyTxSignatureRequest {
    pub tx: ZkSyncTx,
    pub eth_sign_data: Option<EthSignData>,
}

} // verus!
