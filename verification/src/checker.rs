//! The signature-verification decision procedure.
//!
//! `VerifiedTx::verify` is the one-shot decision procedure: given a request
//! and the verdicts of the external collaborators it resolves the request to
//! a verified transaction or a typed failure, exactly as `expected_outcome`
//! states. `SignatureVerifier` is the same algorithm as a step-wise state
//! machine: each step either completes the request or hands the caller the
//! next piece of outside work (an authority round trip, a signature recovery,
//! the native check) and a verifier awaiting its result. The surrounding
//! worker drives one machine per request on its own concurrency domain.

use vstd::prelude::*;

use crate::encoding::{personal_message, wrap_personal_message};
use crate::tx::{
    AuthorityError, EthSignData, SignedZkSyncTx, TxAddError, TxEthSignature,
    VerifyTxSignatureRequest, ZkSyncTx,
};

verus! {

/// Verdicts of the external collaborators a verification may consult: the
/// authority's two answers, the locally recovered signing account, and the
/// ledger-native correctness check. A verdict is read only when the
/// algorithm's branch structure asks for it.
#[derive(Debug, PartialEq)]
pub struct ExternalChecks {
    /// The authority's answer to "is this pubkey change authorized".
    pub pubkey_change_authorized: bool,
    /// The account recovered from a direct-scheme signature, or `None` when
    /// recovery failed.
    pub recovered_signer: Option<u64>,
    /// The authority's judgement of a contract-based signature.
    pub contract_signature: Result<bool, AuthorityError>,
    /// The outcome of the transaction's native self-consistency check.
    pub tx_valid: bool,
}

/// Whether the transaction is a pubkey-change without an embedded signature,
/// so that the authority must be asked for the delegated authorization.
pub open spec fn needs_pubkey_auth_query(tx: ZkSyncTx) -> bool {
    tx matches ZkSyncTx::ChangePubKey(change_pk) && change_pk.eth_signature is None
}

/// The result a verification request must resolve to, given the transaction,
/// its external signature data, and the external collaborators' verdicts.
///
/// The branches apply in the algorithm's order: the delegated-authorization
/// branch, then the external-signature branch for the scheme at hand, then
/// the native correctness check; success wraps the request unchanged.
pub open spec fn expected_outcome(
    tx: ZkSyncTx,
    eth_sign_data: Option<EthSignData>,
    checks: ExternalChecks,
) -> Result<SignedZkSyncTx, TxAddError> {
    if needs_pubkey_auth_query(tx) && !checks.pubkey_change_authorized {
        Err(TxAddError::ChangePkNotAuthorized)
    } else if eth_sign_data matches Some(sign_data)
        && sign_data.signature matches TxEthSignature::EthereumSignature(_)
        && checks.recovered_signer != Some(tx.spec_account()) {
        Err(TxAddError::IncorrectEthSignature)
    } else if eth_sign_data matches Some(sign_data)
        && sign_data.signature matches TxEthSignature::EIP1271Signature(_)
        && checks.contract_signature is Err {
        Err(TxAddError::EIP1271SignatureVerificationFail)
    } else if eth_sign_data matches Some(sign_data)
        && sign_data.signature matches TxEthSignature::EIP1271Signature(_)
        && checks.contract_signature matches Ok(valid) && !valid {
        Err(TxAddError::IncorrectTx)
    } else if !checks.tx_valid {
        Err(TxAddError::IncorrectTx)
    } else {
        Ok(SignedZkSyncTx { tx, eth_sign_data })
    }
}

/// Whether an executable verification result agrees with the stated outcome:
/// same error on failure, and on success a wrapper holding exactly the stated
/// transaction and signature data.
pub open spec fn outcome_matches(
    result: Result<VerifiedTx, TxAddError>,
    outcome: Result<SignedZkSyncTx, TxAddError>,
) -> bool {
    match result {
        Ok(verified) => outcome matches Ok(signed) && verified.spec_inner() == signed,
        Err(err) => outcome matches Err(expected) && err == expected,
    }
}

/// Law: for a transaction that carries no external signature data and is not
/// a signature-less pubkey-change, the outcome equals the outcome of the
/// native correctness check alone, whatever the other verdicts are.
pub proof fn lemma_native_check_alone(tx: ZkSyncTx, checks: ExternalChecks)
    requires
        !needs_pubkey_auth_query(tx),
    ensures
        expected_outcome(tx, None, checks) == if checks.tx_valid {
            Ok::<SignedZkSyncTx, TxAddError>((SignedZkSyncTx { tx, eth_sign_data: None }))
        } else {
            Err::<SignedZkSyncTx, TxAddError>(TxAddError::IncorrectTx)
        },
{
}

/// Law: a pubkey-change without an embedded signature that the authority
/// refuses always resolves to `ChangePkNotAuthorized`, never to a different
/// error, whatever the request's signature data and the other verdicts are.
pub proof fn lemma_unauthorized_change_rejected(
    tx: ZkSyncTx,
    eth_sign_data: Option<EthSignData>,
    checks: ExternalChecks,
)
    requires
        needs_pubkey_auth_query(tx),
        !checks.pubkey_change_authorized,
    ensures
        expected_outcome(tx, eth_sign_data, checks) == Err::<SignedZkSyncTx, TxAddError>(
            TxAddError::ChangePkNotAuthorized,
        ),
{
}

/// Law: under the direct scheme, once no delegated authorization stands in
/// the way, a recovered account that is not the transaction's declared
/// account (including a failed recovery) resolves to `IncorrectEthSignature`,
/// and a matching account leaves the outcome to the native check alone.
pub proof fn lemma_direct_scheme_reply(
    tx: ZkSyncTx,
    eth_sign_data: Option<EthSignData>,
    checks: ExternalChecks,
)
    requires
        eth_sign_data matches Some(sign_data) && sign_data.signature matches
            TxEthSignature::EthereumSignature(_),
        needs_pubkey_auth_query(tx) ==> checks.pubkey_change_authorized,
    ensures
        checks.recovered_signer != Some(tx.spec_account()) ==> expected_outcome(
            tx,
            eth_sign_data,
            checks,
        ) == Err::<SignedZkSyncTx, TxAddError>(TxAddError::IncorrectEthSignature),
        checks.recovered_signer == Some(tx.spec_account()) ==> expected_outcome(
            tx,
            eth_sign_data,
            checks,
        ) == if checks.tx_valid {
            Ok::<SignedZkSyncTx, TxAddError>((SignedZkSyncTx { tx, eth_sign_data }))
        } else {
            Err::<SignedZkSyncTx, TxAddError>(TxAddError::IncorrectTx)
        },
{
}

/// Law: under the contract-based scheme, once no delegated authorization
/// stands in the way, an authority-side error resolves to
/// `EIP1271SignatureVerificationFail`, an "invalid" answer to `IncorrectTx`,
/// and a "valid" answer leaves the outcome to the native check alone.
pub proof fn lemma_contract_scheme_reply(
    tx: ZkSyncTx,
    eth_sign_data: Option<EthSignData>,
    checks: ExternalChecks,
)
    requires
        eth_sign_data matches Some(sign_data) && sign_data.signature matches
            TxEthSignature::EIP1271Signature(_),
        needs_pubkey_auth_query(tx) ==> checks.pubkey_change_authorized,
    ensures
        checks.contract_signature matches Err(_) ==> expected_outcome(tx, eth_sign_data, checks)
            == Err::<SignedZkSyncTx, TxAddError>(TxAddError::EIP1271SignatureVerificationFail),
        checks.contract_signature matches Ok(valid) && !valid ==> expected_outcome(
            tx,
            eth_sign_data,
            checks,
        ) == Err::<SignedZkSyncTx, TxAddError>(TxAddError::IncorrectTx),
        checks.contract_signature matches Ok(valid) && valid ==> expected_outcome(
            tx,
            eth_sign_data,
            checks,
        ) == if checks.tx_valid {
            Ok::<SignedZkSyncTx, TxAddError>((SignedZkSyncTx { tx, eth_sign_data }))
        } else {
            Err::<SignedZkSyncTx, TxAddError>(TxAddError::IncorrectTx)
        },
{
}

/// Wrapper on a `ZkSyncTx` which guarantees that the transaction was checked
/// and the signatures associated with it are correct.
///
/// The underlying transaction is a private field, so no such object can be
/// created outside this module: the successful-verification paths are its
/// only constructors.
#[derive(Clone, Debug)]
pub struct VerifiedTx(SignedZkSyncTx);

impl VerifiedTx {
    /// The transaction and signature data this wrapper certifies.
    pub closed spec fn spec_inner(&self) -> SignedZkSyncTx {
        self.0
    }

    /// Checks the transaction's correctness: its external signature layer
    /// (when one applies) against the collaborators' verdicts, and its native
    /// self-consistency check.
    pub fn verify(request: VerifyTxSignatureRequest, checks: &ExternalChecks) -> (result: Result<
        VerifiedTx,
        TxAddError,
    >)
        ensures
            outcome_matches(result, expected_outcome(request.tx, request.eth_sign_data, *checks)),
    {
        let VerifyTxSignatureRequest { tx, eth_sign_data } = request;
        if let ZkSyncTx::ChangePubKey(change_pk) = &tx {
            if change_pk.eth_signature.is_none() && !checks.pubkey_change_authorized {
                return Err(TxAddError::ChangePkNotAuthorized);
            }
        }
        if let Some(sign_data) = &eth_sign_data {
            match &sign_data.signature {
                TxEthSignature::EthereumSignature(_) => {
                    let declared = tx.account();
                    match checks.recovered_signer {
                        Some(signer) => {
                            if signer != declared {
                                return Err(TxAddError::IncorrectEthSignature);
                            }
                        },
                        None => {
                            return Err(TxAddError::IncorrectEthSignature);
                        },
                    }
                },
                TxEthSignature::EIP1271Signature(_) => {
                    match &checks.contract_signature {
                        Ok(valid) => {
                            if !*valid {
                                return Err(TxAddError::IncorrectTx);
                            }
                        },
                        Err(_) => {
                            return Err(TxAddError::EIP1271SignatureVerificationFail);
                        },
                    }
                },
            }
        }
        if !checks.tx_valid {
            return Err(TxAddError::IncorrectTx);
        }
        Ok(VerifiedTx(SignedZkSyncTx { tx, eth_sign_data }))
    }

    /// Takes the transaction and signature data out of the wrapper.
    pub fn into_inner(self) -> (inner: SignedZkSyncTx)
        ensures
            inner == self.spec_inner(),
    {
        self.0
    }

    /// Takes a reference to the inner transaction and signature data.
    pub fn inner(&self) -> (inner: &SignedZkSyncTx)
        ensures
            *inner == self.spec_inner(),
    {
        &self.0
    }
}

/// The piece of outside work a `SignatureVerifier` is suspended on.
#[derive(Clone, Copy, Debug, PartialEq, Eq, Structural)]
pub enum VerifierStage {
    /// Awaiting the authority's "is pubkey change authorized" answer.
    PendingAuthorizationQuery,
    /// Awaiting the recovery of the signing account from a direct-scheme
    /// signature.
    PendingRecovery,
    /// Awaiting the authority's judgement of a contract-based signature.
    PendingContractSignatureQuery,
    /// Awaiting the transaction's native self-consistency check.
    NativeCheck,
}

/// The decision procedure as a step-wise state machine over one request.
///
/// Obtained from `SignatureVerifier::start` and advanced by the `on_*` steps,
/// each of which consumes the machine and either completes the request or
/// returns it suspended on the next piece of outside work. The fields are
/// private: a caller can only run the machine from its start, so the
/// completion paths stay the only constructors of `VerifiedTx`.
#[derive(Debug)]
pub struct SignatureVerifier {
    tx: ZkSyncTx,
    eth_sign_data: Option<EthSignData>,
    stage: VerifierStage,
}

/// What a step of the machine asks of its caller: perform the named piece of
/// outside work and hand the result to the carried verifier, or deliver the
/// finished result.
#[derive(Debug)]
pub enum VerifierStep {
    /// Ask the authority whether the key rotation was authorized by a prior
    /// delegation; answer with `on_pubkey_auth_reply`.
    QueryPubKeyChangeAuthorized {
        account: u64,
        nonce: u32,
        pubkey_hash: Vec<u8>,
        next: SignatureVerifier,
    },
    /// Recover the signing account from the direct-scheme signature over the
    /// raw message bytes; answer with `on_recovery_reply`.
    RecoverSigner { signature: Vec<u8>, message: Vec<u8>, next: SignatureVerifier },
    /// Ask the authority to judge the contract-based signature over the
    /// wrapped message; answer with `on_contract_check_reply`.
    QueryContractSignature {
        account: u64,
        message: Vec<u8>,
        signature: Vec<u8>,
        next: SignatureVerifier,
    },
    /// Run the transaction's native self-consistency check; answer with
    /// `on_native_check_reply`.
    RunNativeCheck { next: SignatureVerifier },
    /// The request is resolved.
    Done { result: Result<VerifiedTx, TxAddError> },
}

/// Whether `step` resolves the request with the error `err`.
pub open spec fn step_done_with_err(step: VerifierStep, err: TxAddError) -> bool {
    step matches VerifierStep::Done { result } && result matches Err(actual) && actual == err
}

/// Whether `step` asks for the native check, carrying a verifier that still
/// holds the given request.
pub open spec fn step_runs_native_check(
    step: VerifierStep,
    tx: ZkSyncTx,
    eth_sign_data: Option<EthSignData>,
) -> bool {
    &&& step matches VerifierStep::RunNativeCheck { next }
    &&& next.spec_tx() == tx
    &&& next.spec_sign_data() == eth_sign_data
    &&& next.spec_stage() == VerifierStage::NativeCheck
}

/// Whether `step` asks the delegated-authorization question for the given
/// pubkey-change request, carrying a verifier that still holds the request.
pub open spec fn step_queries_pubkey_auth(
    step: VerifierStep,
    tx: ZkSyncTx,
    eth_sign_data: Option<EthSignData>,
) -> bool {
    &&& tx matches ZkSyncTx::ChangePubKey(change_pk)
    &&& step matches VerifierStep::QueryPubKeyChangeAuthorized {
        account,
        nonce,
        pubkey_hash,
        next,
    }
    &&& account == change_pk.account
    &&& nonce == change_pk.nonce
    &&& pubkey_hash@ == change_pk.new_pk_hash@
    &&& next.spec_tx() == tx
    &&& next.spec_sign_data() == eth_sign_data
    &&& next.spec_stage() == VerifierStage::PendingAuthorizationQuery
}

/// What dispatching on the external-signature data must produce: no data asks
/// for the native check at once; a direct-scheme signature asks for recovery
/// over the raw message bytes; a contract-based signature asks the authority
/// over the wrapped message.
pub open spec fn signature_dispatch_post(
    tx: ZkSyncTx,
    eth_sign_data: Option<EthSignData>,
    step: VerifierStep,
) -> bool {
    match eth_sign_data {
        None => step_runs_native_check(step, tx, eth_sign_data),
        Some(sign_data) => match sign_data.signature {
            TxEthSignature::EthereumSignature(signature) => {
                &&& step matches VerifierStep::RecoverSigner {
                    signature: carried_signature,
                    message,
                    next,
                }
                &&& carried_signature@ == signature@
                &&& message@ == sign_data.message@
                &&& next.spec_tx() == tx
                &&& next.spec_sign_data() == eth_sign_data
                &&& next.spec_stage() == VerifierStage::PendingRecovery
            },
            TxEthSignature::EIP1271Signature(signature) => {
                &&& step matches VerifierStep::QueryContractSignature {
                    account,
                    message,
                    signature: carried_signature,
                    next,
                }
                &&& account == tx.spec_account()
                &&& message@ == personal_message(sign_data.message@)
                &&& carried_signature@ == signature@
                &&& next.spec_tx() == tx
                &&& next.spec_sign_data() == eth_sign_data
                &&& next.spec_stage() == VerifierStage::PendingContractSignatureQuery
            },
        },
    }
}

/// Runs a machine suspended after its external-signature dispatch to
/// completion, answering the remaining steps from the given verdicts.
fn run_signature_branch(
    step: VerifierStep,
    recovered_signer: Option<u64>,
    contract_signature: Result<bool, AuthorityError>,
    tx_valid: bool,
    Ghost(tx): Ghost<ZkSyncTx>,
    Ghost(eth_sign_data): Ghost<Option<EthSignData>>,
    Ghost(checks): Ghost<ExternalChecks>,
) -> (result: Result<VerifiedTx, TxAddError>)
    requires
        signature_dispatch_post(tx, eth_sign_data, step),
        checks.recovered_signer == recovered_signer,
        checks.contract_signature == contract_signature,
        checks.tx_valid == tx_valid,
        needs_pubkey_auth_query(tx) ==> checks.pubkey_change_authorized,
    ensures
        outcome_matches(result, expected_outcome(tx, eth_sign_data, checks)),
{
    match step {
        VerifierStep::RecoverSigner { next, .. } => {
            match next.on_recovery_reply(recovered_signer) {
                VerifierStep::RunNativeCheck { next } => {
                    match next.on_native_check_reply(tx_valid) {
                        VerifierStep::Done { result } => result,
                        _ => {
                            proof {
                                assert(false);
                            }
                            Err(TxAddError::IncorrectTx)
                        },
                    }
                },
                VerifierStep::Done { result } => result,
                _ => {
                    proof {
                        assert(false);
                    }
                    Err(TxAddError::IncorrectTx)
                },
            }
        },
        VerifierStep::QueryContractSignature { next, .. } => {
            match next.on_contract_check_reply(contract_signature) {
                VerifierStep::RunNativeCheck { next } => {
                    match next.on_native_check_reply(tx_valid) {
                        VerifierStep::Done { result } => result,
                        _ => {
                            proof {
                                assert(false);
                            }
                            Err(TxAddError::IncorrectTx)
                        },
                    }
                },
                VerifierStep::Done { result } => result,
                _ => {
                    proof {
                        assert(false);
                    }
                    Err(TxAddError::IncorrectTx)
                },
            }
        },
        VerifierStep::RunNativeCheck { next } => {
            match next.on_native_check_reply(tx_valid) {
                VerifierStep::Done { result } => result,
                _ => {
                    proof {
                        assert(false);
                    }
                    Err(TxAddError::IncorrectTx)
                },
            }
        },
        _ => {
            proof {
                assert(false);
            }
            Err(TxAddError::IncorrectTx)
        },
    }
}

/// Copies a byte vector element by element.
fn copy_bytes(bytes: &Vec<u8>) -> (copied: Vec<u8>)
    ensures
        copied@ == bytes@,
{
    let mut copied: Vec<u8> = Vec::new();
    let mut i: usize = 0;
    while i < bytes.len()
        invariant
            i <= bytes@.len(),
            copied@ == bytes@.subrange(0, i as int),
        decreases bytes@.len() - i,
    {
        copied.push(bytes[i]);
        proof {
            assert(bytes@.subrange(0, i + 1) =~= bytes@.subrange(0, i as int).push(
                bytes@[i as int],
            ));
        }
        i = i + 1;
    }
    proof {
        assert(bytes@.subrange(0, bytes@.len() as int) =~= bytes@);
    }
    copied
}

impl SignatureVerifier {
    /// The transaction under verification.
    pub closed spec fn spec_tx(&self) -> ZkSyncTx {
        self.tx
    }

    /// The external signature data of the request under verification.
    pub closed spec fn spec_sign_data(&self) -> Option<EthSignData> {
        self.eth_sign_data
    }

    /// The piece of outside work this verifier is suspended on.
    pub closed spec fn spec_stage(&self) -> VerifierStage {
        self.stage
    }

    /// Returns the piece of outside work this verifier is suspended on.
    pub fn stage(&self) -> (stage: VerifierStage)
        ensures
            stage == self.spec_stage(),
    {
        self.stage
    }

    /// Returns the transaction under verification, for the caller that runs
    /// the native self-consistency check.
    pub fn transaction(&self) -> (tx: &ZkSyncTx)
        ensures
            *tx == self.spec_tx(),
    {
        &self.tx
    }

    /// Begins verifying one request: a signature-less pubkey-change first
    /// asks the authority for the delegated authorization; any other request
    /// goes straight to its external-signature dispatch.
    pub fn start(tx: ZkSyncTx, eth_sign_data: Option<EthSignData>) -> (step: VerifierStep)
        ensures
            needs_pubkey_auth_query(tx) ==> step_queries_pubkey_auth(step, tx, eth_sign_data),
            !needs_pubkey_auth_query(tx) ==> signature_dispatch_post(tx, eth_sign_data, step),
    {
        let mut auth_query: Option<(u64, u32, Vec<u8>)> = None;
        if let ZkSyncTx::ChangePubKey(change_pk) = &tx {
            if change_pk.eth_signature.is_none() {
                auth_query = Some(
                    (change_pk.account, change_pk.nonce, copy_bytes(&change_pk.new_pk_hash)),
                );
            }
        }
        match auth_query {
            Some((account, nonce, pubkey_hash)) => VerifierStep::QueryPubKeyChangeAuthorized {
                account,
                nonce,
                pubkey_hash,
                next: SignatureVerifier {
                    tx,
                    eth_sign_data,
                    stage: VerifierStage::PendingAuthorizationQuery,
                },
            },
            None => Self::dispatch_signature(tx, eth_sign_data),
        }
    }

    /// Dispatches on the external-signature data once no delegated
    /// authorization is pending.
    fn dispatch_signature(tx: ZkSyncTx, eth_sign_data: Option<EthSignData>) -> (step: VerifierStep)
        ensures
            signature_dispatch_post(tx, eth_sign_data, step),
    {
        let mut direct: Option<(Vec<u8>, Vec<u8>)> = None;
        let mut contract: Option<(u64, Vec<u8>, Vec<u8>)> = None;
        if let Some(sign_data) = &eth_sign_data {
            match &sign_data.signature {
                TxEthSignature::EthereumSignature(signature) => {
                    direct = Some((copy_bytes(signature), copy_bytes(&sign_data.message)));
                },
                TxEthSignature::EIP1271Signature(signature) => {
                    contract = Some(
                        (
                            tx.account(),
                            wrap_personal_message(&sign_data.message),
                            copy_bytes(signature),
                        ),
                    );
                },
            }
        }
        if let Some((signature, message)) = direct {
            VerifierStep::RecoverSigner {
                signature,
                message,
                next: SignatureVerifier {
                    tx,
                    eth_sign_data,
                    stage: VerifierStage::PendingRecovery,
                },
            }
        } else if let Some((account, message, signature)) = contract {
            VerifierStep::QueryContractSignature {
                account,
                message,
                signature,
                next: SignatureVerifier {
                    tx,
                    eth_sign_data,
                    stage: VerifierStage::PendingContractSignatureQuery,
                },
            }
        } else {
            VerifierStep::RunNativeCheck {
                next: SignatureVerifier { tx, eth_sign_data, stage: VerifierStage::NativeCheck },
            }
        }
    }

    /// Drives the machine to completion, answering each step from `checks`.
    ///
    /// Its contract is `VerifiedTx::verify`'s: proving it shows that the
    /// step-wise protocol, composed from `start` through the `on_*` steps,
    /// decides every request exactly as the one-shot decision procedure does.
    pub fn run_with_checks(
        tx: ZkSyncTx,
        eth_sign_data: Option<EthSignData>,
        checks: ExternalChecks,
    ) -> (result: Result<VerifiedTx, TxAddError>)
        ensures
            outcome_matches(result, expected_outcome(tx, eth_sign_data, checks)),
    {
        let ghost spec_tx = tx;
        let ghost spec_sign_data = eth_sign_data;
        let ghost spec_checks = checks;
        let ExternalChecks {
            pubkey_change_authorized,
            recovered_signer,
            contract_signature,
            tx_valid,
        } = checks;
        match SignatureVerifier::start(tx, eth_sign_data) {
            VerifierStep::QueryPubKeyChangeAuthorized { next, .. } => {
                if pubkey_change_authorized {
                    let step = next.on_pubkey_auth_reply(true);
                    run_signature_branch(
                        step,
                        recovered_signer,
                        contract_signature,
                        tx_valid,
                        Ghost(spec_tx),
                        Ghost(spec_sign_data),
                        Ghost(spec_checks),
                    )
                } else {
                    match next.on_pubkey_auth_reply(false) {
                        VerifierStep::Done { result } => result,
                        _ => {
                            proof {
                                assert(false);
                            }
                            Err(TxAddError::IncorrectTx)
                        },
                    }
                }
            },
            step => run_signature_branch(
                step,
                recovered_signer,
                contract_signature,
                tx_valid,
                Ghost(spec_tx),
                Ghost(spec_sign_data),
                Ghost(spec_checks),
            ),
        }
    }

    /// Applies the authority's answer to the pending delegated-authorization
    /// query: a denial resolves the request as `ChangePkNotAuthorized`; an
    /// approval continues with the external-signature dispatch.
    pub fn on_pubkey_auth_reply(self, authorized: bool) -> (step: VerifierStep)
        requires
            self.spec_stage() == VerifierStage::PendingAuthorizationQuery,
        ensures
            !authorized ==> step_done_with_err(step, TxAddError::ChangePkNotAuthorized),
            authorized ==> signature_dispatch_post(self.spec_tx(), self.spec_sign_data(), step),
    {
        if !authorized {
            VerifierStep::Done { result: Err(TxAddError::ChangePkNotAuthorized) }
        } else {
            Self::dispatch_signature(self.tx, self.eth_sign_data)
        }
    }

    /// Applies the outcome of the direct-scheme signature recovery: a failed
    /// recovery or a recovered account other than the transaction's declared
    /// account resolves the request as `IncorrectEthSignature`; a match
    /// continues with the native check.
    pub fn on_recovery_reply(self, recovered_signer: Option<u64>) -> (step: VerifierStep)
        requires
            self.spec_stage() == VerifierStage::PendingRecovery,
        ensures
            recovered_signer == Some(self.spec_tx().spec_account()) ==> step_runs_native_check(
                step,
                self.spec_tx(),
                self.spec_sign_data(),
            ),
            recovered_signer != Some(self.spec_tx().spec_account()) ==> step_done_with_err(
                step,
                TxAddError::IncorrectEthSignature,
            ),
    {
        let declared = self.tx.account();
        let matched = match recovered_signer {
            Some(signer) => signer == declared,
            None => false,
        };
        if matched {
            VerifierStep::RunNativeCheck {
                next: SignatureVerifier {
                    tx: self.tx,
                    eth_sign_data: self.eth_sign_data,
                    stage: VerifierStage::NativeCheck,
                },
            }
        } else {
            VerifierStep::Done { result: Err(TxAddError::IncorrectEthSignature) }
        }
    }

    /// Applies the authority's judgement of the contract-based signature: an
    /// authority-side error resolves the request as
    /// `EIP1271SignatureVerificationFail`, an "invalid" answer as
    /// `IncorrectTx`; a "valid" answer continues with the native check.
    pub fn on_contract_check_reply(self, reply: Result<bool, AuthorityError>) -> (step:
        VerifierStep)
        requires
            self.spec_stage() == VerifierStage::PendingContractSignatureQuery,
        ensures
            reply matches Err(_) ==> step_done_with_err(
                step,
                TxAddError::EIP1271SignatureVerificationFail,
            ),
            reply matches Ok(valid) && !valid ==> step_done_with_err(step, TxAddError::IncorrectTx),
            reply matches Ok(valid) && valid ==> step_runs_native_check(
                step,
                self.spec_tx(),
                self.spec_sign_data(),
            ),
    {
        match reply {
            Err(_) => VerifierStep::Done {
                result: Err(TxAddError::EIP1271SignatureVerificationFail),
            },
            Ok(valid) => {
                if valid {
                    VerifierStep::RunNativeCheck {
                        next: SignatureVerifier {
                            tx: self.tx,
                            eth_sign_data: self.eth_sign_data,
                            stage: VerifierStage::NativeCheck,
                        },
                    }
                } else {
                    VerifierStep::Done { result: Err(TxAddError::IncorrectTx) }
                }
            },
        }
    }

    /// Applies the outcome of the native self-consistency check: failure
    /// resolves the request as `IncorrectTx`; success resolves it as the
    /// verified transaction wrapping the request unchanged.
    pub fn on_native_check_reply(self, tx_valid: bool) -> (step: VerifierStep)
        requires
            self.spec_stage() == VerifierStage::NativeCheck,
        ensures
            !tx_valid ==> step_done_with_err(step, TxAddError::IncorrectTx),
            tx_valid ==> (step matches VerifierStep::Done { result } && result matches Ok(verified)
                && verified.spec_inner() == (SignedZkSyncTx {
                tx: self.spec_tx(),
                eth_sign_data: self.spec_sign_data(),
            })),
    {
        if tx_valid {
            VerifierStep::Done {
                result: Ok(
                    VerifiedTx(
                        SignedZkSyncTx { tx: self.tx, eth_sign_data: self.eth_sign_data },
                    ),
                ),
            }
        } else {
            VerifierStep::Done { result: Err(TxAddError::IncorrectTx) }
        }
    }
}

} // verus!
