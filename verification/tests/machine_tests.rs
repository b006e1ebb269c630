use signature_checker::checker::{
    ExternalChecks, SignatureVerifier, VerifiedTx, VerifierStage, VerifierStep,
};
use signature_checker::tx::{
    AuthorityError, ChangePubKeyTx, EthSignData, SignedZkSyncTx, TransferTx, TxAddError,
    TxEthSignature, VerifyTxSignatureRequest, ZkSyncTx,
};

const PREFIX: &[u8] = b"\x19Ethereum Signed Message:\n";

#[test]
fn machine_verifies_authorized_pubkey_change() {
    // The full walk: query the authority, get an approval, run the native
    // check, end with a verified transaction wrapping the request unchanged.
    let tx = ZkSyncTx::ChangePubKey(ChangePubKeyTx {
        account: 11,
        nonce: 5,
        new_pk_hash: vec![0xAB, 0xCD],
        eth_signature: None,
    });
    let step = SignatureVerifier::start(tx.clone(), None);
    let step = match step {
        VerifierStep::QueryPubKeyChangeAuthorized { account, nonce, pubkey_hash, next } => {
            assert_eq!(account, 11);
            assert_eq!(nonce, 5);
            assert_eq!(pubkey_hash, vec![0xAB, 0xCD]);
            assert_eq!(next.stage(), VerifierStage::PendingAuthorizationQuery);
            next.on_pubkey_auth_reply(true)
        }
        other => panic!("expected the delegated-authorization query, got {:?}", other),
    };
    let step = match step {
        VerifierStep::RunNativeCheck { next } => {
            assert_eq!(next.stage(), VerifierStage::NativeCheck);
            assert_eq!(next.transaction(), &tx);
            next.on_native_check_reply(true)
        }
        other => panic!("expected the native check, got {:?}", other),
    };
    match step {
        VerifierStep::Done { result } => {
            let verified = result.expect("authorized pubkey change must verify");
            assert_eq!(verified.into_inner(), SignedZkSyncTx { tx, eth_sign_data: None });
        }
        other => panic!("expected completion, got {:?}", other),
    }
}

#[test]
fn machine_rejects_denied_pubkey_change() {
    let tx = ZkSyncTx::ChangePubKey(ChangePubKeyTx {
        account: 11,
        nonce: 5,
        new_pk_hash: vec![0xAB, 0xCD],
        eth_signature: None,
    });
    let step = SignatureVerifier::start(tx, None);
    let step = match step {
        VerifierStep::QueryPubKeyChangeAuthorized { next, .. } => next.on_pubkey_auth_reply(false),
        other => panic!("expected the delegated-authorization query, got {:?}", other),
    };
    match step {
        VerifierStep::Done { result } => {
            assert_eq!(result.unwrap_err(), TxAddError::ChangePkNotAuthorized);
        }
        other => panic!("expected completion, got {:?}", other),
    }
}

#[test]
fn machine_rejects_direct_signature_from_wrong_signer() {
    // A transfer declared by account 42 whose signature recovers to 99.
    let tx = ZkSyncTx::Transfer(TransferTx { account: 42 });
    let eth_sign_data = Some(EthSignData {
        signature: TxEthSignature::EthereumSignature(vec![1, 2, 3]),
        message: b"pay".to_vec(),
    });
    let step = SignatureVerifier::start(tx, eth_sign_data);
    let step = match step {
        VerifierStep::RecoverSigner { signature, message, next } => {
            assert_eq!(signature, vec![1, 2, 3]);
            assert_eq!(message, b"pay".to_vec());
            assert_eq!(next.stage(), VerifierStage::PendingRecovery);
            next.on_recovery_reply(Some(99))
        }
        other => panic!("expected the recovery request, got {:?}", other),
    };
    match step {
        VerifierStep::Done { result } => {
            assert_eq!(result.unwrap_err(), TxAddError::IncorrectEthSignature);
        }
        other => panic!("expected completion, got {:?}", other),
    }
}

#[test]
fn machine_accepts_direct_signature_from_declared_signer() {
    let tx = ZkSyncTx::Transfer(TransferTx { account: 42 });
    let eth_sign_data = Some(EthSignData {
        signature: TxEthSignature::EthereumSignature(vec![1, 2, 3]),
        message: b"pay".to_vec(),
    });
    let step = SignatureVerifier::start(tx.clone(), eth_sign_data.clone());
    let step = match step {
        VerifierStep::RecoverSigner { next, .. } => next.on_recovery_reply(Some(42)),
        other => panic!("expected the recovery request, got {:?}", other),
    };
    let step = match step {
        VerifierStep::RunNativeCheck { next } => next.on_native_check_reply(true),
        other => panic!("expected the native check, got {:?}", other),
    };
    match step {
        VerifierStep::Done { result } => {
            let verified = result.expect("matching direct signature must verify");
            assert_eq!(verified.inner(), &SignedZkSyncTx { tx, eth_sign_data });
        }
        other => panic!("expected completion, got {:?}", other),
    }
}

#[test]
fn machine_wraps_message_for_contract_query() {
    // The contract query must carry the declared account and the prefixed
    // personal-message encoding of the signed message.
    let tx = ZkSyncTx::Transfer(TransferTx { account: 42 });
    let eth_sign_data = Some(EthSignData {
        signature: TxEthSignature::EIP1271Signature(vec![7, 8]),
        message: b"Hello".to_vec(),
    });
    let step = SignatureVerifier::start(tx, eth_sign_data);
    match step {
        VerifierStep::QueryContractSignature { account, message, signature, next } => {
            assert_eq!(account, 42);
            let mut expected = PREFIX.to_vec();
            expected.extend_from_slice(b"5Hello");
            assert_eq!(message, expected);
            assert_eq!(signature, vec![7, 8]);
            assert_eq!(next.stage(), VerifierStage::PendingContractSignatureQuery);
        }
        other => panic!("expected the contract-signature query, got {:?}", other),
    }
}

#[test]
fn machine_maps_contract_replies_to_outcomes() {
    let make_step = || {
        let tx = ZkSyncTx::Transfer(TransferTx { account: 42 });
        let eth_sign_data = Some(EthSignData {
            signature: TxEthSignature::EIP1271Signature(vec![7, 8]),
            message: b"Hello".to_vec(),
        });
        match SignatureVerifier::start(tx, eth_sign_data) {
            VerifierStep::QueryContractSignature { next, .. } => next,
            other => panic!("expected the contract-signature query, got {:?}", other),
        }
    };

    match make_step().on_contract_check_reply(Ok(true)) {
        VerifierStep::RunNativeCheck { next } => {
            assert_eq!(next.stage(), VerifierStage::NativeCheck);
        }
        other => panic!("a valid judgement must proceed to the native check, got {:?}", other),
    }
    match make_step().on_contract_check_reply(Ok(false)) {
        VerifierStep::Done { result } => {
            assert_eq!(result.unwrap_err(), TxAddError::IncorrectTx);
        }
        other => panic!("expected completion, got {:?}", other),
    }
    match make_step()
        .on_contract_check_reply(Err(AuthorityError { message: "authority down".to_string() }))
    {
        VerifierStep::Done { result } => {
            assert_eq!(result.unwrap_err(), TxAddError::EIP1271SignatureVerificationFail);
        }
        other => panic!("expected completion, got {:?}", other),
    }
}

#[test]
fn machine_driver_agrees_with_one_shot_verify() {
    let requests = || {
        vec![
            VerifyTxSignatureRequest {
                tx: ZkSyncTx::ChangePubKey(ChangePubKeyTx {
                    account: 11,
                    nonce: 5,
                    new_pk_hash: vec![0xAB],
                    eth_signature: None,
                }),
                eth_sign_data: None,
            },
            VerifyTxSignatureRequest {
                tx: ZkSyncTx::Transfer(TransferTx { account: 42 }),
                eth_sign_data: Some(EthSignData {
                    signature: TxEthSignature::EthereumSignature(vec![1, 2, 3]),
                    message: b"pay".to_vec(),
                }),
            },
            VerifyTxSignatureRequest {
                tx: ZkSyncTx::Transfer(TransferTx { account: 42 }),
                eth_sign_data: Some(EthSignData {
                    signature: TxEthSignature::EIP1271Signature(vec![7, 8]),
                    message: b"Hello".to_vec(),
                }),
            },
        ]
    };
    let all_checks = || {
        let mut combos = Vec::new();
        for authorized in [false, true] {
            for signer in [None, Some(42u64), Some(99u64)] {
                for valid in [false, true] {
                    combos.push(ExternalChecks {
                        pubkey_change_authorized: authorized,
                        recovered_signer: signer,
                        contract_signature: Ok(valid),
                        tx_valid: valid,
                    });
                    combos.push(ExternalChecks {
                        pubkey_change_authorized: authorized,
                        recovered_signer: signer,
                        contract_signature: Err(AuthorityError {
                            message: "authority down".to_string(),
                        }),
                        tx_valid: valid,
                    });
                }
            }
        }
        combos
    };
    for (request_one_shot, request_machine) in requests().into_iter().zip(requests()) {
        for (checks_one_shot, checks_machine) in all_checks().into_iter().zip(all_checks()) {
            let one_shot = VerifiedTx::verify(request_one_shot.clone(), &checks_one_shot)
                .map(VerifiedTx::into_inner);
            let machine = SignatureVerifier::run_with_checks(
                request_machine.tx.clone(),
                request_machine.eth_sign_data.clone(),
                checks_machine,
            )
            .map(VerifiedTx::into_inner);
            assert_eq!(one_shot, machine);
        }
    }
}

#[test]
fn machine_rejects_failing_native_check() {
    let tx = ZkSyncTx::Transfer(TransferTx { account: 42 });
    let step = SignatureVerifier::start(tx, None);
    let step = match step {
        VerifierStep::RunNativeCheck { next } => next.on_native_check_reply(false),
        other => panic!("expected the native check, got {:?}", other),
    };
    match step {
        VerifierStep::Done { result } => {
            assert_eq!(result.unwrap_err(), TxAddError::IncorrectTx);
        }
        other => panic!("expected completion, got {:?}", other),
    }
}
