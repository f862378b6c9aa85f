use ckb_types::packed;
use ckb_types::prelude::{Builder, Entity};
use fiber_dev_rpc::chain::{Hash256, OutPoint, Script};
use fiber_dev_rpc::commitment::CommitmentTransactions;
use fiber_dev_rpc::dev::{abort_reason, DevRpcServerImpl};
use fiber_dev_rpc::error::handle_actor_call;
use fiber_dev_rpc::hexadecimal::hex_0x;
use fiber_dev_rpc::network::{
    self, ChannelCommand, ChannelMusig2Public, NetworkActorCommand, SentRawChannelMessage,
    TlcErrorCode,
};
use fiber_dev_rpc::transaction::Transaction;
use fiber_dev_rpc::types::{
    AddTlcParams, BuildShutdownTxMessageParams, CheckChannelShutdownParams,
    CommitmentSignedParams, DeliverCapturedFiberMessagesParams, GetChannelMusig2PublicParams,
    HashAlgorithm, Pubkey, RawChannelMessageKind, ReleaseHeldOutboundFiberMessagesParams,
    RemoveTlcParams, RemoveTlcReason, SendRawChannelMessageParams,
    SetFiberMessageInterceptParams, SubmitCommitmentTransactionParams,
};

const CHANNEL: Hash256 = Hash256([9u8; 32]);

fn server() -> DevRpcServerImpl {
    DevRpcServerImpl::new(
        "http://127.0.0.1:8114".to_string(),
        CommitmentTransactions::new(),
    )
}

fn script(byte: u8) -> Script {
    Script {
        code_hash: Hash256([byte; 32]),
        hash_type: 0,
        args: vec![byte],
    }
}

#[test]
fn keeps_the_address() {
    assert_eq!(server().ckb_rpc_url(), "http://127.0.0.1:8114");
}

#[test]
fn commitment_signed_goes_to_the_channel() {
    let command = server().commitment_signed(CommitmentSignedParams {
        channel_id: CHANNEL,
    });
    match command {
        NetworkActorCommand::ControlFiberChannel(c) => {
            assert_eq!(c.channel_id, CHANNEL);
            assert!(matches!(c.command, ChannelCommand::CommitmentSigned));
        }
        other => panic!("{:?}", other),
    }
}

#[test]
fn replies_become_answers() {
    assert_eq!(handle_actor_call(Ok(Ok(5u8))).unwrap(), 5);
    let refused = handle_actor_call::<u8>(Ok(Err("refused".to_string())));
    assert_eq!(refused.unwrap_err().message, "refused");
    let lost = handle_actor_call::<u8>(Err("timeout".to_string()));
    assert_eq!(lost.unwrap_err().message, "timeout");
}

fn added(hash_algorithm: Option<HashAlgorithm>) -> network::AddTlcCommand {
    let command = server().add_tlc(AddTlcParams {
        channel_id: CHANNEL,
        amount: u128::MAX,
        payment_hash: Hash256([1; 32]),
        expiry: 77,
        hash_algorithm,
    });
    match command {
        NetworkActorCommand::ControlFiberChannel(c) => {
            assert_eq!(c.channel_id, CHANNEL);
            match c.command {
                ChannelCommand::AddTlc(tlc) => tlc,
                other => panic!("{:?}", other),
            }
        }
        other => panic!("{:?}", other),
    }
}

#[test]
fn add_tlc_fills_in_the_rest() {
    let tlc = added(Some(HashAlgorithm::Sha256));
    assert_eq!(tlc.amount, u128::MAX);
    assert_eq!(tlc.payment_hash, Hash256([1; 32]));
    assert_eq!(tlc.expiry, 77);
    assert_eq!(tlc.hash_algorithm, HashAlgorithm::Sha256);
    assert_eq!(tlc.attempt_id, None);
    assert_eq!(tlc.onion_packet, None);
    assert_eq!(tlc.shared_secret, [0u8; 32]);
    assert!(!tlc.is_trampoline_hop);
    assert_eq!(tlc.previous_tlc, None);
    assert_eq!(added(None).hash_algorithm, HashAlgorithm::CkbHash);
}

#[test]
fn add_tlc_answers_with_the_id() {
    assert_eq!(DevRpcServerImpl::add_tlc_result(Ok(Ok(42))).unwrap().tlc_id, 42);
    let refused = DevRpcServerImpl::add_tlc_result(Ok(Err("no funds".to_string())));
    assert_eq!(refused.err().unwrap().message, "no funds");
    let lost = DevRpcServerImpl::add_tlc_result(Err("dead".to_string()));
    assert_eq!(lost.err().unwrap().message, "dead");
}

fn removed(command: NetworkActorCommand) -> network::RemoveTlcCommand {
    match command {
        NetworkActorCommand::ControlFiberChannel(c) => {
            assert_eq!(c.channel_id, CHANNEL);
            match c.command {
                ChannelCommand::RemoveTlc(tlc) => tlc,
                other => panic!("{:?}", other),
            }
        }
        other => panic!("{:?}", other),
    }
}

#[test]
fn remove_tlc_fulfils_with_the_preimage() {
    let params = RemoveTlcParams {
        channel_id: CHANNEL,
        tlc_id: 6,
        reason: RemoveTlcReason::RemoveTlcFulfill {
            payment_preimage: Hash256([5; 32]),
        },
    };
    let tlc = removed(server().remove_tlc(params, None).unwrap());
    assert_eq!(tlc.id, 6);
    match tlc.reason {
        network::RemoveTlcReason::RemoveTlcFulfill { payment_preimage } => {
            assert_eq!(payment_preimage, Hash256([5; 32]))
        }
        other => panic!("{:?}", other),
    }
}

#[test]
fn remove_tlc_fails_with_a_known_code() {
    let params = |name: &str| RemoveTlcParams {
        channel_id: CHANNEL,
        tlc_id: 6,
        reason: RemoveTlcReason::RemoveTlcFail {
            error_code: name.to_string(),
        },
    };
    let known = params("TemporaryChannelFailure");
    let tlc = removed(server().remove_tlc(known, Some(TlcErrorCode(0x1007))).unwrap());
    match tlc.reason {
        network::RemoveTlcReason::RemoveTlcFail {
            error_code,
            shared_secret,
        } => {
            assert_eq!(error_code, TlcErrorCode(0x1007));
            assert_eq!(shared_secret, [0u8; 32]);
        }
        other => panic!("{:?}", other),
    }
    let unknown = server().remove_tlc(params("NoSuchThing"), None);
    assert_eq!(unknown.unwrap_err().message, "invalid error code: NoSuchThing");
}

fn commitment_tx(version: u32) -> (Transaction, [u8; 32]) {
    let raw = packed::RawTransaction::new_builder().version(version).build();
    let hash: [u8; 32] = raw.calc_tx_hash().as_slice().try_into().unwrap();
    (Transaction::new(raw.as_slice().to_vec(), vec![vec![1]]).unwrap(), hash)
}

#[test]
fn submits_the_recorded_transaction() {
    let (first, first_hash) = commitment_tx(1);
    let (second, second_hash) = commitment_tx(2);
    assert_ne!(first_hash, second_hash);
    let mut known = CommitmentTransactions::new();
    known.insert(CHANNEL, 1, first);
    let mut server = DevRpcServerImpl::new(String::new(), known);
    server.record_commitment_tx(CHANNEL, 2, second);

    let params = |channel_id: Hash256, commitment_number: u64| SubmitCommitmentTransactionParams {
        channel_id,
        commitment_number,
    };
    for (number, hash) in [(1u64, first_hash), (2, second_hash)] {
        let tx = server
            .submit_commitment_transaction(params(CHANNEL, number))
            .unwrap();
        assert_eq!(tx.witnesses(), &vec![vec![1u8]]);
        let result = DevRpcServerImpl::submit_commitment_transaction_result(&tx, Ok(())).unwrap();
        assert_eq!(result.tx_hash, Hash256(hash));
        let refused = DevRpcServerImpl::submit_commitment_transaction_result(
            &tx,
            Err("pool is full".to_string()),
        );
        assert_eq!(refused.unwrap_err().message, "pool is full");
    }
    for missing in [params(CHANNEL, 3), params(Hash256([0; 32]), 1)] {
        let error = server.submit_commitment_transaction(missing).unwrap_err();
        assert_eq!(error.message, "Commitment transaction not found");
    }

    let (third, third_hash) = commitment_tx(3);
    server.record_commitment_tx(CHANNEL, 1, third);
    let tx = server.submit_commitment_transaction(params(CHANNEL, 1)).unwrap();
    assert_eq!(tx.hash(), Hash256(third_hash));
    let tx = server.submit_commitment_transaction(params(CHANNEL, 2)).unwrap();
    assert_eq!(tx.hash(), Hash256(second_hash));
}

#[test]
fn channel_queries_name_the_channel() {
    let command = server().check_channel_shutdown(CheckChannelShutdownParams {
        channel_id: CHANNEL,
    });
    assert!(matches!(command, NetworkActorCommand::CheckChannelShutdown(id) if id == CHANNEL));
    let command = server().get_channel_musig2_public(GetChannelMusig2PublicParams {
        channel_id: CHANNEL,
    });
    assert!(matches!(command, NetworkActorCommand::GetChannelMusig2Public(id) if id == CHANNEL));
    let command = server().take_captured_fiber_messages();
    assert!(matches!(command, NetworkActorCommand::TakeCapturedFiberMessages));
    let command = server().take_held_outbound_fiber_messages();
    assert!(matches!(command, NetworkActorCommand::TakeHeldOutboundFiberMessages));
}

#[test]
fn intercept_is_passed_on() {
    let kinds = |name: &str| vec![name.to_string()];
    let command = server().set_fiber_message_intercept(SetFiberMessageInterceptParams {
        channel_id: CHANNEL,
        suppress_outbound_revoke_and_ack: true,
        capture_inbound: false,
        inbound_capture_kinds: kinds("AddTlc"),
        inbound_drop_kinds: kinds("remove_tlc"),
        outbound_drop_kinds: kinds("Shutdown"),
        outbound_hold_kinds: vec![],
    });
    match command {
        NetworkActorCommand::SetFiberMessageIntercept(i) => {
            assert_eq!(i.channel_id, CHANNEL);
            assert!(i.suppress_outbound_revoke_and_ack);
            assert!(!i.capture_inbound);
            assert_eq!(i.inbound_capture_kinds, kinds("AddTlc"));
            assert_eq!(i.inbound_drop_kinds, kinds("remove_tlc"));
            assert_eq!(i.outbound_drop_kinds, kinds("Shutdown"));
            assert!(i.outbound_hold_kinds.is_empty());
        }
        other => panic!("{:?}", other),
    }
}

#[test]
fn delivery_and_release_are_counted() {
    let command = server().deliver_captured_fiber_messages(DeliverCapturedFiberMessagesParams {
        count: Some(2),
        kinds: vec!["AddTlc".to_string()],
    });
    match command {
        NetworkActorCommand::DeliverCapturedFiberMessages(c) => {
            assert_eq!(c.count, Some(2));
            assert_eq!(c.kinds, vec!["AddTlc".to_string()]);
        }
        other => panic!("{:?}", other),
    }
    let command =
        server().release_held_outbound_fiber_messages(ReleaseHeldOutboundFiberMessagesParams {
            count: None,
            kinds: vec![],
        });
    match command {
        NetworkActorCommand::ReleaseHeldOutboundFiberMessages(c) => {
            assert_eq!(c.count, None);
            assert!(c.kinds.is_empty());
        }
        other => panic!("{:?}", other),
    }
    let delivered = DevRpcServerImpl::deliver_captured_fiber_messages_result(Ok(Ok(7)));
    assert_eq!(delivered.unwrap().delivered, 7);
    let refused = DevRpcServerImpl::deliver_captured_fiber_messages_result(Ok(Err("x".into())));
    assert_eq!(refused.unwrap_err().message, "x");
    let released = DevRpcServerImpl::release_held_outbound_fiber_messages_result(Ok(Ok(8)));
    assert_eq!(released.unwrap().released, 8);
    let lost = DevRpcServerImpl::release_held_outbound_fiber_messages_result(Err("y".into()));
    assert_eq!(lost.unwrap_err().message, "y");
}

fn raw_params(
    kind: RawChannelMessageKind,
    abort_message: Option<&str>,
) -> SendRawChannelMessageParams {
    SendRawChannelMessageParams {
        channel_id: CHANNEL,
        kind,
        nonce_commitment_number: Some(1),
        close_script: Some(script(2)),
        fee_rate: Some(3),
        amount: Some(4),
        payment_hash: Some(Hash256([5; 32])),
        expiry: Some(6),
        tlc_id: Some(7),
        remove_fail_error_code: Some("TemporaryChannelFailure".to_string()),
        local_commitment_number: Some(8),
        remote_commitment_number: Some(9),
        abort_message: abort_message.map(|m| m.to_string()),
    }
}

fn raw_command(
    kind: RawChannelMessageKind,
    abort_message: Option<&str>,
) -> network::SendRawChannelMessageCommand {
    match server().send_raw_channel_message(raw_params(kind, abort_message)) {
        NetworkActorCommand::SendRawChannelMessage(c) => c,
        other => panic!("{:?}", other),
    }
}

#[test]
fn raw_message_is_passed_on() {
    let c = raw_command(RawChannelMessageKind::TxAbort, None);
    assert_eq!(c.channel_id, CHANNEL);
    assert_eq!(c.nonce_commitment_number, Some(1));
    let close_script = c.close_script.unwrap();
    assert_eq!(close_script.args, vec![2]);
    assert_eq!(close_script.code_hash, Hash256([2; 32]));
    assert_eq!(c.fee_rate, Some(3));
    assert_eq!(c.amount, Some(4));
    assert_eq!(c.payment_hash, Some(Hash256([5; 32])));
    assert_eq!(c.expiry, Some(6));
    assert_eq!(c.tlc_id, Some(7));
    assert_eq!(c.remove_fail_error_code.as_deref(), Some("TemporaryChannelFailure"));
    assert_eq!(c.local_commitment_number, Some(8));
    assert_eq!(c.remote_commitment_number, Some(9));
    assert_eq!(c.abort_message, None);
}

#[test]
fn raw_message_kinds_keep_their_names() {
    let pairs = [
        (
            RawChannelMessageKind::CommitmentSigned,
            network::RawChannelMessageKind::CommitmentSigned,
        ),
        (RawChannelMessageKind::Shutdown, network::RawChannelMessageKind::Shutdown),
        (RawChannelMessageKind::AddTlc, network::RawChannelMessageKind::AddTlc),
        (RawChannelMessageKind::RemoveTlc, network::RawChannelMessageKind::RemoveTlc),
        (
            RawChannelMessageKind::ReestablishChannel,
            network::RawChannelMessageKind::ReestablishChannel,
        ),
        (RawChannelMessageKind::TxAbort, network::RawChannelMessageKind::TxAbort),
    ];
    for (kind, expected) in pairs {
        assert_eq!(raw_command(kind, None).kind, expected);
    }
}

#[test]
fn abort_reason_is_hex_or_text() {
    let abort = |m: &str| raw_command(RawChannelMessageKind::TxAbort, Some(m)).abort_message;
    assert_eq!(abort("0xdeadBEEF"), Some(vec![0xde, 0xad, 0xbe, 0xef]));
    assert_eq!(abort("0X0102"), Some(vec![1, 2]));
    assert_eq!(abort("0102"), Some(b"0102".to_vec()));
    assert_eq!(abort("beef"), Some(vec![0x62, 0x65, 0x65, 0x66]));
    assert_eq!(abort("0x"), Some(vec![]));
    assert_eq!(abort(""), Some(vec![]));
    assert_eq!(abort("p2p-test"), Some(b"p2p-test".to_vec()));
    assert_eq!(abort("0x123"), Some(b"0x123".to_vec()));
    assert_eq!(abort("0xzz"), Some(b"0xzz".to_vec()));
    assert_eq!(abort("h\u{e9}"), Some("h\u{e9}".as_bytes().to_vec()));
}

#[test]
fn abort_reason_reads_prefixed_hex_back() {
    for bytes in [vec![], vec![0u8], vec![0xff, 0x00, 0x9a]] {
        assert_eq!(abort_reason(&hex_0x(&bytes)), bytes);
    }
    assert_eq!(hex_0x(&[0x0f, 0xa0]), "0x0fa0");
    assert_ne!(hex_0x(&[1]), hex_0x(&[0, 1]));
}

#[test]
fn sent_message_is_told_in_hex() {
    let sent = DevRpcServerImpl::send_raw_channel_message_result(Ok(Ok(SentRawChannelMessage {
        funding_tx_partial_signature: Some([0xab; 32]),
        next_commitment_nonce: None,
    })))
    .unwrap();
    assert_eq!(
        sent.funding_tx_partial_signature,
        Some(format!("0x{}", "ab".repeat(32)))
    );
    assert_eq!(sent.next_commitment_nonce, None);
    let sent = DevRpcServerImpl::send_raw_channel_message_result(Ok(Ok(SentRawChannelMessage {
        funding_tx_partial_signature: None,
        next_commitment_nonce: Some([0x01; 66]),
    })))
    .unwrap();
    assert_eq!(sent.funding_tx_partial_signature, None);
    assert_eq!(sent.next_commitment_nonce, Some(format!("0x{}", "01".repeat(66))));
    let refused = DevRpcServerImpl::send_raw_channel_message_result(Ok(Err("closed".into())));
    assert_eq!(refused.unwrap_err().message, "closed");
}

#[test]
fn musig2_session_is_told_in_hex() {
    let result =
        DevRpcServerImpl::get_channel_musig2_public_result(Ok(Ok(ChannelMusig2Public {
            local_funding_pubkey: Pubkey([1; 33]),
            remote_funding_pubkey: Pubkey([2; 33]),
            local_commitment_number: 3,
            remote_commitment_number: 4,
            local_pubnonce: [5; 66],
            last_committed_remote_nonce: [6; 66],
            next_commitment_nonce: [7; 66],
            own_commitment_message: [8; 32],
            peer_commitment_message: [9; 32],
            funding_outpoint: OutPoint {
                tx_hash: Hash256([10; 32]),
                index: 11,
            },
            local_first: true,
        })))
        .unwrap();
    assert_eq!(result.local_funding_pubkey, Pubkey([1; 33]));
    assert_eq!(result.remote_funding_pubkey, Pubkey([2; 33]));
    assert_eq!(result.local_commitment_number, 3);
    assert_eq!(result.remote_commitment_number, 4);
    assert_eq!(result.local_pubnonce, format!("0x{}", "05".repeat(66)));
    assert_eq!(result.last_committed_remote_nonce, format!("0x{}", "06".repeat(66)));
    assert_eq!(result.next_commitment_nonce, format!("0x{}", "07".repeat(66)));
    assert_eq!(result.own_commitment_message, Hash256([8; 32]));
    assert_eq!(result.peer_commitment_message, Hash256([9; 32]));
    assert_eq!(result.funding_outpoint.tx_hash, Hash256([10; 32]));
    assert_eq!(result.funding_outpoint.index, 11);
    assert!(result.local_first);
    let lost = DevRpcServerImpl::get_channel_musig2_public_result(Err("gone".into()));
    assert_eq!(lost.unwrap_err().message, "gone");
}

#[test]
fn shutdown_message_is_rebuilt() {
    let command = server().build_shutdown_tx_message(BuildShutdownTxMessageParams {
        channel_id: CHANNEL,
        local_close_script: script(1),
        remote_close_script: script(2),
        local_fee_rate: 3,
        remote_fee_rate: 0,
    });
    match command {
        NetworkActorCommand::BuildShutdownTxMessage(c) => {
            assert_eq!(c.channel_id, CHANNEL);
            assert_eq!(c.local_close_script.args, vec![1]);
            assert_eq!(c.remote_close_script.args, vec![2]);
            assert_eq!((c.local_fee_rate, c.remote_fee_rate), (3, 0));
        }
        other => panic!("{:?}", other),
    }
    let result = DevRpcServerImpl::build_shutdown_tx_message_result(Ok(Ok([4; 32]))).unwrap();
    assert_eq!(result.message, Hash256([4; 32]));
    let refused = DevRpcServerImpl::build_shutdown_tx_message_result(Ok(Err("no".into())));
    assert_eq!(refused.unwrap_err().message, "no");
}
