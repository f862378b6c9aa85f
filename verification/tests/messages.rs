use fiber_dev_rpc::chain::{Hash256, Script};
use fiber_dev_rpc::dev::DevRpcServerImpl;
use fiber_dev_rpc::message::{
    captured_fiber_message_from, AddTlc, CapturedInboundFiberMessage, ClosingSigned,
    CommitmentSigned, FiberChannelMessage, FiberMessage, HeldOutboundFiberMessage, OpenChannel,
    OtherMessage, ReestablishChannel, RemoveTlc, Shutdown,
};
use fiber_dev_rpc::types::{CapturedFiberMessage, Pubkey};

const CHANNEL: Hash256 = Hash256([9u8; 32]);

fn describe(message: FiberMessage) -> CapturedFiberMessage {
    captured_fiber_message_from(CapturedInboundFiberMessage {
        peer: Pubkey([2u8; 33]),
        message,
        payload: vec![0x00, 0xab, 0xff],
    })
}

fn channel(message: FiberChannelMessage) -> CapturedFiberMessage {
    describe(FiberMessage::ChannelNormalOperation(message))
}

/// How many of the details of a message are given.
fn details(m: &CapturedFiberMessage) -> usize {
    m.funding_tx_partial_signature.is_some() as usize
        + m.closing_partial_signature.is_some() as usize
        + m.next_commitment_nonce.is_some() as usize
        + m.close_script.is_some() as usize
        + m.fee_rate.is_some() as usize
        + m.tlc_id.is_some() as usize
        + m.payment_hash.is_some() as usize
        + m.local_commitment_number.is_some() as usize
        + m.remote_commitment_number.is_some() as usize
}

#[test]
fn describes_commitment_signed() {
    let m = channel(FiberChannelMessage::CommitmentSigned(CommitmentSigned {
        channel_id: CHANNEL,
        funding_tx_partial_signature: [0x1f; 32],
        next_commitment_nonce: [0xe2; 66],
    }));
    assert_eq!(m.peer_pubkey, Pubkey([2u8; 33]));
    assert_eq!(m.channel_id, Some(CHANNEL));
    assert_eq!(m.kind, "CommitmentSigned");
    assert_eq!(m.payload, "0x00abff");
    assert_eq!(
        m.funding_tx_partial_signature,
        Some(format!("0x{}", "1f".repeat(32)))
    );
    assert_eq!(m.next_commitment_nonce, Some(format!("0x{}", "e2".repeat(66))));
    assert_eq!(details(&m), 2);
}

#[test]
fn describes_closing_signed() {
    let m = channel(FiberChannelMessage::ClosingSigned(ClosingSigned {
        channel_id: CHANNEL,
        partial_signature: [0x0a; 32],
    }));
    assert_eq!(m.kind, "ClosingSigned");
    assert_eq!(m.channel_id, Some(CHANNEL));
    assert_eq!(
        m.closing_partial_signature,
        Some(format!("0x{}", "0a".repeat(32)))
    );
    assert_eq!(details(&m), 1);
}

#[test]
fn describes_shutdown() {
    let m = channel(FiberChannelMessage::Shutdown(Shutdown {
        channel_id: CHANNEL,
        close_script: Script {
            code_hash: Hash256([4; 32]),
            hash_type: 1,
            args: vec![5, 6],
        },
        fee_rate: 1234,
    }));
    assert_eq!(m.kind, "Shutdown");
    assert_eq!(m.fee_rate, Some(1234));
    let script = m.close_script.as_ref().unwrap();
    assert_eq!(script.code_hash, Hash256([4; 32]));
    assert_eq!(script.hash_type, 1);
    assert_eq!(script.args, vec![5, 6]);
    assert_eq!(details(&m), 2);
}

#[test]
fn describes_tlcs() {
    let m = channel(FiberChannelMessage::AddTlc(AddTlc {
        channel_id: CHANNEL,
        tlc_id: 3,
        payment_hash: Hash256([7; 32]),
    }));
    assert_eq!(m.kind, "AddTlc");
    assert_eq!((m.tlc_id, m.payment_hash), (Some(3), Some(Hash256([7; 32]))));
    assert_eq!(details(&m), 2);

    let m = channel(FiberChannelMessage::RemoveTlc(RemoveTlc {
        channel_id: CHANNEL,
        tlc_id: 4,
    }));
    assert_eq!(m.kind, "RemoveTlc");
    assert_eq!((m.tlc_id, m.payment_hash), (Some(4), None));
    assert_eq!(details(&m), 1);
}

#[test]
fn describes_reestablish() {
    let m = channel(FiberChannelMessage::ReestablishChannel(ReestablishChannel {
        channel_id: CHANNEL,
        local_commitment_number: 11,
        remote_commitment_number: 12,
    }));
    assert_eq!(m.kind, "ReestablishChannel");
    assert_eq!(m.local_commitment_number, Some(11));
    assert_eq!(m.remote_commitment_number, Some(12));
    assert_eq!(details(&m), 2);
}

#[test]
fn describes_other_messages() {
    let m = channel(FiberChannelMessage::Other(OtherMessage {
        channel_id: CHANNEL,
        kind: "RevokeAndAck".to_string(),
    }));
    assert_eq!(m.kind, "RevokeAndAck");
    assert_eq!(m.channel_id, Some(CHANNEL));
    assert_eq!(details(&m), 0);

    let m = describe(FiberMessage::ChannelInitialization(OpenChannel {
        channel_id: Hash256([1; 32]),
    }));
    assert_eq!(m.kind, "OpenChannel");
    assert_eq!(m.channel_id, Some(Hash256([1; 32])));
    assert_eq!(details(&m), 0);

    let m = describe(FiberMessage::Init);
    assert_eq!(m.kind, "Init");
    assert_eq!(m.channel_id, None);
    assert_eq!(details(&m), 0);
}

#[test]
fn taken_messages_keep_their_order() {
    let captured = |kind: &str, byte: u8| CapturedInboundFiberMessage {
        peer: Pubkey([byte; 33]),
        message: FiberMessage::ChannelNormalOperation(FiberChannelMessage::Other(OtherMessage {
            channel_id: CHANNEL,
            kind: kind.to_string(),
        })),
        payload: vec![byte],
    };
    let result = DevRpcServerImpl::take_captured_fiber_messages_result(Ok(vec![
        captured("TxUpdate", 1),
        captured("TxComplete", 2),
        captured("TxUpdate", 3),
    ]))
    .unwrap();
    let kinds: Vec<&str> = result.messages.iter().map(|m| m.kind.as_str()).collect();
    assert_eq!(kinds, vec!["TxUpdate", "TxComplete", "TxUpdate"]);
    let payloads: Vec<&str> = result.messages.iter().map(|m| m.payload.as_str()).collect();
    assert_eq!(payloads, vec!["0x01", "0x02", "0x03"]);

    let empty = DevRpcServerImpl::take_captured_fiber_messages_result(Ok(vec![])).unwrap();
    assert!(empty.messages.is_empty());
    let failed = DevRpcServerImpl::take_captured_fiber_messages_result(Err("gone".to_string()));
    assert_eq!(failed.unwrap_err().message, "gone");
}

#[test]
fn held_messages_name_their_target() {
    let result = DevRpcServerImpl::take_held_outbound_fiber_messages_result(Ok(vec![
        HeldOutboundFiberMessage {
            target: Pubkey([8; 33]),
            message: FiberMessage::ChannelNormalOperation(FiberChannelMessage::RemoveTlc(
                RemoveTlc {
                    channel_id: CHANNEL,
                    tlc_id: 5,
                },
            )),
            payload: vec![0x10],
        },
        HeldOutboundFiberMessage {
            target: Pubkey([6; 33]),
            message: FiberMessage::Init,
            payload: vec![],
        },
    ]))
    .unwrap();
    assert_eq!(result.messages.len(), 2);
    assert_eq!(result.messages[0].peer_pubkey, Pubkey([8; 33]));
    assert_eq!(result.messages[0].tlc_id, Some(5));
    assert_eq!(result.messages[0].payload, "0x10");
    assert_eq!(result.messages[1].peer_pubkey, Pubkey([6; 33]));
    assert_eq!(result.messages[1].kind, "Init");
    assert_eq!(result.messages[1].payload, "0x");
    let failed = DevRpcServerImpl::take_held_outbound_fiber_messages_result(Err("gone".to_string()));
    assert_eq!(failed.unwrap_err().message, "gone");
}
