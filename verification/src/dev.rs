//! The remote calls for development: what each sends to the node, and what it answers.

use crate::chain::Hash256;
use crate::commitment::CommitmentTransactions;
use crate::error::{handle_actor_call, rpc_error, Reply, RpcError};
use crate::hexadecimal;
use crate::hexadecimal::hex_0x;
use crate::keys::PrivateKey;
use crate::message::{
    captured_fiber_message_from, CapturedInboundFiberMessage, HeldOutboundFiberMessage,
};
use crate::network;
use crate::network::{
    no_shared_secret, AddTlcCommand, BuildShutdownTxMessageCommand, ChannelCommand,
    ChannelCommandWithId, ChannelMusig2Public, DeliverCapturedFiberMessagesCommand,
    FiberMessageIntercept, NetworkActorCommand, ReleaseHeldOutboundFiberMessagesCommand,
    RemoveTlcCommand, SendRawChannelMessageCommand, SentRawChannelMessage, TlcErrorCode,
};
use crate::signing::{FundingTxSigner, SigningStep};
use crate::text::{joined, strip_prefix};
use crate::transaction::Transaction;
use crate::types::{
    AddTlcParams, AddTlcResult, BuildShutdownTxMessageParams, BuildShutdownTxMessageResult,
    CapturedFiberMessage, CheckChannelShutdownParams, CommitmentSignedParams,
    DeliverCapturedFiberMessagesParams, DeliverCapturedFiberMessagesResult,
    GetChannelMusig2PublicParams, GetChannelMusig2PublicResult, HashAlgorithm,
    RawChannelMessageKind, ReleaseHeldOutboundFiberMessagesParams,
    ReleaseHeldOutboundFiberMessagesResult, RemoveTlcParams, RemoveTlcReason,
    SendRawChannelMessageParams, SendRawChannelMessageResult, SetFiberMessageInterceptParams,
    SignExternalFundingTxParams, SubmitCommitmentTransactionParams,
    SubmitCommitmentTransactionResult, TakeCapturedFiberMessagesResult,
};
#[allow(unused_imports)]
use crate::error::{fails_as, reply_outcome};
#[allow(unused_imports)]
use crate::hexadecimal::{hex_0x_text, hex_bytes, hex_text, is_hex, law_hex_round_trip};
#[allow(unused_imports)]
use crate::keys::key_outcome;
#[allow(unused_imports)]
use crate::message::{describes, opt_text};
#[allow(unused_imports)]
use crate::network::is_no_shared_secret;
#[allow(unused_imports)]
use crate::signing::{ends_signing, is_step, next_step, FundingTxSignerView};
#[allow(unused_imports)]
use crate::text::without_prefix;
#[allow(unused_imports)]
use crate::transaction::{transaction_hash, transaction_size, TransactionView};
#[allow(unused_imports)]
use crate::witness::opt_bytes;
#[allow(unused_imports)]
use vstd::utf8::encode_utf8;
use vstd::prelude::*;

verus! {

/// What the remote calls for development need to know of their node.
pub struct DevRpcServerImpl {
    ckb_rpc_url: String,
    commitment_txs: CommitmentTransactions,
}

/// The kind of a raw message as the node knows it.
pub open spec fn network_kind(kind: RawChannelMessageKind) -> network::RawChannelMessageKind {
    match kind {
        RawChannelMessageKind::CommitmentSigned => network::RawChannelMessageKind::CommitmentSigned,
        RawChannelMessageKind::Shutdown => network::RawChannelMessageKind::Shutdown,
        RawChannelMessageKind::AddTlc => network::RawChannelMessageKind::AddTlc,
        RawChannelMessageKind::RemoveTlc => network::RawChannelMessageKind::RemoveTlc,
        RawChannelMessageKind::ReestablishChannel => {
            network::RawChannelMessageKind::ReestablishChannel
        },
        RawChannelMessageKind::TxAbort => network::RawChannelMessageKind::TxAbort,
    }
}

/// What follows the prefix `0x` or `0X` of an abort reason, if it has one.
pub open spec fn abort_digits(value: Seq<char>) -> Option<Seq<char>> {
    match without_prefix(value, "0x"@) {
        Some(digits) => Some(digits),
        None => without_prefix(value, "0X"@),
    }
}

/// The bytes of an abort reason: those that its digits stand for where it is prefixed
/// hexadecimal, and its UTF-8 bytes where it is any other text.
pub open spec fn abort_bytes(value: Seq<char>) -> Seq<u8> {
    match abort_digits(value) {
        Some(digits) if is_hex(digits) => hex_bytes(digits),
        _ => encode_utf8(value),
    }
}

/// Reads an abort reason. Only what follows a prefix is taken for hexadecimal.
pub fn abort_reason(value: &str) -> (r: Vec<u8>)
    ensures
        r@ == abort_bytes(value@),
{
    let prefixed = match strip_prefix(value, "0x") {
        Some(rest) => Some(rest),
        None => strip_prefix(value, "0X"),
    };
    match prefixed {
        Some(digits) => match hexadecimal::decode(digits) {
            Ok(bytes) => bytes,
            Err(_) => value.as_bytes_vec(),
        },
        None => value.as_bytes_vec(),
    }
}

/// An abort reason without a prefix stands for its own UTF-8 bytes, even where it is made of
/// hexadecimal digits.
pub proof fn law_abort_text_kept(value: Seq<char>)
    requires
        without_prefix(value, "0x"@) is None,
        without_prefix(value, "0X"@) is None,
    ensures
        abort_bytes(value) == encode_utf8(value),
{
}

/// An abort reason in prefixed hexadecimal stands for exactly the bytes it was made from.
pub proof fn law_abort_reason_round_trip(bytes: Seq<u8>)
    ensures
        abort_bytes(hex_0x_text(bytes)) == bytes,
{
    law_hex_round_trip(bytes);
    reveal_strlit("0x");
    assert(hex_0x_text(bytes).take(2) =~= "0x"@);
    assert(hex_0x_text(bytes).skip(2) =~= hex_text(bytes));
}

/// Whether `r` holds the text of the bytes in `b`, if there are any.
pub open spec fn is_opt_hex<const N: usize>(r: Option<String>, b: Option<[u8; N]>) -> bool {
    opt_text(r) == (match b {
        Some(bytes) => Some(hex_0x_text(bytes@)),
        None => None,
    })
}

/// Whether a command adds the TLC of the parameters, as a payment of this node's own.
pub open spec fn is_add_tlc(command: NetworkActorCommand, params: AddTlcParams) -> bool {
    match command {
        NetworkActorCommand::ControlFiberChannel(c) => c.channel_id == params.channel_id && (
        match c.command {
            ChannelCommand::AddTlc(tlc) => {
                &&& tlc.amount == params.amount
                &&& tlc.payment_hash == params.payment_hash
                &&& tlc.attempt_id is None
                &&& tlc.expiry == params.expiry
                &&& tlc.hash_algorithm == (match params.hash_algorithm {
                    Some(algorithm) => algorithm,
                    None => HashAlgorithm::CkbHash,
                })
                &&& tlc.onion_packet is None
                &&& is_no_shared_secret(tlc.shared_secret)
                &&& !tlc.is_trampoline_hop
                &&& tlc.previous_tlc is None
            },
            _ => false,
        }),
        _ => false,
    }
}

/// Whether a command removes the TLC of the parameters with an error code.
pub open spec fn is_remove_tlc_fail(
    command: NetworkActorCommand,
    params: RemoveTlcParams,
    code: TlcErrorCode,
) -> bool {
    match command {
        NetworkActorCommand::ControlFiberChannel(c) => c.channel_id == params.channel_id && (
        match c.command {
            ChannelCommand::RemoveTlc(tlc) => tlc.id == params.tlc_id && (match tlc.reason {
                network::RemoveTlcReason::RemoveTlcFail { error_code, shared_secret } => {
                    error_code == code && is_no_shared_secret(shared_secret)
                },
                _ => false,
            }),
            _ => false,
        }),
        _ => false,
    }
}

impl DevRpcServerImpl {
    /// The address of the node's CKB RPC.
    pub closed spec fn url(&self) -> Seq<char> {
        self.ckb_rpc_url@
    }

    /// The commitment transactions that the node knows.
    pub closed spec fn known_txs(&self) -> Map<(Hash256, u64), TransactionView> {
        self.commitment_txs@
    }

    /// The calls of a node with the given CKB RPC address and commitment transactions.
    pub fn new(ckb_rpc_url: String, commitment_txs: CommitmentTransactions) -> (r: DevRpcServerImpl)
        ensures
            r.url() == ckb_rpc_url@,
            r.known_txs() == commitment_txs@,
    {
        DevRpcServerImpl { ckb_rpc_url, commitment_txs }
    }

    /// The address of the node's CKB RPC.
    pub fn ckb_rpc_url(&self) -> (r: &String)
        ensures
            r@ == self.url(),
    {
        &self.ckb_rpc_url
    }

    /// Records a commitment transaction.
    pub fn record_commitment_tx(
        &mut self,
        channel_id: Hash256,
        commitment_number: u64,
        tx: Transaction,
    )
        ensures
            final(self).url() == old(self).url(),
            final(self).known_txs() == old(self).known_txs().insert(
                (channel_id, commitment_number),
                tx@,
            ),
    {
        self.commitment_txs.insert(channel_id, commitment_number, tx);
    }

    /// Sends a commitment_signed message to the peer. The reply is the answer to the call.
    pub fn commitment_signed(&self, params: CommitmentSignedParams) -> (r: NetworkActorCommand)
        ensures
            r == NetworkActorCommand::ControlFiberChannel(
                (ChannelCommandWithId {
                    channel_id: params.channel_id,
                    command: ChannelCommand::CommitmentSigned,
                }),
            ),
    {
        NetworkActorCommand::ControlFiberChannel(
            ChannelCommandWithId {
                channel_id: params.channel_id,
                command: ChannelCommand::CommitmentSigned,
            },
        )
    }

    /// Adds a TLC to a channel. Without a hash algorithm, it is the default one.
    pub fn add_tlc(&self, params: AddTlcParams) -> (r: NetworkActorCommand)
        ensures
            is_add_tlc(r, params),
    {
        let hash_algorithm = match params.hash_algorithm {
            Some(algorithm) => algorithm,
            None => HashAlgorithm::default(),
        };
        NetworkActorCommand::ControlFiberChannel(
            ChannelCommandWithId {
                channel_id: params.channel_id,
                command: ChannelCommand::AddTlc(
                    AddTlcCommand {
                        amount: params.amount,
                        payment_hash: params.payment_hash,
                        attempt_id: None,
                        expiry: params.expiry,
                        hash_algorithm,
                        onion_packet: None,
                        shared_secret: no_shared_secret(),
                        is_trampoline_hop: false,
                        previous_tlc: None,
                    },
                ),
            },
        )
    }

    /// Answers a call of [`Self::add_tlc`] with the ID of the new TLC.
    pub fn add_tlc_result(reply: Reply<u64>) -> (r: Result<AddTlcResult, RpcError>)
        ensures
            fails_as(r, reply_outcome(reply)),
            r matches Ok(result) ==> reply_outcome(reply) == Ok::<u64, Seq<char>>(result.tlc_id),
    {
        let tlc_id = handle_actor_call(reply)?;
        Ok(AddTlcResult { tlc_id })
    }

    /// Removes a TLC from a channel. `error_code` is what the name of the error code in the
    /// parameters stands for, if it is the name of one. The reply is the answer to the call.
    pub fn remove_tlc(
        &self,
        params: RemoveTlcParams,
        error_code: Option<TlcErrorCode>,
    ) -> (r: Result<NetworkActorCommand, RpcError>)
        ensures
            match params.reason {
                RemoveTlcReason::RemoveTlcFulfill { payment_preimage } => r
                    == Ok::<NetworkActorCommand, RpcError>(
                    NetworkActorCommand::ControlFiberChannel(
                        (ChannelCommandWithId {
                            channel_id: params.channel_id,
                            command: ChannelCommand::RemoveTlc(
                                (RemoveTlcCommand {
                                    id: params.tlc_id,
                                    reason: (network::RemoveTlcReason::RemoveTlcFulfill {
                                        payment_preimage,
                                    }),
                                }),
                            ),
                        }),
                    ),
                ),
                RemoveTlcReason::RemoveTlcFail { error_code: name } => match error_code {
                    None => r is Err && r->Err_0.message@ == "invalid error code: "@ + name@,
                    Some(code) => r is Ok && is_remove_tlc_fail(r->Ok_0, params, code),
                },
            },
    {
        let reason = match params.reason {
            RemoveTlcReason::RemoveTlcFulfill { payment_preimage } => {
                network::RemoveTlcReason::RemoveTlcFulfill { payment_preimage }
            },
            RemoveTlcReason::RemoveTlcFail { error_code: name } => match error_code {
                Some(code) => network::RemoveTlcReason::RemoveTlcFail {
                    error_code: code,
                    shared_secret: no_shared_secret(),
                },
                None => {
                    return Err(rpc_error(joined("invalid error code: ", name.as_str())));
                },
            },
        };
        Ok(
            NetworkActorCommand::ControlFiberChannel(
                ChannelCommandWithId {
                    channel_id: params.channel_id,
                    command: ChannelCommand::RemoveTlc(
                        RemoveTlcCommand { id: params.tlc_id, reason },
                    ),
                },
            ),
        )
    }

    /// Finds the commitment transaction to submit to the chain.
    pub fn submit_commitment_transaction(&self, params: SubmitCommitmentTransactionParams) -> (r:
        Result<Transaction, RpcError>)
        ensures
            r is Ok <==> self.known_txs().contains_key(
                (params.channel_id, params.commitment_number),
            ),
            r matches Ok(tx) ==> tx@ == self.known_txs()[(
                params.channel_id,
                params.commitment_number,
            )],
            r matches Err(e) ==> e.message@ == "Commitment transaction not found"@,
    {
        match self.commitment_txs.get(&params.channel_id, params.commitment_number) {
            Some(tx) => Ok(tx.clone()),
            None => Err(rpc_error("Commitment transaction not found".to_owned())),
        }
    }

    /// Answers a call of [`Self::submit_commitment_transaction`] once the chain has taken or
    /// refused the transaction.
    pub fn submit_commitment_transaction_result(tx: &Transaction, sent: Result<(), String>) -> (r:
        Result<SubmitCommitmentTransactionResult, RpcError>)
        ensures
            r is Ok <==> sent is Ok,
            r matches Ok(result) ==> result.tx_hash.0@ == transaction_hash(tx@.raw),
            r matches Err(e) ==> sent == Err::<(), String>(e.message),
    {
        match sent {
            Err(fault) => Err(rpc_error(fault)),
            Ok(()) => Ok(SubmitCommitmentTransactionResult { tx_hash: tx.hash() }),
        }
    }

    /// Has the node check for shutdown transactions on chain. The command names the channel of the
    /// parameters; which channels are visited is up to the node. The reply is the answer to the
    /// call.
    pub fn check_channel_shutdown(&self, params: CheckChannelShutdownParams) -> (r:
        NetworkActorCommand)
        ensures
            r == NetworkActorCommand::CheckChannelShutdown(params.channel_id),
    {
        NetworkActorCommand::CheckChannelShutdown(params.channel_id)
    }

    /// Signs an external funding transaction with the private key in the parameters. The first
    /// step is either a look-up or the end; see [`FundingTxSigner`].
    pub fn sign_external_funding_tx(&self, params: SignExternalFundingTxParams) -> (r: Result<
        SigningStep,
        RpcError,
    >)
        requires
            transaction_size(params.unsigned_funding_tx@.raw, params.unsigned_funding_tx@.witnesses)
                <= u32::MAX,
        ensures
            match key_outcome(params.private_key@) {
                Ok(key) => is_step(
                    r,
                    next_step(
                        (FundingTxSignerView {
                            key,
                            tx: params.unsigned_funding_tx@,
                            locks: Seq::empty(),
                        }),
                    ),
                ) && ends_signing(
                    (FundingTxSignerView {
                        key,
                        tx: params.unsigned_funding_tx@,
                        locks: Seq::empty(),
                    }),
                    r,
                ),
                Err(message) => r is Err && r->Err_0.message@ == message,
            },
    {
        let key = PrivateKey::from_hex(params.private_key.as_str())?;
        FundingTxSigner::start(key, params.unsigned_funding_tx)
    }

    /// Intercepts messages of a channel. The reply is the answer to the call.
    pub fn set_fiber_message_intercept(&self, params: SetFiberMessageInterceptParams) -> (r:
        NetworkActorCommand)
        ensures
            r == NetworkActorCommand::SetFiberMessageIntercept(
                (FiberMessageIntercept {
                    channel_id: params.channel_id,
                    suppress_outbound_revoke_and_ack: params.suppress_outbound_revoke_and_ack,
                    capture_inbound: params.capture_inbound,
                    inbound_capture_kinds: params.inbound_capture_kinds,
                    inbound_drop_kinds: params.inbound_drop_kinds,
                    outbound_drop_kinds: params.outbound_drop_kinds,
                    outbound_hold_kinds: params.outbound_hold_kinds,
                }),
            ),
    {
        NetworkActorCommand::SetFiberMessageIntercept(
            FiberMessageIntercept {
                channel_id: params.channel_id,
                suppress_outbound_revoke_and_ack: params.suppress_outbound_revoke_and_ack,
                capture_inbound: params.capture_inbound,
                inbound_capture_kinds: params.inbound_capture_kinds,
                inbound_drop_kinds: params.inbound_drop_kinds,
                outbound_drop_kinds: params.outbound_drop_kinds,
                outbound_hold_kinds: params.outbound_hold_kinds,
            },
        )
    }

    /// Takes the captured inbound messages.
    pub fn take_captured_fiber_messages(&self) -> (r: NetworkActorCommand)
        ensures
            r == NetworkActorCommand::TakeCapturedFiberMessages,
    {
        NetworkActorCommand::TakeCapturedFiberMessages
    }

    /// Answers a call of [`Self::take_captured_fiber_messages`] with the descriptions of the
    /// messages, in their order.
    pub fn take_captured_fiber_messages_result(
        reply: Result<Vec<CapturedInboundFiberMessage>, String>,
    ) -> (r: Result<TakeCapturedFiberMessagesResult, RpcError>)
        ensures
            match reply {
                Ok(captured) => r matches Ok(result) && result.messages@.len() == captured@.len()
                    && forall|i: int|
                    0 <= i < captured@.len() ==> describes(
                        #[trigger] result.messages@[i],
                        captured@[i].peer,
                        captured@[i].message,
                        captured@[i].payload@,
                    ),
                Err(fault) => r matches Err(e) && e.message == fault,
            },
    {
        match reply {
            Err(fault) => Err(rpc_error(fault)),
            Ok(captured) => {
                let ghost all = captured@;
                let mut messages: Vec<CapturedFiberMessage> = Vec::new();
                for one in iter: captured
                    invariant
                        iter.seq() == all,
                        messages@.len() == iter.index(),
                        forall|i: int|
                            0 <= i < messages@.len() ==> describes(
                                #[trigger] messages@[i],
                                all[i].peer,
                                all[i].message,
                                all[i].payload@,
                            ),
                {
                    messages.push(captured_fiber_message_from(one));
                }
                Ok(TakeCapturedFiberMessagesResult { messages })
            },
        }
    }

    /// Delivers captured inbound messages after all.
    pub fn deliver_captured_fiber_messages(&self, params: DeliverCapturedFiberMessagesParams) -> (r:
        NetworkActorCommand)
        ensures
            r == NetworkActorCommand::DeliverCapturedFiberMessages(
                (DeliverCapturedFiberMessagesCommand { count: params.count, kinds: params.kinds }),
            ),
    {
        NetworkActorCommand::DeliverCapturedFiberMessages(
            DeliverCapturedFiberMessagesCommand { count: params.count, kinds: params.kinds },
        )
    }

    /// Answers a call of [`Self::deliver_captured_fiber_messages`] with the number of messages.
    pub fn deliver_captured_fiber_messages_result(reply: Reply<u64>) -> (r: Result<
        DeliverCapturedFiberMessagesResult,
        RpcError,
    >)
        ensures
            fails_as(r, reply_outcome(reply)),
            r matches Ok(result) ==> reply_outcome(reply) == Ok::<u64, Seq<char>>(
                result.delivered,
            ),
    {
        let delivered = handle_actor_call(reply)?;
        Ok(DeliverCapturedFiberMessagesResult { delivered })
    }

    /// Takes the held outbound messages.
    pub fn take_held_outbound_fiber_messages(&self) -> (r: NetworkActorCommand)
        ensures
            r == NetworkActorCommand::TakeHeldOutboundFiberMessages,
    {
        NetworkActorCommand::TakeHeldOutboundFiberMessages
    }

    /// Answers a call of [`Self::take_held_outbound_fiber_messages`] with the descriptions of the
    /// messages, in their order. The peer of a held message is the one it is for.
    pub fn take_held_outbound_fiber_messages_result(
        reply: Result<Vec<HeldOutboundFiberMessage>, String>,
    ) -> (r: Result<TakeCapturedFiberMessagesResult, RpcError>)
        ensures
            match reply {
                Ok(held) => r matches Ok(result) && result.messages@.len() == held@.len()
                    && forall|i: int|
                    0 <= i < held@.len() ==> describes(
                        #[trigger] result.messages@[i],
                        held@[i].target,
                        held@[i].message,
                        held@[i].payload@,
                    ),
                Err(fault) => r matches Err(e) && e.message == fault,
            },
    {
        match reply {
            Err(fault) => Err(rpc_error(fault)),
            Ok(held) => {
                let ghost all = held@;
                let mut messages: Vec<CapturedFiberMessage> = Vec::new();
                for one in iter: held
                    invariant
                        iter.seq() == all,
                        messages@.len() == iter.index(),
                        forall|i: int|
                            0 <= i < messages@.len() ==> describes(
                                #[trigger] messages@[i],
                                all[i].target,
                                all[i].message,
                                all[i].payload@,
                            ),
                {
                    messages.push(
                        captured_fiber_message_from(
                            CapturedInboundFiberMessage {
                                peer: one.target,
                                message: one.message,
                                payload: one.payload,
                            },
                        ),
                    );
                }
                Ok(TakeCapturedFiberMessagesResult { messages })
            },
        }
    }

    /// Sends held outbound messages after all.
    pub fn release_held_outbound_fiber_messages(
        &self,
        params: ReleaseHeldOutboundFiberMessagesParams,
    ) -> (r: NetworkActorCommand)
        ensures
            r == NetworkActorCommand::ReleaseHeldOutboundFiberMessages(
                (ReleaseHeldOutboundFiberMessagesCommand {
                    count: params.count,
                    kinds: params.kinds,
                }),
            ),
    {
        NetworkActorCommand::ReleaseHeldOutboundFiberMessages(
            ReleaseHeldOutboundFiberMessagesCommand { count: params.count, kinds: params.kinds },
        )
    }

    /// Answers a call of [`Self::release_held_outbound_fiber_messages`] with the number of
    /// messages.
    pub fn release_held_outbound_fiber_messages_result(reply: Reply<u64>) -> (r: Result<
        ReleaseHeldOutboundFiberMessagesResult,
        RpcError,
    >)
        ensures
            fails_as(r, reply_outcome(reply)),
            r matches Ok(result) ==> reply_outcome(reply) == Ok::<u64, Seq<char>>(
                result.released,
            ),
    {
        let released = handle_actor_call(reply)?;
        Ok(ReleaseHeldOutboundFiberMessagesResult { released })
    }

    /// Sends a raw channel message outside the honest send path.
    pub fn send_raw_channel_message(&self, params: SendRawChannelMessageParams) -> (r:
        NetworkActorCommand)
        ensures
            r matches NetworkActorCommand::SendRawChannelMessage(c) && {
                &&& c.channel_id == params.channel_id
                &&& c.kind == network_kind(params.kind)
                &&& c.nonce_commitment_number == params.nonce_commitment_number
                &&& c.close_script == params.close_script
                &&& c.fee_rate == params.fee_rate
                &&& c.amount == params.amount
                &&& c.payment_hash == params.payment_hash
                &&& c.expiry == params.expiry
                &&& c.tlc_id == params.tlc_id
                &&& c.remove_fail_error_code == params.remove_fail_error_code
                &&& c.local_commitment_number == params.local_commitment_number
                &&& c.remote_commitment_number == params.remote_commitment_number
                &&& opt_bytes(c.abort_message) == (match params.abort_message {
                    Some(value) => Some(abort_bytes(value@)),
                    None => None,
                })
            },
    {
        let kind = match params.kind {
            RawChannelMessageKind::CommitmentSigned => {
                network::RawChannelMessageKind::CommitmentSigned
            },
            RawChannelMessageKind::Shutdown => network::RawChannelMessageKind::Shutdown,
            RawChannelMessageKind::AddTlc => network::RawChannelMessageKind::AddTlc,
            RawChannelMessageKind::RemoveTlc => network::RawChannelMessageKind::RemoveTlc,
            RawChannelMessageKind::ReestablishChannel => {
                network::RawChannelMessageKind::ReestablishChannel
            },
            RawChannelMessageKind::TxAbort => network::RawChannelMessageKind::TxAbort,
        };
        let abort_message = match params.abort_message {
            Some(value) => Some(abort_reason(value.as_str())),
            None => None,
        };
        NetworkActorCommand::SendRawChannelMessage(
            SendRawChannelMessageCommand {
                channel_id: params.channel_id,
                kind,
                nonce_commitment_number: params.nonce_commitment_number,
                close_script: params.close_script,
                fee_rate: params.fee_rate,
                amount: params.amount,
                payment_hash: params.payment_hash,
                expiry: params.expiry,
                tlc_id: params.tlc_id,
                remove_fail_error_code: params.remove_fail_error_code,
                local_commitment_number: params.local_commitment_number,
                remote_commitment_number: params.remote_commitment_number,
                abort_message,
            },
        )
    }

    /// Answers a call of [`Self::send_raw_channel_message`] with what was sent.
    pub fn send_raw_channel_message_result(reply: Reply<SentRawChannelMessage>) -> (r: Result<
        SendRawChannelMessageResult,
        RpcError,
    >)
        ensures
            fails_as(r, reply_outcome(reply)),
            r matches Ok(result) ==> reply_outcome(reply) matches Ok(sent) && is_opt_hex(
                result.funding_tx_partial_signature,
                sent.funding_tx_partial_signature,
            ) && is_opt_hex(result.next_commitment_nonce, sent.next_commitment_nonce),
    {
        let sent = handle_actor_call(reply)?;
        let funding_tx_partial_signature = match sent.funding_tx_partial_signature {
            Some(signature) => Some(hex_0x(signature.as_slice())),
            None => None,
        };
        let next_commitment_nonce = match sent.next_commitment_nonce {
            Some(nonce) => Some(hex_0x(nonce.as_slice())),
            None => None,
        };
        Ok(SendRawChannelMessageResult { funding_tx_partial_signature, next_commitment_nonce })
    }

    /// Reads the public musig2 session of a channel.
    pub fn get_channel_musig2_public(&self, params: GetChannelMusig2PublicParams) -> (r:
        NetworkActorCommand)
        ensures
            r == NetworkActorCommand::GetChannelMusig2Public(params.channel_id),
    {
        NetworkActorCommand::GetChannelMusig2Public(params.channel_id)
    }

    /// Answers a call of [`Self::get_channel_musig2_public`] with the session.
    pub fn get_channel_musig2_public_result(reply: Reply<ChannelMusig2Public>) -> (r: Result<
        GetChannelMusig2PublicResult,
        RpcError,
    >)
        ensures
            fails_as(r, reply_outcome(reply)),
            r matches Ok(result) ==> reply_outcome(reply) matches Ok(info) && {
                &&& result.local_funding_pubkey == info.local_funding_pubkey
                &&& result.remote_funding_pubkey == info.remote_funding_pubkey
                &&& result.local_commitment_number == info.local_commitment_number
                &&& result.remote_commitment_number == info.remote_commitment_number
                &&& result.local_pubnonce@ == hex_0x_text(info.local_pubnonce@)
                &&& result.last_committed_remote_nonce@ == hex_0x_text(
                    info.last_committed_remote_nonce@,
                )
                &&& result.next_commitment_nonce@ == hex_0x_text(info.next_commitment_nonce@)
                &&& result.own_commitment_message.0 == info.own_commitment_message
                &&& result.peer_commitment_message.0 == info.peer_commitment_message
                &&& result.funding_outpoint == info.funding_outpoint
                &&& result.local_first == info.local_first
            },
    {
        let info = handle_actor_call(reply)?;
        Ok(
            GetChannelMusig2PublicResult {
                local_funding_pubkey: info.local_funding_pubkey,
                remote_funding_pubkey: info.remote_funding_pubkey,
                local_commitment_number: info.local_commitment_number,
                remote_commitment_number: info.remote_commitment_number,
                local_pubnonce: hex_0x(info.local_pubnonce.as_slice()),
                last_committed_remote_nonce: hex_0x(info.last_committed_remote_nonce.as_slice()),
                next_commitment_nonce: hex_0x(info.next_commitment_nonce.as_slice()),
                own_commitment_message: Hash256(info.own_commitment_message),
                peer_commitment_message: Hash256(info.peer_commitment_message),
                funding_outpoint: info.funding_outpoint,
                local_first: info.local_first,
            },
        )
    }

    /// Rebuilds the message of the shutdown transaction from publicly observed close scripts.
    pub fn build_shutdown_tx_message(&self, params: BuildShutdownTxMessageParams) -> (r:
        NetworkActorCommand)
        ensures
            r == NetworkActorCommand::BuildShutdownTxMessage(
                (BuildShutdownTxMessageCommand {
                    channel_id: params.channel_id,
                    local_close_script: params.local_close_script,
                    remote_close_script: params.remote_close_script,
                    local_fee_rate: params.local_fee_rate,
                    remote_fee_rate: params.remote_fee_rate,
                }),
            ),
    {
        NetworkActorCommand::BuildShutdownTxMessage(
            BuildShutdownTxMessageCommand {
                channel_id: params.channel_id,
                local_close_script: params.local_close_script,
                remote_close_script: params.remote_close_script,
                local_fee_rate: params.local_fee_rate,
                remote_fee_rate: params.remote_fee_rate,
            },
        )
    }

    /// Answers a call of [`Self::build_shutdown_tx_message`] with the message.
    pub fn build_shutdown_tx_message_result(reply: Reply<[u8; 32]>) -> (r: Result<
        BuildShutdownTxMessageResult,
        RpcError,
    >)
        ensures
            fails_as(r, reply_outcome(reply)),
            r matches Ok(result) ==> reply_outcome(reply) == Ok::<[u8; 32], Seq<char>>(
                result.message.0,
            ),
    {
        let message = handle_actor_call(reply)?;
        Ok(BuildShutdownTxMessageResult { message: Hash256(message) })
    }
}

} // verus!
