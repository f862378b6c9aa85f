//! What the remote calls for development promise: how their parameters show in the commands, and
//! the replies in the answers.

#[allow(unused_imports)]
use crate::chain::Hash256;
#[allow(unused_imports)]
use crate::commitment::CommitmentTransactions;
#[allow(unused_imports)]
use crate::dev::{abort_reason, DevRpcServerImpl};
#[allow(unused_imports)]
use crate::error::{Reply, RpcError};
#[allow(unused_imports)]
use crate::hexadecimal::{
    hex_0x_text, hex_bytes, is_hex, lemma_spelling_unique, lemma_text_spells, spells,
};
#[allow(unused_imports)]
use crate::keys::PrivateKey;
#[allow(unused_imports)]
use crate::message::{
    captured_fiber_message_from, law_description_unique, opt_text, CapturedInboundFiberMessage,
    HeldOutboundFiberMessage,
};
#[allow(unused_imports)]
use crate::network;
#[allow(unused_imports)]
use crate::network::{
    ChannelMusig2Public, NetworkActorCommand, SentRawChannelMessage, TlcErrorCode,
};
#[allow(unused_imports)]
use crate::signing::{FundingTxSigner, SigningStep};
#[allow(unused_imports)]
use crate::text::without_prefix;
#[allow(unused_imports)]
use crate::transaction::{transaction_hash, Transaction};
#[allow(unused_imports)]
use crate::types::{
    AddTlcParams, AddTlcResult, BuildShutdownTxMessageParams, BuildShutdownTxMessageResult,
    CapturedFiberMessage, CheckChannelShutdownParams, CommitmentSignedParams,
    DeliverCapturedFiberMessagesParams, DeliverCapturedFiberMessagesResult,
    GetChannelMusig2PublicParams, GetChannelMusig2PublicResult,
    ReleaseHeldOutboundFiberMessagesParams, ReleaseHeldOutboundFiberMessagesResult,
    RemoveTlcParams, RemoveTlcReason,
    SendRawChannelMessageParams, SendRawChannelMessageResult, SetFiberMessageInterceptParams,
    SignExternalFundingTxParams, SubmitCommitmentTransactionParams,
    SubmitCommitmentTransactionResult, TakeCapturedFiberMessagesResult,
};
#[allow(unused_imports)]
use vstd::utf8::encode_utf8;
use vstd::prelude::*;

verus! {

/// The address that the calls were made with stays, whatever is recorded.
pub proof fn law_address_kept(
    url: String,
    txs: CommitmentTransactions,
    calls: DevRpcServerImpl,
    channel_id: Hash256,
    commitment_number: u64,
    tx: Transaction,
    after: DevRpcServerImpl,
    told: &String,
    told_after: &String,
)
    requires
        call_ensures(DevRpcServerImpl::new, (url, txs), calls),
        exists|m: &mut DevRpcServerImpl| #[trigger]
            call_ensures(
                DevRpcServerImpl::record_commitment_tx,
                (m, channel_id, commitment_number, tx),
                (),
            ) && *m == calls && *final(m) == after,
        call_ensures(DevRpcServerImpl::ckb_rpc_url, (&calls,), told),
        call_ensures(DevRpcServerImpl::ckb_rpc_url, (&after,), told_after),
    ensures
        told@ == url@,
        told_after@ == url@,
{
}

/// The calls find the commitment transactions that they were made with.
pub proof fn law_known_transaction_submitted(
    url: String,
    txs: CommitmentTransactions,
    calls: DevRpcServerImpl,
    params: SubmitCommitmentTransactionParams,
    found: Option<&Transaction>,
    r: Result<Transaction, RpcError>,
)
    requires
        call_ensures(DevRpcServerImpl::new, (url, txs), calls),
        call_ensures(
            CommitmentTransactions::get,
            (&txs, &params.channel_id, params.commitment_number),
            found,
        ),
        call_ensures(DevRpcServerImpl::submit_commitment_transaction, (&calls, params), r),
    ensures
        found is Some ==> r is Ok && r->Ok_0@ == found->0@,
        found is None ==> r is Err && r->Err_0.message@ == "Commitment transaction not found"@,
{
}

/// A recorded transaction is the one that is submitted for its channel and number. For every other
/// channel and number the call does what it did before.
pub proof fn law_recorded_transaction_submitted(
    before: DevRpcServerImpl,
    channel_id: Hash256,
    commitment_number: u64,
    tx: Transaction,
    after: DevRpcServerImpl,
    params: SubmitCommitmentTransactionParams,
    r_before: Result<Transaction, RpcError>,
    r: Result<Transaction, RpcError>,
)
    requires
        exists|m: &mut DevRpcServerImpl| #[trigger]
            call_ensures(
                DevRpcServerImpl::record_commitment_tx,
                (m, channel_id, commitment_number, tx),
                (),
            ) && *m == before && *final(m) == after,
        call_ensures(DevRpcServerImpl::submit_commitment_transaction, (&before, params), r_before),
        call_ensures(DevRpcServerImpl::submit_commitment_transaction, (&after, params), r),
    ensures
        if params.channel_id == channel_id && params.commitment_number == commitment_number {
            r is Ok && r->Ok_0@ == tx@
        } else {
            match r_before {
                Ok(earlier) => r is Ok && r->Ok_0@ == earlier@,
                Err(e) => r is Err && r->Err_0.message@ == e.message@,
            }
        },
{
}

/// A submitted transaction is answered with its own hash, and a refusal with its message.
pub proof fn law_submission_answered(
    tx: Transaction,
    sent: Result<(), String>,
    raw: &Vec<u8>,
    r: Result<SubmitCommitmentTransactionResult, RpcError>,
)
    requires
        call_ensures(Transaction::raw, (&tx,), raw),
        call_ensures(DevRpcServerImpl::submit_commitment_transaction_result, (&tx, sent), r),
    ensures
        match sent {
            Ok(()) => r is Ok && r->Ok_0.tx_hash.0@ == transaction_hash(raw@),
            Err(fault) => r is Err && r->Err_0.message@ == fault@,
        },
{
}

/// The channel of the parameters is told to send a commitment_signed message.
pub proof fn law_commitment_signed(
    calls: DevRpcServerImpl,
    params: CommitmentSignedParams,
    r: NetworkActorCommand,
)
    requires
        call_ensures(DevRpcServerImpl::commitment_signed, (&calls, params), r),
    ensures
        match r {
            NetworkActorCommand::ControlFiberChannel(c) => {
                &&& c.channel_id == params.channel_id
                &&& c.command is CommitmentSigned
            },
            _ => false,
        },
{
}

/// The channel of the parameters gets a TLC with their amount, payment hash and expiry, and with
/// the hash algorithm that is given. It belongs to no attempt and to no route.
pub proof fn law_add_tlc(
    calls: DevRpcServerImpl,
    params: AddTlcParams,
    r: NetworkActorCommand,
)
    requires
        call_ensures(DevRpcServerImpl::add_tlc, (&calls, params), r),
    ensures
        match r {
            NetworkActorCommand::ControlFiberChannel(c) => {
                &&& c.channel_id == params.channel_id
                &&& c.command is AddTlc
                &&& c.command->AddTlc_0.amount == params.amount
                &&& c.command->AddTlc_0.payment_hash == params.payment_hash
                &&& c.command->AddTlc_0.expiry == params.expiry
                &&& params.hash_algorithm is Some ==> c.command->AddTlc_0.hash_algorithm
                    == params.hash_algorithm->0
                &&& params.hash_algorithm is None ==> c.command->AddTlc_0.hash_algorithm is CkbHash
                &&& c.command->AddTlc_0.attempt_id is None
                &&& c.command->AddTlc_0.onion_packet is None
                &&& c.command->AddTlc_0.previous_tlc is None
                &&& !c.command->AddTlc_0.is_trampoline_hop
                &&& forall|i: int|
                    0 <= i < 32 ==> #[trigger] c.command->AddTlc_0.shared_secret@[i] == 0
            },
            _ => false,
        },
{
}

/// Whatever the reason, the TLC of the parameters is removed from the channel of the parameters:
/// with the preimage that is given, or with the error code that its name stands for. A name that
/// stands for none is refused.
pub proof fn law_remove_tlc(
    calls: DevRpcServerImpl,
    params: RemoveTlcParams,
    error_code: Option<TlcErrorCode>,
    r: Result<NetworkActorCommand, RpcError>,
)
    requires
        call_ensures(DevRpcServerImpl::remove_tlc, (&calls, params, error_code), r),
    ensures
        r is Err <==> params.reason is RemoveTlcFail && error_code is None,
        r is Err ==> r->Err_0.message@ == "invalid error code: "@ + params.reason->error_code@,
        r is Ok ==> (match r->Ok_0 {
            NetworkActorCommand::ControlFiberChannel(c) => {
                &&& c.channel_id == params.channel_id
                &&& c.command is RemoveTlc
                &&& c.command->RemoveTlc_0.id == params.tlc_id
                &&& match (params.reason, c.command->RemoveTlc_0.reason) {
                    (
                        RemoveTlcReason::RemoveTlcFulfill { payment_preimage: given },
                        network::RemoveTlcReason::RemoveTlcFulfill { payment_preimage },
                    ) => payment_preimage == given,
                    (
                        RemoveTlcReason::RemoveTlcFail { error_code: name },
                        network::RemoveTlcReason::RemoveTlcFail { error_code: code, shared_secret },
                    ) => error_code == Some(code) && forall|i: int|
                        0 <= i < 32 ==> #[trigger] shared_secret@[i] == 0,
                    _ => false,
                }
            },
            _ => false,
        }),
{
}

/// The command names the channel of the parameters.
pub proof fn law_check_channel_shutdown(
    calls: DevRpcServerImpl,
    params: CheckChannelShutdownParams,
    r: NetworkActorCommand,
)
    requires
        call_ensures(DevRpcServerImpl::check_channel_shutdown, (&calls, params), r),
    ensures
        r is CheckChannelShutdown,
        r->CheckChannelShutdown_0 == params.channel_id,
{
}

/// The command names the channel of the parameters.
pub proof fn law_get_channel_musig2_public(
    calls: DevRpcServerImpl,
    params: GetChannelMusig2PublicParams,
    r: NetworkActorCommand,
)
    requires
        call_ensures(DevRpcServerImpl::get_channel_musig2_public, (&calls, params), r),
    ensures
        r is GetChannelMusig2Public,
        r->GetChannelMusig2Public_0 == params.channel_id,
{
}

/// Taking captured messages asks for those.
pub proof fn law_take_captured_fiber_messages(
    calls: DevRpcServerImpl,
    r: NetworkActorCommand,
)
    requires
        call_ensures(DevRpcServerImpl::take_captured_fiber_messages, (&calls,), r),
    ensures
        r is TakeCapturedFiberMessages,
{
}

/// Taking held messages asks for those.
pub proof fn law_take_held_outbound_fiber_messages(
    calls: DevRpcServerImpl,
    r: NetworkActorCommand,
)
    requires
        call_ensures(DevRpcServerImpl::take_held_outbound_fiber_messages, (&calls,), r),
    ensures
        r is TakeHeldOutboundFiberMessages,
{
}

/// Every setting of an intercept reaches the node, under its own name.
pub proof fn law_set_fiber_message_intercept(
    calls: DevRpcServerImpl,
    params: SetFiberMessageInterceptParams,
    r: NetworkActorCommand,
)
    requires
        call_ensures(DevRpcServerImpl::set_fiber_message_intercept, (&calls, params), r),
    ensures
        match r {
            NetworkActorCommand::SetFiberMessageIntercept(c) => {
                &&& c.channel_id == params.channel_id
                &&& c.suppress_outbound_revoke_and_ack == params.suppress_outbound_revoke_and_ack
                &&& c.capture_inbound == params.capture_inbound
                &&& c.inbound_capture_kinds == params.inbound_capture_kinds
                &&& c.inbound_drop_kinds == params.inbound_drop_kinds
                &&& c.outbound_drop_kinds == params.outbound_drop_kinds
                &&& c.outbound_hold_kinds == params.outbound_hold_kinds
            },
            _ => false,
        },
{
}

/// The number and the kinds of the messages to deliver reach the node.
pub proof fn law_deliver_captured_fiber_messages(
    calls: DevRpcServerImpl,
    params: DeliverCapturedFiberMessagesParams,
    r: NetworkActorCommand,
)
    requires
        call_ensures(DevRpcServerImpl::deliver_captured_fiber_messages, (&calls, params), r),
    ensures
        match r {
            NetworkActorCommand::DeliverCapturedFiberMessages(c) => {
                &&& c.count == params.count
                &&& c.kinds == params.kinds
            },
            _ => false,
        },
{
}

/// The number and the kinds of the messages to release reach the node.
pub proof fn law_release_held_outbound_fiber_messages(
    calls: DevRpcServerImpl,
    params: ReleaseHeldOutboundFiberMessagesParams,
    r: NetworkActorCommand,
)
    requires
        call_ensures(DevRpcServerImpl::release_held_outbound_fiber_messages, (&calls, params), r),
    ensures
        match r {
            NetworkActorCommand::ReleaseHeldOutboundFiberMessages(c) => {
                &&& c.count == params.count
                &&& c.kinds == params.kinds
            },
            _ => false,
        },
{
}

/// The channel, and each party's close script and fee rate, reach the node.
pub proof fn law_build_shutdown_tx_message(
    calls: DevRpcServerImpl,
    params: BuildShutdownTxMessageParams,
    r: NetworkActorCommand,
)
    requires
        call_ensures(DevRpcServerImpl::build_shutdown_tx_message, (&calls, params), r),
    ensures
        match r {
            NetworkActorCommand::BuildShutdownTxMessage(c) => {
                &&& c.channel_id == params.channel_id
                &&& c.local_close_script == params.local_close_script
                &&& c.remote_close_script == params.remote_close_script
                &&& c.local_fee_rate == params.local_fee_rate
                &&& c.remote_fee_rate == params.remote_fee_rate
            },
            _ => false,
        },
{
}

/// A raw message reaches the node with the kind of the parameters and with all that they say. Its
/// abort reason is what [`abort_reason`] reads.
pub proof fn law_send_raw_channel_message(
    calls: DevRpcServerImpl,
    params: SendRawChannelMessageParams,
    r: NetworkActorCommand,
    reason: &str,
    reason_read: Vec<u8>,
)
    requires
        call_ensures(DevRpcServerImpl::send_raw_channel_message, (&calls, params), r),
        params.abort_message is Some ==> reason@ == params.abort_message->0@,
        call_ensures(abort_reason, (reason,), reason_read),
    ensures
        match r {
            NetworkActorCommand::SendRawChannelMessage(c) => {
                &&& params.kind is CommitmentSigned <==> c.kind is CommitmentSigned
                &&& params.kind is Shutdown <==> c.kind is Shutdown
                &&& params.kind is AddTlc <==> c.kind is AddTlc
                &&& params.kind is RemoveTlc <==> c.kind is RemoveTlc
                &&& params.kind is ReestablishChannel <==> c.kind is ReestablishChannel
                &&& params.kind is TxAbort <==> c.kind is TxAbort
                &&& c.channel_id == params.channel_id
                &&& c.nonce_commitment_number == params.nonce_commitment_number
                &&& c.close_script == params.close_script
                &&& c.fee_rate == params.fee_rate
                &&& c.amount == params.amount
                &&& c.payment_hash == params.payment_hash
                &&& c.expiry == params.expiry
                &&& c.tlc_id == params.tlc_id
                &&& c.remove_fail_error_code == params.remove_fail_error_code
                &&& c.local_commitment_number == params.local_commitment_number
                &&& c.remote_commitment_number == params.remote_commitment_number
                &&& params.abort_message is None ==> c.abort_message is None
                &&& params.abort_message is Some ==> c.abort_message is Some
                    && c.abort_message->0@ == reason_read@
            },
            _ => false,
        },
{
}

/// An abort reason of the prefix `0x` or `0X` and hexadecimal digits stands for the bytes of the
/// digits. Every other text stands for its UTF-8 bytes: one without a prefix, and one whose prefix
/// is not followed by hexadecimal.
pub proof fn law_abort_reason(value: &str, digits: Seq<char>, r: Vec<u8>)
    requires
        call_ensures(abort_reason, (value,), r),
    ensures
        (value@ == "0x"@ + digits || value@ == "0X"@ + digits) && is_hex(digits) ==> r@
            == hex_bytes(digits),
        (value@ == "0x"@ + digits || value@ == "0X"@ + digits) && !is_hex(digits) ==> r@
            == encode_utf8(value@),
        value@.len() < 2 || value@[0] != '0' || (value@[1] != 'x' && value@[1] != 'X') ==> r@
            == encode_utf8(value@),
{
    reveal_strlit("0x");
    reveal_strlit("0X");
    let v = value@;
    if v == "0x"@ + digits {
        assert(v.take(2) =~= "0x"@);
        assert(v.skip(2) =~= digits);
    }
    if v == "0X"@ + digits {
        assert(v.take(2)[1] == 'X');
        assert(without_prefix(v, "0x"@) is None);
        assert(v.take(2) =~= "0X"@);
        assert(v.skip(2) =~= digits);
    }
    if v.len() < 2 || v[0] != '0' || (v[1] != 'x' && v[1] != 'X') {
        if v.len() >= 2 {
            assert(v.take(2)[0] == v[0] && v.take(2)[1] == v[1]);
        }
        assert(without_prefix(v, "0x"@) is None);
        assert(without_prefix(v, "0X"@) is None);
    }
}

/// An abort reason that spells bytes stands for them.
pub proof fn law_spelled_abort_reason(value: &str, bytes: Seq<u8>, r: Vec<u8>)
    requires
        call_ensures(abort_reason, (value,), r),
        spells(value@, bytes),
    ensures
        r@ == bytes,
{
    lemma_text_spells(bytes);
    let text = hex_0x_text(bytes);
    lemma_spelling_unique(value@, text, bytes);
    reveal_strlit("0x");
    assert(text =~= "0x"@ + text.skip(2));
    law_abort_reason(value, text.skip(2), r);
}

/// The answer is the ID that the node gave the TLC, or the message of the failure.
pub proof fn law_add_tlc_answer(reply: Reply<u64>, r: Result<AddTlcResult, RpcError>)
    requires
        call_ensures(DevRpcServerImpl::add_tlc_result, (reply,), r),
    ensures
        match reply {
            Ok(Ok(answer)) => {
                &&& r is Ok
                &&& r->Ok_0.tlc_id == answer
            },
            Ok(Err(refusal)) => r is Err && r->Err_0.message@ == refusal@,
            Err(fault) => r is Err && r->Err_0.message@ == fault@,
        },
{
}

/// The answer is the number that the node delivered, or the message of the failure.
pub proof fn law_deliver_captured_fiber_messages_answer(reply: Reply<u64>, r: Result<DeliverCapturedFiberMessagesResult, RpcError>)
    requires
        call_ensures(DevRpcServerImpl::deliver_captured_fiber_messages_result, (reply,), r),
    ensures
        match reply {
            Ok(Ok(answer)) => {
                &&& r is Ok
                &&& r->Ok_0.delivered == answer
            },
            Ok(Err(refusal)) => r is Err && r->Err_0.message@ == refusal@,
            Err(fault) => r is Err && r->Err_0.message@ == fault@,
        },
{
}

/// The answer is the number that the node released, or the message of the failure.
pub proof fn law_release_held_outbound_fiber_messages_answer(reply: Reply<u64>, r: Result<ReleaseHeldOutboundFiberMessagesResult, RpcError>)
    requires
        call_ensures(DevRpcServerImpl::release_held_outbound_fiber_messages_result, (reply,), r),
    ensures
        match reply {
            Ok(Ok(answer)) => {
                &&& r is Ok
                &&& r->Ok_0.released == answer
            },
            Ok(Err(refusal)) => r is Err && r->Err_0.message@ == refusal@,
            Err(fault) => r is Err && r->Err_0.message@ == fault@,
        },
{
}

/// The answer is the message that the node built, or the message of the failure.
pub proof fn law_build_shutdown_tx_message_answer(reply: Reply<[u8; 32]>, r: Result<BuildShutdownTxMessageResult, RpcError>)
    requires
        call_ensures(DevRpcServerImpl::build_shutdown_tx_message_result, (reply,), r),
    ensures
        match reply {
            Ok(Ok(answer)) => {
                &&& r is Ok
                &&& r->Ok_0.message.0@ == answer@
            },
            Ok(Err(refusal)) => r is Err && r->Err_0.message@ == refusal@,
            Err(fault) => r is Err && r->Err_0.message@ == fault@,
        },
{
}

/// The answer spells the bytes of the signature and of the nonce that were sent, where there are
/// any, or it is the message of the failure.
pub proof fn law_send_raw_channel_message_answer(reply: Reply<SentRawChannelMessage>, r: Result<SendRawChannelMessageResult, RpcError>)
    requires
        call_ensures(DevRpcServerImpl::send_raw_channel_message_result, (reply,), r),
    ensures
        match reply {
            Ok(Ok(answer)) => {
                &&& r is Ok
                &&& answer.funding_tx_partial_signature is None ==> r->Ok_0.funding_tx_partial_signature is None
                &&& answer.funding_tx_partial_signature is Some ==> r->Ok_0.funding_tx_partial_signature is Some && spells(
                    r->Ok_0.funding_tx_partial_signature->0@,
                    answer.funding_tx_partial_signature->0@,
                )
                &&& answer.next_commitment_nonce is None ==> r->Ok_0.next_commitment_nonce is None
                &&& answer.next_commitment_nonce is Some ==> r->Ok_0.next_commitment_nonce is Some && spells(
                    r->Ok_0.next_commitment_nonce->0@,
                    answer.next_commitment_nonce->0@,
                )
            },
            Ok(Err(refusal)) => r is Err && r->Err_0.message@ == refusal@,
            Err(fault) => r is Err && r->Err_0.message@ == fault@,
        },
{
    if reply is Ok && reply->Ok_0 is Ok {
        let answer = reply->Ok_0->Ok_0;
        if answer.funding_tx_partial_signature is Some {
            lemma_text_spells(answer.funding_tx_partial_signature->0@);
        }
        if answer.next_commitment_nonce is Some {
            lemma_text_spells(answer.next_commitment_nonce->0@);
        }
    }
}

/// The answer is the session of the node, with its nonces spelled, or the message of the failure.
pub proof fn law_get_channel_musig2_public_answer(reply: Reply<ChannelMusig2Public>, r: Result<GetChannelMusig2PublicResult, RpcError>)
    requires
        call_ensures(DevRpcServerImpl::get_channel_musig2_public_result, (reply,), r),
    ensures
        match reply {
            Ok(Ok(answer)) => {
                &&& r is Ok
                &&& r->Ok_0.local_funding_pubkey == answer.local_funding_pubkey
                &&& r->Ok_0.remote_funding_pubkey == answer.remote_funding_pubkey
                &&& r->Ok_0.local_commitment_number == answer.local_commitment_number
                &&& r->Ok_0.remote_commitment_number == answer.remote_commitment_number
                &&& r->Ok_0.funding_outpoint == answer.funding_outpoint
                &&& r->Ok_0.local_first == answer.local_first
                &&& r->Ok_0.own_commitment_message.0@ == answer.own_commitment_message@
                &&& r->Ok_0.peer_commitment_message.0@ == answer.peer_commitment_message@
                &&& spells(r->Ok_0.local_pubnonce@, answer.local_pubnonce@)
                &&& spells(r->Ok_0.last_committed_remote_nonce@, answer.last_committed_remote_nonce@)
                &&& spells(r->Ok_0.next_commitment_nonce@, answer.next_commitment_nonce@)
            },
            Ok(Err(refusal)) => r is Err && r->Err_0.message@ == refusal@,
            Err(fault) => r is Err && r->Err_0.message@ == fault@,
        },
{
    if reply is Ok && reply->Ok_0 is Ok {
        let answer = reply->Ok_0->Ok_0;
        lemma_text_spells(answer.local_pubnonce@);
        lemma_text_spells(answer.last_committed_remote_nonce@);
        lemma_text_spells(answer.next_commitment_nonce@);
    }
}

/// The answer describes every message that was taken, in the place where it stood, as
/// [`captured_fiber_message_from`] describes it alone.
pub proof fn law_take_captured_fiber_messages_answer(
    messages: Vec<CapturedInboundFiberMessage>,
    r: Result<TakeCapturedFiberMessagesResult, RpcError>,
    i: int,
    alone: CapturedInboundFiberMessage,
    one: CapturedFiberMessage,
)
    requires
        call_ensures(DevRpcServerImpl::take_captured_fiber_messages_result, (Ok(messages),), r),
        0 <= i < messages@.len(),
        alone.peer == messages@[i].peer,
        alone.message == messages@[i].message,
        alone.payload@ == messages@[i].payload@,
        call_ensures(captured_fiber_message_from, (alone,), one),
    ensures
        r is Ok,
        r->Ok_0.messages@.len() == messages@.len(),
        r->Ok_0.messages@[i].peer_pubkey == one.peer_pubkey,
        r->Ok_0.messages@[i].channel_id == one.channel_id,
        r->Ok_0.messages@[i].close_script == one.close_script,
        r->Ok_0.messages@[i].fee_rate == one.fee_rate,
        r->Ok_0.messages@[i].tlc_id == one.tlc_id,
        r->Ok_0.messages@[i].payment_hash == one.payment_hash,
        r->Ok_0.messages@[i].local_commitment_number == one.local_commitment_number,
        r->Ok_0.messages@[i].remote_commitment_number == one.remote_commitment_number,
        r->Ok_0.messages@[i].kind@ == one.kind@,
        r->Ok_0.messages@[i].payload@ == one.payload@,
        r->Ok_0.messages@[i].funding_tx_partial_signature is Some <==> one.funding_tx_partial_signature is Some,
        one.funding_tx_partial_signature is Some ==> r->Ok_0.messages@[i].funding_tx_partial_signature->0@
            == one.funding_tx_partial_signature->0@,
        r->Ok_0.messages@[i].closing_partial_signature is Some <==> one.closing_partial_signature is Some,
        one.closing_partial_signature is Some ==> r->Ok_0.messages@[i].closing_partial_signature->0@
            == one.closing_partial_signature->0@,
        r->Ok_0.messages@[i].next_commitment_nonce is Some <==> one.next_commitment_nonce is Some,
        one.next_commitment_nonce is Some ==> r->Ok_0.messages@[i].next_commitment_nonce->0@
            == one.next_commitment_nonce->0@,
{
    law_description_unique(
        r->Ok_0.messages@[i],
        one,
        messages@[i].peer,
        messages@[i].message,
        messages@[i].payload@,
    );
    lemma_same_texts(r->Ok_0.messages@[i], one);
}

/// Taking no messages gives none, and a failure keeps its message.
pub proof fn law_take_captured_fiber_messages_none(
    reply: Result<Vec<CapturedInboundFiberMessage>, String>,
    r: Result<TakeCapturedFiberMessagesResult, RpcError>,
)
    requires
        call_ensures(DevRpcServerImpl::take_captured_fiber_messages_result, (reply,), r),
    ensures
        match reply {
            Ok(messages) => r is Ok && r->Ok_0.messages@.len() == messages@.len(),
            Err(fault) => r is Err && r->Err_0.message@ == fault@,
        },
{
}

/// The answer describes every message that was taken, in the place where it stood, as
/// [`captured_fiber_message_from`] describes it alone.
pub proof fn law_take_held_outbound_fiber_messages_answer(
    messages: Vec<HeldOutboundFiberMessage>,
    r: Result<TakeCapturedFiberMessagesResult, RpcError>,
    i: int,
    alone: CapturedInboundFiberMessage,
    one: CapturedFiberMessage,
)
    requires
        call_ensures(DevRpcServerImpl::take_held_outbound_fiber_messages_result, (Ok(messages),), r),
        0 <= i < messages@.len(),
        alone.peer == messages@[i].target,
        alone.message == messages@[i].message,
        alone.payload@ == messages@[i].payload@,
        call_ensures(captured_fiber_message_from, (alone,), one),
    ensures
        r is Ok,
        r->Ok_0.messages@.len() == messages@.len(),
        r->Ok_0.messages@[i].peer_pubkey == one.peer_pubkey,
        r->Ok_0.messages@[i].channel_id == one.channel_id,
        r->Ok_0.messages@[i].close_script == one.close_script,
        r->Ok_0.messages@[i].fee_rate == one.fee_rate,
        r->Ok_0.messages@[i].tlc_id == one.tlc_id,
        r->Ok_0.messages@[i].payment_hash == one.payment_hash,
        r->Ok_0.messages@[i].local_commitment_number == one.local_commitment_number,
        r->Ok_0.messages@[i].remote_commitment_number == one.remote_commitment_number,
        r->Ok_0.messages@[i].kind@ == one.kind@,
        r->Ok_0.messages@[i].payload@ == one.payload@,
        r->Ok_0.messages@[i].funding_tx_partial_signature is Some <==> one.funding_tx_partial_signature is Some,
        one.funding_tx_partial_signature is Some ==> r->Ok_0.messages@[i].funding_tx_partial_signature->0@
            == one.funding_tx_partial_signature->0@,
        r->Ok_0.messages@[i].closing_partial_signature is Some <==> one.closing_partial_signature is Some,
        one.closing_partial_signature is Some ==> r->Ok_0.messages@[i].closing_partial_signature->0@
            == one.closing_partial_signature->0@,
        r->Ok_0.messages@[i].next_commitment_nonce is Some <==> one.next_commitment_nonce is Some,
        one.next_commitment_nonce is Some ==> r->Ok_0.messages@[i].next_commitment_nonce->0@
            == one.next_commitment_nonce->0@,
{
    law_description_unique(
        r->Ok_0.messages@[i],
        one,
        messages@[i].target,
        messages@[i].message,
        messages@[i].payload@,
    );
    lemma_same_texts(r->Ok_0.messages@[i], one);
}

/// Taking no messages gives none, and a failure keeps its message.
pub proof fn law_take_held_outbound_fiber_messages_none(
    reply: Result<Vec<HeldOutboundFiberMessage>, String>,
    r: Result<TakeCapturedFiberMessagesResult, RpcError>,
)
    requires
        call_ensures(DevRpcServerImpl::take_held_outbound_fiber_messages_result, (reply,), r),
    ensures
        match reply {
            Ok(messages) => r is Ok && r->Ok_0.messages@.len() == messages@.len(),
            Err(fault) => r is Err && r->Err_0.message@ == fault@,
        },
{
}

proof fn lemma_same_texts(a: CapturedFiberMessage, b: CapturedFiberMessage)
    requires
        opt_text(a.funding_tx_partial_signature) == opt_text(b.funding_tx_partial_signature),
        opt_text(a.closing_partial_signature) == opt_text(b.closing_partial_signature),
        opt_text(a.next_commitment_nonce) == opt_text(b.next_commitment_nonce),
    ensures
        a.funding_tx_partial_signature is Some <==> b.funding_tx_partial_signature is Some,
        a.closing_partial_signature is Some <==> b.closing_partial_signature is Some,
        a.next_commitment_nonce is Some <==> b.next_commitment_nonce is Some,
        b.funding_tx_partial_signature is Some ==> a.funding_tx_partial_signature->0@
            == b.funding_tx_partial_signature->0@,
        b.closing_partial_signature is Some ==> a.closing_partial_signature->0@
            == b.closing_partial_signature->0@,
        b.next_commitment_nonce is Some ==> a.next_commitment_nonce->0@
            == b.next_commitment_nonce->0@,
{
}

/// The call signs with the key that its text stands for, starting as the signer of that key and
/// transaction does, and it refuses a text that is no key with the message that reading it gives.
pub proof fn law_sign_external_funding_tx(
    calls: DevRpcServerImpl,
    params: SignExternalFundingTxParams,
    r: Result<SigningStep, RpcError>,
    text: &str,
    key: Result<PrivateKey, RpcError>,
    started: Result<SigningStep, RpcError>,
)
    requires
        call_ensures(DevRpcServerImpl::sign_external_funding_tx, (&calls, params), r),
        text@ == params.private_key@,
        call_ensures(PrivateKey::from_hex, (text,), key),
        key is Ok ==> call_ensures(
            FundingTxSigner::start,
            (key->Ok_0, params.unsigned_funding_tx),
            started,
        ),
    ensures
        key is Err ==> r is Err && r->Err_0.message@ == key->Err_0.message@,
        key is Ok ==> (match started {
            Ok(step) => r is Ok && r->Ok_0@ == step@,
            Err(e) => r is Err && r->Err_0.message@ == e.message@,
        }),
{
}

} // verus!
