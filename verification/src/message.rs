//! Fiber messages that were captured or held, and their descriptions.

use crate::chain::{Hash256, Script};
use crate::hexadecimal::hex_0x;
use crate::types::{CapturedFiberMessage, Pubkey};
#[allow(unused_imports)]
use crate::hexadecimal::{hex_0x_text, law_hex_0x_injective, lemma_text_spells, spells};
use vstd::prelude::*;

verus! {

/// A Fiber message.
#[derive(Debug)]
pub enum FiberMessage {
    /// The greeting of a peer.
    Init,
    /// A request to open a channel.
    ChannelInitialization(OpenChannel),
    /// A message of an existing channel.
    ChannelNormalOperation(FiberChannelMessage),
}

/// A request to open a channel.
#[derive(Debug)]
pub struct OpenChannel {
    /// The channel.
    pub channel_id: Hash256,
}

/// A message of an existing channel.
#[derive(Debug)]
pub enum FiberChannelMessage {
    /// A signature for the next commitment.
    CommitmentSigned(CommitmentSigned),
    /// A signature for the closing transaction.
    ClosingSigned(ClosingSigned),
    /// A request to close the channel.
    Shutdown(Shutdown),
    /// A new TLC.
    AddTlc(AddTlc),
    /// The end of a TLC.
    RemoveTlc(RemoveTlc),
    /// The state of a channel after a reconnection.
    ReestablishChannel(ReestablishChannel),
    /// Any other message.
    Other(OtherMessage),
}

/// A signature for the next commitment.
#[derive(Debug)]
pub struct CommitmentSigned {
    /// The channel.
    pub channel_id: Hash256,
    /// The partial signature.
    pub funding_tx_partial_signature: [u8; 32],
    /// The nonce for the commitment after the next.
    pub next_commitment_nonce: [u8; 66],
}

/// A signature for the closing transaction.
#[derive(Debug)]
pub struct ClosingSigned {
    /// The channel.
    pub channel_id: Hash256,
    /// The partial signature.
    pub partial_signature: [u8; 32],
}

/// A request to close the channel.
#[derive(Debug)]
pub struct Shutdown {
    /// The channel.
    pub channel_id: Hash256,
    /// Where the sender's share goes.
    pub close_script: Script,
    /// The fee rate of the closing transaction.
    pub fee_rate: u64,
}

/// A new TLC.
#[derive(Debug)]
pub struct AddTlc {
    /// The channel.
    pub channel_id: Hash256,
    /// The TLC.
    pub tlc_id: u64,
    /// Its payment hash.
    pub payment_hash: Hash256,
}

/// The end of a TLC.
#[derive(Debug)]
pub struct RemoveTlc {
    /// The channel.
    pub channel_id: Hash256,
    /// The TLC.
    pub tlc_id: u64,
}

/// The state of a channel after a reconnection.
#[derive(Debug)]
pub struct ReestablishChannel {
    /// The channel.
    pub channel_id: Hash256,
    /// The sender's commitment number.
    pub local_commitment_number: u64,
    /// The receiver's commitment number as the sender knows it.
    pub remote_commitment_number: u64,
}

/// A message of which only the channel and the kind are told.
#[derive(Debug)]
pub struct OtherMessage {
    /// The channel.
    pub channel_id: Hash256,
    /// The kind, such as `RevokeAndAck`.
    pub kind: String,
}

/// A message that was captured on its way in.
#[derive(Debug)]
pub struct CapturedInboundFiberMessage {
    /// Who sent it.
    pub peer: Pubkey,
    /// The message.
    pub message: FiberMessage,
    /// The encoded message.
    pub payload: Vec<u8>,
}

/// A message that was held on its way out.
#[derive(Debug)]
pub struct HeldOutboundFiberMessage {
    /// Whom it is for.
    pub target: Pubkey,
    /// The message.
    pub message: FiberMessage,
    /// The encoded message.
    pub payload: Vec<u8>,
}

impl FiberChannelMessage {
    /// The channel of the message.
    pub open spec fn spec_channel_id(self) -> Hash256 {
        match self {
            FiberChannelMessage::CommitmentSigned(m) => m.channel_id,
            FiberChannelMessage::ClosingSigned(m) => m.channel_id,
            FiberChannelMessage::Shutdown(m) => m.channel_id,
            FiberChannelMessage::AddTlc(m) => m.channel_id,
            FiberChannelMessage::RemoveTlc(m) => m.channel_id,
            FiberChannelMessage::ReestablishChannel(m) => m.channel_id,
            FiberChannelMessage::Other(m) => m.channel_id,
        }
    }

    /// The channel of the message.
    pub fn get_channel_id(&self) -> (r: Hash256)
        ensures
            r == self.spec_channel_id(),
    {
        match self {
            FiberChannelMessage::CommitmentSigned(m) => m.channel_id,
            FiberChannelMessage::ClosingSigned(m) => m.channel_id,
            FiberChannelMessage::Shutdown(m) => m.channel_id,
            FiberChannelMessage::AddTlc(m) => m.channel_id,
            FiberChannelMessage::RemoveTlc(m) => m.channel_id,
            FiberChannelMessage::ReestablishChannel(m) => m.channel_id,
            FiberChannelMessage::Other(m) => m.channel_id,
        }
    }
}

/// The channel of a message, if it is a channel message.
pub open spec fn message_channel_id(m: FiberMessage) -> Option<Hash256> {
    match m {
        FiberMessage::ChannelNormalOperation(message) => Some(message.spec_channel_id()),
        FiberMessage::ChannelInitialization(open) => Some(open.channel_id),
        FiberMessage::Init => None,
    }
}

/// The kind of a message.
pub open spec fn message_kind(m: FiberMessage) -> Seq<char> {
    match m {
        FiberMessage::ChannelNormalOperation(message) => match message {
            FiberChannelMessage::CommitmentSigned(_) => "CommitmentSigned"@,
            FiberChannelMessage::ClosingSigned(_) => "ClosingSigned"@,
            FiberChannelMessage::Shutdown(_) => "Shutdown"@,
            FiberChannelMessage::AddTlc(_) => "AddTlc"@,
            FiberChannelMessage::RemoveTlc(_) => "RemoveTlc"@,
            FiberChannelMessage::ReestablishChannel(_) => "ReestablishChannel"@,
            FiberChannelMessage::Other(other) => other.kind@,
        },
        FiberMessage::ChannelInitialization(_) => "OpenChannel"@,
        FiberMessage::Init => "Init"@,
    }
}

/// The `CommitmentSigned` that a message is, if it is one.
pub open spec fn as_commitment_signed(m: FiberMessage) -> Option<CommitmentSigned> {
    match m {
        FiberMessage::ChannelNormalOperation(FiberChannelMessage::CommitmentSigned(c)) => Some(c),
        _ => None,
    }
}

/// The `ClosingSigned` that a message is, if it is one.
pub open spec fn as_closing_signed(m: FiberMessage) -> Option<ClosingSigned> {
    match m {
        FiberMessage::ChannelNormalOperation(FiberChannelMessage::ClosingSigned(c)) => Some(c),
        _ => None,
    }
}

/// The `Shutdown` that a message is, if it is one.
pub open spec fn as_shutdown(m: FiberMessage) -> Option<Shutdown> {
    match m {
        FiberMessage::ChannelNormalOperation(FiberChannelMessage::Shutdown(s)) => Some(s),
        _ => None,
    }
}

/// The `AddTlc` that a message is, if it is one.
pub open spec fn as_add_tlc(m: FiberMessage) -> Option<AddTlc> {
    match m {
        FiberMessage::ChannelNormalOperation(FiberChannelMessage::AddTlc(a)) => Some(a),
        _ => None,
    }
}

/// The `RemoveTlc` that a message is, if it is one.
pub open spec fn as_remove_tlc(m: FiberMessage) -> Option<RemoveTlc> {
    match m {
        FiberMessage::ChannelNormalOperation(FiberChannelMessage::RemoveTlc(r)) => Some(r),
        _ => None,
    }
}

/// The `ReestablishChannel` that a message is, if it is one.
pub open spec fn as_reestablish(m: FiberMessage) -> Option<ReestablishChannel> {
    match m {
        FiberMessage::ChannelNormalOperation(FiberChannelMessage::ReestablishChannel(r)) => Some(r),
        _ => None,
    }
}

/// What an optional text holds.
pub open spec fn opt_text(t: Option<String>) -> Option<Seq<char>> {
    match t {
        Some(text) => Some(text@),
        None => None,
    }
}

/// Whether `r` describes the message `message` of the peer `peer` with the encoding `payload`.
pub open spec fn describes(
    r: CapturedFiberMessage,
    peer: Pubkey,
    message: FiberMessage,
    payload: Seq<u8>,
) -> bool {
    &&& r.peer_pubkey == peer
    &&& r.channel_id == message_channel_id(message)
    &&& r.kind@ == message_kind(message)
    &&& r.payload@ == hex_0x_text(payload)
    &&& opt_text(r.funding_tx_partial_signature) == (match as_commitment_signed(message) {
        Some(c) => Some(hex_0x_text(c.funding_tx_partial_signature@)),
        None => None,
    })
    &&& opt_text(r.next_commitment_nonce) == (match as_commitment_signed(message) {
        Some(c) => Some(hex_0x_text(c.next_commitment_nonce@)),
        None => None,
    })
    &&& opt_text(r.closing_partial_signature) == (match as_closing_signed(message) {
        Some(c) => Some(hex_0x_text(c.partial_signature@)),
        None => None,
    })
    &&& r.close_script == (match as_shutdown(message) {
        Some(s) => Some(s.close_script),
        None => None,
    })
    &&& r.fee_rate == (match as_shutdown(message) {
        Some(s) => Some(s.fee_rate),
        None => None,
    })
    &&& r.tlc_id == (match (as_add_tlc(message), as_remove_tlc(message)) {
        (Some(a), _) => Some(a.tlc_id),
        (None, Some(x)) => Some(x.tlc_id),
        (None, None) => None,
    })
    &&& r.payment_hash == (match as_add_tlc(message) {
        Some(a) => Some(a.payment_hash),
        None => None,
    })
    &&& r.local_commitment_number == (match as_reestablish(message) {
        Some(x) => Some(x.local_commitment_number),
        None => None,
    })
    &&& r.remote_commitment_number == (match as_reestablish(message) {
        Some(x) => Some(x.remote_commitment_number),
        None => None,
    })
}

/// Describes a captured message.
pub fn captured_fiber_message_from(captured: CapturedInboundFiberMessage) -> (r:
    CapturedFiberMessage)
    ensures
        describes(r, captured.peer, captured.message, captured.payload@),
{
    let payload = hex_0x(captured.payload.as_slice());
    let channel_id = match &captured.message {
        FiberMessage::ChannelNormalOperation(message) => Some(message.get_channel_id()),
        FiberMessage::ChannelInitialization(open) => Some(open.channel_id),
        FiberMessage::Init => None,
    };
    let kind: String;
    let mut funding_tx_partial_signature: Option<String> = None;
    let mut closing_partial_signature: Option<String> = None;
    let mut next_commitment_nonce: Option<String> = None;
    let mut close_script: Option<Script> = None;
    let mut fee_rate: Option<u64> = None;
    let mut tlc_id: Option<u64> = None;
    let mut payment_hash: Option<Hash256> = None;
    let mut local_commitment_number: Option<u64> = None;
    let mut remote_commitment_number: Option<u64> = None;
    match captured.message {
        FiberMessage::ChannelNormalOperation(FiberChannelMessage::CommitmentSigned(cs)) => {
            kind = "CommitmentSigned".to_owned();
            funding_tx_partial_signature =
            Some(hex_0x(cs.funding_tx_partial_signature.as_slice()));
            next_commitment_nonce = Some(hex_0x(cs.next_commitment_nonce.as_slice()));
        },
        FiberMessage::ChannelNormalOperation(FiberChannelMessage::ClosingSigned(cs)) => {
            kind = "ClosingSigned".to_owned();
            closing_partial_signature = Some(hex_0x(cs.partial_signature.as_slice()));
        },
        FiberMessage::ChannelNormalOperation(FiberChannelMessage::Shutdown(shutdown)) => {
            kind = "Shutdown".to_owned();
            close_script = Some(shutdown.close_script);
            fee_rate = Some(shutdown.fee_rate);
        },
        FiberMessage::ChannelNormalOperation(FiberChannelMessage::AddTlc(add)) => {
            kind = "AddTlc".to_owned();
            tlc_id = Some(add.tlc_id);
            payment_hash = Some(add.payment_hash);
        },
        FiberMessage::ChannelNormalOperation(FiberChannelMessage::RemoveTlc(remove)) => {
            kind = "RemoveTlc".to_owned();
            tlc_id = Some(remove.tlc_id);
        },
        FiberMessage::ChannelNormalOperation(FiberChannelMessage::ReestablishChannel(reest)) => {
            kind = "ReestablishChannel".to_owned();
            local_commitment_number = Some(reest.local_commitment_number);
            remote_commitment_number = Some(reest.remote_commitment_number);
        },
        FiberMessage::ChannelNormalOperation(FiberChannelMessage::Other(other)) => {
            kind = other.kind;
        },
        FiberMessage::ChannelInitialization(_) => {
            kind = "OpenChannel".to_owned();
        },
        FiberMessage::Init => {
            kind = "Init".to_owned();
        },
    }
    CapturedFiberMessage {
        peer_pubkey: captured.peer,
        channel_id,
        kind,
        payload,
        funding_tx_partial_signature,
        closing_partial_signature,
        next_commitment_nonce,
        close_script,
        fee_rate,
        tlc_id,
        payment_hash,
        local_commitment_number,
        remote_commitment_number,
    }
}

/// Two descriptions of the same message of the same peer say the same.
pub proof fn law_description_unique(
    a: CapturedFiberMessage,
    b: CapturedFiberMessage,
    peer: Pubkey,
    message: FiberMessage,
    payload: Seq<u8>,
)
    requires
        describes(a, peer, message, payload),
        describes(b, peer, message, payload),
    ensures
        a.peer_pubkey == b.peer_pubkey,
        a.channel_id == b.channel_id,
        a.kind@ == b.kind@,
        a.payload@ == b.payload@,
        opt_text(a.funding_tx_partial_signature) == opt_text(b.funding_tx_partial_signature),
        opt_text(a.closing_partial_signature) == opt_text(b.closing_partial_signature),
        opt_text(a.next_commitment_nonce) == opt_text(b.next_commitment_nonce),
        a.close_script == b.close_script,
        a.fee_rate == b.fee_rate,
        a.tlc_id == b.tlc_id,
        a.payment_hash == b.payment_hash,
        a.local_commitment_number == b.local_commitment_number,
        a.remote_commitment_number == b.remote_commitment_number,
{
}

/// Different encoded messages have different descriptions.
pub proof fn law_payload_told_apart(
    a: CapturedFiberMessage,
    b: CapturedFiberMessage,
    a_captured: CapturedInboundFiberMessage,
    b_captured: CapturedInboundFiberMessage,
)
    requires
        describes(a, a_captured.peer, a_captured.message, a_captured.payload@),
        describes(b, b_captured.peer, b_captured.message, b_captured.payload@),
        a.payload@ == b.payload@,
    ensures
        a_captured.payload@ == b_captured.payload@,
{
    law_hex_0x_injective(a_captured.payload@, b_captured.payload@);
}

/// A message is described with a channel unless it is a greeting, and with the details of at most
/// one kind of message.
pub proof fn law_details_exclusive(
    r: CapturedFiberMessage,
    peer: Pubkey,
    message: FiberMessage,
    payload: Seq<u8>,
)
    requires
        describes(r, peer, message, payload),
    ensures
        r.channel_id is None <==> message is Init,
        r.funding_tx_partial_signature is Some <==> r.next_commitment_nonce is Some,
        r.close_script is Some <==> r.fee_rate is Some,
        r.payment_hash is Some ==> r.tlc_id is Some,
        r.local_commitment_number is Some <==> r.remote_commitment_number is Some,
        r.funding_tx_partial_signature is Some ==> r.closing_partial_signature is None
            && r.close_script is None && r.tlc_id is None && r.local_commitment_number is None,
        r.closing_partial_signature is Some ==> r.close_script is None && r.tlc_id is None
            && r.local_commitment_number is None,
        r.close_script is Some ==> r.tlc_id is None && r.local_commitment_number is None,
        r.tlc_id is Some ==> r.local_commitment_number is None,
{
}

/// The details of a description are those of the message: its kind and channel, the spelled bytes
/// of its signatures and nonces, and the numbers, hashes and scripts it carries. Details that the
/// message does not have are not given.
pub proof fn law_description_tells_message(
    captured: CapturedInboundFiberMessage,
    r: CapturedFiberMessage,
)
    requires
        call_ensures(captured_fiber_message_from, (captured,), r),
    ensures
        r.peer_pubkey == captured.peer,
        spells(r.payload@, captured.payload@),
        match captured.message {
            FiberMessage::ChannelNormalOperation(FiberChannelMessage::CommitmentSigned(c)) => {
                &&& r.kind@ == "CommitmentSigned"@
                &&& r.channel_id == Some(c.channel_id)
                &&& r.funding_tx_partial_signature is Some && spells(r.funding_tx_partial_signature->0@, c.funding_tx_partial_signature@)
                &&& r.closing_partial_signature is None
                &&& r.next_commitment_nonce is Some && spells(r.next_commitment_nonce->0@, c.next_commitment_nonce@)
                &&& r.close_script is None
                &&& r.fee_rate is None
                &&& r.tlc_id is None
                &&& r.payment_hash is None
                &&& r.local_commitment_number is None
                &&& r.remote_commitment_number is None
            },
            FiberMessage::ChannelNormalOperation(FiberChannelMessage::ClosingSigned(c)) => {
                &&& r.kind@ == "ClosingSigned"@
                &&& r.channel_id == Some(c.channel_id)
                &&& r.funding_tx_partial_signature is None
                &&& r.closing_partial_signature is Some && spells(r.closing_partial_signature->0@, c.partial_signature@)
                &&& r.next_commitment_nonce is None
                &&& r.close_script is None
                &&& r.fee_rate is None
                &&& r.tlc_id is None
                &&& r.payment_hash is None
                &&& r.local_commitment_number is None
                &&& r.remote_commitment_number is None
            },
            FiberMessage::ChannelNormalOperation(FiberChannelMessage::Shutdown(s)) => {
                &&& r.kind@ == "Shutdown"@
                &&& r.channel_id == Some(s.channel_id)
                &&& r.funding_tx_partial_signature is None
                &&& r.closing_partial_signature is None
                &&& r.next_commitment_nonce is None
                &&& r.close_script == Some(s.close_script)
                &&& r.fee_rate == Some(s.fee_rate)
                &&& r.tlc_id is None
                &&& r.payment_hash is None
                &&& r.local_commitment_number is None
                &&& r.remote_commitment_number is None
            },
            FiberMessage::ChannelNormalOperation(FiberChannelMessage::AddTlc(a)) => {
                &&& r.kind@ == "AddTlc"@
                &&& r.channel_id == Some(a.channel_id)
                &&& r.funding_tx_partial_signature is None
                &&& r.closing_partial_signature is None
                &&& r.next_commitment_nonce is None
                &&& r.close_script is None
                &&& r.fee_rate is None
                &&& r.tlc_id == Some(a.tlc_id)
                &&& r.payment_hash == Some(a.payment_hash)
                &&& r.local_commitment_number is None
                &&& r.remote_commitment_number is None
            },
            FiberMessage::ChannelNormalOperation(FiberChannelMessage::RemoveTlc(x)) => {
                &&& r.kind@ == "RemoveTlc"@
                &&& r.channel_id == Some(x.channel_id)
                &&& r.funding_tx_partial_signature is None
                &&& r.closing_partial_signature is None
                &&& r.next_commitment_nonce is None
                &&& r.close_script is None
                &&& r.fee_rate is None
                &&& r.tlc_id == Some(x.tlc_id)
                &&& r.payment_hash is None
                &&& r.local_commitment_number is None
                &&& r.remote_commitment_number is None
            },
            FiberMessage::ChannelNormalOperation(FiberChannelMessage::ReestablishChannel(x)) => {
                &&& r.kind@ == "ReestablishChannel"@
                &&& r.channel_id == Some(x.channel_id)
                &&& r.funding_tx_partial_signature is None
                &&& r.closing_partial_signature is None
                &&& r.next_commitment_nonce is None
                &&& r.close_script is None
                &&& r.fee_rate is None
                &&& r.tlc_id is None
                &&& r.payment_hash is None
                &&& r.local_commitment_number == Some(x.local_commitment_number)
                &&& r.remote_commitment_number == Some(x.remote_commitment_number)
            },
            FiberMessage::ChannelNormalOperation(FiberChannelMessage::Other(o)) => {
                &&& r.kind@ == o.kind@
                &&& r.channel_id == Some(o.channel_id)
                &&& r.funding_tx_partial_signature is None
                &&& r.closing_partial_signature is None
                &&& r.next_commitment_nonce is None
                &&& r.close_script is None
                &&& r.fee_rate is None
                &&& r.tlc_id is None
                &&& r.payment_hash is None
                &&& r.local_commitment_number is None
                &&& r.remote_commitment_number is None
            },
            FiberMessage::ChannelInitialization(open) => {
                &&& r.kind@ == "OpenChannel"@
                &&& r.channel_id == Some(open.channel_id)
                &&& r.funding_tx_partial_signature is None
                &&& r.closing_partial_signature is None
                &&& r.next_commitment_nonce is None
                &&& r.close_script is None
                &&& r.fee_rate is None
                &&& r.tlc_id is None
                &&& r.payment_hash is None
                &&& r.local_commitment_number is None
                &&& r.remote_commitment_number is None
            },
            FiberMessage::Init => {
                &&& r.kind@ == "Init"@
                &&& r.channel_id == None::<Hash256>
                &&& r.funding_tx_partial_signature is None
                &&& r.closing_partial_signature is None
                &&& r.next_commitment_nonce is None
                &&& r.close_script is None
                &&& r.fee_rate is None
                &&& r.tlc_id is None
                &&& r.payment_hash is None
                &&& r.local_commitment_number is None
                &&& r.remote_commitment_number is None
            },
        },
{
    lemma_text_spells(captured.payload@);
    match captured.message {
        FiberMessage::ChannelNormalOperation(FiberChannelMessage::CommitmentSigned(c)) => {
            lemma_text_spells(c.funding_tx_partial_signature@);
            lemma_text_spells(c.next_commitment_nonce@);
        },
        FiberMessage::ChannelNormalOperation(FiberChannelMessage::ClosingSigned(c)) => {
            lemma_text_spells(c.partial_signature@);
        },
        _ => {},
    }
}

} // verus!
