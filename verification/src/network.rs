//! Commands that the remote calls send to the node, and what the node answers.

use crate::chain::{Hash256, OutPoint, Script};
use crate::types::{HashAlgorithm, Pubkey};
use vstd::prelude::*;

verus! {

/// The shared secret of a TLC that no onion packet came with: nothing but zeros.
pub open spec fn is_no_shared_secret(secret: [u8; 32]) -> bool {
    forall|i: int| 0 <= i < 32 ==> secret[i] == 0
}

/// The shared secret of a TLC that no onion packet came with.
pub fn no_shared_secret() -> (r: [u8; 32])
    ensures
        is_no_shared_secret(r),
{
    [0u8;32]
}

/// A command for the node.
#[derive(Debug)]
pub enum NetworkActorCommand {
    /// A command for one channel.
    ControlFiberChannel(ChannelCommandWithId),
    /// Check for shutdown transactions on chain. The node decides which channels it visits.
    CheckChannelShutdown(Hash256),
    /// Intercept the messages of a channel.
    SetFiberMessageIntercept(FiberMessageIntercept),
    /// Hand out the captured inbound messages.
    TakeCapturedFiberMessages,
    /// Deliver captured inbound messages after all.
    DeliverCapturedFiberMessages(DeliverCapturedFiberMessagesCommand),
    /// Hand out the held outbound messages.
    TakeHeldOutboundFiberMessages,
    /// Send held outbound messages after all.
    ReleaseHeldOutboundFiberMessages(ReleaseHeldOutboundFiberMessagesCommand),
    /// Send a message outside the honest send path.
    SendRawChannelMessage(SendRawChannelMessageCommand),
    /// Read the public musig2 session of a channel.
    GetChannelMusig2Public(Hash256),
    /// Rebuild the message of the shutdown transaction.
    BuildShutdownTxMessage(BuildShutdownTxMessageCommand),
}

/// A command for one channel.
#[derive(Debug)]
pub struct ChannelCommandWithId {
    /// The channel.
    pub channel_id: Hash256,
    /// The command.
    pub command: ChannelCommand,
}

/// What a channel can be told to do.
#[derive(Debug)]
pub enum ChannelCommand {
    /// Send a commitment_signed message.
    CommitmentSigned,
    /// Add a TLC.
    AddTlc(AddTlcCommand),
    /// Remove a TLC.
    RemoveTlc(RemoveTlcCommand),
}

/// A TLC to add.
#[derive(Debug)]
pub struct AddTlcCommand {
    /// The amount.
    pub amount: u128,
    /// The payment hash.
    pub payment_hash: Hash256,
    /// The payment attempt that the TLC belongs to.
    pub attempt_id: Option<u64>,
    /// The expiry.
    pub expiry: u64,
    /// How the payment hash is computed.
    pub hash_algorithm: HashAlgorithm,
    /// The onion packet for the next hop.
    pub onion_packet: Option<Vec<u8>>,
    /// The secret shared with the origin of the payment.
    pub shared_secret: [u8; 32],
    /// Whether the TLC is for a trampoline hop.
    pub is_trampoline_hop: bool,
    /// The channel and TLC that this one forwards.
    pub previous_tlc: Option<(Hash256, u64)>,
}

/// A TLC to remove.
#[derive(Debug)]
pub struct RemoveTlcCommand {
    /// The TLC.
    pub id: u64,
    /// Why it is removed.
    pub reason: RemoveTlcReason,
}

/// A number that says why a TLC failed.
#[derive(Clone, Copy, Debug, PartialEq, Eq, Structural)]
pub struct TlcErrorCode(pub u16);

/// Why a TLC is removed.
#[derive(Debug)]
pub enum RemoveTlcReason {
    /// It is fulfilled by a preimage.
    RemoveTlcFulfill { payment_preimage: Hash256 },
    /// It failed. The error goes back to the origin, hidden under a shared secret.
    RemoveTlcFail { error_code: TlcErrorCode, shared_secret: [u8; 32] },
}

/// Which messages of a channel are intercepted.
#[derive(Debug)]
pub struct FiberMessageIntercept {
    /// The channel.
    pub channel_id: Hash256,
    /// Whether outbound `RevokeAndAck` messages are dropped.
    pub suppress_outbound_revoke_and_ack: bool,
    /// Whether inbound messages are captured when no kinds are named.
    pub capture_inbound: bool,
    /// Inbound kinds to capture.
    pub inbound_capture_kinds: Vec<String>,
    /// Inbound kinds to drop.
    pub inbound_drop_kinds: Vec<String>,
    /// Outbound kinds to drop.
    pub outbound_drop_kinds: Vec<String>,
    /// Outbound kinds to hold.
    pub outbound_hold_kinds: Vec<String>,
}

/// Which captured messages to deliver.
#[derive(Debug)]
pub struct DeliverCapturedFiberMessagesCommand {
    /// How many at most.
    pub count: Option<u64>,
    /// Which kinds.
    pub kinds: Vec<String>,
}

/// Which held messages to send.
#[derive(Debug)]
pub struct ReleaseHeldOutboundFiberMessagesCommand {
    /// How many at most.
    pub count: Option<u64>,
    /// Which kinds.
    pub kinds: Vec<String>,
}

/// Kind of raw channel message, as the node knows it.
#[derive(Clone, Copy, Debug, PartialEq, Eq, Structural)]
pub enum RawChannelMessageKind {
    /// A `CommitmentSigned`.
    CommitmentSigned,
    /// A `Shutdown`.
    Shutdown,
    /// An `AddTlc`.
    AddTlc,
    /// A `RemoveTlc`.
    RemoveTlc,
    /// A `ReestablishChannel`.
    ReestablishChannel,
    /// A `TxAbort`.
    TxAbort,
}

/// A raw channel message to send.
#[derive(Debug)]
pub struct SendRawChannelMessageCommand {
    /// The channel.
    pub channel_id: Hash256,
    /// The kind of the message.
    pub kind: RawChannelMessageKind,
    /// The commitment number from which a nonce is derived.
    pub nonce_commitment_number: Option<u64>,
    /// The close script.
    pub close_script: Option<Script>,
    /// The fee rate.
    pub fee_rate: Option<u64>,
    /// The amount.
    pub amount: Option<u128>,
    /// The payment hash.
    pub payment_hash: Option<Hash256>,
    /// The expiry.
    pub expiry: Option<u64>,
    /// The TLC.
    pub tlc_id: Option<u64>,
    /// The name of the error code.
    pub remove_fail_error_code: Option<String>,
    /// The local commitment number.
    pub local_commitment_number: Option<u64>,
    /// The remote commitment number.
    pub remote_commitment_number: Option<u64>,
    /// The reason of an abort.
    pub abort_message: Option<Vec<u8>>,
}

/// What was sent in a raw channel message.
#[derive(Debug)]
pub struct SentRawChannelMessage {
    /// The partial signature.
    pub funding_tx_partial_signature: Option<[u8; 32]>,
    /// The next commitment nonce.
    pub next_commitment_nonce: Option<[u8; 66]>,
}

/// The public musig2 session of a channel.
#[derive(Debug)]
pub struct ChannelMusig2Public {
    /// This node's funding public key.
    pub local_funding_pubkey: Pubkey,
    /// The counterparty's funding public key.
    pub remote_funding_pubkey: Pubkey,
    /// This node's commitment number.
    pub local_commitment_number: u64,
    /// The counterparty's commitment number.
    pub remote_commitment_number: u64,
    /// This node's current nonce.
    pub local_pubnonce: [u8; 66],
    /// The last nonce that the counterparty committed.
    pub last_committed_remote_nonce: [u8; 66],
    /// The next nonce of this node.
    pub next_commitment_nonce: [u8; 66],
    /// The message of this node's commitment transaction.
    pub own_commitment_message: [u8; 32],
    /// The message of the counterparty's commitment transaction.
    pub peer_commitment_message: [u8; 32],
    /// The funding cell.
    pub funding_outpoint: OutPoint,
    /// Whether this node's funding key comes first.
    pub local_first: bool,
}

/// What the message of a shutdown transaction is built from.
#[derive(Debug)]
pub struct BuildShutdownTxMessageCommand {
    /// The channel.
    pub channel_id: Hash256,
    /// This node's close script.
    pub local_close_script: Script,
    /// The counterparty's close script.
    pub remote_close_script: Script,
    /// This node's fee rate.
    pub local_fee_rate: u64,
    /// The counterparty's fee rate.
    pub remote_fee_rate: u64,
}

} // verus!
