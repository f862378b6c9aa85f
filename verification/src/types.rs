//! Parameters and results of the remote calls.

use crate::chain::{Hash256, OutPoint, Script};
use crate::transaction::Transaction;
use vstd::prelude::*;

verus! {

/// A compressed public key.
#[derive(Clone, Copy, Debug, PartialEq, Eq)]
pub struct Pubkey(pub [u8; 33]);

/// How the payment hash of a TLC is computed.
#[derive(Clone, Copy, Debug, PartialEq, Eq, Structural)]
pub enum HashAlgorithm {
    /// The hash of the CKB chain.
    CkbHash,
    /// SHA-256.
    Sha256,
}

impl Default for HashAlgorithm {
    fn default() -> (r: HashAlgorithm)
        ensures
            r == HashAlgorithm::CkbHash,
    {
        HashAlgorithm::CkbHash
    }
}

/// Parameters for sending a commitment_signed message.
#[derive(Debug)]
pub struct CommitmentSignedParams {
    /// The channel to send the commitment_signed message to.
    pub channel_id: Hash256,
}

/// Parameters for adding a TLC.
#[derive(Debug)]
pub struct AddTlcParams {
    /// The channel to add the TLC to.
    pub channel_id: Hash256,
    /// The amount of the TLC.
    pub amount: u128,
    /// The payment hash of the TLC.
    pub payment_hash: Hash256,
    /// The expiry of the TLC.
    pub expiry: u64,
    /// The hash algorithm of the TLC.
    pub hash_algorithm: Option<HashAlgorithm>,
}

/// Result of adding a TLC.
#[derive(Clone, Copy)]
pub struct AddTlcResult {
    /// The ID of the TLC.
    pub tlc_id: u64,
}

/// Parameters for removing a TLC.
#[derive(Clone, Debug)]
pub struct RemoveTlcParams {
    /// The channel to remove the TLC from.
    pub channel_id: Hash256,
    /// The ID of the TLC to remove.
    pub tlc_id: u64,
    /// The reason for removing the TLC: a preimage that fulfils it, or an error code.
    pub reason: RemoveTlcReason,
}

/// The reason for removing a TLC.
#[derive(Clone, Debug)]
pub enum RemoveTlcReason {
    /// The TLC was fulfilled.
    RemoveTlcFulfill { payment_preimage: Hash256 },
    /// The TLC failed.
    RemoveTlcFail { error_code: String },
}

/// Parameters for submitting a commitment transaction.
#[derive(Clone, Copy, Debug)]
pub struct SubmitCommitmentTransactionParams {
    /// The channel.
    pub channel_id: Hash256,
    /// The commitment number.
    pub commitment_number: u64,
}

/// Result of submitting a commitment transaction.
#[derive(Clone, Copy, Debug)]
pub struct SubmitCommitmentTransactionResult {
    /// The hash of the submitted commitment transaction.
    pub tx_hash: Hash256,
}

/// Parameters for checking channel shutdown.
#[derive(Clone, Copy, Debug)]
pub struct CheckChannelShutdownParams {
    /// The channel.
    pub channel_id: Hash256,
}

/// Parameters for signing an external funding transaction.
#[derive(Clone, Debug)]
pub struct SignExternalFundingTxParams {
    /// The unsigned funding transaction.
    pub unsigned_funding_tx: Transaction,
    /// The private key to sign with, as 32 bytes of hexadecimal text with the prefix `0x`.
    pub private_key: String,
}

/// Result of signing an external funding transaction.
#[derive(Clone, Debug)]
pub struct SignExternalFundingTxResult {
    /// The signed funding transaction.
    pub signed_funding_tx: Transaction,
}

/// Parameters for intercepting Fiber channel messages on this node.
///
/// Used to drive a malicious or faulty peer from outside the node. Kind names are those of the
/// channel messages (`CommitmentSigned`, `RevokeAndAck`, `AddTlc`, ...), in snake case too
/// (`commitment_signed`).
#[derive(Clone, Debug)]
pub struct SetFiberMessageInterceptParams {
    /// The channel whose messages should be intercepted.
    pub channel_id: Hash256,
    /// If true, outbound `RevokeAndAck` messages for this channel are dropped. Prefer
    /// `outbound_drop_kinds`.
    pub suppress_outbound_revoke_and_ack: bool,
    /// If true and `inbound_capture_kinds` is empty, every inbound channel message is queued and
    /// not delivered.
    pub capture_inbound: bool,
    /// Inbound kinds to queue. When there are any, only these kinds are captured and
    /// `capture_inbound` is ignored.
    pub inbound_capture_kinds: Vec<String>,
    /// Inbound kinds to drop silently.
    pub inbound_drop_kinds: Vec<String>,
    /// Outbound kinds to drop before they are sent.
    pub outbound_drop_kinds: Vec<String>,
    /// Outbound kinds to hold until they are released.
    pub outbound_hold_kinds: Vec<String>,
}

/// Parameters for delivering captured inbound messages to the channel.
#[derive(Clone, Debug)]
pub struct DeliverCapturedFiberMessagesParams {
    /// How many matching messages to deliver at most; all of them without a number.
    pub count: Option<u64>,
    /// If there are any, only these kinds are delivered, first come first served.
    pub kinds: Vec<String>,
}

/// Result of delivering captured inbound messages.
#[derive(Clone, Copy, Debug)]
pub struct DeliverCapturedFiberMessagesResult {
    /// How many messages were delivered.
    pub delivered: u64,
}

/// Parameters for releasing held outbound messages.
#[derive(Clone, Debug)]
pub struct ReleaseHeldOutboundFiberMessagesParams {
    /// How many matching messages to send at most; all of them without a number.
    pub count: Option<u64>,
    /// If there are any, only these kinds are released, first come first served.
    pub kinds: Vec<String>,
}

/// Result of releasing held outbound messages.
#[derive(Clone, Copy, Debug)]
pub struct ReleaseHeldOutboundFiberMessagesResult {
    /// How many messages were sent.
    pub released: u64,
}

/// One Fiber message that was captured or held.
#[derive(Clone, Debug)]
pub struct CapturedFiberMessage {
    /// The peer at the other end.
    pub peer_pubkey: Pubkey,
    /// The channel of the message, if it is a channel message.
    pub channel_id: Option<Hash256>,
    /// The kind of the message, such as `CommitmentSigned` or `RevokeAndAck`.
    pub kind: String,
    /// The encoded message, as hexadecimal text with the prefix `0x`.
    pub payload: String,
    /// The partial signature of a `CommitmentSigned`.
    pub funding_tx_partial_signature: Option<String>,
    /// The partial signature of a `ClosingSigned`.
    pub closing_partial_signature: Option<String>,
    /// The next commitment nonce of a `CommitmentSigned`.
    pub next_commitment_nonce: Option<String>,
    /// The close script of a `Shutdown`.
    pub close_script: Option<Script>,
    /// The fee rate of a `Shutdown`.
    pub fee_rate: Option<u64>,
    /// The TLC of an `AddTlc` or `RemoveTlc`.
    pub tlc_id: Option<u64>,
    /// The payment hash of an `AddTlc`.
    pub payment_hash: Option<Hash256>,
    /// The local commitment number of a `ReestablishChannel`.
    pub local_commitment_number: Option<u64>,
    /// The remote commitment number of a `ReestablishChannel`.
    pub remote_commitment_number: Option<u64>,
}

/// Result of taking captured or held messages.
#[derive(Clone, Debug)]
pub struct TakeCapturedFiberMessagesResult {
    /// The messages, first come first.
    pub messages: Vec<CapturedFiberMessage>,
}

/// Kind of raw channel message to send.
#[derive(Clone, Copy, Debug, PartialEq, Eq, Structural)]
pub enum RawChannelMessageKind {
    /// A `CommitmentSigned` from the state of this node's channel.
    CommitmentSigned,
    /// A `Shutdown`.
    Shutdown,
    /// An `AddTlc` outside the honest add and commit path.
    AddTlc,
    /// A `RemoveTlc` (fail) outside the honest remove and commit path.
    RemoveTlc,
    /// A `ReestablishChannel`, with forged commitment numbers if wanted.
    ReestablishChannel,
    /// A `TxAbort`.
    TxAbort,
}

/// Parameters for sending a raw channel message outside the honest send path.
#[derive(Clone, Debug)]
pub struct SendRawChannelMessageParams {
    /// The channel to send on.
    pub channel_id: Hash256,
    /// Which message to send.
    pub kind: RawChannelMessageKind,
    /// The commitment number from which the nonce of a `CommitmentSigned` is derived. The node
    /// defaults to its current local commitment number.
    pub nonce_commitment_number: Option<u64>,
    /// Close script for `Shutdown`. The node defaults to its local shutdown script.
    pub close_script: Option<Script>,
    /// Fee rate for `Shutdown`. The node defaults to its commitment fee rate.
    pub fee_rate: Option<u64>,
    /// Amount for `AddTlc`. The node defaults to 1 shannon.
    pub amount: Option<u128>,
    /// Payment hash for `AddTlc`. The node defaults to 32 zero bytes.
    pub payment_hash: Option<Hash256>,
    /// Expiry for `AddTlc`. The node defaults to a day from now.
    pub expiry: Option<u64>,
    /// TLC for `AddTlc` and `RemoveTlc`. The node defaults to its next offered id for `AddTlc`.
    pub tlc_id: Option<u64>,
    /// Name of the error code for `RemoveTlc`. The node defaults to `TemporaryChannelFailure`.
    pub remove_fail_error_code: Option<String>,
    /// Local commitment number for `ReestablishChannel`. The node defaults to its own.
    pub local_commitment_number: Option<u64>,
    /// Remote commitment number for `ReestablishChannel`. The node defaults to its own.
    pub remote_commitment_number: Option<u64>,
    /// Abort reason bytes for `TxAbort`, as `0x`-prefixed hex or utf8 text. The node defaults to
    /// `p2p-test`.
    pub abort_message: Option<String>,
}

/// Result of sending a raw channel message.
#[derive(Clone, Debug)]
pub struct SendRawChannelMessageResult {
    /// The partial signature in a `CommitmentSigned` that was sent.
    pub funding_tx_partial_signature: Option<String>,
    /// The next commitment nonce in a `CommitmentSigned` that was sent.
    pub next_commitment_nonce: Option<String>,
}

/// Parameters for reading the public musig2 session of a channel.
#[derive(Clone, Copy, Debug)]
pub struct GetChannelMusig2PublicParams {
    /// The channel.
    pub channel_id: Hash256,
}

/// Public musig2 session of a channel, with what a peer can compute from its own state.
#[derive(Clone, Debug)]
pub struct GetChannelMusig2PublicResult {
    /// This node's funding public key.
    pub local_funding_pubkey: Pubkey,
    /// The counterparty's funding public key.
    pub remote_funding_pubkey: Pubkey,
    /// This node's commitment number.
    pub local_commitment_number: u64,
    /// The counterparty's commitment number as this node tracks it.
    pub remote_commitment_number: u64,
    /// This node's current commitment nonce, as hexadecimal text with the prefix `0x`.
    pub local_pubnonce: String,
    /// The last nonce that the counterparty committed, as hexadecimal text with the prefix `0x`.
    pub last_committed_remote_nonce: String,
    /// The next nonce that this node would advertise, as hexadecimal text with the prefix `0x`.
    pub next_commitment_nonce: String,
    /// The message of this node's own commitment transaction.
    pub own_commitment_message: Hash256,
    /// The message of the counterparty's commitment transaction.
    pub peer_commitment_message: Hash256,
    /// The funding cell.
    pub funding_outpoint: OutPoint,
    /// Whether this node's funding key comes first in the key aggregation.
    pub local_first: bool,
}

/// Parameters for rebuilding the message of the shutdown transaction.
#[derive(Clone, Debug)]
pub struct BuildShutdownTxMessageParams {
    /// The channel.
    pub channel_id: Hash256,
    /// This node's close script.
    pub local_close_script: Script,
    /// The counterparty's close script.
    pub remote_close_script: Script,
    /// The fee rate of this node's `Shutdown`.
    pub local_fee_rate: u64,
    /// The fee rate of the counterparty's `Shutdown`.
    pub remote_fee_rate: u64,
}

/// Result of rebuilding the message of the shutdown transaction.
#[derive(Clone, Copy, Debug)]
pub struct BuildShutdownTxMessageResult {
    /// The message of the shutdown transaction.
    pub message: Hash256,
}

} // verus!
