//! Private keys of the secp256k1 curve, and what follows from them.

use crate::error::{rpc_error, RpcError};
use crate::hexadecimal;
use crate::text::{decimal_text, joined, strip_prefix};
#[allow(unused_imports)]
use crate::hexadecimal::{
    digit_value, hex_bytes, hex_fault, hex_text, is_hex, law_hex_round_trip,
};
#[allow(unused_imports)]
use crate::text::{decimal, without_prefix};
use ckb_sdk::traits::{SecpCkbRawKeySigner, Signer};
use ckb_types::packed;
use ckb_types::prelude::IntoTransactionView;
use vstd::prelude::*;

verus! {

/// The number that bytes stand for, most significant byte first.
pub open spec fn be_value(bytes: Seq<u8>) -> int
    decreases bytes.len(),
{
    if bytes.len() == 0 {
        0
    } else {
        256 * be_value(bytes.drop_last()) + bytes.last()
    }
}

/// The order of the secp256k1 curve.
pub open spec fn curve_order() -> int {
    0xFFFF_FFFF_FFFF_FFFF_FFFF_FFFF_FFFF_FFFE_BAAE_DCE6_AF48_A03B_BFD2_5E8C_D036_4141int
}

/// Whether bytes are a private key: 32 of them, for a number that is not zero and below the
/// order of the curve.
pub open spec fn valid_secret_key(bytes: Seq<u8>) -> bool {
    bytes.len() == 32 && 0 < be_value(bytes) < curve_order()
}

/// The compressed public key of a private key.
pub uninterp spec fn public_key_of(key: Seq<u8>) -> Seq<u8>;

/// The first twenty bytes of the hash of `data`.
pub uninterp spec fn blake160_of(data: Seq<u8>) -> Seq<u8>;

/// The recoverable signature of a message under a private key.
pub uninterp spec fn recoverable_signature(key: Seq<u8>, message: Seq<u8>) -> Seq<u8>;

/// The lock arguments of the cells that a private key can spend.
pub open spec fn owner_of(key: Seq<u8>) -> Seq<u8> {
    blake160_of(public_key_of(key))
}

/// `SecretKey::from_slice` of `secp256k1`, with its error as text: accepts 32 bytes of a number
/// from one up to the order of the curve, and has one wording for all others.
#[verifier::external_body]
#[allow(deprecated)]
fn check_secret_key(bytes: &[u8]) -> (r: Result<(), String>)
    ensures
        r is Ok <==> valid_secret_key(bytes@),
        r matches Err(fault) ==> fault@ == "malformed or out-of-range secret key"@,
{
    secp256k1::SecretKey::from_slice(bytes).map(|_key| ()).map_err(|e| e.to_string())
}

/// `SecretKey::public_key` of `secp256k1`, serialized: the public key as 33 bytes.
#[verifier::external_body]
#[allow(deprecated)]
fn public_key(key: &[u8]) -> (r: Vec<u8>)
    requires
        valid_secret_key(key@),
    ensures
        r@ == public_key_of(key@),
        r@.len() == 33,
{
    let secret_key = secp256k1::SecretKey::from_slice(key).expect("a valid private key");
    secret_key.public_key(secp256k1::SECP256K1).serialize().to_vec()
}

/// `blake160` of `ckb_sdk::util`: twenty bytes of hash.
#[verifier::external_body]
fn blake160(data: &[u8]) -> (r: Vec<u8>)
    ensures
        r@ == blake160_of(data@),
        r@.len() == 20,
{
    ckb_sdk::util::blake160(data).as_bytes().to_vec()
}

/// `SecpCkbRawKeySigner::sign` of `ckb_sdk::traits`, on a signer that holds the one key, with its
/// error as text. It signs for the lock arguments that belong to the key and a message of 32
/// bytes, and refuses other lock arguments before it looks at the message. The signer does not
/// read the transaction that it is handed.
#[verifier::external_body]
#[allow(deprecated)]
fn sign_recoverable(key: &[u8], owner: &[u8], message: &[u8]) -> (r: Result<Vec<u8>, String>)
    requires
        valid_secret_key(key@),
    ensures
        (r is Ok) == (owner@ == owner_of(key@) && message@.len() == 32),
        r matches Ok(signature) ==> signature@ == recoverable_signature(key@, message@)
            && signature@.len() == 65,
        r matches Err(fault) ==> fault@ == signer_fault(owner@ == owner_of(key@), message@.len()),
{
    let secret_key = secp256k1::SecretKey::from_slice(key).expect("a valid private key");
    let signer = SecpCkbRawKeySigner::new_with_secret_keys(vec![secret_key]);
    let tx = packed::Transaction::default().into_view();
    signer.sign(owner, message, true, &tx).map(|s| s.to_vec()).map_err(|e| e.to_string())
}

/// What the signer says when it refuses.
pub open spec fn signer_fault(id_found: bool, message_len: nat) -> Seq<char> {
    if !id_found {
        "the id is not found in the signer"@
    } else {
        "invalid message, reason: `expected length: 32, got: "@ + decimal(message_len) + "`"@
    }
}

/// The digits of a private key: what follows the prefix `0x`, or all of the text without one.
pub open spec fn key_digits(text: Seq<char>) -> Seq<char> {
    match without_prefix(text, "0x"@) {
        Some(digits) => digits,
        None => text,
    }
}

/// What comes of the text of a private key: its bytes, or the message that refuses it.
pub open spec fn key_outcome(text: Seq<char>) -> Result<Seq<u8>, Seq<char>> {
    let digits = key_digits(text);
    let bytes = hex_bytes(digits);
    if !is_hex(digits) {
        Err("invalid private key hex: "@ + hex_fault(digits))
    } else if bytes.len() != 32 {
        Err("invalid private key length: expected 32 bytes, got "@ + decimal(bytes.len()))
    } else if !valid_secret_key(bytes) {
        Err("invalid private key: "@ + "malformed or out-of-range secret key"@)
    } else {
        Ok(bytes)
    }
}

/// A private key.
pub struct PrivateKey {
    bytes: Vec<u8>,
}

impl View for PrivateKey {
    type V = Seq<u8>;

    closed spec fn view(&self) -> Seq<u8> {
        self.bytes@
    }
}

impl PrivateKey {
    #[verifier::type_invariant]
    spec fn inv(self) -> bool {
        valid_secret_key(self.bytes@)
    }

    /// Reads a private key from hexadecimal text, with or without the prefix `0x`.
    pub fn from_hex(text: &str) -> (r: Result<PrivateKey, RpcError>)
        ensures
            r is Ok <==> key_outcome(text@) is Ok,
            r matches Ok(key) ==> key_outcome(text@) == Ok::<Seq<u8>, Seq<char>>(key@),
            r matches Err(e) ==> key_outcome(text@) == Err::<Seq<u8>, Seq<char>>(e.message@),
    {
        let digits = match strip_prefix(text, "0x") {
            Some(rest) => rest,
            None => text,
        };
        let bytes = match hexadecimal::decode(digits) {
            Ok(bytes) => bytes,
            Err(fault) => {
                return Err(rpc_error(joined("invalid private key hex: ", fault.as_str())));
            },
        };
        if bytes.len() != 32 {
            return Err(
                rpc_error(
                    joined(
                        "invalid private key length: expected 32 bytes, got ",
                        decimal_text(bytes.len()).as_str(),
                    ),
                ),
            );
        }
        match check_secret_key(bytes.as_slice()) {
            Ok(()) => Ok(PrivateKey { bytes }),
            Err(fault) => Err(rpc_error(joined("invalid private key: ", fault.as_str()))),
        }
    }

    /// The lock arguments of the cells that the key can spend.
    pub fn owner(&self) -> (r: Vec<u8>)
        ensures
            r@ == owner_of(self@),
            r@.len() == 20,
    {
        proof {
            use_type_invariant(self);
        }
        blake160(public_key(self.bytes.as_slice()).as_slice())
    }

    /// Signs a message for the cells with the lock arguments `owner`.
    pub fn sign(&self, owner: &[u8], message: &[u8]) -> (r: Result<Vec<u8>, RpcError>)
        ensures
            r is Ok <==> owner@ == owner_of(self@) && message@.len() == 32,
            r matches Ok(signature) ==> signature@ == recoverable_signature(self@, message@)
                && signature@.len() == 65,
            r matches Err(e) ==> e.message@ == "failed to sign message: "@ + signer_fault(
                owner@ == owner_of(self@),
                message@.len(),
            ),
    {
        proof {
            use_type_invariant(self);
        }
        match sign_recoverable(self.bytes.as_slice(), owner, message) {
            Ok(signature) => Ok(signature),
            Err(fault) => Err(rpc_error(joined("failed to sign message: ", fault.as_str()))),
        }
    }
}

/// A private key reads the same with and without the prefix `0x`.
pub proof fn law_key_prefix_optional(digits: Seq<char>)
    requires
        without_prefix(digits, "0x"@) is None,
    ensures
        key_outcome("0x"@ + digits) == key_outcome(digits),
{
    assert(("0x"@ + digits).take("0x"@.len() as int) =~= "0x"@);
    assert(("0x"@ + digits).skip("0x"@.len() as int) =~= digits);
}

/// Hexadecimal digits never start with the prefix `0x`.
proof fn lemma_digits_unprefixed(digits: Seq<char>)
    requires
        is_hex(digits),
    ensures
        without_prefix(digits, "0x"@) is None,
{
    reveal_strlit("0x");
    if without_prefix(digits, "0x"@) is Some {
        assert(digits[1] == digits.take(2)[1]);
        assert(digit_value(digits[1]) is Some);
    }
}

/// A private key text made of an encoding reads back as the bytes that it encodes, with and
/// without the prefix.
pub proof fn law_key_reads_back(bytes: Seq<u8>)
    requires
        valid_secret_key(bytes),
    ensures
        key_outcome(hex_text(bytes)) == Ok::<Seq<u8>, Seq<char>>(bytes),
        key_outcome("0x"@ + hex_text(bytes)) == Ok::<Seq<u8>, Seq<char>>(bytes),
{
    law_hex_round_trip(bytes);
    lemma_digits_unprefixed(hex_text(bytes));
    law_key_prefix_optional(hex_text(bytes));
}

/// The key that is read from a text has the bytes that its digits stand for, in their order, and a
/// text is a key exactly where its digits stand for a private key. `digits` are the text, or the
/// text behind the prefix `0x`.
pub proof fn law_key_is_its_digits(
    text: &str,
    digits: Seq<char>,
    r: Result<PrivateKey, RpcError>,
)
    requires
        call_ensures(PrivateKey::from_hex, (text,), r),
        text@ == "0x"@ + digits || (text@ == digits && !(digits.len() >= 2 && digits[0] == '0'
            && digits[1] == 'x')),
    ensures
        r is Ok <==> is_hex(digits) && valid_secret_key(hex_bytes(digits)),
        r is Ok ==> r->Ok_0@ == hex_bytes(digits),
        !is_hex(digits) ==> r is Err && r->Err_0.message@ == "invalid private key hex: "@
            + hex_fault(digits),
        is_hex(digits) && digits.len() != 64 ==> r is Err && r->Err_0.message@
            == "invalid private key length: expected 32 bytes, got "@ + decimal(digits.len() / 2),
        is_hex(digits) && digits.len() == 64 && !valid_secret_key(hex_bytes(digits)) ==> r is Err
            && r->Err_0.message@
            == "invalid private key: malformed or out-of-range secret key"@,
{
    reveal_strlit("0x");
    if text@ == "0x"@ + digits {
        assert(text@.take(2) =~= "0x"@);
        assert(text@.skip(2) =~= digits);
    } else if without_prefix(text@, "0x"@) is Some {
        assert(text@.take(2)[0] == '0' && text@.take(2)[1] == 'x');
    }
    assert(key_digits(text@) == digits);
    assert(hex_bytes(digits).len() == digits.len() / 2);
    reveal_strlit("invalid private key: ");
    reveal_strlit("malformed or out-of-range secret key");
    reveal_strlit("invalid private key: malformed or out-of-range secret key");
    assert("invalid private key: "@ + "malformed or out-of-range secret key"@
        =~= "invalid private key: malformed or out-of-range secret key"@);
}

/// A key signs 32 bytes for the lock arguments that it owns, and for no others.
pub proof fn law_key_signs_for_owner(
    key: PrivateKey,
    owner: Vec<u8>,
    id: &[u8],
    message: &[u8],
    r: Result<Vec<u8>, RpcError>,
)
    requires
        call_ensures(PrivateKey::owner, (&key,), owner),
        call_ensures(PrivateKey::sign, (&key, id, message), r),
    ensures
        owner@ == blake160_of(public_key_of(key@)),
        r is Ok <==> id@ == owner@ && message@.len() == 32,
        r is Ok ==> r->Ok_0@ == recoverable_signature(key@, message@) && r->Ok_0@.len() == 65,
        r is Err && id@ != owner@ ==> r->Err_0.message@
            == "failed to sign message: "@ + "the id is not found in the signer"@,
{
}

} // verus!
