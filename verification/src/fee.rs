//! Fees of forwarded payments and of the transactions that end a channel.
//!
//! The default rates, and the shape of the transactions whose sizes are computed here (the number
//! of code dependencies, the length of the witness and of the commitment lock arguments), are
//! assumptions of this library.

use crate::chain::{sighash_lock_code, Script};
#[allow(unused_imports)]
use crate::chain::{secp256k1_lock_code_hash, ScriptView};
#[allow(unused_imports)]
use crate::signing::owned_sighash_lock;
#[allow(unused_imports)]
use vstd::arithmetic::div_mod::lemma_fundamental_div_mod;
#[allow(unused_imports)]
use vstd::arithmetic::mul::{lemma_mul_inequality, lemma_mul_is_commutative};
use vstd::prelude::*;

verus! {

/// The fee rate of transactions, in shannons per thousand bytes, unless another one is agreed.
/// The value is an assumption of this library.
pub const DEFAULT_FEE_RATE: u64 = 1_000;

/// The fee rate of commitment transactions, in shannons per thousand bytes, unless another one is
/// agreed. The value is an assumption of this library.
pub const DEFAULT_COMMITMENT_FEE_RATE: u64 = 1_000;

/// The quotient, rounded up.
pub open spec fn div_ceil(n: int, d: int) -> int {
    n / d + if n % d > 0 {
        1int
    } else {
        0
    }
}

/// The share `fee_proportional` of every `base` in `amount`, rounded up. Fails if the product of
/// amount and share does not fit.
pub fn calculate_fee_with_base(amount: u128, fee_proportional: u128, base: u128) -> (r: Result<
    u128,
    String,
>)
    requires
        base > 0,
    ensures
        r is Ok <==> amount * fee_proportional <= u128::MAX,
        r matches Ok(fee) ==> fee == div_ceil(amount * fee_proportional, base as int),
        r matches Err(message) ==> message@ == "fee calculation overflow"@,
{
    match amount.checked_mul(fee_proportional) {
        None => Err("fee calculation overflow".to_owned()),
        Some(product) => {
            let whole = product / base;
            if product % base == 0 {
                Ok(whole)
            } else {
                assert(whole < u128::MAX) by {
                    if whole == u128::MAX {
                        lemma_fundamental_div_mod(product as int, base as int);
                        lemma_mul_inequality(1, base as int, whole as int);
                        lemma_mul_is_commutative(base as int, whole as int);
                    }
                }
                Ok(whole + 1)
            }
        },
    }
}

/// The fee for forwarding a TLC: `fee_proportional_millionths` for every million in `amount`,
/// rounded up.
pub fn calculate_tlc_forward_fee(amount: u128, fee_proportional_millionths: u128) -> (r: Result<
    u128,
    String,
>)
    ensures
        r is Ok <==> amount * fee_proportional_millionths <= u128::MAX,
        r matches Ok(fee) ==> fee == div_ceil(amount * fee_proportional_millionths, 1_000_000),
        r matches Err(message) ==> message@ == "fee calculation overflow"@,
{
    calculate_fee_with_base(amount, fee_proportional_millionths, 1_000_000)
}

/// Rounding up never falls short of the exact quotient, and exceeds it by less than one.
pub proof fn law_fee_covers_share(n: int, d: int)
    requires
        n >= 0,
        d > 0,
    ensures
        div_ceil(n, d) * d >= n,
        (div_ceil(n, d) - 1) * d < n,
        n == 0 ==> div_ceil(n, d) == 0,
{
    lemma_fundamental_div_mod(n, d);
    let q = n / d;
    assert((q + 1) * d == q * d + d) by (nonlinear_arith);
    assert((q - 1) * d == q * d - d) by (nonlinear_arith);
    assert(d * q == q * d) by (nonlinear_arith);
    if n == 0 {
        assert(0int / d == 0) by (nonlinear_arith)
            requires
                d > 0,
        ;
        assert(0int % d == 0) by (nonlinear_arith)
            requires
                d > 0,
        ;
    }
}

/// A greater product never costs a smaller fee.
pub proof fn law_fee_monotone(m: int, n: int, d: int)
    requires
        0 <= m <= n,
        d > 0,
    ensures
        div_ceil(m, d) <= div_ceil(n, d),
{
    law_fee_covers_share(m, d);
    law_fee_covers_share(n, d);
    if div_ceil(m, d) > div_ceil(n, d) {
        lemma_mul_inequality(div_ceil(n, d), div_ceil(m, d) - 1, d);
    }
}

/// The fee of a transaction of a size, at a rate in shannons per thousand bytes. What does not
/// fit counts as the greatest number.
pub open spec fn size_fee(fee_rate: u64, size: nat) -> int {
    let product = fee_rate * size;
    (if product <= u64::MAX { product } else { u64::MAX as int }) / 1000
}

/// `FeeRate::fee` of `ckb_types::core`: the rate times the size, saturating, and that divided by a
/// thousand.
#[verifier::external_body]
fn fee_of_size(fee_rate: u64, size: u64) -> (r: u64)
    ensures
        r == size_fee(fee_rate, size as nat),
{
    ckb_types::core::FeeRate::from_u64(fee_rate).fee(size).as_u64()
}

/// A higher rate never costs a smaller fee.
pub proof fn law_size_fee_monotone(low: u64, high: u64, size: nat)
    requires
        low <= high,
    ensures
        size_fee(low, size) <= size_fee(high, size),
{
    lemma_mul_inequality(low as int, high as int, size as int);
}

/// A transaction is free exactly where the rate times its size stays below a thousand.
pub proof fn law_size_fee_positive(fee_rate: u64, size: nat)
    ensures
        size_fee(fee_rate, size) > 0 <==> fee_rate * size >= 1000,
{
}

/// A rate that is higher by enough to add a thousand to the product costs a higher fee, as long as
/// the product fits.
pub proof fn law_size_fee_rises(low: u64, high: u64, size: nat)
    requires
        (high - low) * size >= 1000,
        high * size <= u64::MAX,
    ensures
        size_fee(low, size) < size_fee(high, size),
{
    assert((high - low) * size == high * size - low * size) by (nonlinear_arith);
}

/// A script that the chain provides.
#[derive(Clone, Copy, Debug, PartialEq, Eq, Structural)]
pub enum Contract {
    /// The lock script for a signature under a secp256k1 key.
    Secp256k1Lock,
}

/// The script of a contract with the given arguments. Its code is found by type.
pub fn get_script_by_contract(contract: Contract, args: &[u8]) -> (r: Script)
    ensures
        r.code_hash.0@ == secp256k1_lock_code_hash(),
        r.hash_type == 1,
        r.args@ == args@,
{
    let code_hash = match contract {
        Contract::Secp256k1Lock => sighash_lock_code(),
    };
    let args = vstd::slice::slice_to_vec(args);
    Script { code_hash, hash_type: 1, args }
}

/// How many bytes a script takes: its frame, the code hash, the hash type and the arguments.
pub open spec fn script_size(args_len: nat) -> nat {
    16 + 32 + 1 + 4 + args_len
}

/// How many bytes an optional script takes.
pub open spec fn opt_script_size(script: Option<ScriptView>) -> nat {
    match script {
        Some(s) => script_size(s.args.len()),
        None => 0,
    }
}

/// How many bytes an output with the lock script of a size takes, with its data and the offsets of
/// both. An output of a user-defined token is assumed to have a type script, and its amount as
/// sixteen bytes of data.
pub open spec fn output_size(lock_size: nat, udt: Option<ScriptView>) -> nat {
    let output = 16 + 8 + lock_size + opt_script_size(udt);
    let data: nat = 4 + if udt is Some {
        16nat
    } else {
        0
    };
    4 + output + 4 + data
}

/// How many bytes a transaction takes in a block that spends the funding cell. This library
/// assumes that it has one input, one witness of 148 bytes, two code dependencies and one more for
/// a user-defined token. Its outputs have `outputs` bytes in all.
pub open spec fn funding_spend_size(outputs: nat, udt: Option<ScriptView>) -> nat {
    let dependencies: nat = 4 + 37 * if udt is Some {
        3nat
    } else {
        2
    };
    let inputs = 4 + 44;
    let raw = 28 + 4 + dependencies + 4 + inputs + 4 + 4 + outputs;
    let witnesses = 4 + 4 + 4 + 148;
    (12 + raw + witnesses + 4) as nat
}

/// What an optional script holds.
pub open spec fn opt_script(script: Option<Script>) -> Option<ScriptView> {
    match script {
        Some(s) => Some(s@),
        None => None,
    }
}

/// How many bytes a commitment transaction takes in a block. This library assumes that it has one
/// output, whose lock script has 56 bytes of arguments.
pub open spec fn commitment_tx_size(udt: Option<ScriptView>) -> nat {
    funding_spend_size(output_size(script_size(56), udt), udt)
}

/// How many bytes a shutdown transaction takes in a block. This library assumes that it has one
/// output for each party.
pub open spec fn shutdown_tx_size(
    udt: Option<ScriptView>,
    local: ScriptView,
    remote: ScriptView,
) -> nat {
    funding_spend_size(
        output_size(script_size(local.args.len()), udt) + output_size(
            script_size(remote.args.len()),
            udt,
        ),
        udt,
    )
}

/// Computes [`output_size`] for a lock script with `args_len` bytes of arguments.
fn output_bytes(args_len: usize, udt_type_script: &Option<Script>) -> (r: u64)
    requires
        args_len <= u32::MAX,
        udt_type_script matches Some(s) ==> s.args@.len() <= u32::MAX,
    ensures
        r == output_size(script_size(args_len as nat), opt_script(*udt_type_script)),
        r <= 0x4_0000_0000,
{
    let lock: u64 = 16 + 32 + 1 + 4 + args_len as u64;
    match udt_type_script {
        Some(s) => {
            let type_script: u64 = 16 + 32 + 1 + 4 + s.args.len() as u64;
            4 + (16 + 8 + lock + type_script) + 4 + (4 + 16)
        },
        None => 4 + (16 + 8 + lock) + 4 + 4,
    }
}

/// Computes [`funding_spend_size`].
fn funding_spend_bytes(outputs: u64, udt_type_script: &Option<Script>) -> (r: u64)
    requires
        outputs <= 0x8_0000_0000,
    ensures
        r == funding_spend_size(outputs as nat, opt_script(*udt_type_script)),
{
    let dependencies: u64 = match udt_type_script {
        Some(_) => 4 + 37 * 3,
        None => 4 + 37 * 2,
    };
    let raw: u64 = 28 + 4 + dependencies + 4 + (4 + 44) + 4 + 4 + outputs;
    12 + raw + (4 + 4 + 4 + 148) + 4
}

/// The fee of a commitment transaction of the size that this library assumes.
pub fn calculate_commitment_tx_fee(fee_rate: u64, udt_type_script: &Option<Script>) -> (r: u64)
    requires
        udt_type_script matches Some(s) ==> s.args@.len() <= u32::MAX,
    ensures
        r == size_fee(fee_rate, commitment_tx_size(opt_script(*udt_type_script))),
{
    let outputs = output_bytes(56, udt_type_script);
    fee_of_size(fee_rate, funding_spend_bytes(outputs, udt_type_script))
}

/// The fee of a shutdown transaction that pays to the two close scripts, of the size that this
/// library assumes.
pub fn calculate_shutdown_tx_fee(
    fee_rate: u64,
    udt_type_script: &Option<Script>,
    shutdown_scripts: (Script, Script),
) -> (r: u64)
    requires
        udt_type_script matches Some(s) ==> s.args@.len() <= u32::MAX,
        shutdown_scripts.0.args@.len() <= u32::MAX,
        shutdown_scripts.1.args@.len() <= u32::MAX,
    ensures
        r == size_fee(
            fee_rate,
            shutdown_tx_size(
                opt_script(*udt_type_script),
                shutdown_scripts.0@,
                shutdown_scripts.1@,
            ),
        ),
{
    let local = output_bytes(shutdown_scripts.0.args.len(), udt_type_script);
    let remote = output_bytes(shutdown_scripts.1.args.len(), udt_type_script);
    fee_of_size(fee_rate, funding_spend_bytes(local + remote, udt_type_script))
}

/// The fee is the least number that covers the share: it pays for the whole product of amount and
/// share, and one less would not.
pub proof fn law_fee_is_least(amount: u128, share: u128, base: u128, r: Result<u128, String>)
    requires
        base > 0,
        call_ensures(calculate_fee_with_base, (amount, share, base), r),
    ensures
        r is Ok <==> amount * share <= u128::MAX,
        r is Ok ==> r->Ok_0 * base >= amount * share && (r->Ok_0 - 1) * base < amount * share,
        r is Err ==> r->Err_0@ == "fee calculation overflow"@,
{
    assert(amount * share >= 0) by (nonlinear_arith);
    law_fee_covers_share(amount * share, base as int);
}

/// The fee for forwarding is the fee with a base of one million.
pub proof fn law_forward_fee_in_millionths(
    amount: u128,
    share: u128,
    r: Result<u128, String>,
)
    requires
        call_ensures(calculate_tlc_forward_fee, (amount, share), r),
    ensures
        r is Ok <==> amount * share <= u128::MAX,
        r is Ok ==> r->Ok_0 * 1_000_000 >= amount * share && (r->Ok_0 - 1) * 1_000_000 < amount
            * share,
        r is Err ==> r->Err_0@ == "fee calculation overflow"@,
{
    assert(amount * share >= 0) by (nonlinear_arith);
    law_fee_covers_share(amount * share, 1_000_000);
}

/// What a script, and the dependency and amount of a user-defined token, add to a size.
pub open spec fn udt_extra(udt: Option<Script>, outputs: int) -> int {
    match udt {
        Some(s) => 37 + outputs * (53 + s.args@.len() + 16),
        None => 0,
    }
}

/// A rate of one thousand costs a shannon for each byte. Every other rate costs its share of that,
/// rounded down to whole shannons, as long as the product fits. A user-defined token adds its
/// script, its amount and a dependency.
pub proof fn law_commitment_fee(
    fee_rate: u64,
    udt: Option<Script>,
    at_thousand: u64,
    r: u64,
)
    requires
        udt is Some ==> udt->0.args@.len() <= u32::MAX,
        call_ensures(calculate_commitment_tx_fee, (1000, &udt), at_thousand),
        call_ensures(calculate_commitment_tx_fee, (fee_rate, &udt), r),
    ensures
        at_thousand == 491 + udt_extra(udt, 1),
        fee_rate * at_thousand <= u64::MAX ==> r * 1000 <= fee_rate * at_thousand < (r + 1) * 1000,
        fee_rate * at_thousand > u64::MAX ==> r == u64::MAX / 1000,
{
    assert(commitment_tx_size(opt_script(udt)) == 491 + udt_extra(udt, 1));
    let size = commitment_tx_size(opt_script(udt));
    assert(1000 * size <= u64::MAX);
    assert(size_fee(1000, size) == size);
}

/// Each byte of the arguments of a close script costs as much as any other byte, whichever party
/// it belongs to.
pub proof fn law_shutdown_fee(
    fee_rate: u64,
    udt: Option<Script>,
    local: Script,
    remote: Script,
    at_thousand: u64,
    r: u64,
)
    requires
        udt is Some ==> udt->0.args@.len() <= u32::MAX,
        local.args@.len() <= u32::MAX,
        remote.args@.len() <= u32::MAX,
        call_ensures(calculate_shutdown_tx_fee, (1000, &udt, (local, remote)), at_thousand),
        call_ensures(calculate_shutdown_tx_fee, (fee_rate, &udt, (local, remote)), r),
    ensures
        at_thousand == 524 + local.args@.len() + remote.args@.len() + udt_extra(udt, 2),
        fee_rate * at_thousand <= u64::MAX ==> r * 1000 <= fee_rate * at_thousand < (r + 1) * 1000,
        fee_rate * at_thousand > u64::MAX ==> r == u64::MAX / 1000,
{
    let size = shutdown_tx_size(opt_script(udt), local@, remote@);
    assert(size == 524 + local.args@.len() + remote.args@.len() + udt_extra(udt, 2));
    assert(1000 * size <= u64::MAX);
    assert(size_fee(1000, size) == size);
}

/// The lock script of a contract has the given arguments, and it is the sighash lock of the owner
/// that they name.
pub proof fn law_contract_is_sighash_lock(
    contract: Contract,
    args: &[u8],
    r: Script,
    owner: Vec<u8>,
    owned: bool,
)
    requires
        call_ensures(get_script_by_contract, (contract, args), r),
        call_ensures(owned_sighash_lock, (&r, &owner), owned),
    ensures
        r.args@ == args@,
        r.hash_type == 1,
        owned <==> owner@ == args@,
{
}

} // verus!
