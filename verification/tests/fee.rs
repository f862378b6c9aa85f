use ckb_types::bytes::Bytes;
use ckb_types::packed;
use ckb_types::prelude::{Builder, Entity, Pack};
use fiber_dev_rpc::chain::Script;
use fiber_dev_rpc::fee::{
    calculate_commitment_tx_fee, calculate_fee_with_base, calculate_shutdown_tx_fee,
    calculate_tlc_forward_fee, get_script_by_contract, Contract, DEFAULT_COMMITMENT_FEE_RATE,
    DEFAULT_FEE_RATE,
};

#[test]
fn test_calculate_fee_with_base_simple() {
    // 1% fee on 1000 amount = 10
    let result = calculate_fee_with_base(1000, 10000, 1_000_000).unwrap();
    assert_eq!(result, 10);
}

#[test]
fn test_calculate_fee_with_base_zero_fee() {
    // 0% fee = 0
    let result = calculate_fee_with_base(1000, 0, 1_000_000).unwrap();
    assert_eq!(result, 0);
}

#[test]
fn test_calculate_fee_with_base_round_up() {
    // 1% fee on 1001 amount = 10.01 -> rounds to 11
    let result = calculate_fee_with_base(1001, 10000, 1_000_000).unwrap();
    assert_eq!(result, 11);
}

#[test]
fn test_calculate_fee_with_base_exact_division() {
    // 1% fee on 1000000 amount = 10000 exactly
    let result = calculate_fee_with_base(1000000, 10000, 1_000_000).unwrap();
    assert_eq!(result, 10000);
}

#[test]
fn test_calculate_fee_with_base_overflow() {
    let result = calculate_fee_with_base(u128::MAX, u128::MAX, 1);
    assert!(result.is_err());
    assert!(result.unwrap_err().contains("overflow"));
}

#[test]
fn test_calculate_fee_with_base_large_values() {
    // 1000 ppm (0.1%) on 1 trillion amount
    let result = calculate_fee_with_base(1_000_000_000_000, 1000, 1_000_000).unwrap();
    assert_eq!(result, 1_000_000_000); // 0.1% of 1T = 1B
}

#[test]
fn test_calculate_tlc_forward_fee_simple() {
    // 1000 ppm (0.1%) on 1000000 amount = 1000
    let result = calculate_tlc_forward_fee(1000000, 1000).unwrap();
    assert_eq!(result, 1000);
}

#[test]
fn test_calculate_tlc_forward_fee_zero() {
    let result = calculate_tlc_forward_fee(1000000, 0).unwrap();
    assert_eq!(result, 0);
}

#[test]
fn test_calculate_tlc_forward_fee_typical() {
    // 5000 ppm (0.5%) on 100000000 amount = 500000
    let result = calculate_tlc_forward_fee(100_000_000, 5000).unwrap();
    assert_eq!(result, 500_000);
}

#[test]
fn test_calculate_tlc_forward_fee_small_amount() {
    // 100 ppm (0.01%) on 1000 amount = 0.1 -> rounds to 1
    let result = calculate_tlc_forward_fee(1000, 100).unwrap();
    assert_eq!(result, 1);
}

#[test]
fn test_calculate_commitment_tx_fee_basic() {
    let fee = calculate_commitment_tx_fee(DEFAULT_COMMITMENT_FEE_RATE, &None);
    assert!(fee > 0);
}

#[test]
fn test_calculate_commitment_tx_fee_different_rates() {
    let fee_low = calculate_commitment_tx_fee(1000, &None);
    let fee_high = calculate_commitment_tx_fee(5000, &None);
    assert!(fee_high > fee_low);
}

#[test]
fn test_calculate_shutdown_tx_fee_basic() {
    let script_a = get_script_by_contract(Contract::Secp256k1Lock, &[0u8; 32]);
    let script_b = get_script_by_contract(Contract::Secp256k1Lock, &[1u8; 32]);

    let fee = calculate_shutdown_tx_fee(DEFAULT_FEE_RATE, &None, (script_a, script_b));
    assert!(fee > 0);
}

#[test]
fn test_calculate_shutdown_tx_fee_different_rates() {
    let script_a = get_script_by_contract(Contract::Secp256k1Lock, &[0u8; 32]);
    let script_b = get_script_by_contract(Contract::Secp256k1Lock, &[1u8; 32]);

    let fee_low = calculate_shutdown_tx_fee(1000, &None, (script_a.clone(), script_b.clone()));
    let fee_high = calculate_shutdown_tx_fee(5000, &None, (script_a, script_b));
    assert!(fee_high > fee_low);
}

fn packed_script(script: &Script) -> packed::Script {
    packed::Script::new_builder()
        .code_hash(script.code_hash.0.pack())
        .hash_type(script.hash_type)
        .args(script.args.as_slice().pack())
        .build()
}

/// The size in a block of a transaction that spends one cell to the given lock scripts.
fn spend_size(locks: &[Script], udt: &Option<Script>) -> u64 {
    let dependencies = if udt.is_some() { 3 } else { 2 };
    let mut builder = ckb_types::core::TransactionBuilder::default()
        .cell_deps(vec![packed::CellDep::default(); dependencies])
        .input(packed::CellInput::default())
        .witness(vec![0u8; 148].as_slice().pack());
    for lock in locks {
        let mut output = packed::CellOutput::new_builder().lock(packed_script(lock));
        let mut data = Bytes::new();
        if let Some(script) = udt {
            output = output.type_(Some(packed_script(script)).pack());
            data = Bytes::from(vec![0u8; 16]);
        }
        builder = builder.output(output.build()).output_data(data.pack());
    }
    builder.build().data().serialized_size_in_block() as u64
}

fn lock(args_len: usize) -> Script {
    get_script_by_contract(Contract::Secp256k1Lock, &vec![7u8; args_len])
}

#[test]
fn commitment_fee_follows_the_encoded_size() {
    assert_eq!(
        calculate_commitment_tx_fee(1_000, &None),
        spend_size(&[lock(56)], &None)
    );
    let udt = Some(lock(21));
    assert_eq!(
        calculate_commitment_tx_fee(3_000, &udt),
        3 * spend_size(&[lock(56)], &udt)
    );
}

#[test]
fn shutdown_fee_follows_the_encoded_size() {
    for udt in [None, Some(lock(32))] {
        assert_eq!(
            calculate_shutdown_tx_fee(2_000, &udt, (lock(20), lock(0))),
            2 * spend_size(&[lock(20), lock(0)], &udt)
        );
    }
}

#[test]
fn size_fee_saturates() {
    assert_eq!(calculate_commitment_tx_fee(u64::MAX, &None), u64::MAX / 1000);
    assert_eq!(calculate_commitment_tx_fee(0, &None), 0);
}

#[test]
fn fee_at_the_edge_of_the_product() {
    assert_eq!(calculate_fee_with_base(u128::MAX, 1, 1), Ok(u128::MAX));
    assert_eq!(calculate_fee_with_base(u128::MAX, 1, 2), Ok(u128::MAX / 2 + 1));
    assert!(calculate_fee_with_base(u128::MAX / 2 + 1, 2, 7).is_err());
    assert_eq!(
        calculate_tlc_forward_fee(u128::MAX, 2),
        Err("fee calculation overflow".to_string())
    );
    assert_eq!(calculate_tlc_forward_fee(1, 1), Ok(1));
}

#[test]
fn secp256k1_lock_is_the_sighash_lock() {
    let script = get_script_by_contract(Contract::Secp256k1Lock, &[1, 2]);
    assert_eq!(script.code_hash.0, ckb_sdk::constants::SIGHASH_TYPE_HASH.0);
    assert_eq!(script.hash_type, 1);
    assert_eq!(script.args, vec![1, 2]);
}
