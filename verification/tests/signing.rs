use ckb_sdk::traits::SecpCkbRawKeySigner;
use ckb_sdk::types::ScriptGroup;
use ckb_sdk::unlock::{ScriptSigner, SecpSighashScriptSigner};
use ckb_types::bytes::Bytes;
use ckb_types::packed;
use ckb_types::prelude::{Builder, Entity, Pack};
use fiber_dev_rpc::chain::{Hash256, Script};
use fiber_dev_rpc::commitment::CommitmentTransactions;
use fiber_dev_rpc::dev::DevRpcServerImpl;
use fiber_dev_rpc::error::RpcError;
use fiber_dev_rpc::keys::PrivateKey;
use fiber_dev_rpc::signing::{
    group_inputs, owned_sighash_lock, pad_witnesses, place_signature, resolve_lock, sign_inputs,
    SigningStep,
};
use fiber_dev_rpc::transaction::Transaction;
use fiber_dev_rpc::types::SignExternalFundingTxParams;
use fiber_dev_rpc::witness::{sign_witness, with_lock, WitnessArgs};

const KEY: &str = "0x0101010101010101010101010101010101010101010101010101010101010101";

fn key_bytes() -> [u8; 32] {
    [1u8; 32]
}

/// The lock arguments of the key, computed without the library.
fn owner() -> Vec<u8> {
    let secret = secp256k1::SecretKey::from_byte_array(&key_bytes()).unwrap();
    let public = secret.public_key(secp256k1::SECP256K1);
    ckb_sdk::util::blake160(&public.serialize()).as_bytes().to_vec()
}

/// The sighash lock with the given arguments.
fn sighash(args: Vec<u8>) -> Script {
    Script {
        code_hash: Hash256(ckb_sdk::constants::SIGHASH_TYPE_HASH.0),
        hash_type: 1,
        args,
    }
}

fn lock(code: u8, args: Vec<u8>) -> Script {
    Script {
        code_hash: Hash256([code; 32]),
        hash_type: 1,
        args,
    }
}

fn packed_script(script: &Script) -> packed::Script {
    packed::Script::new_builder()
        .code_hash(script.code_hash.0.pack())
        .hash_type(script.hash_type)
        .args(script.args.as_slice().pack())
        .build()
}

/// A transaction whose input at `i` spends output `i` of a transaction with the hash of all `i`s.
fn unsigned(inputs: u8, witnesses: &[Vec<u8>]) -> ckb_types::core::TransactionView {
    let mut builder = ckb_types::core::TransactionBuilder::default();
    for i in 0..inputs {
        let previous = packed::OutPoint::new([i; 32].pack(), i as u32);
        builder = builder.input(packed::CellInput::new(previous, 0));
    }
    for w in witnesses {
        builder = builder.witness(w.as_slice().pack());
    }
    builder.build()
}

fn library_tx(tx: &ckb_types::core::TransactionView) -> Transaction {
    let data = tx.data();
    let witnesses = tx
        .witnesses()
        .into_iter()
        .map(|w| w.raw_data().to_vec())
        .collect();
    Transaction::new(data.raw().as_slice().to_vec(), witnesses).unwrap()
}

fn start(tx: &ckb_types::core::TransactionView, key: &str) -> Result<SigningStep, RpcError> {
    let server = DevRpcServerImpl::new(String::new(), CommitmentTransactions::new());
    server.sign_external_funding_tx(SignExternalFundingTxParams {
        unsigned_funding_tx: library_tx(tx),
        private_key: key.to_string(),
    })
}

fn failure(step: Result<SigningStep, RpcError>) -> String {
    match step {
        Ok(_) => panic!("expected a failure"),
        Err(e) => e.message,
    }
}

/// Answers every look-up with the lock script of the input in question.
fn run(tx: &ckb_types::core::TransactionView, key: &str, locks: &[Script]) -> Result<Transaction, RpcError> {
    let mut step = start(tx, key)?;
    let mut asked = 0usize;
    loop {
        match step {
            SigningStep::Signed(result) => {
                assert_eq!(asked, locks.len());
                return Ok(result.signed_funding_tx);
            }
            SigningStep::Lookup(signer) => {
                let request = signer.request();
                assert_eq!(request.tx_hash, Hash256([asked as u8; 32]));
                assert_eq!(request.index, asked as u32);
                let mut outputs = vec![lock(0xee, vec![]); asked];
                outputs.push(locks[asked].clone());
                asked += 1;
                step = signer.resume(Ok(Some(outputs)))?;
            }
        }
    }
}

/// The witnesses after signing one group with the signer of the SDK.
fn sdk_witnesses(tx: &ckb_types::core::TransactionView, script: &Script, indices: &[usize]) -> Vec<Vec<u8>> {
    let secret = secp256k1::SecretKey::from_byte_array(&key_bytes()).unwrap();
    let signer = SecpCkbRawKeySigner::new_with_secret_keys(vec![secret]);
    let signer = SecpSighashScriptSigner::new(Box::new(signer));
    let mut group = ScriptGroup::from_lock_script(&packed_script(script));
    group.input_indices = indices.to_vec();
    let signed = signer.sign_tx(tx, &group).unwrap();
    signed
        .witnesses()
        .into_iter()
        .map(|w| w.raw_data().to_vec())
        .collect()
}

fn encoded(args: WitnessArgs) -> Vec<u8> {
    args.into_bytes()
}

fn no_args() -> WitnessArgs {
    WitnessArgs {
        lock: None,
        input_type: None,
        output_type: None,
    }
}

#[test]
fn signs_like_the_sdk() {
    let mine = sighash(owner());
    let tx = unsigned(1, &[vec![]]);
    let signed = run(&tx, KEY, &[mine.clone()]).unwrap();
    assert_eq!(signed.witnesses(), &sdk_witnesses(&tx, &mine, &[0]));
    assert_eq!(signed.raw().as_slice(), tx.data().raw().as_slice());
    let args = WitnessArgs::from_bytes(&signed.witnesses()[0]).unwrap();
    assert_eq!(args.lock.unwrap().len(), 65);
    assert!(args.input_type.is_none() && args.output_type.is_none());
}

#[test]
fn signs_inputs_of_one_lock_together() {
    let mine = sighash(owner());
    let other = sighash(vec![9; 20]);
    let mut args = no_args();
    args.input_type = Some(vec![1, 2, 3]);
    let witnesses = vec![vec![5], encoded(args), vec![6, 7], vec![], vec![8]];
    let tx = unsigned(4, &witnesses);
    let signed = run(
        &tx,
        KEY,
        &[other.clone(), mine.clone(), other, mine.clone()],
    )
    .unwrap();
    assert_eq!(signed.witnesses(), &sdk_witnesses(&tx, &mine, &[1, 3]));
    for i in [0usize, 2, 3, 4] {
        assert_eq!(signed.witnesses()[i], witnesses[i]);
    }
    let args = WitnessArgs::from_bytes(&signed.witnesses()[1]).unwrap();
    assert_eq!(args.input_type, Some(vec![1, 2, 3]));
    assert_eq!(args.output_type, None);
}

#[test]
fn signs_only_sighash_locks() {
    let mine = sighash(owner());
    let other_code = lock(2, owner());
    let mut other_type = sighash(owner());
    other_type.hash_type = 0;
    let tx = unsigned(4, &[vec![], vec![], vec![], vec![]]);
    let locks = [other_code.clone(), mine.clone(), other_type.clone(), mine.clone()];
    let signed = run(&tx, KEY, &locks).unwrap();
    assert_eq!(signed.witnesses(), &sdk_witnesses(&tx, &mine, &[1, 3]));
    for i in [0usize, 2, 3] {
        assert!(signed.witnesses()[i].is_empty());
    }

    let tx = unsigned(2, &[vec![], vec![]]);
    let error = run(&tx, KEY, &[other_code.clone(), other_type.clone()]).unwrap_err();
    assert_eq!(
        error.message,
        "no transaction inputs matched the provided private key"
    );
    assert!(owned_sighash_lock(&mine, &owner()));
    assert!(!owned_sighash_lock(&other_code, &owner()));
    assert!(!owned_sighash_lock(&other_type, &owner()));
    assert!(!owned_sighash_lock(&sighash(vec![]), &owner()));
}

#[test]
fn refuses_a_transaction_of_others() {
    let tx = unsigned(1, &[vec![]]);
    let error = run(&tx, KEY, &[sighash(vec![0; 20])]).unwrap_err();
    assert_eq!(
        error.message,
        "no transaction inputs matched the provided private key"
    );
    let empty = unsigned(0, &[]);
    assert_eq!(
        failure(start(&empty, KEY)),
        "no transaction inputs matched the provided private key"
    );
}

#[test]
fn refuses_missing_and_broken_witnesses() {
    let mine = sighash(owner());
    let error = run(&unsigned(1, &[]), KEY, &[mine.clone()]).unwrap_err();
    assert_eq!(
        error.message,
        "failed to generate sighash message: witness count in current transaction not enough to \
         cover current script group"
    );
    let error = run(&unsigned(1, &[vec![1, 2, 3]]), KEY, &[mine]).unwrap_err();
    assert!(error
        .message
        .starts_with("failed to generate sighash message: the witness is not empty"));
}

#[test]
fn refuses_bad_keys() {
    let tx = unsigned(1, &[vec![]]);
    assert_eq!(
        failure(start(&tx, "0x123")),
        "invalid private key hex: Odd number of digits"
    );
    assert_eq!(
        failure(start(&tx, "zz")),
        "invalid private key hex: Invalid character 'z' at position 0"
    );
    assert_eq!(
        failure(start(&tx, "0x0102")),
        "invalid private key length: expected 32 bytes, got 2"
    );
    assert_eq!(
        failure(start(&tx, &"01".repeat(123))),
        "invalid private key length: expected 32 bytes, got 123"
    );
    let out_of_range = "invalid private key: malformed or out-of-range secret key";
    assert_eq!(failure(start(&tx, &"00".repeat(32))), out_of_range);
    let order = "fffffffffffffffffffffffffffffffebaaedce6af48a03bbfd25e8cd0364141";
    assert_eq!(failure(start(&tx, order)), out_of_range);
    let last = "fffffffffffffffffffffffffffffffebaaedce6af48a03bbfd25e8cd0364140";
    assert!(start(&tx, last).is_ok());
    assert!(start(&tx, &format!("{}1", "0".repeat(63))).is_ok());
}

#[test]
fn key_prefix_is_optional() {
    let mine = sighash(owner());
    let tx = unsigned(1, &[vec![]]);
    let with_prefix = run(&tx, KEY, &[mine.clone()]).unwrap();
    let without_prefix = run(&tx, &KEY[2..], &[mine]).unwrap();
    assert_eq!(with_prefix.witnesses(), without_prefix.witnesses());
    assert!(failure(start(&tx, &KEY.replace("0x", "0X"))).starts_with("invalid private key hex"));
}

#[test]
fn failed_look_ups_end_the_call() {
    let tx = unsigned(2, &[vec![], vec![]]);
    let mine = sighash(owner());
    let resume = |answer: Result<Option<Vec<Script>>, String>| match start(&tx, KEY).unwrap() {
        SigningStep::Lookup(signer) => match signer.resume(Ok(Some(vec![mine.clone()]))).unwrap() {
            SigningStep::Lookup(signer) => failure(signer.resume(answer)),
            SigningStep::Signed(_) => panic!("signed too early"),
        },
        SigningStep::Signed(_) => panic!("signed too early"),
    };
    assert_eq!(
        resume(Err("no route".to_string())),
        "failed to fetch previous transaction: no route"
    );
    assert_eq!(
        resume(Ok(None)),
        format!("previous transaction not found for input 1: {}", "01".repeat(32))
    );
    assert_eq!(
        resume(Ok(Some(vec![mine.clone()]))),
        "previous output index 1 out of bounds for input 1"
    );
}

#[test]
fn lock_is_found_by_the_index_of_the_output() {
    let output = fiber_dev_rpc::chain::OutPoint {
        tx_hash: Hash256([0xab; 32]),
        index: 1,
    };
    let outputs = vec![lock(1, vec![]), lock(2, vec![7])];
    let found = resolve_lock(0, output, Ok(Some(outputs))).unwrap();
    assert_eq!(found.code_hash, Hash256([2; 32]));
    assert_eq!(found.args, vec![7]);
}

#[test]
fn groups_follow_the_first_inputs() {
    let me = vec![1u8; 20];
    let mine = sighash(me.clone());
    let other_code = lock(2, me.clone());
    let stranger = sighash(vec![2; 20]);
    let locks = vec![
        stranger.clone(),
        mine.clone(),
        other_code.clone(),
        mine.clone(),
        stranger,
        other_code,
        mine.clone(),
    ];
    let groups = group_inputs(&locks, &me);
    assert_eq!(groups.len(), 1);
    assert!(groups[0].lock.same(&mine));
    assert_eq!(groups[0].input_indices, vec![1, 3, 6]);
    assert!(group_inputs(&locks, &vec![3; 20]).is_empty());
    assert!(group_inputs(&vec![], &me).is_empty());
}

#[test]
fn scripts_differ_by_every_field() {
    let script = lock(1, vec![1, 2]);
    assert!(script.same(&script.clone()));
    assert!(!script.same(&lock(2, vec![1, 2])));
    assert!(!script.same(&lock(1, vec![1, 2, 3])));
    let mut by_data = script.clone();
    by_data.hash_type = 0;
    assert!(!script.same(&by_data));
}

#[test]
fn witness_arguments_match_the_chain_encoding() {
    let parts = [None, Some(vec![]), Some(vec![1u8, 2, 3]), Some(vec![9u8; 300])];
    for lock in &parts {
        for input_type in &parts {
            for output_type in &parts {
                let bytes = encoded(WitnessArgs {
                    lock: lock.clone(),
                    input_type: input_type.clone(),
                    output_type: output_type.clone(),
                });
                let expected = packed::WitnessArgs::new_builder()
                    .lock(lock.clone().map(Bytes::from).pack())
                    .input_type(input_type.clone().map(Bytes::from).pack())
                    .output_type(output_type.clone().map(Bytes::from).pack())
                    .build();
                assert_eq!(bytes.as_slice(), expected.as_slice());
                let read = WitnessArgs::from_bytes(&bytes).unwrap();
                assert_eq!(&read.lock, lock);
                assert_eq!(&read.input_type, input_type);
                assert_eq!(&read.output_type, output_type);
            }
        }
    }
    let empty = encoded(no_args());
    assert_eq!(empty, vec![16, 0, 0, 0, 16, 0, 0, 0, 16, 0, 0, 0, 16, 0, 0, 0]);
    let mut longer = empty.clone();
    longer.push(0);
    assert!(WitnessArgs::from_bytes(&longer).is_none());
    assert!(WitnessArgs::from_bytes(&empty[..12]).is_none());
    assert!(WitnessArgs::from_bytes(&[]).is_none());
}

#[test]
fn signature_replaces_only_the_lock() {
    let witness = encoded(WitnessArgs {
        lock: Some(vec![1]),
        input_type: None,
        output_type: Some(vec![4, 5]),
    });
    let signed = WitnessArgs::from_bytes(&sign_witness(&witness, vec![7; 65])).unwrap();
    assert_eq!(signed.lock, Some(vec![7; 65]));
    assert_eq!(signed.input_type, None);
    assert_eq!(signed.output_type, Some(vec![4, 5]));
    let fresh = WitnessArgs::from_bytes(&sign_witness(b"garbage", vec![7])).unwrap();
    assert_eq!(fresh.lock, Some(vec![7]));
    assert_eq!((fresh.input_type, fresh.output_type), (None, None));
    assert_eq!(with_lock(None, vec![2]).lock, Some(vec![2]));
}

#[test]
fn signature_lands_at_its_input() {
    let mut witnesses = vec![vec![1]];
    pad_witnesses(&mut witnesses, 2);
    assert_eq!(witnesses, vec![vec![1], vec![], vec![]]);
    pad_witnesses(&mut witnesses, 0);
    assert_eq!(witnesses.len(), 3);
    place_signature(&mut witnesses, 3, vec![8; 65]);
    assert_eq!(witnesses.len(), 4);
    assert_eq!(witnesses[..3], [vec![1], vec![], vec![]]);
    assert_eq!(witnesses[3], sign_witness(&[], vec![8; 65]));
}

#[test]
fn keys_sign_for_their_owner_only() {
    let key = PrivateKey::from_hex(KEY).unwrap();
    assert_eq!(key.owner(), owner());
    let signature = key.sign(&owner(), &[3u8; 32]).unwrap();
    let id = secp256k1::ecdsa::RecoveryId::try_from(signature[64] as i32).unwrap();
    let recoverable =
        secp256k1::ecdsa::RecoverableSignature::from_compact(&signature[..64], id).unwrap();
    let message = secp256k1::Message::from_digest([3u8; 32]);
    let public = secp256k1::SECP256K1
        .recover_ecdsa(&message, &recoverable)
        .unwrap();
    assert_eq!(
        ckb_sdk::util::blake160(&public.serialize()).as_bytes(),
        owner().as_slice()
    );
    assert_eq!(
        key.sign(&[0u8; 20], &[3u8; 32]).unwrap_err().message,
        "failed to sign message: the id is not found in the signer"
    );
    assert_eq!(
        key.sign(&owner(), &[3u8; 31]).unwrap_err().message,
        "failed to sign message: invalid message, reason: `expected length: 32, got: 31`"
    );
}

#[test]
fn transactions_are_read_from_their_body() {
    assert!(Transaction::new(vec![1, 2, 3], vec![]).is_none());
    let smallest = packed::RawTransaction::default().as_slice().to_vec();
    assert_eq!(smallest.len(), 52);
    assert!(Transaction::new(smallest[..51].to_vec(), vec![]).is_none());
    assert!(Transaction::new(smallest, vec![]).unwrap().inputs().is_empty());
    let view = unsigned(2, &[vec![1]]);
    let tx = library_tx(&view);
    assert_eq!(tx.inputs().len(), 2);
    assert_eq!(tx.inputs()[1].tx_hash, Hash256([1; 32]));
    assert_eq!(tx.inputs()[1].index, 1);
    assert_eq!(tx.hash().0.as_slice(), view.hash().as_slice());
    let copy = tx.clone().set_witnesses(vec![]);
    assert_eq!(copy.raw(), tx.raw());
    assert!(copy.witnesses().is_empty());
}

#[test]
fn signs_with_given_locks() {
    let tx = unsigned(2, &[vec![], vec![]]);
    let key = PrivateKey::from_hex(KEY).unwrap();
    let mine = sighash(owner());
    let locks = vec![lock(1, vec![]), mine.clone()];
    let signed = sign_inputs(&key, library_tx(&tx), &locks).unwrap();
    assert_eq!(signed.witnesses(), &sdk_witnesses(&tx, &mine, &[1]));
}
