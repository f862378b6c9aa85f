//! Transactions of the CKB chain, as far as signing looks into them.

use crate::chain::{byte_strings_copy, bytes_copy, Hash256, OutPoint, Script};
#[allow(unused_imports)]
use crate::chain::byte_strings;
#[allow(unused_imports)]
use crate::witness::parsed_witness_args;
use ckb_sdk::types::ScriptGroup;
use ckb_types::packed;
use ckb_types::prelude::{Builder, Entity, IntoTransactionView, Pack, PackVec, Unpack};
use vstd::prelude::*;

verus! {

/// The previous output of each input of the transaction body `raw`, in order, if `raw` is the
/// encoding of a transaction body.
pub uninterp spec fn transaction_inputs(raw: Seq<u8>) -> Option<Seq<(Seq<u8>, u32)>>;

/// The hash of the transaction with the body `raw`.
pub uninterp spec fn transaction_hash(raw: Seq<u8>) -> Seq<u8>;

/// The message that signs a group of inputs of the transaction with the body `raw`, or the fault
/// that keeps it from being computed.
pub uninterp spec fn sighash_message(
    raw: Seq<u8>,
    witnesses: Seq<Seq<u8>>,
    input_indices: Seq<usize>,
    zero_lock: Seq<u8>,
) -> Result<Seq<u8>, Seq<char>>;

/// What an outcome holds: bytes, or the text of a fault.
pub open spec fn outcome(r: Result<Vec<u8>, String>) -> Result<Seq<u8>, Seq<char>> {
    match r {
        Ok(bytes) => Ok(bytes@),
        Err(fault) => Err(fault@),
    }
}

/// What a list of references to outputs holds.
pub open spec fn out_points(v: Seq<OutPoint>) -> Seq<(Seq<u8>, u32)> {
    v.map_values(|o: OutPoint| o@)
}

/// The previous outputs of the inputs of a transaction body: `RawTransaction::from_slice` of
/// `ckb_types::packed` and the inputs of what it read. Other bytes than the encoding of a
/// transaction body give nothing. The six fields of a body and their offsets take 52 bytes even
/// where the lists among them are empty.
#[verifier::external_body]
fn read_inputs(raw: &[u8]) -> (r: Option<Vec<OutPoint>>)
    ensures
        (r is Some) == (transaction_inputs(raw@) is Some),
        r matches Some(inputs) ==> transaction_inputs(raw@) == Some(out_points(inputs@)),
        r is Some ==> 52 <= raw@.len(),
{
    packed::RawTransaction::from_slice(raw).ok().map(
        |tx| tx.inputs().into_iter().map(
            |input| OutPoint {
                tx_hash: Hash256(input.previous_output().tx_hash().unpack()),
                index: input.previous_output().index().unpack(),
            },
        ).collect(),
    )
}

/// `RawTransaction::calc_tx_hash` of `ckb_types::packed`.
#[verifier::external_body]
fn calc_hash(raw: &[u8]) -> (r: Hash256)
    requires
        transaction_inputs(raw@) is Some,
    ensures
        r.0@ == transaction_hash(raw@),
{
    let body = packed::RawTransaction::from_slice(raw).expect("a transaction body");
    Hash256(body.calc_tx_hash().unpack())
}

/// `generate_message` of `ckb_sdk::unlock`, with its error as text. It needs a witness at the
/// first input of the group, and that witness must be empty or witness arguments. The message
/// has 32 bytes.
#[verifier::external_body]
fn generate_message(
    raw: &[u8],
    witnesses: &Vec<Vec<u8>>,
    lock: &Script,
    input_indices: &Vec<usize>,
    zero_lock: Vec<u8>,
) -> (r: Result<Vec<u8>, String>)
    requires
        transaction_inputs(raw@) is Some,
        input_indices@.len() > 0,
        transaction_size(raw@, byte_strings(witnesses@)) <= u32::MAX,
    ensures
        (r is Ok) == can_sign(byte_strings(witnesses@), input_indices@[0] as int),
        outcome(r) == sighash_message(
            raw@,
            byte_strings(witnesses@),
            input_indices@,
            zero_lock@,
        ),
        r matches Ok(message) ==> message@.len() == 32,
{
    let witnesses: Vec<packed::Bytes> = witnesses.iter().map(|w| w.as_slice().pack()).collect();
    let tx = packed::Transaction::new_builder().raw(
        packed::RawTransaction::from_slice(raw).expect("a transaction body"),
    ).witnesses(witnesses.pack()).build();
    let script = packed::Script::new_builder().code_hash(lock.code_hash.0.pack()).hash_type(
        lock.hash_type,
    ).args(lock.args.as_slice().pack()).build();
    let mut group = ScriptGroup::from_lock_script(&script);
    group.input_indices = input_indices.clone();
    ckb_sdk::unlock::generate_message(&tx.into_view(), &group, zero_lock.into()).map(
        |m| m.to_vec(),
    ).map_err(|e| e.to_string())
}

/// Whether the message for a group whose first input is `first` can be computed.
pub open spec fn can_sign(witnesses: Seq<Seq<u8>>, first: int) -> bool {
    &&& first < witnesses.len()
    &&& witnesses[first].len() == 0 || parsed_witness_args(witnesses[first]) is Some
}

/// How many bytes a list of byte strings takes in an encoded transaction.
pub open spec fn byte_strings_size(v: Seq<Seq<u8>>) -> nat
    decreases v.len(),
{
    if v.len() == 0 {
        4
    } else {
        byte_strings_size(v.drop_last()) + 8 + v.last().len()
    }
}

/// A byte string of a list takes no more than the list.
pub proof fn lemma_byte_string_fits(v: Seq<Seq<u8>>, i: int)
    requires
        0 <= i < v.len(),
    ensures
        v[i].len() + 12 <= byte_strings_size(v),
    decreases v.len(),
{
    if i < v.len() - 1 {
        lemma_byte_string_fits(v.drop_last(), i);
    } else {
        lemma_list_frame(v.drop_last());
    }
}

/// Even an empty list takes the bytes of its frame.
proof fn lemma_list_frame(v: Seq<Seq<u8>>)
    ensures
        4 <= byte_strings_size(v),
    decreases v.len(),
{
    if v.len() > 0 {
        lemma_list_frame(v.drop_last());
    }
}

/// How many bytes an encoded transaction takes. Its encoding keeps sizes in four bytes.
pub open spec fn transaction_size(raw: Seq<u8>, witnesses: Seq<Seq<u8>>) -> nat {
    12 + raw.len() + byte_strings_size(witnesses)
}

/// A transaction: its body, encoded, and its witnesses.
#[derive(Debug)]
pub struct Transaction {
    raw: Vec<u8>,
    inputs: Vec<OutPoint>,
    witnesses: Vec<Vec<u8>>,
}

/// What a transaction holds.
#[verifier::ext_equal]
pub struct TransactionView {
    pub raw: Seq<u8>,
    pub witnesses: Seq<Seq<u8>>,
}

impl View for Transaction {
    type V = TransactionView;

    closed spec fn view(&self) -> TransactionView {
        TransactionView { raw: self.raw@, witnesses: byte_strings(self.witnesses@) }
    }
}

impl Clone for Transaction {
    fn clone(&self) -> (r: Transaction)
        ensures
            r@ == self@,
    {
        proof {
            use_type_invariant(self);
        }
        let raw = bytes_copy(&self.raw);
        let inputs = self.inputs.clone();
        assert(inputs@ =~= self.inputs@);
        Transaction { raw, inputs, witnesses: byte_strings_copy(&self.witnesses) }
    }
}

impl Transaction {
    #[verifier::type_invariant]
    spec fn inv(self) -> bool {
        &&& transaction_inputs(self.raw@) == Some(out_points(self.inputs@))
        &&& 52 <= self.raw@.len()
    }

    /// The transaction with the body `raw`, if that is the encoding of a transaction body.
    pub fn new(raw: Vec<u8>, witnesses: Vec<Vec<u8>>) -> (r: Option<Transaction>)
        ensures
            r is Some <==> transaction_inputs(raw@) is Some,
            r matches Some(tx) ==> tx@.raw == raw@ && tx@.witnesses == byte_strings(witnesses@),
    {
        match read_inputs(raw.as_slice()) {
            Some(inputs) => Some(Transaction { raw, inputs, witnesses }),
            None => None,
        }
    }

    /// The encoded body.
    pub fn raw(&self) -> (r: &Vec<u8>)
        ensures
            r@ == self@.raw,
    {
        &self.raw
    }

    /// The previous output of each input.
    pub fn inputs(&self) -> (r: &Vec<OutPoint>)
        ensures
            transaction_inputs(self@.raw) == Some(out_points(r@)),
    {
        proof {
            use_type_invariant(self);
        }
        &self.inputs
    }

    /// The witnesses.
    pub fn witnesses(&self) -> (r: &Vec<Vec<u8>>)
        ensures
            byte_strings(r@) == self@.witnesses,
    {
        &self.witnesses
    }

    /// The hash of the transaction.
    pub fn hash(&self) -> (r: Hash256)
        ensures
            r.0@ == transaction_hash(self@.raw),
    {
        proof {
            use_type_invariant(self);
        }
        calc_hash(self.raw.as_slice())
    }

    /// The same transaction with other witnesses.
    pub fn set_witnesses(self, witnesses: Vec<Vec<u8>>) -> (r: Transaction)
        ensures
            r@.raw == self@.raw,
            r@.witnesses == byte_strings(witnesses@),
    {
        proof {
            use_type_invariant(&self);
        }
        Transaction { raw: self.raw, inputs: self.inputs, witnesses }
    }

    /// The message that signs the inputs at `input_indices`, which share the lock script `lock`.
    /// The body that it is computed from has at least 52 bytes.
    pub fn message(&self, lock: &Script, input_indices: &Vec<usize>, zero_lock: Vec<u8>) -> (r: Result<
        Vec<u8>,
        String,
    >)
        requires
            input_indices@.len() > 0,
            transaction_size(self@.raw, self@.witnesses) <= u32::MAX,
        ensures
            r is Ok <==> can_sign(self@.witnesses, input_indices@[0] as int),
            outcome(r) == sighash_message(
                self@.raw,
                self@.witnesses,
                input_indices@,
                zero_lock@,
            ),
            r matches Ok(message) ==> message@.len() == 32,
            52 <= self@.raw.len(),
    {
        proof {
            use_type_invariant(self);
        }
        generate_message(self.raw.as_slice(), &self.witnesses, lock, input_indices, zero_lock)
    }
}

/// A transaction gives back the body and the witnesses that it was made of, and so does a copy.
pub proof fn law_transaction_keeps_parts(
    raw: Vec<u8>,
    witnesses: Vec<Vec<u8>>,
    made: Option<Transaction>,
    copy: Transaction,
    raw_back: &Vec<u8>,
    witnesses_back: &Vec<Vec<u8>>,
)
    requires
        call_ensures(Transaction::new, (raw, witnesses), made),
        made is Some,
        copy == made->0 || call_ensures(Transaction::clone, (&made->0,), copy),
        call_ensures(Transaction::raw, (&copy,), raw_back),
        call_ensures(Transaction::witnesses, (&copy,), witnesses_back),
    ensures
        raw_back@ == raw@,
        witnesses_back@.len() == witnesses@.len(),
        forall|i: int| 0 <= i < witnesses@.len() ==> (#[trigger] witnesses_back@[i])@
            == witnesses@[i]@,
{
    assert(byte_strings(witnesses_back@).len() == witnesses_back@.len());
    assert(byte_strings(witnesses@).len() == witnesses@.len());
    assert forall|i: int| 0 <= i < witnesses@.len() implies (#[trigger] witnesses_back@[i])@
        == witnesses@[i]@ by {
        assert(byte_strings(witnesses_back@)[i] == byte_strings(witnesses@)[i]);
    }
}

/// Other witnesses replace the earlier ones in their order and leave the body alone, and with it
/// the hash and the inputs.
pub proof fn law_witnesses_replaced(
    tx: Transaction,
    witnesses: Vec<Vec<u8>>,
    changed: Transaction,
    raw_before: &Vec<u8>,
    raw_after: &Vec<u8>,
    witnesses_after: &Vec<Vec<u8>>,
    hash_before: Hash256,
    hash_after: Hash256,
)
    requires
        call_ensures(Transaction::set_witnesses, (tx, witnesses), changed),
        call_ensures(Transaction::raw, (&tx,), raw_before),
        call_ensures(Transaction::raw, (&changed,), raw_after),
        call_ensures(Transaction::witnesses, (&changed,), witnesses_after),
        call_ensures(Transaction::hash, (&tx,), hash_before),
        call_ensures(Transaction::hash, (&changed,), hash_after),
    ensures
        raw_after@ == raw_before@,
        hash_after.0@ == hash_before.0@,
        hash_after.0@ == transaction_hash(raw_before@),
        witnesses_after@.len() == witnesses@.len(),
        forall|i: int| 0 <= i < witnesses@.len() ==> (#[trigger] witnesses_after@[i])@
            == witnesses@[i]@,
{
    assert(byte_strings(witnesses_after@).len() == witnesses_after@.len());
    assert(byte_strings(witnesses@).len() == witnesses@.len());
    assert forall|i: int| 0 <= i < witnesses@.len() implies (#[trigger] witnesses_after@[i])@
        == witnesses@[i]@ by {
        assert(byte_strings(witnesses_after@)[i] == byte_strings(witnesses@)[i]);
    }
}

/// The inputs of a transaction are those of its body, in their order.
pub proof fn law_inputs_in_order(tx: Transaction, raw: &Vec<u8>, inputs: &Vec<OutPoint>, i: int)
    requires
        call_ensures(Transaction::raw, (&tx,), raw),
        call_ensures(Transaction::inputs, (&tx,), inputs),
        0 <= i < inputs@.len(),
    ensures
        transaction_inputs(raw@) is Some,
        transaction_inputs(raw@)->0.len() == inputs@.len(),
        transaction_inputs(raw@)->0[i] == (inputs@[i].tx_hash.0@, inputs@[i].index),
{
}

} // verus!
