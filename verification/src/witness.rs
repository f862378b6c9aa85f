//! Witness arguments: the part of a transaction that carries the signatures.

use ckb_types::bytes::Bytes;
use ckb_types::packed;
use ckb_types::prelude::{Builder, Entity, Pack};
use vstd::prelude::*;

verus! {

/// The three optional parts of a witness.
#[derive(Debug)]
pub struct WitnessArgs {
    /// For the lock script of the input.
    pub lock: Option<Vec<u8>>,
    /// For the type script of the input.
    pub input_type: Option<Vec<u8>>,
    /// For the type script of the output.
    pub output_type: Option<Vec<u8>>,
}

/// What witness arguments hold.
#[verifier::ext_equal]
pub struct WitnessArgsView {
    pub lock: Option<Seq<u8>>,
    pub input_type: Option<Seq<u8>>,
    pub output_type: Option<Seq<u8>>,
}

/// What an optional byte string holds.
pub open spec fn opt_bytes(b: Option<Vec<u8>>) -> Option<Seq<u8>> {
    match b {
        Some(bytes) => Some(bytes@),
        None => None,
    }
}

impl View for WitnessArgs {
    type V = WitnessArgsView;

    open spec fn view(&self) -> WitnessArgsView {
        WitnessArgsView {
            lock: opt_bytes(self.lock),
            input_type: opt_bytes(self.input_type),
            output_type: opt_bytes(self.output_type),
        }
    }
}

/// Witness arguments without any part.
pub open spec fn empty_witness_args() -> WitnessArgsView {
    WitnessArgsView { lock: None, input_type: None, output_type: None }
}

/// The four bytes of a number, lowest first. Numbers beyond four bytes lose their upper part.
#[verifier::opaque]
pub open spec fn le32(n: nat) -> Seq<u8> {
    seq![
        (n % 256) as u8,
        (n / 0x100 % 256) as u8,
        (n / 0x1_0000 % 256) as u8,
        (n / 0x100_0000 % 256) as u8,
    ]
}

/// An optional byte string: nothing at all, or the length and the bytes.
pub open spec fn opt_part(b: Option<Seq<u8>>) -> Seq<u8> {
    match b {
        Some(bytes) => le32(bytes.len()) + bytes,
        None => Seq::empty(),
    }
}

/// How many bytes witness arguments take.
pub open spec fn witness_args_size(w: WitnessArgsView) -> nat {
    16 + opt_part(w.lock).len() + opt_part(w.input_type).len() + opt_part(w.output_type).len()
}

/// Witness arguments as bytes: the size of the whole, the offset of each part, and the parts.
pub open spec fn witness_args_bytes(w: WitnessArgsView) -> Seq<u8> {
    let lock = opt_part(w.lock);
    let input_type = opt_part(w.input_type);
    le32(witness_args_size(w)) + le32(16) + le32(16 + lock.len()) + le32(
        16 + lock.len() + input_type.len(),
    ) + lock + input_type + opt_part(w.output_type)
}

/// Whether `bytes` are the encoding of `w`. An encoding has room for four bytes of size.
pub open spec fn encodes(bytes: Seq<u8>, w: WitnessArgsView) -> bool {
    witness_args_size(w) <= u32::MAX && bytes == witness_args_bytes(w)
}

/// The witness arguments that `bytes` encode, if they encode any.
pub open spec fn parsed_witness_args(bytes: Seq<u8>) -> Option<WitnessArgsView> {
    if exists|w: WitnessArgsView| encodes(bytes, w) {
        Some(choose|w: WitnessArgsView| encodes(bytes, w))
    } else {
        None
    }
}

/// `WitnessArgs::from_slice` of `ckb_types::packed`: reads bytes that are, to the last one, the
/// encoding of some witness arguments, and refuses all others.
#[verifier::external_body]
fn parse(bytes: &[u8]) -> (r: Option<WitnessArgs>)
    ensures
        r matches Some(w) ==> encodes(bytes@, w@),
        r is None ==> forall|w: WitnessArgsView| !#[trigger] encodes(bytes@, w),
{
    packed::WitnessArgs::from_slice(bytes).ok().map(
        |args|
            WitnessArgs {
                lock: args.lock().to_opt().map(|b| b.raw_data().to_vec()),
                input_type: args.input_type().to_opt().map(|b| b.raw_data().to_vec()),
                output_type: args.output_type().to_opt().map(|b| b.raw_data().to_vec()),
            },
    )
}

/// `WitnessArgsBuilder::build` of `ckb_types::packed`: the encoding of the given parts.
#[verifier::external_body]
fn build(args: WitnessArgs) -> (r: Vec<u8>)
    ensures
        r@ == witness_args_bytes(args@),
{
    let built = packed::WitnessArgs::new_builder().lock(args.lock.map(Bytes::from).pack()).input_type(
        args.input_type.map(Bytes::from).pack(),
    ).output_type(args.output_type.map(Bytes::from).pack()).build();
    built.as_slice().to_vec()
}

proof fn lemma_le32_len(n: nat)
    ensures
        le32(n).len() == 4,
{
    reveal(le32);
}

proof fn lemma_le32_injective(a: nat, b: nat)
    requires
        le32(a) == le32(b),
        a <= u32::MAX,
        b <= u32::MAX,
    ensures
        a == b,
{
    reveal(le32);
    assert(le32(a)[0] == le32(b)[0]);
    assert(le32(a)[1] == le32(b)[1]);
    assert(le32(a)[2] == le32(b)[2]);
    assert(le32(a)[3] == le32(b)[3]);
}

proof fn lemma_opt_part_injective(a: Option<Seq<u8>>, b: Option<Seq<u8>>)
    requires
        opt_part(a) == opt_part(b),
    ensures
        a == b,
{
    if let Some(bytes) = a {
        lemma_le32_len(bytes.len());
        assert(opt_part(a).len() == 4 + bytes.len());
        assert(bytes =~= opt_part(a).skip(4));
    }
    if let Some(bytes) = b {
        lemma_le32_len(bytes.len());
        assert(opt_part(b).len() == 4 + bytes.len());
        assert(bytes =~= opt_part(b).skip(4));
    }
}

/// How many bytes an optional part takes.
pub proof fn lemma_opt_part_len(b: Option<Seq<u8>>)
    ensures
        opt_part(b).len() == (match b {
            Some(bytes) => 4 + bytes.len(),
            None => 0,
        }),
{
    if let Some(bytes) = b {
        lemma_le32_len(bytes.len());
    }
}

/// The encoding is as long as its size says.
pub proof fn lemma_encoding_len(w: WitnessArgsView)
    ensures
        witness_args_bytes(w).len() == witness_args_size(w),
{
    lemma_layout(w);
}

/// Where the offsets and the parts stand in the encoding.
proof fn lemma_layout(w: WitnessArgsView)
    ensures
        ({
            let bytes = witness_args_bytes(w);
            let p1 = opt_part(w.lock);
            let p2 = opt_part(w.input_type);
            let a = (16 + p1.len()) as nat;
            let b = (a + p2.len()) as nat;
            &&& bytes.len() == witness_args_size(w)
            &&& bytes.subrange(8, 12) == le32(a)
            &&& bytes.subrange(12, 16) == le32(b)
            &&& bytes.subrange(16, a as int) == p1
            &&& bytes.subrange(a as int, b as int) == p2
            &&& bytes.skip(b as int) == opt_part(w.output_type)
        }),
{
    let bytes = witness_args_bytes(w);
    let p1 = opt_part(w.lock);
    let p2 = opt_part(w.input_type);
    let a = (16 + p1.len()) as nat;
    let b = (a + p2.len()) as nat;
    lemma_le32_len(witness_args_size(w));
    lemma_le32_len(16);
    lemma_le32_len(a);
    lemma_le32_len(b);
    assert(bytes.subrange(8, 12) =~= le32(a));
    assert(bytes.subrange(12, 16) =~= le32(b));
    assert(bytes.subrange(16, a as int) =~= p1);
    assert(bytes.subrange(a as int, b as int) =~= p2);
    assert(bytes.skip(b as int) =~= opt_part(w.output_type));
}

/// Bytes encode at most one value of witness arguments.
pub proof fn law_encoding_unique(bytes: Seq<u8>, v: WitnessArgsView, w: WitnessArgsView)
    requires
        encodes(bytes, v),
        encodes(bytes, w),
    ensures
        v == w,
{
    let (v1, v2) = (opt_part(v.lock), opt_part(v.input_type));
    let (w1, w2) = (opt_part(w.lock), opt_part(w.input_type));
    lemma_layout(v);
    lemma_layout(w);
    lemma_le32_injective(16 + v1.len(), 16 + w1.len());
    lemma_le32_injective(16 + v1.len() + v2.len(), 16 + w1.len() + w2.len());
    lemma_opt_part_injective(v.lock, w.lock);
    lemma_opt_part_injective(v.input_type, w.input_type);
    lemma_opt_part_injective(v.output_type, w.output_type);
}

/// Reading the encoding of witness arguments gives them back, as long as their size can be
/// written down in four bytes.
pub proof fn law_witness_round_trip(w: WitnessArgsView)
    requires
        witness_args_size(w) <= u32::MAX,
    ensures
        parsed_witness_args(witness_args_bytes(w)) == Some(w),
{
    let bytes = witness_args_bytes(w);
    assert(encodes(bytes, w));
    let v = choose|v: WitnessArgsView| encodes(bytes, v);
    law_encoding_unique(bytes, v, w);
}

impl WitnessArgs {
    /// Reads witness arguments, if `bytes` hold nothing but their encoding.
    pub fn from_bytes(bytes: &[u8]) -> (r: Option<WitnessArgs>)
        ensures
            r is Some <==> parsed_witness_args(bytes@) is Some,
            r matches Some(w) ==> parsed_witness_args(bytes@) == Some(w@),
    {
        let r = parse(bytes);
        proof {
            if r is Some {
                let v = choose|v: WitnessArgsView| encodes(bytes@, v);
                law_encoding_unique(bytes@, v, r->0@);
            }
        }
        r
    }

    /// The encoding of the witness arguments.
    pub fn into_bytes(self) -> (r: Vec<u8>)
        ensures
            r@ == witness_args_bytes(self@),
    {
        build(self)
    }
}

/// The witness arguments in which the lock part of `parsed` (or of empty ones) is `signature`.
pub open spec fn signed_args(parsed: Option<WitnessArgsView>, signature: Seq<u8>) -> WitnessArgsView {
    let base = match parsed {
        Some(w) => w,
        None => empty_witness_args(),
    };
    WitnessArgsView { lock: Some(signature), ..base }
}

/// Puts a signature into the lock part of witness arguments that were read from a witness, or of
/// empty ones where nothing could be read.
pub fn with_lock(parsed: Option<WitnessArgs>, signature: Vec<u8>) -> (r: WitnessArgs)
    ensures
        r@ == signed_args(
            match parsed {
                Some(w) => Some(w@),
                None => None,
            },
            signature@,
        ),
{
    match parsed {
        Some(w) => WitnessArgs {
            lock: Some(signature),
            input_type: w.input_type,
            output_type: w.output_type,
        },
        None => WitnessArgs { lock: Some(signature), input_type: None, output_type: None },
    }
}

/// The witness that carries `signature` in place of the lock part of `witness`.
pub open spec fn signed_witness(witness: Seq<u8>, signature: Seq<u8>) -> Seq<u8> {
    witness_args_bytes(signed_args(parsed_witness_args(witness), signature))
}

/// Puts a signature into the lock part of a witness. A witness that cannot be read counts as
/// empty.
pub fn sign_witness(witness: &[u8], signature: Vec<u8>) -> (r: Vec<u8>)
    ensures
        r@ == signed_witness(witness@, signature@),
{
    let parsed = WitnessArgs::from_bytes(witness);
    with_lock(parsed, signature).into_bytes()
}

/// Writing witness arguments down and reading them again gives all three parts back.
pub proof fn law_witness_reads_back(
    args: WitnessArgs,
    written: Vec<u8>,
    bytes: &[u8],
    back: Option<WitnessArgs>,
)
    requires
        call_ensures(WitnessArgs::into_bytes, (args,), written),
        written@.len() <= u32::MAX,
        bytes@ == written@,
        call_ensures(WitnessArgs::from_bytes, (bytes,), back),
    ensures
        back is Some,
        opt_bytes(back->0.lock) == opt_bytes(args.lock),
        opt_bytes(back->0.input_type) == opt_bytes(args.input_type),
        opt_bytes(back->0.output_type) == opt_bytes(args.output_type),
{
    lemma_encoding_len(args@);
    law_witness_round_trip(args@);
    assert(back->0@ == args@);
}

/// A signature becomes the lock part. The other parts are those of the given arguments, and there
/// are none where nothing was given.
pub proof fn law_lock_replaced(
    parsed: Option<WitnessArgs>,
    signature: Vec<u8>,
    r: WitnessArgs,
)
    requires
        call_ensures(with_lock, (parsed, signature), r),
    ensures
        r.lock is Some && r.lock->0@ == signature@,
        parsed is Some ==> opt_bytes(r.input_type) == opt_bytes(parsed->0.input_type)
            && opt_bytes(r.output_type) == opt_bytes(parsed->0.output_type),
        parsed is None ==> r.input_type is None && r.output_type is None,
{
    let expected = match parsed {
        Some(w) => Some(w@),
        None => None,
    };
    assert(r@ == signed_args(expected, signature@));
    assert(r@.lock == opt_bytes(r.lock));
    assert(r@.input_type == opt_bytes(r.input_type));
    assert(r@.output_type == opt_bytes(r.output_type));
}

/// A signed witness reads back with the signature as its lock part and with the other parts of the
/// witness that was signed, or none where that one could not be read.
pub proof fn law_signed_witness_reads_back(
    witness: &[u8],
    signature: Vec<u8>,
    before: Option<WitnessArgs>,
    signed: Vec<u8>,
    bytes: &[u8],
    after: Option<WitnessArgs>,
)
    requires
        call_ensures(WitnessArgs::from_bytes, (witness,), before),
        call_ensures(sign_witness, (witness, signature), signed),
        signed@.len() <= u32::MAX,
        bytes@ == signed@,
        call_ensures(WitnessArgs::from_bytes, (bytes,), after),
    ensures
        after is Some,
        after->0.lock is Some && after->0.lock->0@ == signature@,
        before is Some ==> opt_bytes(after->0.input_type) == opt_bytes(before->0.input_type)
            && opt_bytes(after->0.output_type) == opt_bytes(before->0.output_type),
        before is None ==> after->0.input_type is None && after->0.output_type is None,
{
    let args = signed_args(parsed_witness_args(witness@), signature@);
    lemma_encoding_len(args);
    law_witness_round_trip(args);
    assert(after->0@ == args);
    assert(after->0@.lock == opt_bytes(after->0.lock));
    assert(after->0@.input_type == opt_bytes(after->0.input_type));
    assert(after->0@.output_type == opt_bytes(after->0.output_type));
}

} // verus!
