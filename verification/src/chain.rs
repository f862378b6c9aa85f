//! Values of the CKB chain: hashes, references to outputs, and scripts.

use vstd::prelude::*;

verus! {

/// A 32-byte hash or identifier.
#[derive(Clone, Copy, Debug, PartialEq, Eq)]
pub struct Hash256(pub [u8; 32]);

impl Hash256 {
    /// Whether two hashes are the same.
    pub fn same(&self, other: &Hash256) -> (r: bool)
        ensures
            r == (*self == *other),
    {
        let mut i: usize = 0;
        while i < 32
            invariant
                i <= 32,
                forall|j: int| 0 <= j < i ==> self.0[j] == other.0[j],
            decreases 32 - i,
        {
            if self.0[i] != other.0[i] {
                return false;
            }
            i += 1;
        }
        assert(self.0 =~= other.0);
        true
    }
}

/// A reference to an output of an earlier transaction.
#[derive(Clone, Copy, Debug)]
pub struct OutPoint {
    /// The hash of the transaction.
    pub tx_hash: Hash256,
    /// The position of the output in it.
    pub index: u32,
}

impl View for OutPoint {
    type V = (Seq<u8>, u32);

    open spec fn view(&self) -> (Seq<u8>, u32) {
        (self.tx_hash.0@, self.index)
    }
}

/// A script of a cell.
#[derive(Debug)]
pub struct Script {
    /// The hash by which the code is found.
    pub code_hash: Hash256,
    /// How `code_hash` is to be read.
    pub hash_type: u8,
    /// The arguments of the script.
    pub args: Vec<u8>,
}

/// What a script holds.
#[verifier::ext_equal]
pub struct ScriptView {
    pub code_hash: Hash256,
    pub hash_type: u8,
    pub args: Seq<u8>,
}

impl View for Script {
    type V = ScriptView;

    open spec fn view(&self) -> ScriptView {
        ScriptView { code_hash: self.code_hash, hash_type: self.hash_type, args: self.args@ }
    }
}

impl Script {
    /// Whether two scripts are the same.
    pub fn same(&self, other: &Script) -> (r: bool)
        ensures
            r == (self@ == other@),
    {
        self.code_hash.same(&other.code_hash) && self.hash_type == other.hash_type && bytes_equal(
            &self.args,
            &other.args,
        )
    }
}

impl Clone for Script {
    fn clone(&self) -> (r: Script)
        ensures
            r@ == self@,
    {
        Script {
            code_hash: self.code_hash,
            hash_type: self.hash_type,
            args: bytes_copy(&self.args),
        }
    }
}

/// The code hash of the lock script for a signature under a secp256k1 key.
pub open spec fn secp256k1_lock_code_hash() -> Seq<u8> {
    seq![
        0x9b, 0xd7, 0xe0, 0x6f, 0x3e, 0xcf, 0x4b, 0xe0, 0xf2, 0xfc, 0xd2, 0x18, 0x8b, 0x23, 0xf1,
        0xb9, 0xfc, 0xc8, 0x8e, 0x5d, 0x4b, 0x65, 0xa8, 0x63, 0x7b, 0x17, 0x72, 0x3b, 0xbd, 0xa3,
        0xcc, 0xe8,
    ]
}

/// The code hash of the lock script for a signature under a secp256k1 key.
pub fn sighash_lock_code() -> (r: Hash256)
    ensures
        r.0@ == secp256k1_lock_code_hash(),
{
    let code_hash: [u8; 32] = [
        0x9b, 0xd7, 0xe0, 0x6f, 0x3e, 0xcf, 0x4b, 0xe0, 0xf2, 0xfc, 0xd2, 0x18, 0x8b, 0x23, 0xf1,
        0xb9, 0xfc, 0xc8, 0x8e, 0x5d, 0x4b, 0x65, 0xa8, 0x63, 0x7b, 0x17, 0x72, 0x3b, 0xbd, 0xa3,
        0xcc, 0xe8,
    ];
    assert(code_hash@ =~= secp256k1_lock_code_hash());
    Hash256(code_hash)
}

/// Whether two byte strings are the same.
pub fn bytes_equal(a: &Vec<u8>, b: &Vec<u8>) -> (r: bool)
    ensures
        r == (a@ == b@),
{
    let r = a == b;
    assert(r == (a@ =~= b@));
    r
}

/// A second copy of a byte string.
pub fn bytes_copy(a: &Vec<u8>) -> (r: Vec<u8>)
    ensures
        r@ == a@,
{
    let r = a.clone();
    assert(r@ =~= a@);
    r
}

/// What a list of byte strings holds.
pub open spec fn byte_strings(v: Seq<Vec<u8>>) -> Seq<Seq<u8>> {
    v.map_values(|b: Vec<u8>| b@)
}

/// A second copy of a list of byte strings.
pub fn byte_strings_copy(a: &Vec<Vec<u8>>) -> (r: Vec<Vec<u8>>)
    ensures
        byte_strings(r@) == byte_strings(a@),
{
    let mut r: Vec<Vec<u8>> = Vec::new();
    let mut i: usize = 0;
    while i < a.len()
        invariant
            i <= a.len(),
            byte_strings(r@) =~= byte_strings(a@).take(i as int),
        decreases a.len() - i,
    {
        let copy = bytes_copy(&a[i]);
        assert(byte_strings(r@.push(copy)) =~= byte_strings(r@).push(copy@));
        r.push(copy);
        i += 1;
    }
    r
}

/// Two scripts are the same exactly where their code hashes, hash types and arguments are.
pub proof fn law_same_scripts(a: Script, b: Script, r: bool)
    requires
        call_ensures(Script::same, (&a, &b), r),
    ensures
        r <==> a.code_hash.0@ == b.code_hash.0@ && a.hash_type == b.hash_type && a.args@ == b.args@,
{
    if a.code_hash.0@ == b.code_hash.0@ {
        assert(a.code_hash.0 =~= b.code_hash.0);
    }
}

/// A copy of a script has its code hash, hash type and arguments.
pub proof fn law_script_copied(a: Script, b: Script)
    requires
        call_ensures(Script::clone, (&a,), b),
    ensures
        b.code_hash == a.code_hash,
        b.hash_type == a.hash_type,
        b.args@ == a.args@,
{
}

/// A copy of a list of byte strings has the same strings in the same places.
pub proof fn law_byte_strings_copied(a: Vec<Vec<u8>>, b: Vec<Vec<u8>>)
    requires
        call_ensures(byte_strings_copy, (&a,), b),
    ensures
        b@.len() == a@.len(),
        forall|i: int| 0 <= i < a@.len() ==> (#[trigger] b@[i])@ == a@[i]@,
{
    assert(byte_strings(a@).len() == a@.len());
    assert(byte_strings(b@).len() == b@.len());
    assert forall|i: int| 0 <= i < a@.len() implies (#[trigger] b@[i])@ == a@[i]@ by {
        assert(byte_strings(b@)[i] == byte_strings(a@)[i]);
    }
}

} // verus!
