//! Signing the inputs of a funding transaction that belong to one private key.

use crate::chain::{
    byte_strings_copy, bytes_equal, sighash_lock_code, Hash256, OutPoint, Script,
};
use crate::error::{rpc_error, RpcError};
use crate::keys::PrivateKey;
use crate::text::{decimal_text, joined};
use crate::transaction::Transaction;
use crate::types::SignExternalFundingTxResult;
use crate::witness::sign_witness;
#[allow(unused_imports)]
use crate::chain::{byte_strings, secp256k1_lock_code_hash, ScriptView};
#[allow(unused_imports)]
use crate::hexadecimal::hex_text;
#[allow(unused_imports)]
use crate::keys::{blake160_of, owner_of, public_key_of, recoverable_signature};
#[allow(unused_imports)]
use crate::text::decimal;
#[allow(unused_imports)]
use crate::transaction::{
    can_sign, lemma_byte_string_fits, out_points, sighash_message, transaction_inputs,
    transaction_size, TransactionView,
};
#[allow(unused_imports)]
use crate::witness::{
    encodes, law_witness_round_trip, lemma_encoding_len, lemma_opt_part_len, parsed_witness_args,
    signed_args, signed_witness, witness_args_size, WitnessArgsView,
};
use vstd::prelude::*;

verus! {

/// Inputs of a transaction that share a lock script and are signed together.
#[derive(Debug)]
pub struct SigningGroup {
    /// The lock script.
    pub lock: Script,
    /// The positions of the inputs, in ascending order.
    pub input_indices: Vec<usize>,
}

/// What a group holds.
#[verifier::ext_equal]
pub struct SigningGroupView {
    pub lock: ScriptView,
    pub input_indices: Seq<usize>,
}

impl View for SigningGroup {
    type V = SigningGroupView;

    open spec fn view(&self) -> SigningGroupView {
        SigningGroupView { lock: self.lock@, input_indices: self.input_indices@ }
    }
}

/// What a list of scripts holds.
pub open spec fn scripts(v: Seq<Script>) -> Seq<ScriptView> {
    v.map_values(|s: Script| s@)
}

/// What a list of groups holds.
pub open spec fn groups_view(v: Seq<SigningGroup>) -> Seq<SigningGroupView> {
    v.map_values(|g: SigningGroup| g@)
}

/// Whether the group at `k` is that of the lock script `lock`.
pub open spec fn is_group_of(groups: Seq<SigningGroupView>, lock: ScriptView, k: int) -> bool {
    0 <= k < groups.len() && groups[k].lock == lock
}

/// Puts an input into the group of its lock script, which starts with it if there is none yet.
pub open spec fn add_input(
    groups: Seq<SigningGroupView>,
    lock: ScriptView,
    input: usize,
) -> Seq<SigningGroupView> {
    if exists|k: int| is_group_of(groups, lock, k) {
        let k = choose|k: int| is_group_of(groups, lock, k);
        groups.update(
            k,
            SigningGroupView { lock, input_indices: groups[k].input_indices.push(input) },
        )
    } else {
        groups.push(SigningGroupView { lock, input_indices: seq![input] })
    }
}

/// Whether a lock script is the secp256k1 sighash lock of the owner: its code, found by type, with
/// the owner as its arguments.
pub open spec fn is_owned_sighash_lock(lock: ScriptView, owner: Seq<u8>) -> bool {
    lock.code_hash.0@ == secp256k1_lock_code_hash() && lock.hash_type == 1 && lock.args == owner
}

/// The inputs whose lock script is a sighash lock of the owner, grouped by lock script. `locks`
/// are the lock scripts of the inputs, in order.
pub open spec fn signing_groups(locks: Seq<ScriptView>, owner: Seq<u8>) -> Seq<SigningGroupView>
    decreases locks.len(),
{
    if locks.len() == 0 {
        Seq::empty()
    } else {
        let before = signing_groups(locks.drop_last(), owner);
        if is_owned_sighash_lock(locks.last(), owner) {
            add_input(before, locks.last(), (locks.len() - 1) as usize)
        } else {
            before
        }
    }
}

/// Whether all groups have lock scripts of their own.
pub open spec fn distinct_locks(groups: Seq<SigningGroupView>) -> bool {
    forall|a: int, b: int|
        0 <= a < b < groups.len() ==> (#[trigger] groups[a]).lock != (#[trigger] groups[b]).lock
}

/// Whether a group holds inputs of the owner, all with the lock script of the group, in ascending
/// order.
pub open spec fn sound_group(
    g: SigningGroupView,
    locks: Seq<ScriptView>,
    owner: Seq<u8>,
) -> bool {
    &&& g.input_indices.len() > 0
    &&& is_owned_sighash_lock(g.lock, owner)
    &&& forall|j: int|
        0 <= j < g.input_indices.len() ==> (#[trigger] g.input_indices[j]) < locks.len()
            && locks[g.input_indices[j] as int] == g.lock
    &&& forall|i: int, j: int|
        0 <= i < j < g.input_indices.len() ==> (#[trigger] g.input_indices[i]) < (
        #[trigger] g.input_indices[j])
}

/// Whether the input at `i` is in some group.
pub open spec fn covered(groups: Seq<SigningGroupView>, i: int) -> bool {
    exists|k: int, j: int|
        0 <= k < groups.len() && 0 <= j < groups[k].input_indices.len() && (
        #[trigger] groups[k].input_indices[j]) == i
}

/// The inputs of the owner, and no others, are spread over groups of one lock script each: every
/// group holds inputs of its lock script in ascending order, no two groups share a lock script,
/// every input of the owner is in a group, and the groups stand in the order of their first
/// inputs.
pub proof fn law_groups_partition(locks: Seq<ScriptView>, owner: Seq<u8>)
    requires
        locks.len() <= usize::MAX,
    ensures
        ({
            let groups = signing_groups(locks, owner);
            &&& forall|k: int|
                0 <= k < groups.len() ==> sound_group(#[trigger] groups[k], locks, owner)
            &&& distinct_locks(groups)
            &&& forall|i: int|
                0 <= i < locks.len() && is_owned_sighash_lock(#[trigger] locks[i], owner) ==> covered(
                    groups,
                    i,
                )
            &&& forall|a: int, b: int|
                0 <= a < b < groups.len() ==> (#[trigger] groups[a]).input_indices[0] < (
                #[trigger] groups[b]).input_indices[0]
        }),
    decreases locks.len(),
{
    if locks.len() > 0 {
        let n = (locks.len() - 1) as usize;
        let front = locks.drop_last();
        let lock = locks.last();
        let before = signing_groups(front, owner);
        let groups = signing_groups(locks, owner);
        law_groups_partition(front, owner);
        assert forall|k: int| 0 <= k < before.len() implies sound_group(
            #[trigger] before[k],
            locks,
            owner,
        ) by {
            let g = before[k];
            assert(sound_group(g, front, owner));
            assert forall|j: int| 0 <= j < g.input_indices.len() implies (
            #[trigger] g.input_indices[j]) < locks.len() && locks[g.input_indices[j] as int]
                == g.lock by {}
        }
        if is_owned_sighash_lock(lock, owner) {
            if exists|k: int| is_group_of(before, lock, k) {
                let k = choose|k: int| is_group_of(before, lock, k);
                let old_g = before[k];
                let new_g = groups[k];
                assert(sound_group(old_g, front, owner));
                assert(new_g.input_indices == old_g.input_indices.push(n));
                assert(sound_group(new_g, locks, owner));
                assert forall|i: int| 0 <= i < locks.len() && is_owned_sighash_lock(
                    #[trigger] locks[i],
                    owner,
                ) implies covered(groups, i) by {
                    if i == n {
                        assert(groups[k].input_indices[old_g.input_indices.len() as int] == i);
                    } else {
                        assert(front[i] == locks[i]);
                        let (a, b) = choose|a: int, b: int|
                            0 <= a < before.len() && 0 <= b < before[a].input_indices.len() && (
                            #[trigger] before[a].input_indices[b]) == i;
                        assert(groups[a].input_indices[b] == i);
                    }
                }
            } else {
                assert(groups == before.push(SigningGroupView { lock, input_indices: seq![n] }));
                assert(sound_group(groups[before.len() as int], locks, owner));
                assert forall|a: int, b: int| 0 <= a < b < groups.len() implies (
                #[trigger] groups[a]).lock != (#[trigger] groups[b]).lock by {
                    if b == before.len() {
                        assert(!is_group_of(before, lock, a));
                    }
                }
                assert forall|i: int| 0 <= i < locks.len() && is_owned_sighash_lock(
                    #[trigger] locks[i],
                    owner,
                ) implies covered(groups, i) by {
                    if i == n {
                        assert(groups[before.len() as int].input_indices[0] == i);
                    } else {
                        assert(front[i] == locks[i]);
                        let (a, b) = choose|a: int, b: int|
                            0 <= a < before.len() && 0 <= b < before[a].input_indices.len() && (
                            #[trigger] before[a].input_indices[b]) == i;
                        assert(groups[a].input_indices[b] == i);
                    }
                }
                assert forall|a: int, b: int| 0 <= a < b < groups.len() implies (
                #[trigger] groups[a]).input_indices[0] < (#[trigger] groups[b]).input_indices[0] by {
                    if b == before.len() {
                        assert(sound_group(before[a], front, owner));
                        assert(before[a].input_indices[0] < front.len());
                    }
                }
            }
        } else {
            assert forall|i: int| 0 <= i < locks.len() && is_owned_sighash_lock(
                #[trigger] locks[i],
                owner,
            ) implies covered(groups, i) by {
                assert(front[i] == locks[i]);
            }
        }
    }
}

/// There is nothing to sign exactly where no input has a sighash lock of the owner: a lock script
/// with other code or another hash type does not count, whatever its arguments.
pub proof fn law_nothing_to_sign(locks: Seq<ScriptView>, owner: Seq<u8>)
    requires
        locks.len() <= usize::MAX,
    ensures
        signing_groups(locks, owner).len() == 0 <==> forall|i: int|
            0 <= i < locks.len() ==> !is_owned_sighash_lock(#[trigger] locks[i], owner),
{
    let groups = signing_groups(locks, owner);
    law_groups_partition(locks, owner);
    if groups.len() > 0 {
        assert(sound_group(groups[0], locks, owner));
        let i = groups[0].input_indices[0] as int;
        assert(is_owned_sighash_lock(locks[i], owner));
    } else {
        assert forall|i: int| 0 <= i < locks.len() implies !is_owned_sighash_lock(
            #[trigger] locks[i],
            owner,
        ) by {
            if is_owned_sighash_lock(locks[i], owner) {
                assert(covered(groups, i));
            }
        }
    }
}

/// All sighash locks of one owner are the same lock script, so all inputs of the owner are signed
/// together.
pub proof fn law_one_group(locks: Seq<ScriptView>, owner: Seq<u8>)
    requires
        locks.len() <= usize::MAX,
    ensures
        signing_groups(locks, owner).len() <= 1,
{
    let groups = signing_groups(locks, owner);
    law_groups_partition(locks, owner);
    if groups.len() > 1 {
        let (a, b) = (groups[0], groups[1]);
        assert(sound_group(a, locks, owner) && sound_group(b, locks, owner));
        assert(a.lock.code_hash.0 =~= b.lock.code_hash.0);
        assert(a.lock =~= b.lock);
    }
}

/// Whether a lock script is the secp256k1 sighash lock of the owner.
pub fn owned_sighash_lock(lock: &Script, owner: &Vec<u8>) -> (r: bool)
    ensures
        r == is_owned_sighash_lock(lock@, owner@),
{
    let code = sighash_lock_code();
    let same_code = lock.code_hash.same(&code);
    assert(same_code == (lock.code_hash.0@ == code.0@)) by {
        if lock.code_hash.0@ == code.0@ {
            assert(lock.code_hash.0 =~= code.0);
        }
    }
    same_code && lock.hash_type == 1 && bytes_equal(&lock.args, owner)
}

/// Finds the group of a lock script.
fn find_group(groups: &Vec<SigningGroup>, lock: &Script) -> (r: Option<usize>)
    ensures
        r matches Some(k) ==> is_group_of(groups_view(groups@), lock@, k as int),
        r is None ==> forall|k: int| !is_group_of(groups_view(groups@), lock@, k),
{
    let mut k: usize = 0;
    while k < groups.len()
        invariant
            k <= groups.len(),
            forall|j: int| 0 <= j < k ==> (#[trigger] groups[j]).lock@ != lock@,
        decreases groups.len() - k,
    {
        if groups[k].lock.same(lock) {
            return Some(k);
        }
        k += 1;
    }
    None
}

/// Groups the inputs whose lock script is a sighash lock of the owner by lock script. `locks` are
/// the lock scripts of the inputs, in order.
pub fn group_inputs(locks: &Vec<Script>, owner: &Vec<u8>) -> (r: Vec<SigningGroup>)
    ensures
        groups_view(r@) == signing_groups(scripts(locks@), owner@),
{
    let mut groups: Vec<SigningGroup> = Vec::new();
    let mut i: usize = 0;
    assert(groups_view(groups@) =~= signing_groups(scripts(locks@).take(0), owner@));
    while i < locks.len()
        invariant
            i <= locks.len(),
            groups_view(groups@) == signing_groups(scripts(locks@).take(i as int), owner@),
        decreases locks.len() - i,
    {
        let ghost all = scripts(locks@);
        let ghost before = groups_view(groups@);
        proof {
            assert(all.take(i + 1).drop_last() =~= all.take(i as int));
            law_groups_partition(all.take(i as int), owner@);
        }
        let lock = &locks[i];
        if owned_sighash_lock(lock, owner) {
            match find_group(&groups, lock) {
                Some(k) => {
                    groups[k].input_indices.push(i);
                    proof {
                        let c = choose|c: int| is_group_of(before, lock@, c);
                        assert(c == k);
                        assert(groups_view(groups@) =~= add_input(before, lock@, i));
                    }
                },
                None => {
                    let mut input_indices: Vec<usize> = Vec::new();
                    input_indices.push(i);
                    groups.push(SigningGroup { lock: lock.clone(), input_indices });
                    assert(groups_view(groups@) =~= add_input(before, lock@, i));
                },
            }
        }
        i += 1;
    }
    assert(scripts(locks@).take(i as int) =~= scripts(locks@));
    groups
}

/// The lock part of the witness of a group while its message is computed.
pub open spec fn zero_lock() -> Seq<u8> {
    Seq::new(65, |i: int| 0u8)
}

/// The witness at `i`, where missing witnesses are empty.
pub open spec fn witness_at(witnesses: Seq<Seq<u8>>, i: int) -> Seq<u8> {
    if 0 <= i < witnesses.len() {
        witnesses[i]
    } else {
        Seq::empty()
    }
}

/// At least `n` witnesses: those given, and then empty ones.
pub open spec fn padded(witnesses: Seq<Seq<u8>>, n: nat) -> Seq<Seq<u8>> {
    Seq::new(
        if witnesses.len() < n { n } else { witnesses.len() },
        |i: int| witness_at(witnesses, i),
    )
}

/// The witnesses with a signature put into the one at `input`.
pub open spec fn placed(
    witnesses: Seq<Seq<u8>>,
    input: int,
    signature: Seq<u8>,
) -> Seq<Seq<u8>> {
    padded(witnesses, (input + 1) as nat).update(
        input,
        signed_witness(witness_at(witnesses, input), signature),
    )
}

/// The message of the group `g`.
pub open spec fn group_message(
    tx: TransactionView,
    g: SigningGroupView,
) -> Result<Seq<u8>, Seq<char>> {
    sighash_message(tx.raw, tx.witnesses, g.input_indices, zero_lock())
}

/// The witnesses once the first `n` groups are signed, or the message of the failure. Every
/// message is computed over the transaction as it was before any signature.
pub open spec fn signed_witnesses(
    key: Seq<u8>,
    tx: TransactionView,
    groups: Seq<SigningGroupView>,
    n: nat,
) -> Result<Seq<Seq<u8>>, Seq<char>>
    decreases n,
{
    if n == 0 {
        Ok(tx.witnesses)
    } else {
        match signed_witnesses(key, tx, groups, (n - 1) as nat) {
            Err(e) => Err(e),
            Ok(witnesses) => {
                let g = groups[n - 1];
                match group_message(tx, g) {
                    Err(fault) => Err("failed to generate sighash message: "@ + fault),
                    Ok(message) => Ok(
                        placed(
                            witnesses,
                            g.input_indices[0] as int,
                            recoverable_signature(key, message),
                        ),
                    ),
                }
            },
        }
    }
}

/// Appends empty witnesses until the one at `input` exists.
pub fn pad_witnesses(witnesses: &mut Vec<Vec<u8>>, input: usize)
    ensures
        byte_strings(final(witnesses)@) == padded(byte_strings(old(witnesses)@), (input + 1) as nat),
{
    let ghost start = byte_strings(witnesses@);
    while witnesses.len() <= input
        invariant
            start.len() <= witnesses.len(),
            witnesses.len() <= start.len() || witnesses.len() <= input + 1,
            forall|i: int|
                0 <= i < witnesses.len() ==> byte_strings(witnesses@)[i] == witness_at(start, i),
        decreases input + 1 - witnesses.len(),
    {
        let ghost before = witnesses@;
        witnesses.push(Vec::new());
        assert forall|i: int| 0 <= i < witnesses.len() implies byte_strings(witnesses@)[i]
            == witness_at(start, i) by {
            if i < before.len() {
                assert(byte_strings(witnesses@)[i] == byte_strings(before)[i]);
            } else {
                assert(byte_strings(witnesses@)[i] =~= Seq::<u8>::empty());
            }
        }
    }
    assert(byte_strings(witnesses@) =~= padded(start, (input + 1) as nat));
}

/// Puts a signature into the witness at `input`.
pub fn place_signature(witnesses: &mut Vec<Vec<u8>>, input: usize, signature: Vec<u8>)
    ensures
        byte_strings(final(witnesses)@) == placed(
            byte_strings(old(witnesses)@),
            input as int,
            signature@,
        ),
{
    let ghost start = byte_strings(witnesses@);
    pad_witnesses(witnesses, input);
    let ghost wide = byte_strings(witnesses@);
    assert(wide.len() == witnesses@.len());
    let witness = sign_witness(witnesses[input].as_slice(), signature);
    assert(wide[input as int] == witnesses@[input as int]@);
    witnesses.set(input, witness);
    assert(byte_strings(witnesses@) =~= placed(start, input as int, signature@));
}

/// Signs the groups one after the other and returns the witnesses with all signatures.
fn sign_groups(
    key: &PrivateKey,
    owner: &Vec<u8>,
    tx: &Transaction,
    groups: &Vec<SigningGroup>,
) -> (r: Result<Vec<Vec<u8>>, RpcError>)
    requires
        owner@ == owner_of(key@),
        transaction_size(tx@.raw, tx@.witnesses) <= u32::MAX,
        forall|k: int|
            0 <= k < groups.len() ==> (#[trigger] groups_view(groups@)[k]).input_indices.len() > 0,
    ensures
        r is Ok <==> forall|k: int|
            0 <= k < groups.len() ==> can_sign(
                tx@.witnesses,
                (#[trigger] groups_view(groups@)[k]).input_indices[0] as int,
            ),
        match signed_witnesses(key@, tx@, groups_view(groups@), groups@.len()) {
            Ok(witnesses) => r is Ok && byte_strings(r->Ok_0@) == witnesses,
            Err(message) => r is Err && r->Err_0.message@ == message,
        },
        r matches Ok(witnesses) ==> witnesses@.len() == tx@.witnesses.len(),
        r is Ok ==> forall|k: int|
            0 <= k < groups.len() ==> group_signature(
                key@,
                tx@,
                #[trigger] groups_view(groups@)[k],
            ).len() == 65,
        r is Ok && groups.len() > 0 ==> 52 <= tx@.raw.len(),
{
    let mut witnesses = byte_strings_copy(tx.witnesses());
    let ghost all = groups_view(groups@);
    let mut n: usize = 0;
    assert(byte_strings(witnesses@) == tx@.witnesses);
    while n < groups.len()
        invariant
            n <= groups.len(),
            all == groups_view(groups@),
            owner@ == owner_of(key@),
            transaction_size(tx@.raw, tx@.witnesses) <= u32::MAX,
            forall|k: int| 0 <= k < all.len() ==> (#[trigger] all[k]).input_indices.len() > 0,
            forall|k: int|
                0 <= k < n ==> can_sign(
                    tx@.witnesses,
                    (#[trigger] all[k]).input_indices[0] as int,
                ),
            signed_witnesses(key@, tx@, all, n as nat) == Ok::<Seq<Seq<u8>>, Seq<char>>(
                byte_strings(witnesses@),
            ),
            witnesses@.len() == tx@.witnesses.len(),
            forall|k: int|
                0 <= k < n ==> group_signature(key@, tx@, #[trigger] all[k]).len() == 65,
            n > 0 ==> 52 <= tx@.raw.len(),
        decreases groups.len() - n,
    {
        let group = &groups[n];
        assert(all[n as int] == group@);
        let input: usize = group.input_indices[0];
        let zeros: Vec<u8> = vec![0u8; 65];
        assert(zeros@ =~= zero_lock());
        match tx.message(&group.lock, &group.input_indices, zeros) {
            Err(fault) => {
                proof {
                    lemma_failure_stays(key@, tx@, all, (n + 1) as nat, all.len());
                }
                return Err(
                    rpc_error(joined("failed to generate sighash message: ", fault.as_str())),
                );
            },
            Ok(message) => {
                let signature = key.sign(owner.as_slice(), message.as_slice())?;
                place_signature(&mut witnesses, input, signature);
                assert(byte_strings(witnesses@).len() == witnesses@.len());
            },
        }
        n += 1;
    }
    Ok(witnesses)
}

/// A failure at some group is the failure of the whole.
proof fn lemma_failure_stays(
    key: Seq<u8>,
    tx: TransactionView,
    groups: Seq<SigningGroupView>,
    m: nat,
    n: nat,
)
    requires
        m <= n,
        signed_witnesses(key, tx, groups, m) is Err,
    ensures
        signed_witnesses(key, tx, groups, n) == signed_witnesses(key, tx, groups, m),
    decreases n,
{
    if m < n {
        lemma_failure_stays(key, tx, groups, m, (n - 1) as nat);
    }
}

/// What comes of signing: the transaction with the signatures in its witnesses, or the message of
/// the failure. `locks` are the lock scripts of the inputs, in order.
pub open spec fn signing_outcome(
    key: Seq<u8>,
    tx: TransactionView,
    locks: Seq<ScriptView>,
) -> Result<TransactionView, Seq<char>> {
    let groups = signing_groups(locks, owner_of(key));
    if groups.len() == 0 {
        Err("no transaction inputs matched the provided private key"@)
    } else {
        match signed_witnesses(key, tx, groups, groups.len()) {
            Ok(witnesses) => Ok(TransactionView { raw: tx.raw, witnesses }),
            Err(message) => Err(message),
        }
    }
}

/// Where no input has the sighash lock of the key, nothing is signed and the call is refused.
pub proof fn law_other_locks_refused(
    key: Seq<u8>,
    tx: TransactionView,
    locks: Seq<ScriptView>,
)
    requires
        locks.len() <= usize::MAX,
        forall|i: int|
            0 <= i < locks.len() ==> !is_owned_sighash_lock(#[trigger] locks[i], owner_of(key)),
    ensures
        signing_outcome(key, tx, locks) == Err::<TransactionView, Seq<char>>(
            "no transaction inputs matched the provided private key"@,
        ),
{
    law_nothing_to_sign(locks, owner_of(key));
}

/// Whether the owner of the key has inputs, and the message of each group of them can be computed.
pub open spec fn all_can_sign(
    key: Seq<u8>,
    witnesses: Seq<Seq<u8>>,
    locks: Seq<ScriptView>,
) -> bool {
    let groups = signing_groups(locks, owner_of(key));
    &&& groups.len() > 0
    &&& forall|k: int|
        0 <= k < groups.len() ==> can_sign(
            witnesses,
            (#[trigger] groups[k]).input_indices[0] as int,
        )
}

/// Signs the inputs of a transaction that belong to a key: those with the sighash lock of its
/// owner. `locks` are the lock scripts of the inputs, in order. Inputs that share a lock script are signed together, and the signature goes
/// into the witness of the first of them.
pub fn sign_inputs(key: &PrivateKey, tx: Transaction, locks: &Vec<Script>) -> (r: Result<
    Transaction,
    RpcError,
>)
    requires
        transaction_size(tx@.raw, tx@.witnesses) <= u32::MAX,
    ensures
        match signing_outcome(key@, tx@, scripts(locks@)) {
            Ok(signed) => r is Ok && r->Ok_0@ == signed,
            Err(message) => r is Err && r->Err_0.message@ == message,
        },
        r is Ok <==> all_can_sign(key@, tx@.witnesses, scripts(locks@)),
        r is Ok ==> signatures_complete(key@, tx@, scripts(locks@)),
        r matches Ok(signed) ==> carries_signatures(key@, tx@, scripts(locks@), signed@),
{
    let owner = key.owner();
    let groups = group_inputs(locks, &owner);
    proof {
        assert(scripts(locks@).len() == locks.len());
        law_groups_partition(scripts(locks@), owner@);
        assert(groups_view(groups@).len() == groups@.len());
    }
    if groups.len() == 0 {
        return Err(rpc_error("no transaction inputs matched the provided private key".to_owned()));
    }
    let witnesses = sign_groups(key, &owner, &tx, &groups)?;
    proof {
        law_signed_transaction_reads_back(key@, tx@, scripts(locks@));
    }
    Ok(tx.set_witnesses(witnesses))
}

/// A funding transaction on its way to being signed.
///
/// The lock script of each input stands in an earlier transaction. [`Self::request`] names the
/// output to look up for the next input, and [`Self::resume`] takes the answer.
pub struct FundingTxSigner {
    key: PrivateKey,
    tx: Transaction,
    locks: Vec<Script>,
}

/// What the signer holds: the private key, the transaction, and the lock scripts of the inputs
/// that are resolved.
#[verifier::ext_equal]
pub struct FundingTxSignerView {
    pub key: Seq<u8>,
    pub tx: TransactionView,
    pub locks: Seq<ScriptView>,
}

impl View for FundingTxSigner {
    type V = FundingTxSignerView;

    closed spec fn view(&self) -> FundingTxSignerView {
        FundingTxSignerView { key: self.key@, tx: self.tx@, locks: scripts(self.locks@) }
    }
}

/// Where signing a funding transaction stands.
pub enum SigningStep {
    /// An output is to be looked up.
    Lookup(FundingTxSigner),
    /// The transaction is signed.
    Signed(SignExternalFundingTxResult),
}

/// What a step holds.
pub enum SigningStepView {
    Lookup(FundingTxSignerView),
    Signed(TransactionView),
}

impl View for SigningStep {
    type V = SigningStepView;

    open spec fn view(&self) -> SigningStepView {
        match self {
            SigningStep::Lookup(signer) => SigningStepView::Lookup(signer@),
            SigningStep::Signed(result) => SigningStepView::Signed(result.signed_funding_tx@),
        }
    }
}

/// The next step: look up the next output while there are unresolved inputs, then sign.
pub open spec fn next_step(s: FundingTxSignerView) -> Result<SigningStepView, Seq<char>> {
    if transaction_inputs(s.tx.raw) matches Some(inputs) && s.locks.len() < inputs.len() {
        Ok(SigningStepView::Lookup(s))
    } else {
        match signing_outcome(s.key, s.tx, s.locks) {
            Ok(tx) => Ok(SigningStepView::Signed(tx)),
            Err(message) => Err(message),
        }
    }
}

/// Whether the lock scripts of all inputs are known.
pub open spec fn is_resolved(s: FundingTxSignerView) -> bool {
    transaction_inputs(s.tx.raw) matches Some(inputs) ==> inputs.len() <= s.locks.len()
}

/// What is owed once all inputs are resolved: signing succeeds exactly where the key has inputs
/// and the message of each group of them can be computed, and then every signature has 65 bytes
/// and reads back from the signed transaction.
pub open spec fn ends_signing(s: FundingTxSignerView, r: Result<SigningStep, RpcError>) -> bool {
    is_resolved(s) ==> {
        &&& r is Ok <==> all_can_sign(s.key, s.tx.witnesses, s.locks)
        &&& r is Ok ==> {
            &&& r->Ok_0 is Signed
            &&& signatures_complete(s.key, s.tx, s.locks)
            &&& carries_signatures(
                s.key,
                s.tx,
                s.locks,
                r->Ok_0->Signed_0.signed_funding_tx@,
            )
        }
    }
}

/// Whether `r` is the outcome `expected`.
pub open spec fn is_step(
    r: Result<SigningStep, RpcError>,
    expected: Result<SigningStepView, Seq<char>>,
) -> bool {
    match expected {
        Ok(step) => r is Ok && r->Ok_0@ == step,
        Err(message) => r is Err && r->Err_0.message@ == message,
    }
}

/// The output that the next unresolved input spends.
pub open spec fn pending_output(s: FundingTxSignerView) -> (Seq<u8>, u32) {
    transaction_inputs(s.tx.raw)->0[s.locks.len() as int]
}

/// What comes of the answer for the output `pending`, which the input at `input` spends: the lock
/// script of that output, or the message of the failure. An answer is the fault of a failed
/// lookup, or the lock scripts of the outputs of the earlier transaction if there is one.
pub open spec fn resolved_lock(
    input: nat,
    pending: (Seq<u8>, u32),
    answer: Result<Option<Seq<ScriptView>>, Seq<char>>,
) -> Result<ScriptView, Seq<char>> {
    match answer {
        Err(fault) => Err("failed to fetch previous transaction: "@ + fault),
        Ok(None) => Err(
            "previous transaction not found for input "@ + decimal(input) + ": "@ + hex_text(
                pending.0,
            ),
        ),
        Ok(Some(outputs)) => if pending.1 < outputs.len() {
            Ok(outputs[pending.1 as int])
        } else {
            Err(
                "previous output index "@ + decimal(pending.1 as nat)
                    + " out of bounds for input "@ + decimal(input),
            )
        },
    }
}

/// What an answer holds.
pub open spec fn answer_view(a: Result<Option<Vec<Script>>, String>) -> Result<
    Option<Seq<ScriptView>>,
    Seq<char>,
> {
    match a {
        Ok(Some(outputs)) => Ok(Some(scripts(outputs@))),
        Ok(None) => Ok(None),
        Err(fault) => Err(fault@),
    }
}

/// `to_string` of `ckb_types::H256`: two lower-case digits for each byte, without a prefix.
#[verifier::external_body]
fn hash_text(hash: &Hash256) -> (r: String)
    ensures
        r@ == hex_text(hash.0@),
{
    ckb_types::H256(hash.0).to_string()
}

/// Finds the lock script of an output in the answer for it. `input` is the position of the input
/// that spends the output.
pub fn resolve_lock(
    input: usize,
    output: OutPoint,
    answer: Result<Option<Vec<Script>>, String>,
) -> (r: Result<Script, RpcError>)
    ensures
        match resolved_lock(input as nat, output@, answer_view(answer)) {
            Ok(lock) => r is Ok && r->Ok_0@ == lock,
            Err(message) => r is Err && r->Err_0.message@ == message,
        },
{
    match answer {
        Err(fault) => Err(
            rpc_error(joined("failed to fetch previous transaction: ", fault.as_str())),
        ),
        Ok(None) => {
            let mut message = joined(
                "previous transaction not found for input ",
                decimal_text(input).as_str(),
            );
            message.append(": ");
            message.append(hash_text(&output.tx_hash).as_str());
            Err(rpc_error(message))
        },
        Ok(Some(outputs)) => {
            let index: usize = output.index as usize;
            if index < outputs.len() {
                Ok(outputs[index].clone())
            } else {
                let mut message = joined("previous output index ", decimal_text(index).as_str());
                message.append(" out of bounds for input ");
                message.append(decimal_text(input).as_str());
                Err(rpc_error(message))
            }
        },
    }
}

impl FundingTxSigner {
    #[verifier::type_invariant]
    spec fn inv(self) -> bool {
        &&& transaction_size(self.tx@.raw, self.tx@.witnesses) <= u32::MAX
        &&& transaction_inputs(self.tx@.raw) matches Some(inputs) && self.locks@.len()
            < inputs.len()
    }

    /// Starts signing the inputs of `tx` that belong to `key`.
    pub fn start(key: PrivateKey, tx: Transaction) -> (r: Result<SigningStep, RpcError>)
        requires
            transaction_size(tx@.raw, tx@.witnesses) <= u32::MAX,
        ensures
            is_step(
                r,
                next_step(FundingTxSignerView { key: key@, tx: tx@, locks: Seq::empty() }),
            ),
            ends_signing(
                FundingTxSignerView { key: key@, tx: tx@, locks: Seq::empty() },
                r,
            ),
    {
        let locks: Vec<Script> = Vec::new();
        assert(scripts(locks@) =~= Seq::<ScriptView>::empty());
        Self::proceed(key, tx, locks)
    }

    /// Looks up the next output while there are unresolved inputs, then signs.
    fn proceed(key: PrivateKey, tx: Transaction, locks: Vec<Script>) -> (r: Result<
        SigningStep,
        RpcError,
    >)
        requires
            transaction_size(tx@.raw, tx@.witnesses) <= u32::MAX,
        ensures
            is_step(
                r,
                next_step(FundingTxSignerView { key: key@, tx: tx@, locks: scripts(locks@) }),
            ),
            ends_signing(
                FundingTxSignerView { key: key@, tx: tx@, locks: scripts(locks@) },
                r,
            ),
    {
        if locks.len() < tx.inputs().len() {
            Ok(SigningStep::Lookup(FundingTxSigner { key, tx, locks }))
        } else {
            let signed_funding_tx = sign_inputs(&key, tx, &locks)?;
            Ok(SigningStep::Signed(SignExternalFundingTxResult { signed_funding_tx }))
        }
    }

    /// The output to look up.
    pub fn request(&self) -> (r: OutPoint)
        ensures
            transaction_inputs(self@.tx.raw) matches Some(inputs) && self@.locks.len()
                < inputs.len(),
            r@ == pending_output(self@),
    {
        proof {
            use_type_invariant(self);
        }
        self.tx.inputs()[self.locks.len()]
    }

    /// Takes the answer for the output that [`Self::request`] names.
    pub fn resume(self, answer: Result<Option<Vec<Script>>, String>) -> (r: Result<
        SigningStep,
        RpcError,
    >)
        ensures
            match resolved_lock(self@.locks.len(), pending_output(self@), answer_view(answer)) {
                Ok(lock) => is_step(
                    r,
                    next_step(
                        FundingTxSignerView { locks: self@.locks.push(lock), ..self@ },
                    ),
                ) && ends_signing(
                    FundingTxSignerView { locks: self@.locks.push(lock), ..self@ },
                    r,
                ),
                Err(message) => r is Err && r->Err_0.message@ == message,
            },
    {
        proof {
            use_type_invariant(&self);
        }
        let output = self.request();
        let FundingTxSigner { key, tx, mut locks } = self;
        let lock = resolve_lock(locks.len(), output, answer)?;
        let ghost before = locks@;
        locks.push(lock);
        assert(scripts(locks@) =~= scripts(before).push(lock@));
        Self::proceed(key, tx, locks)
    }
}

/// Whether the input at `i` is the first of one of the first `n` groups.
pub open spec fn is_first_input(groups: Seq<SigningGroupView>, n: int, i: int) -> bool {
    exists|k: int| 0 <= k < n && (#[trigger] groups[k]).input_indices[0] == i
}

/// The signature of the group `g`.
pub open spec fn group_signature(
    key: Seq<u8>,
    tx: TransactionView,
    g: SigningGroupView,
) -> Seq<u8> {
    recoverable_signature(key, group_message(tx, g)->Ok_0)
}

proof fn lemma_signed_witnesses(
    key: Seq<u8>,
    tx: TransactionView,
    groups: Seq<SigningGroupView>,
    n: nat,
)
    requires
        n <= groups.len(),
        signed_witnesses(key, tx, groups, n) is Ok,
        forall|a: int, b: int|
            0 <= a < b < groups.len() ==> (#[trigger] groups[a]).input_indices[0] < (
            #[trigger] groups[b]).input_indices[0],
    ensures
        ({
            let signed = signed_witnesses(key, tx, groups, n)->Ok_0;
            &&& signed.len() >= tx.witnesses.len()
            &&& forall|k: int|
                0 <= k < n ==> group_message(tx, #[trigger] groups[k]) is Ok && witness_at(
                    signed,
                    groups[k].input_indices[0] as int,
                ) == signed_witness(
                    witness_at(tx.witnesses, groups[k].input_indices[0] as int),
                    group_signature(key, tx, groups[k]),
                )
            &&& forall|i: int|
                !is_first_input(groups, n as int, i) ==> #[trigger] witness_at(signed, i)
                    == witness_at(tx.witnesses, i)
        }),
    decreases n,
{
    if n > 0 {
        let m = (n - 1) as nat;
        let before = signed_witnesses(key, tx, groups, m)->Ok_0;
        let signed = signed_witnesses(key, tx, groups, n)->Ok_0;
        let g = groups[m as int];
        let first = g.input_indices[0] as int;
        lemma_signed_witnesses(key, tx, groups, m);
        assert(!is_first_input(groups, m as int, first));
        assert(witness_at(before, first) == witness_at(tx.witnesses, first));
        assert forall|i: int| i != first implies #[trigger] witness_at(signed, i) == witness_at(
            before,
            i,
        ) by {}
        assert forall|k: int| 0 <= k < n implies group_message(tx, #[trigger] groups[k]) is Ok
            && witness_at(signed, groups[k].input_indices[0] as int) == signed_witness(
            witness_at(tx.witnesses, groups[k].input_indices[0] as int),
            group_signature(key, tx, groups[k]),
        ) by {
            if k < m {
                assert(groups[k].input_indices[0] < groups[m as int].input_indices[0]);
            }
        }
        assert forall|i: int| !is_first_input(groups, n as int, i) implies #[trigger] witness_at(
            signed,
            i,
        ) == witness_at(tx.witnesses, i) by {
            if i == first {
                assert(groups[m as int].input_indices[0] == i);
            }
            assert(!is_first_input(groups, m as int, i)) by {
                if is_first_input(groups, m as int, i) {
                    let k = choose|k: int|
                        0 <= k < m && (#[trigger] groups[k]).input_indices[0] == i;
                    assert(is_first_input(groups, n as int, i));
                }
            }
        }
    }
}

/// Signing keeps the body of the transaction and changes exactly the witnesses of the first
/// inputs of the groups: each gets the signature of the message of its group, computed over the
/// transaction as it was handed in.
pub proof fn law_signing_touches_only_first_inputs(
    key: Seq<u8>,
    tx: TransactionView,
    locks: Seq<ScriptView>,
)
    requires
        locks.len() <= usize::MAX,
        signing_outcome(key, tx, locks) is Ok,
    ensures
        ({
            let groups = signing_groups(locks, owner_of(key));
            let signed = signing_outcome(key, tx, locks)->Ok_0;
            &&& signed.raw == tx.raw
            &&& signed.witnesses.len() >= tx.witnesses.len()
            &&& forall|k: int|
                0 <= k < groups.len() ==> group_message(tx, #[trigger] groups[k]) is Ok
                    && witness_at(signed.witnesses, groups[k].input_indices[0] as int)
                    == signed_witness(
                    witness_at(tx.witnesses, groups[k].input_indices[0] as int),
                    group_signature(key, tx, groups[k]),
                )
            &&& forall|i: int|
                !is_first_input(groups, groups.len() as int, i) ==> #[trigger] witness_at(
                    signed.witnesses,
                    i,
                ) == witness_at(tx.witnesses, i)
        }),
{
    let groups = signing_groups(locks, owner_of(key));
    law_groups_partition(locks, owner_of(key));
    lemma_signed_witnesses(key, tx, groups, groups.len());
}

/// A witness that carries a signature reads back with the signature as its lock part and with its
/// other parts as they were, as long as its size can be written down in four bytes.
pub proof fn law_signature_reads_back(witness: Seq<u8>, signature: Seq<u8>)
    requires
        witness_args_size(signed_args(parsed_witness_args(witness), signature)) <= u32::MAX,
    ensures
        parsed_witness_args(signed_witness(witness, signature)) == Some(
            signed_args(parsed_witness_args(witness), signature),
        ),
        signed_args(parsed_witness_args(witness), signature).lock == Some(signature),
        parsed_witness_args(witness) matches Some(w) ==> signed_args(
            parsed_witness_args(witness),
            signature,
        ) == (WitnessArgsView { lock: Some(signature), ..w }),
{
    law_witness_round_trip(signed_args(parsed_witness_args(witness), signature));
}

/// The signature adds no more than itself and its length to a witness, and makes at most twenty
/// bytes more than itself where there was no witness to read.
proof fn lemma_signed_size(witness: Seq<u8>, signature: Seq<u8>)
    ensures
        ({
            let size = witness_args_size(signed_args(parsed_witness_args(witness), signature));
            size <= witness.len() + signature.len() + 4 || size <= signature.len() + 20
        }),
{
    lemma_opt_part_len(Some(signature));
    lemma_opt_part_len(None);
    if parsed_witness_args(witness) is Some {
        let w = choose|w: WitnessArgsView| encodes(witness, w);
        assert(encodes(witness, w));
        lemma_encoding_len(w);
    }
}

/// Whether every signature of the key's groups has the 65 bytes of a recoverable signature.
pub open spec fn signatures_complete(
    key: Seq<u8>,
    tx: TransactionView,
    locks: Seq<ScriptView>,
) -> bool {
    let groups = signing_groups(locks, owner_of(key));
    forall|k: int|
        0 <= k < groups.len() ==> group_signature(key, tx, #[trigger] groups[k]).len() == 65
}

/// Whether `signed` is `tx` with the signature of each group readable as the lock part of the
/// witness of its first input. The other parts of that witness, all other witnesses and the body
/// are those of `tx`.
pub open spec fn carries_signatures(
    key: Seq<u8>,
    tx: TransactionView,
    locks: Seq<ScriptView>,
    signed: TransactionView,
) -> bool {
    let groups = signing_groups(locks, owner_of(key));
    &&& signed.raw == tx.raw
    &&& signed.witnesses.len() == tx.witnesses.len()
    &&& forall|k: int|
        0 <= k < groups.len() ==> {
            let first = (#[trigger] groups[k]).input_indices[0] as int;
            &&& first < tx.witnesses.len()
            &&& parsed_witness_args(signed.witnesses[first]) == Some(
                signed_args(
                    parsed_witness_args(tx.witnesses[first]),
                    group_signature(key, tx, groups[k]),
                ),
            )
        }
    &&& forall|i: int|
        0 <= i < tx.witnesses.len() && !is_first_input(groups, groups.len() as int, i)
            ==> #[trigger] signed.witnesses[i] == tx.witnesses[i]
}

proof fn lemma_signed_len(
    key: Seq<u8>,
    tx: TransactionView,
    groups: Seq<SigningGroupView>,
    n: nat,
)
    requires
        n <= groups.len(),
        signed_witnesses(key, tx, groups, n) is Ok,
        forall|k: int|
            0 <= k < groups.len() ==> (#[trigger] groups[k]).input_indices[0]
                < tx.witnesses.len(),
    ensures
        signed_witnesses(key, tx, groups, n)->Ok_0.len() == tx.witnesses.len(),
    decreases n,
{
    if n > 0 {
        lemma_signed_len(key, tx, groups, (n - 1) as nat);
        assert(groups[n - 1].input_indices[0] < tx.witnesses.len());
    }
}

/// A signed transaction carries its signatures: each reads back as the lock part of the witness of
/// the first input of its group, and nothing else of the transaction has changed. It holds of every
/// transaction that is small enough to be encoded; its body has at least 52 bytes, and a signature
/// has 65.
pub proof fn law_signed_transaction_reads_back(
    key: Seq<u8>,
    tx: TransactionView,
    locks: Seq<ScriptView>,
)
    requires
        locks.len() <= usize::MAX,
        52 <= tx.raw.len(),
        transaction_size(tx.raw, tx.witnesses) <= u32::MAX,
        signing_outcome(key, tx, locks) is Ok,
        all_can_sign(key, tx.witnesses, locks),
        signatures_complete(key, tx, locks),
    ensures
        carries_signatures(key, tx, locks, signing_outcome(key, tx, locks)->Ok_0),
{
    let groups = signing_groups(locks, owner_of(key));
    let signed = signing_outcome(key, tx, locks)->Ok_0;
    law_signing_touches_only_first_inputs(key, tx, locks);
    lemma_signed_len(key, tx, groups, groups.len());
    assert forall|k: int| 0 <= k < groups.len() implies {
        let first = (#[trigger] groups[k]).input_indices[0] as int;
        &&& first < tx.witnesses.len()
        &&& parsed_witness_args(signed.witnesses[first]) == Some(
            signed_args(
                parsed_witness_args(tx.witnesses[first]),
                group_signature(key, tx, groups[k]),
            ),
        )
    } by {
        let first = groups[k].input_indices[0] as int;
        let signature = group_signature(key, tx, groups[k]);
        assert(can_sign(tx.witnesses, first));
        assert(witness_at(signed.witnesses, first) == signed.witnesses[first]);
        assert(witness_at(tx.witnesses, first) == tx.witnesses[first]);
        lemma_byte_string_fits(tx.witnesses, first);
        lemma_signed_size(tx.witnesses[first], signature);
        law_signature_reads_back(tx.witnesses[first], signature);
    }
    assert forall|i: int|
        0 <= i < tx.witnesses.len() && !is_first_input(
            groups,
            groups.len() as int,
            i,
        ) implies #[trigger] signed.witnesses[i] == tx.witnesses[i] by {
        assert(witness_at(signed.witnesses, i) == witness_at(tx.witnesses, i));
    }
}

/// What comes of a signer and the answers to its requests, in order.
pub open spec fn run(
    s: FundingTxSignerView,
    answers: Seq<Result<Option<Seq<ScriptView>>, Seq<char>>>,
) -> Result<SigningStepView, Seq<char>>
    decreases answers.len(),
{
    if answers.len() == 0 {
        next_step(s)
    } else {
        match resolved_lock(s.locks.len(), pending_output(s), answers[0]) {
            Ok(lock) => run(
                FundingTxSignerView { locks: s.locks.push(lock), ..s },
                answers.drop_first(),
            ),
            Err(message) => Err(message),
        }
    }
}

/// Whether an answer holds the output that the input at `i` spends, with the lock script `lock`.
pub open spec fn answers_with(
    inputs: Seq<(Seq<u8>, u32)>,
    i: int,
    answer: Result<Option<Seq<ScriptView>>, Seq<char>>,
    lock: ScriptView,
) -> bool {
    answer matches Ok(Some(outputs)) && inputs[i].1 < outputs.len() && outputs[inputs[i].1 as int]
        == lock
}

/// Once every input has been answered, in the order of the inputs, the transaction is signed with
/// the lock scripts of the answers.
pub proof fn law_run_signs(
    s: FundingTxSignerView,
    inputs: Seq<(Seq<u8>, u32)>,
    answers: Seq<Result<Option<Seq<ScriptView>>, Seq<char>>>,
    locks: Seq<ScriptView>,
)
    requires
        transaction_inputs(s.tx.raw) == Some(inputs),
        s.locks.len() + answers.len() == inputs.len(),
        answers.len() == locks.len(),
        forall|i: int|
            0 <= i < answers.len() ==> answers_with(
                inputs,
                s.locks.len() + i,
                #[trigger] answers[i],
                locks[i],
            ),
    ensures
        run(s, answers) == (match signing_outcome(s.key, s.tx, s.locks + locks) {
            Ok(tx) => Ok(SigningStepView::Signed(tx)),
            Err(message) => Err(message),
        }),
    decreases answers.len(),
{
    if answers.len() == 0 {
        assert(s.locks + locks =~= s.locks);
    } else {
        let next = FundingTxSignerView { locks: s.locks.push(locks[0]), ..s };
        assert(answers_with(inputs, s.locks.len() as int, answers[0], locks[0]));
        assert forall|i: int| 0 <= i < answers.drop_first().len() implies answers_with(
            inputs,
            next.locks.len() + i,
            #[trigger] answers.drop_first()[i],
            locks.drop_first()[i],
        ) by {
            assert(answers_with(inputs, s.locks.len() + (i + 1), answers[i + 1], locks[i + 1]));
        }
        law_run_signs(next, inputs, answers.drop_first(), locks.drop_first());
        assert(next.locks + locks.drop_first() =~= s.locks + locks);
    }
}

/// The first answer that does not hold the output in question ends the call with its failure,
/// whatever follows.
pub proof fn law_run_stops(
    s: FundingTxSignerView,
    inputs: Seq<(Seq<u8>, u32)>,
    answers: Seq<Result<Option<Seq<ScriptView>>, Seq<char>>>,
    locks: Seq<ScriptView>,
    at: int,
)
    requires
        transaction_inputs(s.tx.raw) == Some(inputs),
        s.locks.len() + at < inputs.len(),
        0 <= at < answers.len(),
        at <= locks.len(),
        forall|i: int|
            0 <= i < at ==> answers_with(
                inputs,
                s.locks.len() + i,
                #[trigger] answers[i],
                locks[i],
            ),
        resolved_lock((s.locks.len() + at) as nat, inputs[s.locks.len() + at], answers[at]) is Err,
    ensures
        run(s, answers) is Err,
        run(s, answers)->Err_0 == resolved_lock(
            (s.locks.len() + at) as nat,
            inputs[s.locks.len() + at],
            answers[at],
        )->Err_0,
    decreases at,
{
    if at > 0 {
        let next = FundingTxSignerView { locks: s.locks.push(locks[0]), ..s };
        assert(answers_with(inputs, s.locks.len() as int, answers[0], locks[0]));
        assert forall|i: int| 0 <= i < at - 1 implies answers_with(
            inputs,
            next.locks.len() + i,
            #[trigger] answers.drop_first()[i],
            locks.drop_first()[i],
        ) by {
            assert(answers_with(inputs, s.locks.len() + (i + 1), answers[i + 1], locks[i + 1]));
        }
        law_run_stops(next, inputs, answers.drop_first(), locks.drop_first(), at - 1);
    }
}

/// Whether numbers ascend.
pub open spec fn ascends(v: Seq<usize>) -> bool {
    forall|i: int, j: int| 0 <= i < j < v.len() ==> (#[trigger] v[i]) < (#[trigger] v[j])
}

/// Two ascending lists of the same numbers are the same list.
proof fn lemma_ascending_unique(a: Seq<usize>, b: Seq<usize>)
    requires
        ascends(a),
        ascends(b),
        forall|x: usize| a.contains(x) <==> b.contains(x),
    ensures
        a == b,
    decreases a.len(),
{
    if a.len() == 0 {
        if b.len() > 0 {
            assert(b.contains(b[0]));
        }
        assert(a =~= b);
    } else {
        assert(a.contains(a.last()));
        let j = choose|j: int| 0 <= j < b.len() && b[j] == a.last();
        assert(b.contains(b.last()));
        let i = choose|i: int| 0 <= i < a.len() && a[i] == b.last();
        assert(a.last() == b.last()) by {
            if j < b.len() - 1 {
                assert(b[j] < b[b.len() - 1]);
            }
            if i < a.len() - 1 {
                assert(a[i] < a[a.len() - 1]);
            }
        }
        let (c, d) = (a.drop_last(), b.drop_last());
        assert forall|x: usize| c.contains(x) <==> d.contains(x) by {
            if c.contains(x) {
                let k = choose|k: int| 0 <= k < c.len() && c[k] == x;
                assert(a[k] == x && a[k] < a[a.len() - 1]);
                assert(a.contains(x));
                let m = choose|m: int| 0 <= m < b.len() && b[m] == x;
                assert(d[m] == x);
            }
            if d.contains(x) {
                let k = choose|k: int| 0 <= k < d.len() && d[k] == x;
                assert(b[k] == x && b[k] < b[b.len() - 1]);
                assert(b.contains(x));
                let m = choose|m: int| 0 <= m < a.len() && a[m] == x;
                assert(c[m] == x);
            }
        }
        lemma_ascending_unique(c, d);
        assert(a =~= c.push(a.last()));
        assert(b =~= d.push(b.last()));
    }
}

/// Whether `owned` are the positions, in ascending order, of the lock scripts that are found by
/// type under the code hash of the sighash lock and have the arguments `owner`.
pub open spec fn lists_owned(owned: Seq<usize>, locks: Seq<Script>, owner: Seq<u8>) -> bool {
    &&& ascends(owned)
    &&& forall|j: int| 0 <= j < owned.len() ==> (#[trigger] owned[j]) < locks.len()
    &&& forall|i: usize|
        i < locks.len() ==> (#[trigger] owned.contains(i) <==> (locks[i as int].code_hash.0@
            == secp256k1_lock_code_hash() && locks[i as int].hash_type == 1
            && locks[i as int].args@ == owner))
}

proof fn lemma_owned_group(owned: Seq<usize>, locks: Seq<Script>, owner: Seq<u8>)
    requires
        locks.len() <= usize::MAX,
        lists_owned(owned, locks, owner),
    ensures
        owned.len() == 0 ==> signing_groups(scripts(locks), owner).len() == 0,
        owned.len() > 0 ==> {
            let groups = signing_groups(scripts(locks), owner);
            &&& groups.len() == 1
            &&& groups[0].input_indices == owned
            &&& groups[0].lock == locks[owned[0] as int]@
        },
{
    let all = scripts(locks);
    let groups = signing_groups(all, owner);
    assert(all.len() == locks.len());
    law_groups_partition(all, owner);
    law_one_group(all, owner);
    law_nothing_to_sign(all, owner);
    if owned.len() == 0 {
        assert forall|i: int| 0 <= i < all.len() implies !is_owned_sighash_lock(
            #[trigger] all[i],
            owner,
        ) by {
            assert(!owned.contains(i as usize));
        }
    } else {
        assert(owned.contains(owned[0]));
        assert(is_owned_sighash_lock(all[owned[0] as int], owner));
        assert(groups.len() == 1);
        let g = groups[0];
        assert(sound_group(g, all, owner));
        assert forall|x: usize| g.input_indices.contains(x) <==> owned.contains(x) by {
            if g.input_indices.contains(x) {
                let j = choose|j: int| 0 <= j < g.input_indices.len() && g.input_indices[j] == x;
                assert(all[x as int] == g.lock);
                assert(is_owned_sighash_lock(all[x as int], owner));
                assert(x < locks.len());
            }
            if owned.contains(x) {
                let j = choose|j: int| 0 <= j < owned.len() && owned[j] == x;
                assert(owned[j] < locks.len());
                assert(is_owned_sighash_lock(all[x as int], owner));
                assert(covered(groups, x as int));
                let (k, m) = choose|k: int, m: int|
                    0 <= k < groups.len() && 0 <= m < groups[k].input_indices.len() && (
                    #[trigger] groups[k].input_indices[m]) == x as int;
                assert(k == 0);
                assert(g.input_indices[m] == x);
            }
        }
        lemma_ascending_unique(g.input_indices, owned);
        assert(all[g.input_indices[0] as int] == g.lock);
    }
}

/// All inputs with the sighash lock of the owner, and no others, make one group, in ascending
/// order.
pub proof fn law_owned_inputs_grouped(
    locks: Vec<Script>,
    owner: Vec<u8>,
    owned: Seq<usize>,
    r: Vec<SigningGroup>,
)
    requires
        lists_owned(owned, locks@, owner@),
        call_ensures(group_inputs, (&locks, &owner), r),
    ensures
        owned.len() == 0 ==> r@.len() == 0,
        owned.len() > 0 ==> {
            &&& r@.len() == 1
            &&& r@[0].input_indices@ == owned
            &&& r@[0].lock.code_hash == locks@[owned[0] as int].code_hash
            &&& r@[0].lock.hash_type == 1
            &&& r@[0].lock.args@ == owner@
        },
{
    assert(locks.len() == locks@.len());
    lemma_owned_group(owned, locks@, owner@);
    assert(groups_view(r@).len() == r@.len());
    if owned.len() > 0 {
        assert(groups_view(r@)[0] == r@[0]@);
        assert(owned.contains(owned[0]));
    }
}

/// Signing puts one signature into the witness of the first input that the key owns. It is the
/// signature of the message over all inputs that the key owns, in ascending order, and over the
/// transaction as it was handed in. That witness reads back with the signature as its lock part and
/// with its other parts as they were; the body and all other witnesses stay. `owned` are the
/// positions of the inputs that the key owns.
pub proof fn law_owned_inputs_signed(
    key: PrivateKey,
    tx: Transaction,
    locks: Vec<Script>,
    owned: Seq<usize>,
    r: Result<Transaction, RpcError>,
)
    requires
        lists_owned(owned, locks@, blake160_of(public_key_of(key@))),
        call_ensures(sign_inputs, (&key, tx, &locks), r),
    ensures
        owned.len() == 0 ==> r is Err && r->Err_0.message@
            == "no transaction inputs matched the provided private key"@,
        owned.len() > 0 ==> {
            let first = owned[0] as int;
            let message = sighash_message(
                tx@.raw,
                tx@.witnesses,
                owned,
                Seq::new(65, |i: int| 0u8),
            );
            &&& r is Ok <==> first < tx@.witnesses.len() && (tx@.witnesses[first].len() == 0
                || parsed_witness_args(tx@.witnesses[first]) is Some)
            &&& message is Err ==> r is Err && r->Err_0.message@
                == "failed to generate sighash message: "@ + message->Err_0
            &&& r is Ok ==> {
                let signed = r->Ok_0@;
                let before = parsed_witness_args(tx@.witnesses[first]);
                let after = parsed_witness_args(signed.witnesses[first]);
                &&& message is Ok
                &&& signed.raw == tx@.raw
                &&& signed.witnesses.len() == tx@.witnesses.len()
                &&& forall|i: int|
                    0 <= i < signed.witnesses.len() && i != first ==> #[trigger] signed.witnesses[i]
                        == tx@.witnesses[i]
                &&& after is Some
                &&& after->0.lock == Some(recoverable_signature(key@, message->Ok_0))
                &&& after->0.lock->0.len() == 65
                &&& before is Some ==> after->0.input_type == before->0.input_type
                    && after->0.output_type == before->0.output_type
                &&& before is None ==> after->0.input_type is None && after->0.output_type is None
            }
        },
{
    assert(locks.len() == locks@.len());
    let owner = owner_of(key@);
    let all = scripts(locks@);
    let groups = signing_groups(all, owner);
    lemma_owned_group(owned, locks@, owner);
    if owned.len() > 0 {
        reveal_with_fuel(signed_witnesses, 2);
        assert(zero_lock() =~= Seq::new(65, |i: int| 0u8));
        let first = owned[0] as int;
        assert(groups[0].input_indices[0] == first);
        assert(all_can_sign(key@, tx@.witnesses, all) <==> can_sign(tx@.witnesses, first));
        if r is Ok {
            let signed = r->Ok_0@;
            assert(carries_signatures(key@, tx@, all, signed));
            assert(groups[0].input_indices == owned);
            assert(group_message(tx@, groups[0]) is Ok);
            assert forall|i: int|
                0 <= i < signed.witnesses.len()
                    && i != first implies #[trigger] signed.witnesses[i] == tx@.witnesses[i] by {
                assert(!is_first_input(groups, groups.len() as int, i));
            }
        }
    }
}

/// Whether two outcomes agree: the same transaction, or the same message.
pub open spec fn agree(
    step: Result<SigningStep, RpcError>,
    direct: Result<Transaction, RpcError>,
) -> bool {
    match direct {
        Ok(tx) => step is Ok && step->Ok_0 is Signed && step->Ok_0->Signed_0.signed_funding_tx@
            == tx@,
        Err(e) => step is Err && step->Err_0.message@ == e.message@,
    }
}

/// Signing starts with the look-up for the first input, with nothing resolved yet. Where there are
/// no inputs, it ends as signing without lock scripts does.
pub proof fn law_start(
    key: PrivateKey,
    tx: Transaction,
    inputs: &Vec<OutPoint>,
    r: Result<SigningStep, RpcError>,
    none: Vec<Script>,
    direct: Result<Transaction, RpcError>,
)
    requires
        call_ensures(Transaction::inputs, (&tx,), inputs),
        call_ensures(FundingTxSigner::start, (key, tx), r),
        none@.len() == 0,
        call_ensures(sign_inputs, (&key, tx, &none), direct),
    ensures
        inputs@.len() > 0 ==> {
            &&& r is Ok
            &&& r->Ok_0 is Lookup
            &&& r->Ok_0->Lookup_0@.key == key@
            &&& r->Ok_0->Lookup_0@.tx == tx@
            &&& r->Ok_0->Lookup_0@.locks.len() == 0
        },
        inputs@.len() == 0 ==> agree(r, direct),
{
    assert(out_points(inputs@).len() == inputs@.len());
    assert(scripts(none@) =~= Seq::<ScriptView>::empty());
}

/// A signer asks for the output of the first input that is not resolved. An answer that holds the
/// output resolves the input with its lock script: then comes the look-up for the next input, or,
/// after the last one, what signing with all the lock scripts gives. `locks` are the lock scripts
/// that are known after the answer.
pub proof fn law_resume(
    signer: FundingTxSigner,
    inputs: Seq<(Seq<u8>, u32)>,
    asked: OutPoint,
    outputs: Vec<Script>,
    r: Result<SigningStep, RpcError>,
    key: PrivateKey,
    tx: Transaction,
    locks: Vec<Script>,
    direct: Result<Transaction, RpcError>,
)
    requires
        transaction_inputs(signer@.tx.raw) == Some(inputs),
        call_ensures(FundingTxSigner::request, (&signer,), asked),
        asked.index < outputs@.len(),
        call_ensures(FundingTxSigner::resume, (signer, Ok(Some(outputs))), r),
        key@ == signer@.key,
        tx@ == signer@.tx,
        locks@.len() == signer@.locks.len() + 1,
        forall|i: int| 0 <= i < signer@.locks.len() ==> (#[trigger] locks@[i])@ == signer@.locks[i],
        locks@.last()@ == outputs@[asked.index as int]@,
        call_ensures(sign_inputs, (&key, tx, &locks), direct),
    ensures
        signer@.locks.len() < inputs.len(),
        asked.tx_hash.0@ == inputs[signer@.locks.len() as int].0,
        asked.index == inputs[signer@.locks.len() as int].1,
        locks@.len() < inputs.len() ==> {
            &&& r is Ok
            &&& r->Ok_0 is Lookup
            &&& r->Ok_0->Lookup_0@.key == signer@.key
            &&& r->Ok_0->Lookup_0@.tx == signer@.tx
            &&& r->Ok_0->Lookup_0@.locks.len() == locks@.len()
            &&& forall|i: int|
                0 <= i < locks@.len() ==> (#[trigger] r->Ok_0->Lookup_0@.locks[i]) == locks@[i]@
        },
        locks@.len() == inputs.len() ==> agree(r, direct),
{
    let lock = outputs@[asked.index as int]@;
    assert(scripts(outputs@).len() == outputs@.len());
    assert(scripts(outputs@)[asked.index as int] == lock);
    assert(scripts(locks@) =~= signer@.locks.push(lock));
}

/// Without the output, the call ends with a message that names the input and what is missing.
pub proof fn law_lookup_failures(
    input: usize,
    output: OutPoint,
    answer: Result<Option<Vec<Script>>, String>,
    r: Result<Script, RpcError>,
)
    requires
        call_ensures(resolve_lock, (input, output, answer), r),
    ensures
        match answer {
            Err(fault) => r is Err && r->Err_0.message@
                == "failed to fetch previous transaction: "@ + fault@,
            Ok(None) => r is Err && r->Err_0.message@
                == "previous transaction not found for input "@ + decimal(input as nat) + ": "@
                + hex_text(output.tx_hash.0@),
            Ok(Some(outputs)) => if output.index < outputs@.len() {
                &&& r is Ok
                &&& r->Ok_0.code_hash == outputs@[output.index as int].code_hash
                &&& r->Ok_0.hash_type == outputs@[output.index as int].hash_type
                &&& r->Ok_0.args@ == outputs@[output.index as int].args@
            } else {
                r is Err && r->Err_0.message@ == "previous output index "@ + decimal(
                    output.index as nat,
                ) + " out of bounds for input "@ + decimal(input as nat)
            },
        },
{
    if answer is Ok && answer->Ok_0 is Some {
        let outputs = answer->Ok_0->0;
        assert(scripts(outputs@).len() == outputs@.len());
        if output.index < outputs@.len() {
            assert(scripts(outputs@)[output.index as int] == outputs@[output.index as int]@);
        }
    }
}

/// A signer fails on an answer exactly as the look-up in that answer does.
pub proof fn law_resume_fails(
    signer: FundingTxSigner,
    asked: OutPoint,
    input: usize,
    answer: Result<Option<Vec<Script>>, String>,
    lock: Result<Script, RpcError>,
    r: Result<SigningStep, RpcError>,
)
    requires
        call_ensures(FundingTxSigner::request, (&signer,), asked),
        input == signer@.locks.len(),
        call_ensures(resolve_lock, (input, asked, answer), lock),
        lock is Err,
        call_ensures(FundingTxSigner::resume, (signer, answer), r),
    ensures
        r is Err,
        r->Err_0.message@ == lock->Err_0.message@,
{
}

/// A signature goes into the witness of its input as signing that witness alone does, where a
/// missing witness counts as empty. Missing witnesses before it become empty ones, and all others
/// stay.
pub proof fn law_signature_placed(
    before: Vec<Vec<u8>>,
    input: usize,
    signature: Vec<u8>,
    after: Vec<Vec<u8>>,
    witness: &[u8],
    signed: Vec<u8>,
)
    requires
        exists|m: &mut Vec<Vec<u8>>| #[trigger]
            call_ensures(place_signature, (m, input, signature), ()) && *m == before && *final(m)
                == after,
        if input < before@.len() {
            witness@ == before@[input as int]@
        } else {
            witness@.len() == 0
        },
        call_ensures(sign_witness, (witness, signature), signed),
    ensures
        after@.len() == if input < before@.len() {
            before@.len() as int
        } else {
            input + 1
        },
        after@[input as int]@ == signed@,
        forall|i: int|
            0 <= i < before@.len() && i != input ==> (#[trigger] after@[i])@ == before@[i]@,
        forall|i: int| before@.len() <= i < input ==> (#[trigger] after@[i])@.len() == 0,
{
    let (b, a) = (byte_strings(before@), byte_strings(after@));
    assert(b.len() == before@.len() && a.len() == after@.len());
    assert(a == placed(b, input as int, signature@));
    if input >= before@.len() {
        assert(witness@ =~= Seq::<u8>::empty());
    } else {
        assert(b[input as int] == before@[input as int]@);
    }
    assert(a[input as int] == after@[input as int]@);
    assert forall|i: int| 0 <= i < before@.len() && i != input implies (#[trigger] after@[i])@
        == before@[i]@ by {
        assert(a[i] == after@[i]@);
        assert(b[i] == before@[i]@);
    }
    assert forall|i: int| before@.len() <= i < input implies (#[trigger] after@[i])@.len() == 0 by {
        assert(a[i] == after@[i]@);
    }
}

/// Appending empty witnesses keeps those that there are, and stops once the one at `input` exists.
pub proof fn law_witnesses_padded(before: Vec<Vec<u8>>, input: usize, after: Vec<Vec<u8>>)
    requires
        exists|m: &mut Vec<Vec<u8>>| #[trigger]
            call_ensures(pad_witnesses, (m, input), ()) && *m == before && *final(m) == after,
    ensures
        after@.len() == if input < before@.len() {
            before@.len() as int
        } else {
            input + 1
        },
        forall|i: int| 0 <= i < before@.len() ==> (#[trigger] after@[i])@ == before@[i]@,
        forall|i: int| before@.len() <= i <= input ==> (#[trigger] after@[i])@.len() == 0,
{
    let (b, a) = (byte_strings(before@), byte_strings(after@));
    assert(b.len() == before@.len() && a.len() == after@.len());
    assert forall|i: int| 0 <= i < before@.len() implies (#[trigger] after@[i])@ == before@[i]@ by {
        assert(a[i] == after@[i]@);
        assert(b[i] == before@[i]@);
    }
    assert forall|i: int| before@.len() <= i <= input implies (#[trigger] after@[i])@.len() == 0 by {
        assert(a[i] == after@[i]@);
    }
}

} // verus!
