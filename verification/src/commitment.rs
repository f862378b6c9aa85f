//! The commitment transactions that a node knows.

use crate::chain::Hash256;
use crate::transaction::Transaction;
#[allow(unused_imports)]
use crate::transaction::TransactionView;
use vstd::prelude::*;

verus! {

struct Entry {
    channel_id: Hash256,
    commitment_number: u64,
    tx: Transaction,
}

/// Whether the entry at `i` is that of the key.
spec fn holds(entries: Seq<Entry>, key: (Hash256, u64), i: int) -> bool {
    &&& 0 <= i < entries.len()
    &&& entries[i].channel_id == key.0
    &&& entries[i].commitment_number == key.1
}

/// Whether no key has two entries.
spec fn unique(entries: Seq<Entry>) -> bool {
    forall|key: (Hash256, u64), i: int, j: int|
        holds(entries, key, i) && holds(entries, key, j) ==> i == j
}

/// The transactions of the entries by their keys.
spec fn contents(entries: Seq<Entry>) -> Map<(Hash256, u64), TransactionView> {
    Map::new(
        |key: (Hash256, u64)| exists|i: int| holds(entries, key, i),
        |key: (Hash256, u64)| entries[choose|i: int| holds(entries, key, i)].tx@,
    )
}

/// Commitment transactions by channel and commitment number.
pub struct CommitmentTransactions {
    entries: Vec<Entry>,
}

impl View for CommitmentTransactions {
    type V = Map<(Hash256, u64), TransactionView>;

    closed spec fn view(&self) -> Map<(Hash256, u64), TransactionView> {
        contents(self.entries@)
    }
}

/// Finds the entry of a key.
fn position(entries: &Vec<Entry>, channel_id: &Hash256, commitment_number: u64) -> (r: Option<
    usize,
>)
    ensures
        r matches Some(i) ==> holds(entries@, (*channel_id, commitment_number), i as int),
        r is None ==> forall|i: int| !holds(entries@, (*channel_id, commitment_number), i),
{
    let mut i: usize = 0;
    while i < entries.len()
        invariant
            i <= entries.len(),
            forall|j: int| 0 <= j < i ==> !holds(entries@, (*channel_id, commitment_number), j),
        decreases entries.len() - i,
    {
        if entries[i].commitment_number == commitment_number && entries[i].channel_id.same(
            channel_id,
        ) {
            return Some(i);
        }
        i += 1;
    }
    None
}

/// Putting the entry of a key in place of its earlier one, or at the end where it has none,
/// changes the contents at that key alone.
proof fn lemma_put(before: Seq<Entry>, after: Seq<Entry>, key: (Hash256, u64), at: int)
    requires
        unique(before),
        holds(after, key, at),
        if at < before.len() {
            holds(before, key, at) && after == before.update(at, after[at])
        } else {
            after == before.push(after[at]) && forall|i: int| !holds(before, key, i)
        },
    ensures
        unique(after),
        contents(after) == contents(before).insert(key, after[at].tx@),
{
    let expected = contents(before).insert(key, after[at].tx@);
    assert forall|k: (Hash256, u64), i: int| k != key implies holds(after, k, i) == holds(
        before,
        k,
        i,
    ) by {}
    assert forall|i: int| holds(after, key, i) implies i == at by {
        if i != at {
            assert(holds(before, key, i));
        }
    }
    assert forall|k: (Hash256, u64), i: int, j: int|
        holds(after, k, i) && holds(after, k, j) implies i == j by {
        if k != key {
            assert(holds(before, k, i) && holds(before, k, j));
        }
    }
    assert forall|k: (Hash256, u64)| #[trigger]
        contents(after).contains_key(k) == expected.contains_key(k) by {
        if k != key {
            if contents(before).contains_key(k) {
                let i = choose|i: int| holds(before, k, i);
                assert(holds(after, k, i));
            }
            if contents(after).contains_key(k) {
                let i = choose|i: int| holds(after, k, i);
                assert(holds(before, k, i));
            }
        }
    }
    assert forall|k: (Hash256, u64)| contents(after).contains_key(k) implies #[trigger] contents(
        after,
    )[k] == expected[k] by {
        let i = choose|i: int| holds(after, k, i);
        if k != key {
            assert(holds(before, k, i));
            let j = choose|j: int| holds(before, k, j);
            assert(i == j);
        }
    }
    assert(contents(after) =~= expected);
}

impl CommitmentTransactions {
    /// No channel has two transactions with the same commitment number.
    #[verifier::type_invariant]
    spec fn inv(self) -> bool {
        unique(self.entries@)
    }

    /// No transactions at all.
    pub fn new() -> (r: CommitmentTransactions)
        ensures
            r@ == Map::<(Hash256, u64), TransactionView>::empty(),
    {
        let r = CommitmentTransactions { entries: Vec::new() };
        assert(r@ =~= Map::<(Hash256, u64), TransactionView>::empty());
        r
    }

    /// Records a transaction, in place of an earlier one for the same channel and number.
    pub fn insert(&mut self, channel_id: Hash256, commitment_number: u64, tx: Transaction)
        ensures
            final(self)@ == old(self)@.insert((channel_id, commitment_number), tx@),
    {
        proof {
            use_type_invariant(&*self);
        }
        let mut entries: Vec<Entry> = Vec::new();
        std::mem::swap(&mut entries, &mut self.entries);
        let ghost before = entries@;
        let found = position(&entries, &channel_id, commitment_number);
        let entry = Entry { channel_id, commitment_number, tx };
        match found {
            Some(i) => {
                entries.set(i, entry);
                proof {
                    lemma_put(before, entries@, (channel_id, commitment_number), i as int);
                }
            },
            None => {
                entries.push(entry);
                proof {
                    lemma_put(
                        before,
                        entries@,
                        (channel_id, commitment_number),
                        before.len() as int,
                    );
                }
            },
        }
        self.entries = entries;
    }

    /// The transaction of a channel with a commitment number, if it is known.
    pub fn get(&self, channel_id: &Hash256, commitment_number: u64) -> (r: Option<&Transaction>)
        ensures
            r is Some <==> self@.contains_key((*channel_id, commitment_number)),
            r matches Some(tx) ==> self@[(*channel_id, commitment_number)] == tx@,
    {
        proof {
            use_type_invariant(self);
        }
        match position(&self.entries, channel_id, commitment_number) {
            Some(i) => {
                proof {
                    let key = (*channel_id, commitment_number);
                    let j = choose|j: int| holds(self.entries@, key, j);
                    assert(holds(self.entries@, key, i as int) && holds(self.entries@, key, j));
                }
                Some(&self.entries[i].tx)
            },
            None => None,
        }
    }
}

/// Once a transaction is recorded, [`CommitmentTransactions::get`] finds it for its channel and
/// number, and for every other channel and number it finds what it found before.
pub proof fn law_recorded_found(
    before: CommitmentTransactions,
    after: CommitmentTransactions,
    channel_id: Hash256,
    commitment_number: u64,
    tx: Transaction,
    other_id: Hash256,
    other_number: u64,
    found_before: Option<&Transaction>,
    found_after: Option<&Transaction>,
)
    requires
        after@ == before@.insert((channel_id, commitment_number), tx@),
        call_ensures(
            CommitmentTransactions::get,
            (&before, &other_id, other_number),
            found_before,
        ),
        call_ensures(CommitmentTransactions::get, (&after, &other_id, other_number), found_after),
    ensures
        other_id == channel_id && other_number == commitment_number ==> found_after is Some
            && found_after->0@ == tx@,
        other_id != channel_id || other_number != commitment_number ==> {
            &&& found_after is Some <==> found_before is Some
            &&& found_after is Some ==> found_after->0@ == found_before->0@
        },
{
}

/// After a call of [`CommitmentTransactions::insert`], [`CommitmentTransactions::get`] finds the
/// transaction for its channel and number, and for every other channel and number it finds what it found before.
pub proof fn law_insert_found(
    before: CommitmentTransactions,
    after: CommitmentTransactions,
    channel_id: Hash256,
    commitment_number: u64,
    tx: Transaction,
    other_id: Hash256,
    other_number: u64,
    found_before: Option<&Transaction>,
    found_after: Option<&Transaction>,
)
    requires
        exists|m: &mut CommitmentTransactions| #[trigger]
            call_ensures(
                CommitmentTransactions::insert,
                (m, channel_id, commitment_number, tx),
                (),
            ) && *m == before && *final(m) == after,
        call_ensures(
            CommitmentTransactions::get,
            (&before, &other_id, other_number),
            found_before,
        ),
        call_ensures(CommitmentTransactions::get, (&after, &other_id, other_number), found_after),
    ensures
        other_id == channel_id && other_number == commitment_number ==> found_after is Some
            && found_after->0@ == tx@,
        other_id != channel_id || other_number != commitment_number ==> {
            &&& found_after is Some <==> found_before is Some
            &&& found_after is Some ==> found_after->0@ == found_before->0@
        },
{
}

/// Nothing is found before anything is recorded.
pub proof fn law_nothing_recorded(
    empty: CommitmentTransactions,
    channel_id: Hash256,
    commitment_number: u64,
    found: Option<&Transaction>,
)
    requires
        call_ensures(CommitmentTransactions::new, (), empty),
        call_ensures(
            CommitmentTransactions::get,
            (&empty, &channel_id, commitment_number),
            found,
        ),
    ensures
        found is None,
{
}

} // verus!
