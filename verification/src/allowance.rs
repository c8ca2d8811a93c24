//! What owners let spenders move on their behalf, and until when.

use crate::text::clone_text;
use vstd::prelude::*;

verus! {

/// The height and the time of the block an invocation runs in.
#[derive(Clone, Copy, Debug, PartialEq, Eq, Structural)]
pub struct BlockInfo {
    pub height: u64,
    /// Nanoseconds since the epoch.
    pub time: u64,
}

/// When an allowance runs out.
#[derive(Clone, Copy, Debug, PartialEq, Eq, Structural)]
pub enum Expiration {
    /// With the block of this height.
    AtHeight(u64),
    /// With the first block at or after this time, in nanoseconds.
    AtTime(u64),
    /// Never.
    Never,
}

impl Expiration {
    /// Whether it has run out in `block`.
    pub open spec fn expired_at(self, block: BlockInfo) -> bool {
        match self {
            Expiration::AtHeight(height) => block.height >= height,
            Expiration::AtTime(time) => block.time >= time,
            Expiration::Never => false,
        }
    }

    /// Whether it has run out in `block`.
    pub fn is_expired(&self, block: &BlockInfo) -> (expired: bool)
        ensures
            expired == self.expired_at(*block),
    {
        match self {
            Expiration::AtHeight(height) => block.height >= *height,
            Expiration::AtTime(time) => block.time >= *time,
            Expiration::Never => false,
        }
    }
}

/// What one owner lets one spender move.
#[derive(Debug, PartialEq, Eq)]
pub struct Allowance {
    pub owner: String,
    pub spender: String,
    pub amount: u128,
    pub expires: Expiration,
}

/// Whether `entry` is what `owner` lets `spender` move.
pub open spec fn is_for(entry: Allowance, owner: Seq<char>, spender: Seq<char>) -> bool {
    entry.owner@ == owner && entry.spender@ == spender
}

/// What `owner` lets `spender` move according to `entries`: the amount and
/// the expiration of their entry, or nothing, never expiring, without one.
pub open spec fn allowance_in(entries: Seq<Allowance>, owner: Seq<char>, spender: Seq<char>) -> (
    nat,
    Expiration,
)
    decreases entries.len(),
{
    if entries.len() == 0 {
        (0, Expiration::Never)
    } else if is_for(entries.last(), owner, spender) {
        (entries.last().amount as nat, entries.last().expires)
    } else {
        allowance_in(entries.drop_last(), owner, spender)
    }
}

/// Whether no owner and spender have two entries.
pub open spec fn distinct_entries(entries: Seq<Allowance>) -> bool {
    forall|i: int, j: int|
        0 <= i < j < entries.len() ==> !is_for(entries[i], entries[j].owner@, entries[j].spender@)
}

proof fn lemma_no_entry(entries: Seq<Allowance>, owner: Seq<char>, spender: Seq<char>)
    requires
        forall|i: int| 0 <= i < entries.len() ==> !is_for(#[trigger] entries[i], owner, spender),
    ensures
        allowance_in(entries, owner, spender) == (0nat, Expiration::Never),
    decreases entries.len(),
{
    if entries.len() > 0 {
        assert(!is_for(entries[entries.len() - 1], owner, spender));
        assert forall|i: int| 0 <= i < entries.drop_last().len() implies !is_for(
            #[trigger] entries.drop_last()[i],
            owner,
            spender,
        ) by {
            assert(entries.drop_last()[i] == entries[i]);
        }
        lemma_no_entry(entries.drop_last(), owner, spender);
    }
}

proof fn lemma_entry(entries: Seq<Allowance>, i: int)
    requires
        distinct_entries(entries),
        0 <= i < entries.len(),
    ensures
        allowance_in(entries, entries[i].owner@, entries[i].spender@) == (
            entries[i].amount as nat,
            entries[i].expires,
        ),
    decreases entries.len(),
{
    if i < entries.len() - 1 {
        assert(entries.drop_last()[i] == entries[i]);
        assert(!is_for(entries[i], entries.last().owner@, entries.last().spender@));
        lemma_entry(entries.drop_last(), i);
    }
}

proof fn lemma_other_entry(
    entries: Seq<Allowance>,
    i: int,
    entry: Allowance,
    owner: Seq<char>,
    spender: Seq<char>,
)
    requires
        0 <= i < entries.len(),
        is_for(entry, entries[i].owner@, entries[i].spender@),
        !is_for(entry, owner, spender),
    ensures
        allowance_in(entries.update(i, entry), owner, spender) == allowance_in(
            entries,
            owner,
            spender,
        ),
    decreases entries.len(),
{
    let updated = entries.update(i, entry);
    if i == entries.len() - 1 {
        assert(updated.drop_last() =~= entries.drop_last());
    } else {
        assert(updated.drop_last() =~= entries.drop_last().update(i, entry));
        assert(entries.drop_last()[i] == entries[i]);
        lemma_other_entry(entries.drop_last(), i, entry, owner, spender);
    }
}

proof fn lemma_entry_replaced(entries: Seq<Allowance>, i: int, entry: Allowance)
    requires
        distinct_entries(entries),
        0 <= i < entries.len(),
        is_for(entry, entries[i].owner@, entries[i].spender@),
    ensures
        distinct_entries(entries.update(i, entry)),
        allowance_in(entries.update(i, entry), entry.owner@, entry.spender@) == (
            entry.amount as nat,
            entry.expires,
        ),
{
    let updated = entries.update(i, entry);
    assert forall|a: int, b: int| 0 <= a < b < updated.len() implies !is_for(
        updated[a],
        updated[b].owner@,
        updated[b].spender@,
    ) by {
        assert(updated[a].owner@ == entries[a].owner@ && updated[a].spender@
            == entries[a].spender@);
        assert(updated[b].owner@ == entries[b].owner@ && updated[b].spender@
            == entries[b].spender@);
        assert(!is_for(entries[a], entries[b].owner@, entries[b].spender@));
    }
    lemma_entry(updated, i);
}

/// All allowances. No owner and spender have two entries.
#[derive(Debug, PartialEq, Eq)]
pub struct Allowances {
    entries: Vec<Allowance>,
}

impl Allowances {
    #[verifier::type_invariant]
    spec fn sound(self) -> bool {
        distinct_entries(self.entries@)
    }

    /// What `owner` lets `spender` move, and until when; nothing, never
    /// expiring, where nothing was ever allowed.
    pub closed spec fn allowance_of(&self, owner: Seq<char>, spender: Seq<char>) -> (
        nat,
        Expiration,
    ) {
        allowance_in(self.entries@, owner, spender)
    }

    /// No allowances at all.
    pub fn new() -> (allowances: Allowances)
        ensures
            forall|owner: Seq<char>, spender: Seq<char>|
                #[trigger] allowances.allowance_of(owner, spender) == (0nat, Expiration::Never),
    {
        Allowances { entries: Vec::new() }
    }

    fn position(&self, owner: &String, spender: &String) -> (found: Option<usize>)
        ensures
            match found {
                Some(i) => i < self.entries@.len() && is_for(
                    self.entries@[i as int],
                    owner@,
                    spender@,
                ),
                None => forall|i: int|
                    0 <= i < self.entries@.len() ==> !is_for(
                        #[trigger] self.entries@[i],
                        owner@,
                        spender@,
                    ),
            },
    {
        let mut i: usize = 0;
        while i < self.entries.len()
            invariant
                i <= self.entries@.len(),
                forall|k: int|
                    0 <= k < i ==> !is_for(#[trigger] self.entries@[k], owner@, spender@),
            decreases self.entries@.len() - i,
        {
            if self.entries[i].owner == *owner && self.entries[i].spender == *spender {
                return Some(i);
            }
            i += 1;
        }
        None
    }

    /// What `owner` lets `spender` move, and until when.
    pub fn get(&self, owner: &String, spender: &String) -> (allowance: (u128, Expiration))
        ensures
            (allowance.0 as nat, allowance.1) == self.allowance_of(owner@, spender@),
    {
        proof {
            use_type_invariant(self);
        }
        match self.position(owner, spender) {
            Some(i) => {
                proof {
                    lemma_entry(self.entries@, i as int);
                }
                (self.entries[i].amount, self.entries[i].expires)
            },
            None => {
                proof {
                    lemma_no_entry(self.entries@, owner@, spender@);
                }
                (0, Expiration::Never)
            },
        }
    }

    /// Makes `amount`, until `expires`, what `owner` lets `spender` move.
    /// No other allowance changes.
    pub fn set(&mut self, owner: &String, spender: &String, amount: u128, expires: Expiration)
        ensures
            final(self).allowance_of(owner@, spender@) == (amount as nat, expires),
            forall|o: Seq<char>, s: Seq<char>|
                !(o == owner@ && s == spender@) ==> #[trigger] final(self).allowance_of(o, s)
                    == old(self).allowance_of(o, s),
    {
        proof {
            use_type_invariant(&*self);
        }
        let entry = Allowance {
            owner: clone_text(owner),
            spender: clone_text(spender),
            amount,
            expires,
        };
        match self.position(owner, spender) {
            Some(i) => {
                proof {
                    lemma_entry_replaced(self.entries@, i as int, entry);
                    assert forall|o: Seq<char>, s: Seq<char>| !(o == owner@ && s
                        == spender@) implies allowance_in(
                        self.entries@.update(i as int, entry),
                        o,
                        s,
                    ) == allowance_in(self.entries@, o, s) by {
                        lemma_other_entry(self.entries@, i as int, entry, o, s);
                    }
                }
                let mut entries: Vec<Allowance> = Vec::new();
                std::mem::swap(&mut self.entries, &mut entries);
                entries.set(i, entry);
                self.entries = entries;
            },
            None => {
                proof {
                    assert(self.entries@.push(entry).drop_last() =~= self.entries@);
                    assert forall|a: int, b: int|
                        0 <= a < b < self.entries@.push(entry).len() implies !is_for(
                        self.entries@.push(entry)[a],
                        self.entries@.push(entry)[b].owner@,
                        self.entries@.push(entry)[b].spender@,
                    ) by {
                        if b < self.entries@.len() {
                            assert(!is_for(
                                self.entries@[a],
                                self.entries@[b].owner@,
                                self.entries@[b].spender@,
                            ));
                        } else {
                            assert(!is_for(self.entries@[a], owner@, spender@));
                        }
                    }
                }
                let mut entries: Vec<Allowance> = Vec::new();
                std::mem::swap(&mut self.entries, &mut entries);
                entries.push(entry);
                self.entries = entries;
            },
        }
    }
}

} // verus!
