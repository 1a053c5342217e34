//! The contribution ledger: at most one entry per participant, and the sum of
//! all entries.

use crate::account::AccountId;
use crate::units::lemma_share_bounds;
use crate::units::lemma_share_superadditive;
use crate::units::share;
use vstd::prelude::*;

verus! {

/// One participant's cumulative contribution.
#[derive(Clone, Copy, Debug, PartialEq, Eq, Structural)]
pub struct Entry {
    pub who: AccountId,
    pub amount: u64,
}

/// No participant occurs twice.
pub open spec fn distinct(s: Seq<Entry>) -> bool {
    forall|i: int, j: int| 0 <= i < j < s.len() ==> (#[trigger] s[i]).who != (#[trigger] s[j]).who
}

/// Whether `who` has an entry.
pub open spec fn holds(s: Seq<Entry>, who: AccountId) -> bool {
    exists|i: int| 0 <= i < s.len() && (#[trigger] s[i]).who == who
}

/// The place of `who`'s entry, where there is one.
pub open spec fn place_of(s: Seq<Entry>, who: AccountId) -> int {
    choose|i: int| 0 <= i < s.len() && (#[trigger] s[i]).who == who
}

/// The entries as a map from participant to amount.
pub open spec fn as_map(s: Seq<Entry>) -> Map<AccountId, u64> {
    Map::new(|k: AccountId| holds(s, k), |k: AccountId| s[place_of(s, k)].amount)
}

/// The sum of all amounts.
pub open spec fn total_of(s: Seq<Entry>) -> int
    decreases s.len(),
{
    if s.len() == 0 {
        0
    } else {
        total_of(s.drop_last()) + s.last().amount
    }
}

/// The sum, over all entries, of each entry's rounded-down share
/// `amount * numer / denom`.
pub open spec fn shares_of(s: Seq<Entry>, numer: int, denom: int) -> int
    decreases s.len(),
{
    if s.len() == 0 {
        0
    } else {
        shares_of(s.drop_last(), numer, denom) + share(s.last().amount as int, numer, denom)
    }
}

/// In a ledger without repeats, an entry found at `i` is the entry of its
/// participant.
pub proof fn lemma_place(s: Seq<Entry>, i: int)
    requires
        distinct(s),
        0 <= i < s.len(),
    ensures
        holds(s, s[i].who),
        place_of(s, s[i].who) == i,
        as_map(s).contains_key(s[i].who),
        as_map(s)[s[i].who] == s[i].amount,
{
    let who = s[i].who;
    assert(s[i].who == who);
    let p = place_of(s, who);
    assert(0 <= p < s.len() && s[p].who == who);
    if p < i {
        assert(s[p].who != s[i].who);
    } else if i < p {
        assert(s[i].who != s[p].who);
    }
}

/// The sum is never negative and every entry is at most the sum.
pub proof fn lemma_total_bounds(s: Seq<Entry>, i: int)
    requires
        0 <= i < s.len(),
    ensures
        0 <= s[i].amount <= total_of(s),
    decreases s.len(),
{
    lemma_total_nonnegative(s.drop_last());
    if i < s.len() - 1 {
        lemma_total_bounds(s.drop_last(), i);
    }
}

/// The sum is never negative.
pub proof fn lemma_total_nonnegative(s: Seq<Entry>)
    ensures
        0 <= total_of(s),
    decreases s.len(),
{
    if s.len() > 0 {
        lemma_total_nonnegative(s.drop_last());
    }
}

/// Appending an entry adds its amount to the sum.
pub proof fn lemma_total_push(s: Seq<Entry>, e: Entry)
    ensures
        total_of(s.push(e)) == total_of(s) + e.amount,
{
    assert(s.push(e).drop_last() =~= s);
}

/// Replacing an entry changes the sum by the difference of the amounts.
pub proof fn lemma_total_update(s: Seq<Entry>, i: int, e: Entry)
    requires
        0 <= i < s.len(),
    ensures
        total_of(s.update(i, e)) == total_of(s) - s[i].amount + e.amount,
    decreases s.len(),
{
    let t = s.update(i, e);
    if i == s.len() - 1 {
        assert(t.drop_last() =~= s.drop_last());
    } else {
        assert(t.drop_last() =~= s.drop_last().update(i, e));
        lemma_total_update(s.drop_last(), i, e);
    }
}

/// Taking an entry out takes its amount out of the sum.
pub proof fn lemma_total_remove(s: Seq<Entry>, i: int)
    requires
        0 <= i < s.len(),
    ensures
        total_of(s.remove(i)) == total_of(s) - s[i].amount,
    decreases s.len(),
{
    let t = s.remove(i);
    if i == s.len() - 1 {
        assert(t =~= s.drop_last());
    } else {
        assert(t.drop_last() =~= s.drop_last().remove(i));
        assert(t.last() == s.last());
        lemma_total_remove(s.drop_last(), i);
    }
}

/// The sum of the first `n` entries is at most the sum of all.
pub proof fn lemma_total_prefix(s: Seq<Entry>, n: int)
    requires
        0 <= n <= s.len(),
    ensures
        0 <= total_of(s.take(n)) <= total_of(s),
    decreases s.len() - n,
{
    lemma_total_nonnegative(s.take(n));
    if n == s.len() {
        assert(s.take(n) =~= s);
    } else {
        lemma_total_prefix(s, n + 1);
        assert(s.take(n + 1).drop_last() =~= s.take(n));
    }
}

/// The rounded-down shares of all entries together never exceed the
/// rounded-down share of the sum: rounding remainders are never handed out.
pub proof fn lemma_shares_bounded(s: Seq<Entry>, numer: int, denom: int)
    requires
        0 <= numer,
    ensures
        0 <= shares_of(s, numer, denom) <= share(total_of(s), numer, denom),
    decreases s.len(),
{
    if s.len() > 0 {
        lemma_shares_bounded(s.drop_last(), numer, denom);
        lemma_total_nonnegative(s.drop_last());
        lemma_share_superadditive(
            total_of(s.drop_last()),
            s.last().amount as int,
            numer,
            denom,
        );
        lemma_share_bounds(s.last().amount as int, numer, denom);
    } else {
        lemma_share_bounds(0, numer, denom);
    }
}

/// The amount recorded for `who`, 0 where there is no entry.
pub open spec fn amount_of(s: Seq<Entry>, who: AccountId) -> int {
    if holds(s, who) {
        s[place_of(s, who)].amount as int
    } else {
        0
    }
}

/// The entries after `amount` has been added for `who`: the entry is raised
/// where there is one, and appended where there is none.
pub open spec fn credited(s: Seq<Entry>, who: AccountId, amount: u64) -> Seq<Entry> {
    if holds(s, who) {
        let p = place_of(s, who);
        s.update(p, Entry { who, amount: (s[p].amount + amount) as u64 })
    } else {
        s.push(Entry { who, amount })
    }
}

/// The entries after `who`'s entry has been taken out.
pub open spec fn without(s: Seq<Entry>, who: AccountId) -> Seq<Entry> {
    if holds(s, who) {
        s.remove(place_of(s, who))
    } else {
        s
    }
}

/// What crediting does: the map gains or raises one key, every other key is
/// untouched, and the sum grows by the amount.
pub proof fn lemma_credited(s: Seq<Entry>, who: AccountId, amount: u64)
    requires
        distinct(s),
        total_of(s) + amount <= u64::MAX,
    ensures
        distinct(credited(s, who, amount)),
        total_of(credited(s, who, amount)) == total_of(s) + amount,
        amount_of(credited(s, who, amount), who) == amount_of(s, who) + amount,
        as_map(credited(s, who, amount)) == as_map(s).insert(
            who,
            (amount_of(s, who) + amount) as u64,
        ),
        forall|k: AccountId|
            k != who ==> amount_of(credited(s, who, amount), k) == amount_of(s, k),
        forall|k: AccountId| holds(credited(s, who, amount), k) == (k == who || holds(s, k)),
{
    let after = credited(s, who, amount);
    if holds(s, who) {
        let i = place_of(s, who);
        lemma_place(s, i);
        lemma_total_bounds(s, i);
        let updated = Entry { who, amount: (s[i].amount + amount) as u64 };
        assert(after == s.update(i, updated));
        lemma_total_update(s, i, updated);
        assert(distinct(after)) by {
            assert forall|a: int, b: int| 0 <= a < b < after.len() implies (#[trigger] after[a]).who
                != (#[trigger] after[b]).who by {
                assert(s[a].who != s[b].who);
            }
        }
        assert forall|k: AccountId| holds(after, k) == holds(s, k) by {
            if holds(s, k) {
                let p = place_of(s, k);
                assert(after[p].who == k);
            }
            if holds(after, k) {
                let p = place_of(after, k);
                assert(s[p].who == k);
            }
        }
        assert forall|k: AccountId| holds(after, k) implies as_map(after)[k] == (if k == who {
            updated.amount
        } else {
            as_map(s)[k]
        }) by {
            let p = place_of(after, k);
            lemma_place(after, p);
            lemma_place(s, p);
        }
        assert(as_map(after) =~= as_map(s).insert(who, updated.amount));
    } else {
        let added = Entry { who, amount };
        assert(after == s.push(added));
        lemma_total_push(s, added);
        lemma_total_nonnegative(s);
        assert(distinct(after)) by {
            assert forall|a: int, b: int| 0 <= a < b < after.len() implies (#[trigger] after[a]).who
                != (#[trigger] after[b]).who by {
                if b < s.len() {
                    assert(s[a].who != s[b].who);
                } else {
                    assert(s[a].who != who);
                }
            }
        }
        assert forall|k: AccountId| holds(after, k) == (k == who || holds(s, k)) by {
            if holds(s, k) {
                let p = place_of(s, k);
                assert(after[p].who == k);
            }
            if k == who {
                assert(after[s.len() as int].who == k);
            }
            if holds(after, k) && k != who {
                let p = place_of(after, k);
                assert(s[p].who == k);
            }
        }
        assert forall|k: AccountId| holds(after, k) implies as_map(after)[k] == (if k == who {
            amount
        } else {
            as_map(s)[k]
        }) by {
            let p = place_of(after, k);
            lemma_place(after, p);
            if k != who {
                lemma_place(s, p);
            }
        }
        assert(as_map(after) =~= as_map(s).insert(who, amount));
    }
    assert(holds(after, who));
    assert(as_map(after)[who] == (amount_of(s, who) + amount) as u64);
    assert forall|k: AccountId| k != who implies amount_of(after, k) == amount_of(s, k) by {
        assert(as_map(after).contains_key(k) == as_map(s).contains_key(k));
        if holds(s, k) {
            assert(as_map(after)[k] == as_map(s)[k]);
        }
    }
}

/// What taking out does: the key leaves the map, every other key is
/// untouched, and the sum falls by what was recorded.
pub proof fn lemma_without(s: Seq<Entry>, who: AccountId)
    requires
        distinct(s),
    ensures
        distinct(without(s, who)),
        total_of(without(s, who)) == total_of(s) - amount_of(s, who),
        as_map(without(s, who)) == as_map(s).remove(who),
        !holds(without(s, who), who),
        amount_of(without(s, who), who) == 0,
        forall|k: AccountId| k != who ==> amount_of(without(s, who), k) == amount_of(s, k),
        forall|k: AccountId| holds(without(s, who), k) == (k != who && holds(s, k)),
{
    let after = without(s, who);
    if holds(s, who) {
        let i = place_of(s, who);
        lemma_place(s, i);
        assert(after == s.remove(i));
        lemma_total_remove(s, i);
        assert(distinct(after)) by {
            assert forall|a: int, b: int| 0 <= a < b < after.len() implies (#[trigger] after[a]).who
                != (#[trigger] after[b]).who by {
                let a0 = if a < i { a } else { a + 1 };
                let b0 = if b < i { b } else { b + 1 };
                assert(s[a0].who != s[b0].who);
            }
        }
        assert forall|k: AccountId| holds(after, k) == (k != who && holds(s, k)) by {
            if holds(s, k) && k != who {
                let p = place_of(s, k);
                let q = if p < i { p } else { p - 1 };
                assert(after[q].who == k);
            }
            if holds(after, k) {
                let q = place_of(after, k);
                let p = if q < i { q } else { q + 1 };
                assert(s[p].who == k);
                if k == who {
                    lemma_place(s, p);
                }
            }
        }
        assert forall|k: AccountId| holds(after, k) implies as_map(after)[k] == as_map(s)[k] by {
            let q = place_of(after, k);
            let p = if q < i { q } else { q + 1 };
            lemma_place(after, q);
            lemma_place(s, p);
        }
        assert(as_map(after) =~= as_map(s).remove(who));
    } else {
        assert(as_map(after) =~= as_map(s).remove(who));
    }
    assert forall|k: AccountId| k != who implies amount_of(after, k) == amount_of(s, k) by {
        assert(as_map(after).contains_key(k) == as_map(s).contains_key(k));
        if holds(s, k) {
            assert(as_map(after)[k] == as_map(s)[k]);
        }
    }
}

/// The contribution ledger.
pub struct Ledger {
    entries: Vec<Entry>,
}

impl View for Ledger {
    type V = Map<AccountId, u64>;

    open spec fn view(&self) -> Map<AccountId, u64> {
        as_map(self.entries())
    }
}

impl Ledger {
    /// The entries, in the order in which they are kept.
    pub closed spec fn entries(&self) -> Seq<Entry> {
        self.entries@
    }

    /// At most one entry per participant.
    pub open spec fn wf(&self) -> bool {
        distinct(self.entries())
    }

    /// The sum of all live entries.
    pub open spec fn total(&self) -> int {
        total_of(self.entries())
    }

    /// The amount recorded for `who`, 0 where there is no entry.
    pub open spec fn balance_of(&self, who: AccountId) -> int {
        amount_of(self.entries(), who)
    }

    /// An empty ledger.
    pub fn new() -> (r: Ledger)
        ensures
            r.wf(),
            r.entries() == Seq::<Entry>::empty(),
            r@ == Map::<AccountId, u64>::empty(),
            r.total() == 0,
    {
        let r = Ledger { entries: Vec::new() };
        assert(r@ =~= Map::<AccountId, u64>::empty());
        r
    }

    /// The place of `who`'s entry.
    fn find(&self, who: AccountId) -> (r: Option<usize>)
        requires
            self.wf(),
        ensures
            match r {
                Some(i) => i < self.entries().len() && holds(self.entries(), who) && i
                    == place_of(self.entries(), who),
                None => !holds(self.entries(), who),
            },
    {
        let mut i: usize = 0;
        while i < self.entries.len()
            invariant
                self.wf(),
                i <= self.entries.len(),
                forall|j: int| 0 <= j < i ==> (#[trigger] self.entries@[j]).who != who,
            decreases self.entries.len() - i,
        {
            if self.entries[i].who.same(&who) {
                proof {
                    lemma_place(self.entries(), i as int);
                }
                return Some(i);
            }
            i += 1;
        }
        None
    }

    /// The amount recorded for `who`, if there is an entry.
    pub fn get(&self, who: AccountId) -> (r: Option<u64>)
        requires
            self.wf(),
        ensures
            r == (if self@.contains_key(who) {
                Some(self@[who])
            } else {
                None
            }),
            r is Some ==> r->0 == self.balance_of(who) && r->0 <= self.total(),
            r is None ==> self.balance_of(who) == 0,
    {
        match self.find(who) {
            Some(i) => {
                proof {
                    lemma_total_bounds(self.entries(), i as int);
                }
                Some(self.entries[i].amount)
            },
            None => None,
        }
    }

    /// Whether `who` has an entry.
    pub fn contains(&self, who: AccountId) -> (r: bool)
        requires
            self.wf(),
        ensures
            r == self@.contains_key(who),
    {
        self.find(who).is_some()
    }

    /// The number of entries.
    pub fn len(&self) -> (r: usize)
        ensures
            r == self.entries().len(),
    {
        self.entries.len()
    }

    /// Adds `amount` to `who`'s entry, creating the entry where there is none.
    pub fn credit(&mut self, who: AccountId, amount: u64)
        requires
            old(self).wf(),
            old(self).total() + amount <= u64::MAX,
        ensures
            final(self).wf(),
            final(self).entries() == credited(old(self).entries(), who, amount),
            final(self)@ == old(self)@.insert(who, (old(self).balance_of(who) + amount) as u64),
            final(self).total() == old(self).total() + amount,
    {
        proof {
            lemma_credited(self.entries(), who, amount);
        }
        match self.find(who) {
            Some(i) => {
                proof {
                    lemma_total_bounds(self.entries(), i as int);
                }
                let updated = Entry { who, amount: self.entries[i].amount + amount };
                self.entries.set(i, updated);
            },
            None => {
                self.entries.push(Entry { who, amount });
            },
        }
    }

    /// Takes `who`'s entry out and returns its amount.
    pub fn remove(&mut self, who: AccountId) -> (r: Option<u64>)
        requires
            old(self).wf(),
        ensures
            final(self).wf(),
            final(self).entries() == without(old(self).entries(), who),
            r == (if old(self)@.contains_key(who) {
                Some(old(self)@[who])
            } else {
                None
            }),
            final(self)@ == old(self)@.remove(who),
            final(self).total() == old(self).total() - old(self).balance_of(who),
    {
        proof {
            lemma_without(self.entries(), who);
        }
        match self.find(who) {
            Some(i) => {
                let taken = self.entries.remove(i);
                Some(taken.amount)
            },
            None => None,
        }
    }

    /// A ledger of the given entries, where no participant occurs twice.
    pub fn from_entries(entries: Vec<Entry>) -> (r: Option<Ledger>)
        ensures
            match r {
                Some(ledger) => distinct(entries@) && ledger.wf() && ledger.entries() == entries@,
                None => !distinct(entries@),
            },
    {
        let n = entries.len();
        let mut j: usize = 0;
        while j < n
            invariant
                n == entries.len(),
                j <= n,
                forall|a: int, b: int|
                    0 <= a < b < j ==> (#[trigger] entries@[a]).who != (#[trigger] entries@[b]).who,
            decreases n - j,
        {
            let mut i: usize = 0;
            while i < j
                invariant
                    n == entries.len(),
                    i <= j < n,
                    forall|a: int| 0 <= a < i ==> (#[trigger] entries@[a]).who != entries@[j as int].who,
                decreases j - i,
            {
                if entries[i].who.same(&entries[j].who) {
                    assert(entries@[i as int].who == entries@[j as int].who);
                    return None;
                }
                i += 1;
            }
            j += 1;
        }
        Some(Ledger { entries })
    }

    /// The entries, in the order in which they are kept.
    pub fn to_entries(&self) -> (r: Vec<Entry>)
        ensures
            r@ == self.entries(),
    {
        let mut out: Vec<Entry> = Vec::new();
        let mut i: usize = 0;
        while i < self.entries.len()
            invariant
                i <= self.entries.len(),
                out@ == self.entries@.take(i as int),
            decreases self.entries.len() - i,
        {
            out.push(self.entries[i]);
            assert(self.entries@.take(i + 1) =~= self.entries@.take(i as int).push(
                self.entries@[i as int],
            ));
            i += 1;
        }
        assert(self.entries@.take(self.entries@.len() as int) =~= self.entries@);
        out
    }

    /// The sum of all entries, `None` where it does not fit in 64 bits.
    pub fn sum(&self) -> (r: Option<u64>)
        ensures
            match r {
                Some(v) => v == self.total(),
                None => self.total() > u64::MAX,
            },
    {
        let mut acc: u64 = 0;
        let mut i: usize = 0;
        while i < self.entries.len()
            invariant
                i <= self.entries.len(),
                acc == total_of(self.entries@.take(i as int)),
            decreases self.entries.len() - i,
        {
            proof {
                assert(self.entries@.take(i + 1).drop_last() =~= self.entries@.take(i as int));
                lemma_total_prefix(self.entries@, i + 1);
            }
            let amount = self.entries[i].amount;
            if amount > u64::MAX - acc {
                return None;
            }
            acc = acc + amount;
            i += 1;
        }
        assert(self.entries@.take(self.entries@.len() as int) =~= self.entries@);
        Some(acc)
    }

    /// Whether every entry is at most `cap`.
    pub fn all_within(&self, cap: u64) -> (r: bool)
        ensures
            r == (forall|i: int|
                0 <= i < self.entries().len() ==> (#[trigger] self.entries()[i]).amount <= cap),
    {
        let mut i: usize = 0;
        while i < self.entries.len()
            invariant
                i <= self.entries.len(),
                forall|j: int| 0 <= j < i ==> (#[trigger] self.entries@[j]).amount <= cap,
            decreases self.entries.len() - i,
        {
            if self.entries[i].amount > cap {
                assert(self.entries()[i as int].amount > cap);
                return false;
            }
            i += 1;
        }
        true
    }

    /// The entry at `index`, in the order in which entries are kept.
    pub fn entry_at(&self, index: usize) -> (r: Option<Entry>)
        ensures
            r == (if index < self.entries().len() {
                Some(self.entries()[index as int])
            } else {
                None
            }),
    {
        if index < self.entries.len() {
            Some(self.entries[index])
        } else {
            None
        }
    }
}

} // verus!
