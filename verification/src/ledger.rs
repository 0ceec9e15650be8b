//! A model of the value ledger the contract settles against: each account's
//! balance, and the transfer primitive that claim settlement uses. A failed
//! transfer leaves every balance as it was.

use vstd::prelude::*;

use crate::types::AccountId;
use crate::types::Balance;
use crate::types::bytes32_eq;

verus! {

/// Why a value transfer was refused.
#[derive(Debug, Copy, Clone, PartialEq, Eq)]
pub enum TransferError {
    /// The paying account holds less than the requested amount.
    InsufficientBalance,
    /// The receiving account cannot hold the resulting amount.
    BalanceOverflow,
}

/// Folds a sequence of entries into the map it denotes, later entries last.
pub open spec fn ledger_entries_map(s: Seq<(AccountId, Balance)>) -> Map<Seq<u8>, Balance>
    decreases s.len(),
{
    if s.len() == 0 {
        Map::empty()
    } else {
        ledger_entries_map(s.drop_last()).insert(s.last().0@, s.last().1)
    }
}

/// The balance an account holds in a ledger; an account without an entry
/// holds nothing.
pub open spec fn balance_in(m: Map<Seq<u8>, Balance>, a: Seq<u8>) -> Balance {
    if m.contains_key(a) {
        m[a]
    } else {
        0
    }
}

/// Account balances, keyed by account.
pub struct Ledger {
    accounts: Vec<(AccountId, Balance)>,
}

impl View for Ledger {
    type V = Map<Seq<u8>, Balance>;

    closed spec fn view(&self) -> Map<Seq<u8>, Balance> {
        ledger_entries_map(self.accounts@)
    }
}

proof fn lemma_ledger_entries_map_domain(s: Seq<(AccountId, Balance)>, k: Seq<u8>)
    ensures
        ledger_entries_map(s).contains_key(k) <==> exists|i: int|
            0 <= i < s.len() && s[i].0@ == k,
    decreases s.len(),
{
    if s.len() > 0 {
        lemma_ledger_entries_map_domain(s.drop_last(), k);
        if s.last().0@ == k {
            assert(s[s.len() - 1].0@ == k);
        } else if ledger_entries_map(s.drop_last()).contains_key(k) {
            let i = choose|i: int| 0 <= i < s.drop_last().len() && s.drop_last()[i].0@ == k;
            assert(s[i].0@ == k);
        } else if exists|i: int| 0 <= i < s.len() && s[i].0@ == k {
            let i = choose|i: int| 0 <= i < s.len() && s[i].0@ == k;
            assert(0 <= i < s.len() - 1);
            assert(s.drop_last()[i].0@ == k);
        }
    }
}

proof fn lemma_ledger_entries_map_value(s: Seq<(AccountId, Balance)>, i: int)
    requires
        0 <= i < s.len(),
        forall|p: int, q: int|
            0 <= p < q < s.len() ==> (#[trigger] s[p]).0@ != (#[trigger] s[q]).0@,
    ensures
        ledger_entries_map(s).contains_key(s[i].0@),
        ledger_entries_map(s)[s[i].0@] == s[i].1,
    decreases s.len(),
{
    if i == s.len() - 1 {
    } else {
        assert(s.drop_last()[i] == s[i]);
        lemma_ledger_entries_map_value(s.drop_last(), i);
        assert(s[i].0@ != s.last().0@);
    }
}

proof fn lemma_ledger_entries_map_update(s: Seq<(AccountId, Balance)>, i: int, e: (
    AccountId,
    Balance,
))
    requires
        0 <= i < s.len(),
        forall|p: int, q: int|
            0 <= p < q < s.len() ==> (#[trigger] s[p]).0@ != (#[trigger] s[q]).0@,
        e.0@ == s[i].0@,
    ensures
        ledger_entries_map(s.update(i, e)) == ledger_entries_map(s).insert(e.0@, e.1),
    decreases s.len(),
{
    let t = s.update(i, e);
    if i == s.len() - 1 {
        assert(t.drop_last() =~= s.drop_last());
        assert(ledger_entries_map(t) =~= ledger_entries_map(s).insert(e.0@, e.1));
    } else {
        assert(t.drop_last() =~= s.drop_last().update(i, e));
        assert(s.drop_last()[i] == s[i]);
        lemma_ledger_entries_map_update(s.drop_last(), i, e);
        assert(t.last() == s.last());
        assert(s[i].0@ != s.last().0@);
        assert(ledger_entries_map(t) =~= ledger_entries_map(s).insert(e.0@, e.1));
    }
}

impl Ledger {
    /// The ledger is well formed when no account occurs twice.
    pub closed spec fn wf(&self) -> bool {
        forall|p: int, q: int|
            0 <= p < q < self.accounts@.len() ==> (#[trigger] self.accounts@[p]).0@ != (
            #[trigger] self.accounts@[q]).0@
    }

    /// Creates a ledger in which every account holds nothing.
    pub fn new() -> (r: Ledger)
        ensures
            r.wf(),
            r@ == Map::<Seq<u8>, Balance>::empty(),
    {
        Ledger { accounts: Vec::new() }
    }

    /// Returns the balance `account` holds. A pure read.
    pub fn get_balance(&self, account: &AccountId) -> (r: Balance)
        requires
            self.wf(),
        ensures
            r == balance_in(self@, account@),
    {
        let n = self.accounts.len();
        let mut i: usize = 0;
        while i < n
            invariant
                self.wf(),
                n == self.accounts@.len(),
                i <= n,
                forall|k: int| 0 <= k < i ==> (#[trigger] self.accounts@[k]).0@ != account@,
            decreases n - i,
        {
            if bytes32_eq(&self.accounts[i].0, account) {
                proof {
                    lemma_ledger_entries_map_value(self.accounts@, i as int);
                }
                return self.accounts[i].1;
            }
            i += 1;
        }
        proof {
            lemma_ledger_entries_map_domain(self.accounts@, account@);
        }
        0
    }

    /// Sets the balance `account` holds, as the external funding mechanism
    /// does when value reaches the contract from outside.
    pub fn set_balance(&mut self, account: AccountId, balance: Balance)
        requires
            old(self).wf(),
        ensures
            final(self).wf(),
            final(self)@ == old(self)@.insert(account@, balance),
    {
        let n = self.accounts.len();
        let mut i: usize = 0;
        while i < n
            invariant
                self.wf(),
                self == old(self),
                n == self.accounts@.len(),
                i <= n,
                forall|k: int| 0 <= k < i ==> (#[trigger] self.accounts@[k]).0@ != account@,
            decreases n - i,
        {
            if bytes32_eq(&self.accounts[i].0, &account) {
                proof {
                    lemma_ledger_entries_map_update(self.accounts@, i as int, (account, balance));
                }
                self.accounts[i] = (account, balance);
                return ;
            }
            i += 1;
        }
        proof {
            lemma_ledger_entries_map_domain(self.accounts@, account@);
        }
        let ghost pre = self.accounts@;
        self.accounts.push((account, balance));
        proof {
            assert(self.accounts@.drop_last() =~= pre);
            assert(forall|p: int, q: int|
                0 <= p < q < self.accounts@.len() ==> (#[trigger] self.accounts@[p]).0@ != (
                #[trigger] self.accounts@[q]).0@);
        }
    }

    /// Moves `amount` from one account to another. Fails, changing no
    /// balance at all, when the payer holds too little or the receiver
    /// cannot hold the result.
    pub fn transfer(&mut self, from: &AccountId, to: &AccountId, amount: Balance) -> (r: Result<
        (),
        TransferError,
    >)
        requires
            old(self).wf(),
        ensures
            final(self).wf(),
            balance_in(old(self)@, from@) < amount ==> r == Err::<(), TransferError>(
                TransferError::InsufficientBalance,
            ) && final(self)@ == old(self)@,
            balance_in(old(self)@, from@) >= amount && from@ != to@ && balance_in(old(self)@, to@)
                + amount > u128::MAX ==> r == Err::<(), TransferError>(
                TransferError::BalanceOverflow,
            ) && final(self)@ == old(self)@,
            balance_in(old(self)@, from@) >= amount && from@ == to@ ==> r == Ok::<(),
            TransferError>(()) && forall|x: Seq<u8>|
                balance_in(final(self)@, x) == balance_in(old(self)@, x),
            balance_in(old(self)@, from@) >= amount && from@ != to@ && balance_in(old(self)@, to@)
                + amount <= u128::MAX ==> r == Ok::<(), TransferError>(()) && balance_in(
                final(self)@,
                from@,
            ) == balance_in(old(self)@, from@) - amount && balance_in(final(self)@, to@)
                == balance_in(old(self)@, to@) + amount && forall|x: Seq<u8>|
                x != from@ && x != to@ ==> balance_in(final(self)@, x) == balance_in(
                    old(self)@,
                    x,
                ),
    {
        let from_balance = self.get_balance(from);
        if from_balance < amount {
            return Err(TransferError::InsufficientBalance);
        }
        if bytes32_eq(from, to) {
            return Ok(());
        }
        let to_balance = self.get_balance(to);
        if amount > u128::MAX - to_balance {
            return Err(TransferError::BalanceOverflow);
        }
        self.set_balance(*from, from_balance - amount);
        self.set_balance(*to, to_balance + amount);
        Ok(())
    }
}

} // verus!
