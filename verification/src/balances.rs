//! The balances of the parties, and the movement of amounts between them.

use crate::error::{LedgerError, SkillstoreError};
use crate::identity::Identity;
use crate::instructions::Transfer;
use crate::table::{distinct_keys, has_key, lemma_table_entry, lemma_table_push, lemma_table_update, table};
use vstd::prelude::*;

verus! {

/// What one party holds.
#[derive(Clone, Copy, Debug)]
pub struct Balance {
    pub owner: Identity,
    pub lamports: u64,
}

/// What every party holds. A party that was never paid holds nothing.
#[derive(Debug)]
pub struct Balances {
    accounts: Vec<Balance>,
}

/// The balances after an amount has moved from one party to another, or
/// why it cannot move: the payer must hold the amount, and what the payee
/// then holds must not leave the range of a balance. The payer is debited
/// first, so a party may pay itself any amount that it holds.
pub open spec fn transfer_outcome(balances: Map<Identity, u64>, transfer: Transfer) -> Result<
    Map<Identity, u64>,
    LedgerError,
> {
    if balances[transfer.from] < transfer.lamports {
        Err(LedgerError::InsufficientFunds)
    } else {
        let debited = balances.insert(
            transfer.from,
            (balances[transfer.from] - transfer.lamports) as u64,
        );
        if debited[transfer.to] + transfer.lamports > u64::MAX {
            Err(LedgerError::Rule(SkillstoreError::ArithmeticOverflow))
        } else {
            Ok(debited.insert(transfer.to, (debited[transfer.to] + transfer.lamports) as u64))
        }
    }
}

impl View for Balances {
    type V = Map<Identity, u64>;

    closed spec fn view(&self) -> Map<Identity, u64> {
        let held = table(Self::entries(self.accounts@));
        Map::total(
            |who: Identity|
                if held.dom().contains(who) {
                    held[who]
                } else {
                    0u64
                },
        )
    }
}

impl Balances {
    spec fn entries(accounts: Seq<Balance>) -> Seq<(Identity, u64)> {
        accounts.map_values(|balance: Balance| (balance.owner, balance.lamports))
    }

    /// No party has two balances.
    pub closed spec fn wf(&self) -> bool {
        distinct_keys(Self::entries(self.accounts@))
    }

    /// Every party has a balance, be it zero.
    pub proof fn lemma_total(&self)
        ensures
            forall|who: Identity| self@.dom().contains(who),
    {
    }

    /// Balances in which nobody holds anything.
    pub fn new() -> (balances: Balances)
        ensures
            balances.wf(),
            forall|who: Identity| balances@[who] == 0,
    {
        Balances { accounts: Vec::new() }
    }

    fn find(&self, who: &Identity) -> (at: Option<usize>)
        requires
            self.wf(),
        ensures
            at matches Some(i) ==> i < self.accounts.len() && self.accounts[i as int].owner == *who
                && self@[*who] == self.accounts[i as int].lamports,
            at is None ==> !has_key(Self::entries(self.accounts@), *who) && self@[*who] == 0,
    {
        let mut i: usize = 0;
        while i < self.accounts.len()
            invariant
                self.wf(),
                i <= self.accounts.len(),
                forall|j: int| 0 <= j < i ==> self.accounts[j].owner != *who,
            decreases self.accounts.len() - i,
        {
            if self.accounts[i].owner == *who {
                proof {
                    lemma_table_entry(Self::entries(self.accounts@), i as int);
                }
                return Some(i);
            }
            i = i + 1;
        }
        None
    }

    /// What `who` holds.
    pub fn balance_of(&self, who: &Identity) -> (lamports: u64)
        requires
            self.wf(),
        ensures
            lamports == self@[*who],
    {
        match self.find(who) {
            Some(i) => self.accounts[i].lamports,
            None => 0,
        }
    }

    fn set(&mut self, who: Identity, lamports: u64)
        requires
            old(self).wf(),
        ensures
            final(self).wf(),
            final(self)@ == old(self)@.insert(who, lamports),
    {
        let ghost before = Self::entries(self.accounts@);
        match self.find(&who) {
            Some(i) => {
                self.accounts.set(i, Balance { owner: who, lamports });
                proof {
                    lemma_table_update(before, i as int, lamports);
                    assert(Self::entries(self.accounts@) =~= before.update(
                        i as int,
                        (who, lamports),
                    ));
                }
            },
            None => {
                self.accounts.push(Balance { owner: who, lamports });
                proof {
                    lemma_table_push(before, who, lamports);
                    assert(Self::entries(self.accounts@) =~= before.push((who, lamports)));
                }
            },
        }
        assert(self@ =~= old(self)@.insert(who, lamports));
    }

    /// Adds `lamports` to what `who` holds, unless the sum leaves the range
    /// of a balance.
    pub fn deposit(&mut self, who: Identity, lamports: u64) -> (outcome: Result<(), LedgerError>)
        requires
            old(self).wf(),
        ensures
            final(self).wf(),
            old(self)@[who] + lamports > u64::MAX ==> outcome == Err::<(), LedgerError>(
                LedgerError::Rule(SkillstoreError::ArithmeticOverflow),
            ) && final(self)@ == old(self)@,
            old(self)@[who] + lamports <= u64::MAX ==> outcome == Ok::<(), LedgerError>(())
                && final(self)@ == old(self)@.insert(who, (old(self)@[who] + lamports) as u64),
    {
        let held: u64 = self.balance_of(&who);
        match held.checked_add(lamports) {
            Some(sum) => {
                self.set(who, sum);
                Ok(())
            },
            None => Err(LedgerError::Rule(SkillstoreError::ArithmeticOverflow)),
        }
    }

    /// Moves an amount from one party to another, or changes nothing.
    pub fn transfer(&mut self, transfer: &Transfer) -> (outcome: Result<(), LedgerError>)
        requires
            old(self).wf(),
        ensures
            final(self).wf(),
            match transfer_outcome(old(self)@, *transfer) {
                Ok(moved) => outcome == Ok::<(), LedgerError>(()) && final(self)@ == moved,
                Err(refusal) => outcome == Err::<(), LedgerError>(refusal) && final(self)@ == old(
                    self,
                )@,
            },
    {
        let payer_held: u64 = self.balance_of(&transfer.from);
        if payer_held < transfer.lamports {
            return Err(LedgerError::InsufficientFunds);
        }
        let payer_left: u64 = payer_held - transfer.lamports;
        let payee_held: u64 = if transfer.to == transfer.from {
            payer_left
        } else {
            self.balance_of(&transfer.to)
        };
        match payee_held.checked_add(transfer.lamports) {
            Some(payee_sum) => {
                self.set(transfer.from, payer_left);
                self.set(transfer.to, payee_sum);
                Ok(())
            },
            None => Err(LedgerError::Rule(SkillstoreError::ArithmeticOverflow)),
        }
    }

    /// A copy of the balances.
    pub fn snapshot(&self) -> (copy: Balances)
        requires
            self.wf(),
        ensures
            copy.wf(),
            copy@ == self@,
    {
        let mut accounts: Vec<Balance> = Vec::new();
        let mut i: usize = 0;
        while i < self.accounts.len()
            invariant
                i <= self.accounts.len(),
                accounts@ == self.accounts@.subrange(0, i as int),
            decreases self.accounts.len() - i,
        {
            accounts.push(self.accounts[i]);
            proof {
                assert(accounts@ =~= self.accounts@.subrange(0, i + 1));
            }
            i = i + 1;
        }
        proof {
            assert(accounts@ =~= self.accounts@);
        }
        Balances { accounts }
    }
}

} // verus!
