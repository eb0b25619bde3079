//! Escrow of funds: hold, release and transfer of held funds between
//! accounts.  The oracle depends only on this interface, not on any
//! particular ledger implementation.

use std::collections::HashMap;

use vstd::prelude::*;

use crate::types::AccountId;
use crate::types::Balance;

verus! {

/// Error returned by an escrow ledger.  The oracle treats it as opaque and
/// propagates it unchanged to its own caller.
#[derive(Clone, Copy, Debug, PartialEq, Eq, Structural)]
pub enum LedgerError {
    /// The account's free balance does not cover the requested hold.
    InsufficientFunds,
    /// Settling the movement would overflow a balance.
    Overflow,
}

/// The balance and reservation primitives the oracle requires of its host.
///
/// An implementor keeps, for every account, a free balance and a held
/// (escrowed) balance; the two spec functions are its view of those amounts.
/// Each method either performs the described movement exactly and returns
/// `Ok`, or leaves every account unchanged and returns an error.  No method
/// promises success: a ledger is free to refuse a movement (insufficient
/// funds, limits of its own), and the oracle's contracts account for either
/// outcome.
pub trait EscrowLedger {
    /// The free (spendable) balance of `account`.
    spec fn free(&self, account: AccountId) -> Balance;

    /// The held (escrowed) balance of `account`.
    spec fn held(&self, account: AccountId) -> Balance;

    /// Moves `amount` out of `account`'s free balance into escrow, or fails
    /// and changes nothing.
    fn hold(&mut self, account: AccountId, amount: Balance) -> (r: Result<(), LedgerError>)
        ensures
            r is Ok ==> old(self).free(account) >= amount
                && final(self).free(account) == old(self).free(account) - amount
                && final(self).held(account) == old(self).held(account) + amount
                && (forall|a: AccountId| #![auto] a != account
                    ==> final(self).free(a) == old(self).free(a)
                        && final(self).held(a) == old(self).held(a)),
            r is Err ==> forall|a: AccountId| #![auto]
                final(self).free(a) == old(self).free(a)
                    && final(self).held(a) == old(self).held(a),
    ;

    /// Moves `amount` of `from`'s held balance into `to`'s free balance, or
    /// fails and changes nothing.
    fn transfer_held(&mut self, from: AccountId, to: AccountId, amount: Balance)
        -> (r: Result<(), LedgerError>)
        ensures
            r is Ok ==> old(self).held(from) >= amount
                && final(self).held(from) == old(self).held(from) - amount
                && (from != to ==> final(self).free(from) == old(self).free(from)
                    && final(self).free(to) == old(self).free(to) + amount
                    && final(self).held(to) == old(self).held(to))
                && (from == to ==> final(self).free(from) == old(self).free(from) + amount)
                && (forall|a: AccountId| #![auto] a != from && a != to
                    ==> final(self).free(a) == old(self).free(a)
                        && final(self).held(a) == old(self).held(a)),
            r is Err ==> forall|a: AccountId| #![auto]
                final(self).free(a) == old(self).free(a)
                    && final(self).held(a) == old(self).held(a),
    ;

    /// Releases up to `amount` of `account`'s held balance back to its free
    /// balance: the whole `amount` if that much is held, all that is held
    /// otherwise.
    fn release(&mut self, account: AccountId, amount: Balance)
        requires
            old(self).free(account) + amount <= Balance::MAX,
        ensures
            ({
                let moved: Balance = if amount <= old(self).held(account) {
                    amount
                } else {
                    old(self).held(account)
                };
                final(self).held(account) == old(self).held(account) - moved
                    && final(self).free(account) == old(self).free(account) + moved
            }),
            forall|a: AccountId| #![auto] a != account
                ==> final(self).free(a) == old(self).free(a)
                    && final(self).held(a) == old(self).held(a),
    ;
}

/// Free and held funds of one account.
#[derive(Clone, Copy, Debug)]
pub struct AccountFunds {
    /// The spendable part of the balance.
    pub free: Balance,
    /// The part of the balance held in escrow.
    pub held: Balance,
}

/// An escrow ledger kept in memory: the account book of a host that settles
/// balances itself.  An account that was never credited has balance zero.
pub struct InMemoryLedger {
    accounts: HashMap<AccountId, AccountFunds>,
}

impl EscrowLedger for InMemoryLedger {
    closed spec fn free(&self, account: AccountId) -> Balance {
        if self.accounts@.contains_key(account) {
            self.accounts@[account].free
        } else {
            0
        }
    }

    closed spec fn held(&self, account: AccountId) -> Balance {
        if self.accounts@.contains_key(account) {
            self.accounts@[account].held
        } else {
            0
        }
    }

    fn hold(&mut self, account: AccountId, amount: Balance) -> (r: Result<(), LedgerError>)
        ensures
            r is Ok <==> old(self).free(account) >= amount
                && old(self).held(account) + amount <= Balance::MAX,
            r == Err::<(), LedgerError>(LedgerError::InsufficientFunds) <==> old(self).free(
                account,
            ) < amount,
            r == Err::<(), LedgerError>(LedgerError::Overflow) <==> old(self).free(account)
                >= amount && old(self).held(account) + amount > Balance::MAX,
    {
        let funds = self.lookup(account);
        if funds.free < amount {
            return Err(LedgerError::InsufficientFunds);
        }
        if funds.held > Balance::MAX - amount {
            return Err(LedgerError::Overflow);
        }
        self.accounts.insert(
            account,
            AccountFunds { free: funds.free - amount, held: funds.held + amount },
        );
        Ok(())
    }

    fn transfer_held(&mut self, from: AccountId, to: AccountId, amount: Balance)
        -> (r: Result<(), LedgerError>)
        ensures
            r is Ok <==> old(self).held(from) >= amount
                && (if from == to { old(self).free(from) } else { old(self).free(to) }) + amount
                    <= Balance::MAX,
            r == Err::<(), LedgerError>(LedgerError::InsufficientFunds) <==> old(self).held(from)
                < amount,
            r == Err::<(), LedgerError>(LedgerError::Overflow) <==> old(self).held(from) >= amount
                && (if from == to { old(self).free(from) } else { old(self).free(to) }) + amount
                    > Balance::MAX,
    {
        let from_funds = self.lookup(from);
        if from_funds.held < amount {
            return Err(LedgerError::InsufficientFunds);
        }
        if from == to {
            if from_funds.free > Balance::MAX - amount {
                return Err(LedgerError::Overflow);
            }
            self.accounts.insert(
                from,
                AccountFunds { free: from_funds.free + amount, held: from_funds.held - amount },
            );
            return Ok(());
        }
        let to_funds = self.lookup(to);
        if to_funds.free > Balance::MAX - amount {
            return Err(LedgerError::Overflow);
        }
        self.accounts.insert(
            from,
            AccountFunds { free: from_funds.free, held: from_funds.held - amount },
        );
        self.accounts.insert(
            to,
            AccountFunds { free: to_funds.free + amount, held: to_funds.held },
        );
        Ok(())
    }

    fn release(&mut self, account: AccountId, amount: Balance) {
        let funds = self.lookup(account);
        let moved = if amount <= funds.held {
            amount
        } else {
            funds.held
        };
        self.accounts.insert(
            account,
            AccountFunds { free: funds.free + moved, held: funds.held - moved },
        );
    }
}

impl InMemoryLedger {
    /// A ledger with every balance at zero.
    pub fn new() -> (r: InMemoryLedger)
        ensures
            forall|a: AccountId| #![auto] r.free(a) == 0 && r.held(a) == 0,
    {
        InMemoryLedger { accounts: HashMap::new() }
    }

    /// The funds of `account`, zero for an account that was never touched.
    fn lookup(&self, account: AccountId) -> (r: AccountFunds)
        ensures
            r.free == self.free(account),
            r.held == self.held(account),
    {
        match self.accounts.get(&account) {
            Some(funds) => *funds,
            None => AccountFunds { free: 0, held: 0 },
        }
    }

    /// Credits `amount` to `account`'s free balance, as an external source
    /// of funds would.
    pub fn deposit(&mut self, account: AccountId, amount: Balance)
        requires
            old(self).free(account) + amount <= Balance::MAX,
        ensures
            final(self).free(account) == old(self).free(account) + amount,
            final(self).held(account) == old(self).held(account),
            forall|a: AccountId| #![auto] a != account
                ==> final(self).free(a) == old(self).free(a)
                    && final(self).held(a) == old(self).held(a),
    {
        let funds = self.lookup(account);
        self.accounts.insert(
            account,
            AccountFunds { free: funds.free + amount, held: funds.held },
        );
    }

    /// The free balance of `account`.
    pub fn free_balance(&self, account: AccountId) -> (r: Balance)
        ensures
            r == self.free(account),
    {
        self.lookup(account).free
    }

    /// The held balance of `account`.
    pub fn reserved_balance(&self, account: AccountId) -> (r: Balance)
        ensures
            r == self.held(account),
    {
        self.lookup(account).held
    }
}

} // verus!
