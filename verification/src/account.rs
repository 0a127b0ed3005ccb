//! Per-account ledger entry: identity, two balance counters kept strictly
//! non-negative, and the account's replay-protection nonce pool.

use vstd::prelude::*;

use crate::nonce_pool::NoncePool;
use crate::nonce_pool::PoolModel;

verus! {

/// Raised when a debit exceeds the available balance; carries the
/// shortfall, the exact amount by which the request went over.
#[derive(Debug, Clone, Copy, PartialEq, Eq)]
pub enum AccountError {
    InsufficientFunds(u32),
}

/// Mathematical model of an account: identity, the two balances, and the
/// model of the owned nonce pool.
pub ghost struct AccountModel {
    pub id: u32,
    pub held: u32,
    pub staked: u32,
    pub pool: PoolModel,
}

/// One participant's ledger entry.  The nonce pool is exclusively owned:
/// it can only be reached through this account.
#[derive(Debug, Clone)]
pub struct Account {
    id: u32,
    nonce_pool: NoncePool,
    held_cents: u32,
    staked_cents: u32,
}

impl View for Account {
    type V = AccountModel;

    closed spec fn view(&self) -> AccountModel {
        AccountModel {
            id: self.id,
            held: self.held_cents,
            staked: self.staked_cents,
            pool: self.nonce_pool@,
        }
    }
}

impl Account {
    /// Well-formedness of the account: its nonce pool is well formed.
    pub open spec fn wf(self) -> bool {
        self@.pool.wf()
    }

    /// A fresh account: the given identity, zero balances, and an empty
    /// nonce pool under which no nonce is classified as used.
    pub fn new(id: u32) -> (r: Self)
        ensures
            r.wf(),
            r@.id == id,
            r@.held == 0,
            r@.staked == 0,
            r@.pool.gen == 0,
            r@.pool.cur == 0,
            forall|n: u64| !r@.pool.used(n),
            r@.pool.next() == 0,
    {
        Account { id, nonce_pool: NoncePool::new(), held_cents: 0, staked_cents: 0 }
    }

    /// Unconditionally credit the held balance.  The bound keeps the
    /// balance representable; wraparound is never silent.
    pub fn add_held(&mut self, amnt: u32)
        requires
            old(self)@.held + amnt <= u32::MAX,
        ensures
            final(self)@.held == old(self)@.held + amnt,
            final(self)@.id == old(self)@.id,
            final(self)@.staked == old(self)@.staked,
            final(self)@.pool == old(self)@.pool,
    {
        self.held_cents = self.held_cents + amnt;
    }

    /// Debit the held balance by exactly `amnt` when it is covered; fail
    /// with the exact shortfall, leaving every field untouched, when not.
    pub fn sub_held(&mut self, amnt: u32) -> (r: Result<(), AccountError>)
        ensures
            final(self)@.id == old(self)@.id,
            final(self)@.staked == old(self)@.staked,
            final(self)@.pool == old(self)@.pool,
            amnt <= old(self)@.held ==> r == Ok::<(), AccountError>(())
                && final(self)@.held == old(self)@.held - amnt,
            amnt > old(self)@.held ==> r == Err::<(), AccountError>(
                AccountError::InsufficientFunds((amnt - old(self)@.held) as u32),
            ) && final(self)@.held == old(self)@.held,
    {
        if amnt > self.held_cents {
            return Err(AccountError::InsufficientFunds(amnt - self.held_cents));
        }
        self.held_cents = self.held_cents - amnt;
        Ok(())
    }

    /// Unconditionally credit the staked balance.  The bound keeps the
    /// balance representable; wraparound is never silent.
    pub fn add_staked(&mut self, amnt: u32)
        requires
            old(self)@.staked + amnt <= u32::MAX,
        ensures
            final(self)@.staked == old(self)@.staked + amnt,
            final(self)@.id == old(self)@.id,
            final(self)@.held == old(self)@.held,
            final(self)@.pool == old(self)@.pool,
    {
        self.staked_cents = self.staked_cents + amnt;
    }

    /// Debit the staked balance by exactly `amnt` when it is covered; fail
    /// with the exact shortfall, leaving every field untouched, when not.
    pub fn sub_staked(&mut self, amnt: u32) -> (r: Result<(), AccountError>)
        ensures
            final(self)@.id == old(self)@.id,
            final(self)@.held == old(self)@.held,
            final(self)@.pool == old(self)@.pool,
            amnt <= old(self)@.staked ==> r == Ok::<(), AccountError>(())
                && final(self)@.staked == old(self)@.staked - amnt,
            amnt > old(self)@.staked ==> r == Err::<(), AccountError>(
                AccountError::InsufficientFunds((amnt - old(self)@.staked) as u32),
            ) && final(self)@.staked == old(self)@.staked,
    {
        if amnt > self.staked_cents {
            return Err(AccountError::InsufficientFunds(amnt - self.staked_cents));
        }
        self.staked_cents = self.staked_cents - amnt;
        Ok(())
    }

    /// The account's stable identity.
    pub fn id(&self) -> (r: u32)
        ensures
            r == self@.id,
    {
        self.id
    }

    /// Read-only access to the owned nonce pool.
    pub fn nonce_pool(&self) -> (r: &NoncePool)
        ensures
            r@ == self@.pool,
    {
        &self.nonce_pool
    }

    /// Mutable access to the owned nonce pool, so that a validator can
    /// mark a nonce after applying a transaction.  Nothing else of the
    /// account can change through the returned reference.
    pub fn nonce_pool_mut(&mut self) -> (r: &mut NoncePool)
        ensures
            (*r)@ == old(self)@.pool,
            final(self)@.pool == (*final(r))@,
            final(self)@.id == old(self)@.id,
            final(self)@.held == old(self)@.held,
            final(self)@.staked == old(self)@.staked,
    {
        &mut self.nonce_pool
    }

    /// Current spendable balance, in cents.
    pub fn held_cents(&self) -> (r: u32)
        ensures
            r == self@.held,
    {
        self.held_cents
    }

    /// Current staked balance, in cents.
    pub fn staked_cents(&self) -> (r: u32)
        ensures
            r == self@.staked,
    {
        self.staked_cents
    }
}

/// Crediting the held balance by an amount and then debiting the same
/// amount restores the original balance exactly: the states below are
/// related as the contracts of `add_held` and a successful `sub_held`
/// relate them.
pub proof fn lemma_add_sub_held_round_trip(a0: AccountModel, a1: AccountModel, a2: AccountModel, x: u32)
    requires
        a0.held + x <= u32::MAX,
        a1.held == a0.held + x,
        a2.held == a1.held - x,
    ensures
        x <= a1.held,
        a2.held == a0.held,
{
}

} // verus!
