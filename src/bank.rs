//! The token ledger that the transfer application moves, mints and burns
//! coins in.
use vstd::prelude::*;
use crate::error::TransferError;
use crate::table::{no_name, KeyView, StoreKey, Table};

verus! {

/// An amount of one denomination.
#[derive(Debug)]
pub struct Coin {
    pub denom: String,
    pub amount: u128,
}

impl Coin {
    pub fn duplicate(&self) -> (r: Coin)
        ensures
            r.denom@ == self.denom@,
            r.amount == self.amount,
    {
        Coin { denom: self.denom.clone(), amount: self.amount }
    }
}

pub open spec fn balance_key(account: Seq<char>, denom: Seq<char>) -> KeyView {
    (account, denom, 0u64)
}

pub open spec fn supply_key(denom: Seq<char>) -> KeyView {
    (denom, Seq::<char>::empty(), 0u64)
}

/// A value of a table, zero where the key is absent.
pub open spec fn amount_at(m: Map<KeyView, u128>, k: KeyView) -> nat {
    if m.contains_key(k) {
        m[k] as nat
    } else {
        0
    }
}

/// Moving, minting and burning coins in account balances.
pub trait BankKeeper {
    spec fn bank_wf(&self) -> bool;

    /// The balance of `account` in `denom`.
    spec fn balance_of(&self, account: Seq<char>, denom: Seq<char>) -> nat;

    /// The amount of `denom` in existence.
    spec fn supply_of(&self, denom: Seq<char>) -> nat;

    /// Moves `amt` from one account to another; the supply is unchanged.
    fn send_coins(&mut self, from: &String, to: &String, amt: &Coin) -> (r: Result<
        (),
        TransferError,
    >)
        requires
            old(self).bank_wf(),
        ensures
            final(self).bank_wf(),
            r is Ok <==> (old(self).balance_of(from@, amt.denom@) >= amt.amount && (from@ == to@
                || old(self).balance_of(to@, amt.denom@) + amt.amount <= u128::MAX)),
            r is Ok && from@ != to@ ==> final(self).balance_of(from@, amt.denom@) == old(self).balance_of(from@, amt.denom@) - amt.amount
                && final(self).balance_of(to@, amt.denom@) == old(self).balance_of(to@, amt.denom@) + amt.amount,
            r is Err || from@ == to@ ==> final(self).balance_of(from@, amt.denom@) == old(self).balance_of(from@, amt.denom@)
                && final(self).balance_of(to@, amt.denom@) == old(self).balance_of(to@, amt.denom@),
            forall|a: Seq<char>, d: Seq<char>|
                (d != amt.denom@ || (a != from@ && a != to@)) ==> #[trigger] final(self).balance_of(a, d)
                    == old(self).balance_of(a, d),
            forall|d: Seq<char>| #[trigger] final(self).supply_of(d) == old(self).supply_of(d),
            (r == Err::<(), TransferError>(TransferError::InsufficientFunds)) <==> old(self).balance_of(from@, amt.denom@) < amt.amount,
            r is Err && old(self).balance_of(from@, amt.denom@) >= amt.amount ==> r == Err::<(), TransferError>(TransferError::Overflow),
    ;

    /// Creates `amt` in `account`.
    fn mint_coins(&mut self, account: &String, amt: &Coin) -> (r: Result<(), TransferError>)
        requires
            old(self).bank_wf(),
        ensures
            final(self).bank_wf(),
            r is Ok <==> (old(self).balance_of(account@, amt.denom@) + amt.amount <= u128::MAX
                && old(self).supply_of(amt.denom@) + amt.amount <= u128::MAX),
            r is Ok ==> final(self).balance_of(account@, amt.denom@) == old(self).balance_of(account@, amt.denom@) + amt.amount
                && final(self).supply_of(amt.denom@) == old(self).supply_of(amt.denom@) + amt.amount,
            r is Err ==> r == Err::<(), TransferError>(TransferError::Overflow)
                && final(self).balance_of(account@, amt.denom@) == old(self).balance_of(account@, amt.denom@)
                && final(self).supply_of(amt.denom@) == old(self).supply_of(amt.denom@),
            forall|a: Seq<char>, d: Seq<char>|
                (d != amt.denom@ || a != account@) ==> #[trigger] final(self).balance_of(a, d)
                    == old(self).balance_of(a, d),
            forall|d: Seq<char>|
                d != amt.denom@ ==> #[trigger] final(self).supply_of(d) == old(self).supply_of(d),
    ;

    /// Destroys `amt` held by `account`.
    fn burn_coins(&mut self, account: &String, amt: &Coin) -> (r: Result<(), TransferError>)
        requires
            old(self).bank_wf(),
        ensures
            final(self).bank_wf(),
            r is Ok <==> (old(self).balance_of(account@, amt.denom@) >= amt.amount
                && old(self).supply_of(amt.denom@) >= amt.amount),
            r is Ok ==> final(self).balance_of(account@, amt.denom@) == old(self).balance_of(account@, amt.denom@) - amt.amount
                && final(self).supply_of(amt.denom@) == old(self).supply_of(amt.denom@) - amt.amount,
            r is Err ==> final(self).balance_of(account@, amt.denom@) == old(self).balance_of(account@, amt.denom@)
                && final(self).supply_of(amt.denom@) == old(self).supply_of(amt.denom@),
            forall|a: Seq<char>, d: Seq<char>|
                (d != amt.denom@ || a != account@) ==> #[trigger] final(self).balance_of(a, d)
                    == old(self).balance_of(a, d),
            forall|d: Seq<char>|
                d != amt.denom@ ==> #[trigger] final(self).supply_of(d) == old(self).supply_of(d),
            (r == Err::<(), TransferError>(TransferError::InsufficientFunds)) <==> old(self).balance_of(account@, amt.denom@) < amt.amount,
            r is Err && old(self).balance_of(account@, amt.denom@) >= amt.amount ==> r == Err::<(), TransferError>(TransferError::Overflow),
    ;
}

/// An in-memory ledger: balances per account and denomination, and the
/// supply of each denomination.
pub struct Bank {
    pub balances: Table<u128>,
    pub supply: Table<u128>,
}

impl Bank {
    pub fn new() -> (r: Self)
        ensures
            r.bank_wf(),
            forall|a: Seq<char>, d: Seq<char>| #[trigger] r.balance_of(a, d) == 0,
            forall|d: Seq<char>| #[trigger] r.supply_of(d) == 0,
    {
        Bank { balances: Table::new(), supply: Table::new() }
    }

    fn amount(t: &Table<u128>, k: &StoreKey) -> (r: u128)
        requires
            t.wf(),
        ensures
            r == amount_at(t@, k@),
    {
        match t.get(k) {
            Some(v) => *v,
            None => 0,
        }
    }

    /// The balance of `account` in `denom`.
    pub fn balance(&self, account: &str, denom: &str) -> (r: u128)
        requires
            self.bank_wf(),
        ensures
            r == self.balance_of(account@, denom@),
    {
        Self::amount(&self.balances, &StoreKey::new(account, denom, 0))
    }

    /// The amount of `denom` in existence.
    pub fn total_supply(&self, denom: &str) -> (r: u128)
        requires
            self.bank_wf(),
        ensures
            r == self.supply_of(denom@),
    {
        Self::amount(&self.supply, &StoreKey::new(denom, no_name(), 0))
    }
}

impl BankKeeper for Bank {
    open spec fn bank_wf(&self) -> bool {
        self.balances.wf() && self.supply.wf()
    }

    open spec fn balance_of(&self, account: Seq<char>, denom: Seq<char>) -> nat {
        amount_at(self.balances@, balance_key(account, denom))
    }

    open spec fn supply_of(&self, denom: Seq<char>) -> nat {
        amount_at(self.supply@, supply_key(denom))
    }

    fn send_coins(&mut self, from: &String, to: &String, amt: &Coin) -> (r: Result<
        (),
        TransferError,
    >) {
        let kf = StoreKey::new(from.as_str(), amt.denom.as_str(), 0);
        let kt = StoreKey::new(to.as_str(), amt.denom.as_str(), 0);
        let bf = Self::amount(&self.balances, &kf);
        if bf < amt.amount {
            return Err(TransferError::InsufficientFunds);
        }
        if kf.same(&kt) {
            return Ok(());
        }
        let bt = Self::amount(&self.balances, &kt);
        if bt > u128::MAX - amt.amount {
            return Err(TransferError::Overflow);
        }
        self.balances.insert(kf, bf - amt.amount);
        self.balances.insert(kt, bt + amt.amount);
        Ok(())
    }

    fn mint_coins(&mut self, account: &String, amt: &Coin) -> (r: Result<(), TransferError>) {
        let kb = StoreKey::new(account.as_str(), amt.denom.as_str(), 0);
        let ks = StoreKey::new(amt.denom.as_str(), no_name(), 0);
        let b = Self::amount(&self.balances, &kb);
        let s = Self::amount(&self.supply, &ks);
        if b > u128::MAX - amt.amount || s > u128::MAX - amt.amount {
            return Err(TransferError::Overflow);
        }
        self.balances.insert(kb, b + amt.amount);
        self.supply.insert(ks, s + amt.amount);
        Ok(())
    }

    fn burn_coins(&mut self, account: &String, amt: &Coin) -> (r: Result<(), TransferError>) {
        let kb = StoreKey::new(account.as_str(), amt.denom.as_str(), 0);
        let ks = StoreKey::new(amt.denom.as_str(), no_name(), 0);
        let b = Self::amount(&self.balances, &kb);
        let s = Self::amount(&self.supply, &ks);
        if b < amt.amount {
            return Err(TransferError::InsufficientFunds);
        }
        if s < amt.amount {
            return Err(TransferError::Overflow);
        }
        self.balances.insert(kb, b - amt.amount);
        self.supply.insert(ks, s - amt.amount);
        Ok(())
    }
}

} // verus!
