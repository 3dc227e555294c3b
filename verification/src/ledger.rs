//! The three operations on a bank: `create`, `deposit` and `withdraw`.
//!
//! Each takes the parties and the bank it acts on in a value of its own, and
//! either applies every change or none.

use crate::account::{name_verdict, Bank, BankAccount};
use crate::error::BankError;
use crate::identity::{same_key, Signer};
use vstd::prelude::*;
use vstd::utf8::encode_utf8;

verus! {

/// What `create` acts on.
#[derive(Debug, PartialEq, Eq)]
pub struct Create {
    /// The party that asks for the bank and becomes its owner.
    pub user: Signer,
    /// The place set aside for the bank's record, which is yet to be written.
    pub bank: Bank,
}

/// What `deposit` acts on.
#[derive(Debug, PartialEq, Eq)]
pub struct Deposit {
    /// The depositor, who need not be the owner.
    pub user: Signer,
    /// The bank that receives the funds.
    pub bank: BankAccount,
}

/// What `withdraw` acts on.
#[derive(Debug, PartialEq, Eq)]
pub struct Withdraw {
    /// The party that asks for the funds.
    pub user: Signer,
    /// The bank that gives the funds.
    pub bank: BankAccount,
}

impl Clone for Create {
    fn clone(&self) -> (copy: Self)
        ensures
            copy == *self,
    {
        Create { user: self.user, bank: self.bank.clone() }
    }
}

impl Clone for Deposit {
    fn clone(&self) -> (copy: Self)
        ensures
            copy == *self,
    {
        Deposit { user: self.user, bank: self.bank.clone() }
    }
}

impl Clone for Withdraw {
    fn clone(&self) -> (copy: Self)
        ensures
            copy == *self,
    {
        Withdraw { user: self.user, bank: self.bank.clone() }
    }
}

impl Create {
    /// The state after `create` has accepted `name`: the record is written
    /// with no balance and the user as owner; no funds have moved.
    pub open spec fn settled(self, name: String) -> Create {
        Create { user: self.user, bank: Bank { name, balance: 0, owner: self.user.key } }
    }
}

impl Deposit {
    /// The bank's funds cover its reserve, and the funds of both sides
    /// together can be counted in a `u64`. Where this holds, every amount is
    /// in range, and it still holds after the deposit.
    pub open spec fn wf(&self) -> bool {
        &&& self.bank.wf()
        &&& self.user.lamports + self.bank.lamports <= u64::MAX
    }

    /// A deposit of `amount`, if it is accepted, can be counted: what the
    /// bank then holds fits in a `u64` and covers the reserve.
    pub open spec fn in_range(&self, amount: u64) -> bool {
        self.verdict(amount) is Ok ==> {
            &&& self.bank.lamports + amount <= u64::MAX
            &&& self.bank.rent_minimum <= self.bank.lamports + amount
        }
    }

    /// Whether `deposit` accepts `amount`, and if not, why.
    pub open spec fn verdict(&self, amount: u64) -> Result<(), BankError> {
        if amount == 0 {
            Err(BankError::ZeroAmount)
        } else if self.user.lamports < amount {
            Err(BankError::InsufficientFunds)
        } else {
            Ok(())
        }
    }

    /// The state after an accepted deposit of `amount`.
    pub open spec fn settled(self, amount: u64) -> Deposit {
        Deposit {
            user: Signer { key: self.user.key, lamports: (self.user.lamports - amount) as u64 },
            bank: self.bank.credited(amount),
        }
    }

    /// Tells whether a deposit of `amount` is in range, for a caller that has
    /// to find out before it calls `deposit`.
    pub fn is_in_range(&self, amount: u64) -> (ok: bool)
        ensures
            ok == self.in_range(amount),
    {
        if amount == 0 || self.user.lamports < amount {
            return true;
        }
        if amount > u64::MAX - self.bank.lamports {
            return false;
        }
        self.bank.rent_minimum <= self.bank.lamports + amount
    }
}

impl Withdraw {
    /// The bank's funds cover its reserve, and the funds of both sides
    /// together can be counted in a `u64`. Where this holds, every amount is
    /// in range, and it still holds after the withdrawal.
    pub open spec fn wf(&self) -> bool {
        &&& self.bank.wf()
        &&& self.user.lamports + self.bank.lamports <= u64::MAX
    }

    /// A withdrawal of `amount` can be counted: where the owner asks for an
    /// amount above zero, the bank's funds cover the reserve, so that they
    /// give a balance; and where the withdrawal is accepted, what the owner
    /// then has fits in a `u64`.
    pub open spec fn in_range(&self, amount: u64) -> bool {
        &&& amount > 0 && self.user.key == self.bank.data.owner ==> self.bank.wf()
        &&& self.verdict(amount) is Ok ==> self.user.lamports + amount <= u64::MAX
    }

    /// Whether `withdraw` accepts `amount`, and if not, why.
    pub open spec fn verdict(&self, amount: u64) -> Result<(), BankError> {
        self.bank.withdrawal_verdict(self.user.key, amount)
    }

    /// The state after an accepted withdrawal of `amount`.
    pub open spec fn settled(self, amount: u64) -> Withdraw {
        Withdraw {
            user: Signer { key: self.user.key, lamports: (self.user.lamports + amount) as u64 },
            bank: self.bank.debited(amount),
        }
    }

    /// Tells whether a withdrawal of `amount` is in range, for a caller that
    /// has to find out before it calls `withdraw`.
    pub fn is_in_range(&self, amount: u64) -> (ok: bool)
        ensures
            ok == self.in_range(amount),
    {
        if amount == 0 || !same_key(&self.bank.data.owner, &self.user.key) {
            return true;
        }
        if self.bank.lamports < self.bank.rent_minimum {
            return false;
        }
        if self.bank.derive_balance() < amount {
            return true;
        }
        amount <= u64::MAX - self.user.lamports
    }
}

/// Creates the bank of `ctx.user` under `name`.
///
/// A name of 1 to 19 bytes is accepted: the record is written with that name,
/// a balance of zero and the user as owner, and no funds move. An empty name
/// is refused with `EmptyName`, one of 20 bytes or more with `NameTooLong`,
/// and then nothing is written.
pub fn create(ctx: &mut Create, name: String) -> (res: Result<(), BankError>)
    ensures
        res == name_verdict(name@),
        1 <= encode_utf8(name@).len() <= 19 ==> res is Ok,
        encode_utf8(name@).len() == 0 ==> res === Err(BankError::EmptyName),
        encode_utf8(name@).len() >= 20 ==> res === Err(BankError::NameTooLong),
        res is Ok ==> *final(ctx) == old(ctx).settled(name),
        res is Ok ==> final(ctx).bank.name == name,
        res is Ok ==> final(ctx).bank.balance == 0,
        res is Ok ==> final(ctx).bank.owner == old(ctx).user.key,
        res is Ok ==> final(ctx).bank.wf(),
        res is Err ==> *final(ctx) == *old(ctx),
        final(ctx).user == old(ctx).user,
{
    let len: usize = name.as_str().as_bytes().len();
    if len == 0 {
        return Err(BankError::EmptyName);
    }
    if len >= 20 {
        return Err(BankError::NameTooLong);
    }
    ctx.bank = Bank { name, balance: 0, owner: ctx.user.key };
    Ok(())
}

/// Moves `amount` from `ctx.user` into the bank.
///
/// A deposit of zero is refused with `ZeroAmount`, one that the depositor
/// cannot cover with `InsufficientFunds`; then nothing changes. Otherwise the
/// funds move, and the balance is derived anew from what the bank then holds:
/// it is the balance that the funds gave before, plus `amount`.
///
/// The deposit must be in range; `Deposit::is_in_range` tells whether it is.
pub fn deposit(ctx: &mut Deposit, amount: u64) -> (res: Result<(), BankError>)
    requires
        old(ctx).in_range(amount),
    ensures
        res == old(ctx).verdict(amount),
        amount == 0 ==> res === Err(BankError::ZeroAmount),
        old(ctx).user.lamports < amount ==> res === Err(BankError::InsufficientFunds),
        0 < amount <= old(ctx).user.lamports ==> res is Ok,
        res is Ok ==> *final(ctx) == old(ctx).settled(amount),
        res is Ok ==> final(ctx).bank.data.balance == old(ctx).bank.available() + amount,
        res is Ok && old(ctx).bank.reconciled() ==> final(ctx).bank.data.balance == old(
            ctx,
        ).bank.data.balance + amount,
        res is Ok ==> final(ctx).bank.lamports == old(ctx).bank.lamports + amount,
        res is Ok ==> final(ctx).user.lamports == old(ctx).user.lamports - amount,
        res is Ok ==> final(ctx).bank.reconciled(),
        res is Err ==> *final(ctx) == *old(ctx),
        final(ctx).bank.data.name == old(ctx).bank.data.name,
        final(ctx).bank.data.owner == old(ctx).bank.data.owner,
        old(ctx).wf() ==> final(ctx).wf(),
{
    if amount == 0 {
        return Err(BankError::ZeroAmount);
    }
    if ctx.user.lamports < amount {
        return Err(BankError::InsufficientFunds);
    }
    ctx.user.lamports = ctx.user.lamports - amount;
    ctx.bank.lamports = ctx.bank.lamports + amount;
    ctx.bank.data.balance = ctx.bank.derive_balance();
    Ok(())
}

/// Moves `amount` from the bank to `ctx.user`, who must be its owner.
///
/// A withdrawal of zero is refused with `ZeroAmount`; one asked for by anyone
/// but the owner with `Unauthorized`; one above the balance that the bank's
/// funds give with `InsufficientBankBalance`; then nothing changes. Otherwise
/// the balance is derived from the funds held, the funds move, and the balance
/// goes down by `amount`.
///
/// The withdrawal must be in range; `Withdraw::is_in_range` tells whether it
/// is.
pub fn withdraw(ctx: &mut Withdraw, amount: u64) -> (res: Result<(), BankError>)
    requires
        old(ctx).in_range(amount),
    ensures
        res == old(ctx).verdict(amount),
        amount == 0 ==> res === Err(BankError::ZeroAmount),
        amount > 0 && old(ctx).user.key != old(ctx).bank.data.owner ==> res === Err(
            BankError::Unauthorized,
        ),
        old(ctx).user.key == old(ctx).bank.data.owner && amount > 0 && amount > old(
            ctx,
        ).bank.available() ==> res === Err(BankError::InsufficientBankBalance),
        old(ctx).user.key == old(ctx).bank.data.owner && 0 < amount <= old(
            ctx,
        ).bank.available() ==> res is Ok,
        res is Ok ==> *final(ctx) == old(ctx).settled(amount),
        res is Ok ==> final(ctx).bank.data.balance == old(ctx).bank.available() - amount,
        res is Ok && old(ctx).bank.reconciled() ==> final(ctx).bank.data.balance == old(
            ctx,
        ).bank.data.balance - amount,
        res is Ok ==> final(ctx).bank.lamports == old(ctx).bank.lamports - amount,
        res is Ok ==> final(ctx).user.lamports == old(ctx).user.lamports + amount,
        res is Ok ==> final(ctx).bank.reconciled(),
        res is Err ==> *final(ctx) == *old(ctx),
        final(ctx).bank.data.name == old(ctx).bank.data.name,
        final(ctx).bank.data.owner == old(ctx).bank.data.owner,
        old(ctx).wf() ==> final(ctx).wf(),
{
    if amount == 0 {
        return Err(BankError::ZeroAmount);
    }
    if !same_key(&ctx.bank.data.owner, &ctx.user.key) {
        return Err(BankError::Unauthorized);
    }
    let balance: u64 = ctx.bank.derive_balance();
    if balance < amount {
        return Err(BankError::InsufficientBankBalance);
    }
    ctx.bank.lamports = ctx.bank.lamports - amount;
    ctx.user.lamports = ctx.user.lamports + amount;
    ctx.bank.data.balance = balance - amount;
    Ok(())
}

} // verus!
