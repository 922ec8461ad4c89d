//! A bank account whose active/frozen phase is a type parameter.
//!
//! Transactions can only be applied to an active account. A transaction
//! either succeeds and sets the new balance, or fails with its error and
//! leaves the balance as it was. Amounts are whole cents.

use core::marker::PhantomData;
use vstd::prelude::*;

verus! {

/// Marker: the account is frozen; nothing can be applied to it.
pub struct Frozen;

/// Marker: the account is active.
pub struct Active;

/// Why a transaction was refused.
#[derive(Clone, Copy, Debug, PartialEq, Eq, Structural)]
pub enum TransactionError {
    /// The amount of a deposit or fee is zero.
    InvalidAmount,
    /// The fee is larger than the balance.
    InsufficientFunds,
    /// The new balance would not fit in 64 bits.
    Overflow,
}

/// Something that can be done to a balance, and may be refused.
pub trait Transaction: Sized {
    type Err;

    /// The balance after the transaction is applied to `balance`, or why it
    /// is refused.
    spec fn outcome(&self, balance: u64) -> Result<u64, Self::Err>;

    /// Applies the transaction; a refused one leaves the balance unchanged.
    fn apply(self, balance: &mut u64) -> (r: Result<(), Self::Err>)
        ensures
            match self.outcome(*old(balance)) {
                Ok(b) => r is Ok && *final(balance) == b,
                Err(e) => r == Err::<(), Self::Err>(e) && *final(balance) == *old(balance),
            },
    ;
}

/// Deposit into an account.
pub struct Deposit {
    pub amount: u64,
}

/// Pay a flat fee to the bank.
pub struct PayFlatFee {
    pub amount: u64,
}

/// Pay percentage interest into the account, rounded down to whole cents.
pub struct AccrueInterest {
    pub percentage: u8,
}

/// The interest of `percentage` percent on `balance`, rounded down.
pub open spec fn interest(balance: u64, percentage: u8) -> int {
    (balance * percentage) / 100
}

impl Transaction for Deposit {
    type Err = TransactionError;

    open spec fn outcome(&self, balance: u64) -> Result<u64, TransactionError> {
        if self.amount == 0 {
            Err(TransactionError::InvalidAmount)
        } else if balance + self.amount > u64::MAX {
            Err(TransactionError::Overflow)
        } else {
            Ok((balance + self.amount) as u64)
        }
    }

    fn apply(self, balance: &mut u64) -> (r: Result<(), TransactionError>) {
        if self.amount == 0 {
            return Err(TransactionError::InvalidAmount);
        }
        match balance.checked_add(self.amount) {
            Some(b) => {
                *balance = b;
                Ok(())
            },
            None => Err(TransactionError::Overflow),
        }
    }
}

impl Transaction for PayFlatFee {
    type Err = TransactionError;

    open spec fn outcome(&self, balance: u64) -> Result<u64, TransactionError> {
        if self.amount == 0 {
            Err(TransactionError::InvalidAmount)
        } else if self.amount > balance {
            Err(TransactionError::InsufficientFunds)
        } else {
            Ok((balance - self.amount) as u64)
        }
    }

    fn apply(self, balance: &mut u64) -> (r: Result<(), TransactionError>) {
        if self.amount == 0 {
            return Err(TransactionError::InvalidAmount);
        }
        if self.amount > *balance {
            return Err(TransactionError::InsufficientFunds);
        }
        *balance = *balance - self.amount;
        Ok(())
    }
}

impl Transaction for AccrueInterest {
    type Err = TransactionError;

    open spec fn outcome(&self, balance: u64) -> Result<u64, TransactionError> {
        if balance + interest(balance, self.percentage) > u64::MAX {
            Err(TransactionError::Overflow)
        } else {
            Ok((balance + interest(balance, self.percentage)) as u64)
        }
    }

    fn apply(self, balance: &mut u64) -> (r: Result<(), TransactionError>) {
        let b: u128 = *balance as u128;
        let p: u128 = self.percentage as u128;
        assert(b * p <= u64::MAX * 255) by (nonlinear_arith)
            requires
                b <= u64::MAX,
                p <= 255,
        ;
        let gained: u128 = (b * p) / 100;
        if gained > (u64::MAX - *balance) as u128 {
            return Err(TransactionError::Overflow);
        }
        *balance = *balance + gained as u64;
        Ok(())
    }
}

/// An account identified by `id`, tagged with its phase `S`.
pub struct BankAccount<S> {
    id: u64,
    balance: u64,
    _state: PhantomData<S>,
}

pub struct AccountView {
    pub id: u64,
    pub balance: u64,
}

impl<S> View for BankAccount<S> {
    type V = AccountView;

    closed spec fn view(&self) -> AccountView {
        AccountView { id: self.id, balance: self.balance }
    }
}

// Methods implemented for all possible states
impl<S> BankAccount<S> {
    pub fn id(&self) -> (r: u64)
        ensures
            r == self@.id,
    {
        self.id
    }

    pub fn balance(&self) -> (r: u64)
        ensures
            r == self@.balance,
    {
        self.balance
    }
}

// Methods for active bank accounts only
impl BankAccount<Active> {
    /// A new active account with nothing in it.
    pub fn new(id: u64) -> (r: BankAccount<Active>)
        ensures
            r@ == (AccountView { id, balance: 0 }),
    {
        BankAccount { id, balance: 0, _state: PhantomData }
    }

    /// Applies `transaction` to the balance. A refused transaction comes
    /// back as its error and leaves the account unchanged.
    pub fn apply<T: Transaction>(&mut self, transaction: T) -> (r: Result<(), T::Err>)
        ensures
            final(self)@.id == old(self)@.id,
            match transaction.outcome(old(self)@.balance) {
                Ok(b) => r is Ok && final(self)@.balance == b,
                Err(e) => r == Err::<(), T::Err>(e) && final(self)@ == old(self)@,
            },
    {
        transaction.apply(&mut self.balance)
    }

    pub fn freeze(self) -> (r: BankAccount<Frozen>)
        ensures
            r@ == self@,
    {
        BankAccount { id: self.id, balance: self.balance, _state: PhantomData }
    }
}

// Methods for frozen bank accounts only
impl BankAccount<Frozen> {
    pub fn unfreeze(self) -> (r: BankAccount<Active>)
        ensures
            r@ == self@,
    {
        BankAccount { id: self.id, balance: self.balance, _state: PhantomData }
    }
}

} // verus!
