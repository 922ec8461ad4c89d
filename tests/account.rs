use typestates::account::{
    AccrueInterest, Active, BankAccount, Deposit, Frozen, PayFlatFee, TransactionError,
};

#[test]
fn new_account_is_empty() {
    let a = BankAccount::new(7);
    assert_eq!(a.id(), 7);
    assert_eq!(a.balance(), 0);
}

#[test]
fn deposit_fee_and_interest() {
    let mut a = BankAccount::new(1);
    assert_eq!(a.apply(Deposit { amount: 10_000 }), Ok(()));
    assert_eq!(a.balance(), 10_000);
    assert_eq!(a.apply(PayFlatFee { amount: 250 }), Ok(()));
    assert_eq!(a.balance(), 9_750);
    assert_eq!(a.apply(AccrueInterest { percentage: 3 }), Ok(()));
    // 9750 * 3 / 100 = 292.5, rounded down
    assert_eq!(a.balance(), 10_042);
}

#[test]
fn zero_amounts_are_refused() {
    let mut a = BankAccount::new(1);
    assert_eq!(a.apply(Deposit { amount: 0 }), Err(TransactionError::InvalidAmount));
    assert_eq!(a.apply(PayFlatFee { amount: 0 }), Err(TransactionError::InvalidAmount));
    assert_eq!(a.balance(), 0);
}

#[test]
fn fee_above_balance_is_refused_and_changes_nothing() {
    let mut a = BankAccount::new(2);
    assert_eq!(a.apply(Deposit { amount: 100 }), Ok(()));
    assert_eq!(
        a.apply(PayFlatFee { amount: 101 }),
        Err(TransactionError::InsufficientFunds)
    );
    assert_eq!(a.balance(), 100);
    assert_eq!(a.apply(PayFlatFee { amount: 100 }), Ok(()));
    assert_eq!(a.balance(), 0);
}

#[test]
fn overflow_is_refused() {
    let mut a = BankAccount::new(3);
    assert_eq!(a.apply(Deposit { amount: u64::MAX }), Ok(()));
    assert_eq!(a.apply(Deposit { amount: 1 }), Err(TransactionError::Overflow));
    assert_eq!(
        a.apply(AccrueInterest { percentage: 1 }),
        Err(TransactionError::Overflow)
    );
    assert_eq!(a.balance(), u64::MAX);
    // interest that rounds down to nothing still succeeds
    let mut b = BankAccount::new(4);
    assert_eq!(b.apply(Deposit { amount: 99 }), Ok(()));
    assert_eq!(b.apply(AccrueInterest { percentage: 1 }), Ok(()));
    assert_eq!(b.balance(), 99);
    assert_eq!(b.apply(AccrueInterest { percentage: 255 }), Ok(()));
    assert_eq!(b.balance(), 99 + 252);
}

#[test]
fn freeze_and_unfreeze_keep_the_account() {
    let mut a = BankAccount::new(5);
    assert_eq!(a.apply(Deposit { amount: 42 }), Ok(()));
    let f: BankAccount<Frozen> = a.freeze();
    assert_eq!(f.id(), 5);
    assert_eq!(f.balance(), 42);
    let mut a: BankAccount<Active> = f.unfreeze();
    assert_eq!(a.apply(Deposit { amount: 8 }), Ok(()));
    assert_eq!(a.balance(), 50);
}
