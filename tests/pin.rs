use typestates::pin::{AlternateFunction, Function, Input, Output, Pin};

#[test]
fn input_reads_its_own_bit() {
    let p: Pin<Input> = Pin::new(3);
    assert_eq!(p.number(), 3);
    assert!(p.is_high(0b0000_1000));
    assert!(!p.is_high(0b1111_0111));
    let p0 = Pin::new(0);
    assert!(p0.is_high(0b0000_0001));
    let p7 = Pin::new(7);
    assert!(p7.is_high(0b1000_0000));
    assert!(!p7.is_high(0b0111_1111));
}

#[test]
fn output_drives_only_its_bit() {
    let mut p: Pin<Output> = Pin::new(2).into_output(true);
    assert!(p.is_set_high());
    assert_eq!(p.drive(0b1000_0001), 0b1000_0101);
    p.set_low();
    assert_eq!(p.drive(0b1111_1111), 0b1111_1011);
    p.toggle();
    assert!(p.is_set_high());
    p.toggle();
    assert!(!p.is_set_high());
    p.set_high();
    assert_eq!(p.drive(0), 0b0000_0100);
}

#[test]
fn output_to_alternate_function() {
    let p: Pin<Output> = Pin::new(5).into_output(true);
    let a: Pin<AlternateFunction> = p.into_alternate(Function::Secondary);
    assert_eq!(a.number(), 5);
    assert_eq!(a.function(), Function::Secondary);
    assert_eq!(a.select(0b0010_0000, 0), (0, 0b0010_0000));
    let a = Pin::new(1).into_alternate(Function::Primary);
    assert_eq!(a.select(0, 0b0000_0010), (0b0000_0010, 0));
    let a = Pin::new(6).into_alternate(Function::Tertiary);
    assert_eq!(a.select(0b0000_0001, 0b1000_0000), (0b0100_0001, 0b1100_0000));
}

#[test]
fn alternate_back_to_input_and_output() {
    let a = Pin::new(4).into_alternate(Function::Tertiary);
    let i: Pin<Input> = a.into_input();
    assert_eq!(i.number(), 4);
    let o = i.into_output(false).into_input().into_alternate(Function::Primary).into_output(true);
    assert_eq!(o.number(), 4);
    assert_eq!(o.drive(0), 0b0001_0000);
}
