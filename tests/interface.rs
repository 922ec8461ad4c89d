//! Which operations each phase exposes. Every type gets the fallbacks below;
//! a call resolves to a handle's own method when its phase has one, and to
//! the fallback, which returns `Absent`, when it has none.

use typestates::handle::{FileWriter, ResourceError};
use typestates::pin::{Function, Pin};

#[derive(Debug, PartialEq)]
struct Absent;

trait Fallback: Sized {
    fn write(&mut self, _data: &str) -> Absent {
        Absent
    }
    fn close(self) -> Absent {
        Absent
    }
    fn open(self) -> Absent {
        Absent
    }
    fn set_high(&mut self) -> Absent {
        Absent
    }
    fn function(&self) -> Absent {
        Absent
    }
}

impl<T> Fallback for T {}

#[test]
fn closed_handle_cannot_write_or_close() {
    let mut f = FileWriter::new("abc123.txt".to_string());
    assert_eq!(f.write("abc"), Absent);
    assert!(f.medium().contents().is_empty());
    let f = FileWriter::new("abc123.txt".to_string());
    assert_eq!(f.close(), Absent);
}

#[test]
fn open_handle_cannot_be_opened_again() {
    let f = FileWriter::new("abc123.txt".to_string());
    let mut f = match f.open() {
        Ok(f) => f,
        Err((_, e)) => panic!("open failed: {:?}", e),
    };
    let r: Result<(), ResourceError> = f.write("abc");
    assert_eq!(r, Ok(()));
    assert_eq!(f.open(), Absent);
}

#[test]
fn closed_after_open_exposes_only_open() {
    let f = FileWriter::new("abc123.txt".to_string());
    let f = match f.open() {
        Ok(f) => f.close(),
        Err((_, e)) => panic!("open failed: {:?}", e),
    };
    let mut g = FileWriter::new("other.txt".to_string());
    assert_eq!(g.write("x"), Absent);
    assert_eq!(g.close(), Absent);
    assert!(f.open().is_ok());
}

#[test]
fn alternate_function_pin_loses_output_operations() {
    let mut o = Pin::new(5).into_output(false);
    o.set_high();
    assert!(o.is_set_high());
    assert_eq!(o.function(), Absent);
    let mut a = o.into_alternate(Function::Primary);
    assert_eq!(a.set_high(), Absent);
    assert_eq!(a.function(), Function::Primary);
}

#[test]
fn input_pin_has_neither_output_nor_peripheral_operations() {
    let mut i = Pin::new(0);
    assert_eq!(i.set_high(), Absent);
    assert_eq!(i.function(), Absent);
    assert!(i.is_high(1));
}
