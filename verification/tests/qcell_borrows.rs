use std::{cell::RefCell, rc::Rc};

use qcell::{QCell, QCellOwner};

// Two mutable borrows of one RefCell at a time: the second one panics.
#[test]
#[should_panic]
fn refcell() {
    let item = Rc::new(RefCell::new(Vec::<u8>::new()));
    let mut iref = item.borrow_mut();
    item.borrow_mut().push(2);
    iref.push(1);
}

// With a QCell the second borrow would not compile: the owner is borrowed
// for as long as the first one lives.
#[test]
fn qcell_test() {
    let mut owner = QCellOwner::new();

    let item = Rc::new(QCell::new(&owner, Vec::<u8>::new()));
    let iref = owner.rw(&item);
    iref.push(1);
    assert_eq!(*owner.ro(&item), vec![1]);
}
