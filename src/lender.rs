//! The lender: a value shared by every clone of the handle, lent out by name.
use crate::ledger::{denial_message, AccessKind, Ledger};
use std::cell::{BorrowError, BorrowMutError, Cell, RefCell};
use std::ops::{Deref, DerefMut};
use std::rc::Rc;
use vstd::prelude::*;

verus! {

/// `std::cell::RefCell`, the cell that holds the lent value and checks its
/// accesses at run time; opaque here.
#[verifier::external_type_specification]
#[verifier::external_body]
#[verifier::reject_recursive_types(T)]
pub struct ExRefCell<T: ?Sized>(RefCell<T>);

/// `std::cell::Cell`, which holds the ledger shared by handles and guards;
/// opaque here.
#[verifier::external_type_specification]
#[verifier::external_body]
#[verifier::reject_recursive_types(T)]
pub struct ExCell<T: ?Sized>(Cell<T>);

/// `std::cell::Ref`, a granted shared access; opaque here.
#[verifier::external_type_specification]
#[verifier::external_body]
#[verifier::reject_recursive_types(T)]
pub struct ExStdRef<'b, T: ?Sized>(std::cell::Ref<'b, T>);

/// `std::cell::RefMut`, a granted exclusive access; opaque here.
#[verifier::external_type_specification]
#[verifier::external_body]
#[verifier::reject_recursive_types(T)]
pub struct ExStdRefMut<'b, T: ?Sized + 'b>(std::cell::RefMut<'b, T>);

/// `std::cell::BorrowError`, the refusal of a shared access.
#[verifier::external_type_specification]
#[verifier::external_body]
pub struct ExBorrowError(BorrowError);

/// `std::cell::BorrowMutError`, the refusal of an exclusive access.
#[verifier::external_type_specification]
#[verifier::external_body]
pub struct ExBorrowMutError(BorrowMutError);

/// Relies on `RefCell::new`, which wraps the value with no access outstanding.
pub assume_specification<T>[ RefCell::<T>::new ](value: T) -> RefCell<T>;

/// Relies on `RefCell::try_borrow`: whether shared access is granted depends
/// on the accesses outstanding, which are not modelled here.
pub assume_specification<T: ?Sized>[ RefCell::<T>::try_borrow ](cell: &RefCell<T>) -> Result<
    std::cell::Ref<'_, T>,
    BorrowError,
>;

/// Relies on `RefCell::try_borrow_mut`: whether exclusive access is granted
/// depends on the accesses outstanding, which are not modelled here.
pub assume_specification<T: ?Sized>[ RefCell::<T>::try_borrow_mut ](cell: &RefCell<T>) -> Result<
    std::cell::RefMut<'_, T>,
    BorrowMutError,
>;

/// Relies on `Ref::deref`, which reads through the granted shared access.
#[verifier::external_body]
fn read_shared<'a, 'b, T>(r: &'a std::cell::Ref<'b, T>) -> &'a T {
    r.deref()
}

/// Relies on `RefMut::deref`, which reads through the granted exclusive access.
#[verifier::external_body]
fn read_exclusive<'a, 'b, T>(r: &'a std::cell::RefMut<'b, T>) -> &'a T {
    r.deref()
}

/// Relies on `RefMut::deref_mut`, which writes through the granted exclusive access.
#[verifier::external_body]
fn write_exclusive<'a, 'b, T>(r: &'a mut std::cell::RefMut<'b, T>) -> &'a mut T {
    r.deref_mut()
}

/// Relies on `Cell::new`.
pub assume_specification<T>[ Cell::<T>::new ](value: T) -> Cell<T>;

/// Relies on `Cell::replace`, which stores `value` and returns what the cell
/// held; it never panics. What it held is not modelled here.
pub assume_specification<T>[ Cell::<T>::replace ](cell: &Cell<T>, value: T) -> T;

/// Remembers the borrower, so that its ledger entry can be removed when the
/// guard that holds it is released.
pub struct Dropper {
    borrower: String,
    borrowers: Rc<Cell<Ledger>>,
}

impl Dropper {
    /// The name this dropper removes.
    pub closed spec fn borrower(&self) -> Seq<char> {
        self.borrower@
    }

    /// The shared ledger it removes the name from.
    pub closed spec fn ledger(&self) -> Rc<Cell<Ledger>> {
        self.borrowers
    }

    /// Removes the first entry of the shared ledger that equals the
    /// borrower, if there is one.
    pub fn release(self) {
        let mut ledger = self.borrowers.replace(Ledger::new());
        let _found = ledger.release(&self.borrower);
        self.borrowers.replace(ledger);
    }
}

/// Shared access to the lent value, recorded in the ledger under the name of
/// its borrower until it is released. Release it with `release`: dropping it
/// ends the access to the value but leaves its ledger entry behind.
#[verifier::reject_recursive_types(T)]
pub struct Ref<'a, T> {
    value: std::cell::Ref<'a, T>,
    _dropper: Dropper,
}

impl<'a, T> Ref<'a, T> {
    /// The name under which this access is recorded.
    pub closed spec fn borrower(&self) -> Seq<char> {
        self._dropper.borrower()
    }

    /// The shared ledger that records this access.
    pub closed spec fn ledger(&self) -> Rc<Cell<Ledger>> {
        self._dropper.ledger()
    }

    /// Wraps a granted shared access with the name to remove from `borrowers`
    /// on release.
    pub fn new(value: std::cell::Ref<'a, T>, borrower: &str, borrowers: Rc<Cell<Ledger>>) -> (r: Self)
        ensures
            r.borrower() == borrower@,
            r.ledger() == borrowers,
    {
        Ref { value, _dropper: Dropper { borrower: borrower.to_owned(), borrowers } }
    }

    /// Ends this access and removes its entry from the ledger.
    pub fn release(self) {
        let Ref { value: access, _dropper: dropper } = self;
        dropper.release();
    }
}

impl<'a, T> Deref for Ref<'a, T> {
    type Target = T;

    fn deref(&self) -> &T {
        read_shared(&self.value)
    }
}

/// Exclusive access to the lent value, recorded in the ledger under the name
/// of its borrower until it is released. Release it with `release`: dropping
/// it ends the access to the value but leaves its ledger entry behind.
#[verifier::reject_recursive_types(T)]
pub struct RefMut<'a, T> {
    value: std::cell::RefMut<'a, T>,
    _dropper: Dropper,
}

impl<'a, T> RefMut<'a, T> {
    /// The name under which this access is recorded.
    pub closed spec fn borrower(&self) -> Seq<char> {
        self._dropper.borrower()
    }

    /// The shared ledger that records this access.
    pub closed spec fn ledger(&self) -> Rc<Cell<Ledger>> {
        self._dropper.ledger()
    }

    /// Wraps a granted exclusive access with the name to remove from
    /// `borrowers` on release.
    pub fn new(value: std::cell::RefMut<'a, T>, borrower: &str, borrowers: Rc<Cell<Ledger>>) -> (r: Self)
        ensures
            r.borrower() == borrower@,
            r.ledger() == borrowers,
    {
        RefMut { value, _dropper: Dropper { borrower: borrower.to_owned(), borrowers } }
    }

    /// Ends this access and removes its entry from the ledger.
    pub fn release(self) {
        let RefMut { value: access, _dropper: dropper } = self;
        dropper.release();
    }
}

impl<'a, T> Deref for RefMut<'a, T> {
    type Target = T;

    fn deref(&self) -> &T {
        read_exclusive(&self.value)
    }
}

impl<'a, T> DerefMut for RefMut<'a, T> {
    fn deref_mut(&mut self) -> &mut T {
        write_exclusive(&mut self.value)
    }
}

/// Lends a value by name. Every clone shares the value and the ledger of
/// its outstanding borrowers, so a refused request names who holds access.
#[verifier::reject_recursive_types(T)]
pub struct Lender<T> {
    value: Rc<RefCell<T>>,
    borrowers: Rc<Cell<Ledger>>,
}

impl<T> Lender<T> {
    /// The shared ledger of this handle.
    pub closed spec fn ledger(&self) -> Rc<Cell<Ledger>> {
        self.borrowers
    }

    /// The shared cell that holds the value.
    pub closed spec fn cell(&self) -> Rc<RefCell<T>> {
        self.value
    }

    /// Whether two handles share one value and one ledger.
    pub open spec fn shares_with(&self, other: &Lender<T>) -> bool {
        self.ledger() == other.ledger() && self.cell() == other.cell()
    }

    /// Lends `value`, with no borrower yet.
    pub fn new(value: T) -> (r: Self) {
        Lender { value: Rc::new(RefCell::new(value)), borrowers: Rc::new(Cell::new(Ledger::new())) }
    }

    /// Asks for shared access under the name `borrower`. It is granted when
    /// the value's cell grants it and the ledger holds no exclusive access
    /// (the two agree while every guard is released); the name is then
    /// recorded. Otherwise the ledger is left as it was and the refusal
    /// lists its names.
    pub fn borrow(&self, borrower: &str) -> (r: Result<Ref<'_, T>, String>)
        ensures
            match r {
                Ok(g) => g.borrower() == borrower@ && g.ledger() == self.ledger(),
                Err(m) => exists|names: Seq<Seq<char>>|
                    m@ == denial_message(AccessKind::Shared, names),
            },
    {
        let mut ledger = self.borrowers.replace(Ledger::new());
        match self.value.try_borrow() {
            Ok(value) => match ledger.acquire(AccessKind::Shared, borrower) {
                Ok(()) => {
                    self.borrowers.replace(ledger);
                    Ok(Ref::new(value, borrower, Rc::clone(&self.borrowers)))
                },
                Err(m) => {
                    self.borrowers.replace(ledger);
                    Err(m)
                },
            },
            Err(_) => {
                let m = ledger.denial(AccessKind::Shared);
                self.borrowers.replace(ledger);
                Err(m)
            },
        }
    }

    /// Asks for exclusive access under the name `borrower`. It is granted
    /// when the value's cell grants it and the ledger is empty; the name is
    /// then recorded. Otherwise the ledger is left as it was and the refusal
    /// lists its names.
    pub fn borrow_mut(&self, borrower: &str) -> (r: Result<RefMut<'_, T>, String>)
        ensures
            match r {
                Ok(g) => g.borrower() == borrower@ && g.ledger() == self.ledger(),
                Err(m) => exists|names: Seq<Seq<char>>|
                    m@ == denial_message(AccessKind::Exclusive, names),
            },
    {
        let mut ledger = self.borrowers.replace(Ledger::new());
        match self.value.try_borrow_mut() {
            Ok(value) => match ledger.acquire(AccessKind::Exclusive, borrower) {
                Ok(()) => {
                    self.borrowers.replace(ledger);
                    Ok(RefMut::new(value, borrower, Rc::clone(&self.borrowers)))
                },
                Err(m) => {
                    self.borrowers.replace(ledger);
                    Err(m)
                },
            },
            Err(_) => {
                let m = ledger.denial(AccessKind::Exclusive);
                self.borrowers.replace(ledger);
                Err(m)
            },
        }
    }
}

/// A clone is a second handle on the same value and ledger; the value
/// itself is never copied.
impl<T> Clone for Lender<T> {
    fn clone(&self) -> (r: Self)
        ensures
            r.shares_with(self),
    {
        Lender { value: Rc::clone(&self.value), borrowers: Rc::clone(&self.borrowers) }
    }
}

} // verus!
