//! Memory-mapped register cells.
//!
//! A cell holds the value last written to it; reads and writes take the
//! whole value at once. The access rights of a register (read-only,
//! read-write, write-only) are the methods its type offers.
use vstd::prelude::*;

verus! {

/// A cell read and written as a whole value at a time.
pub struct VolatileCell<T> {
    value: T,
}

impl<T> View for VolatileCell<T> {
    type V = T;

    closed spec fn view(&self) -> T {
        self.value
    }
}

impl<T: Copy> VolatileCell<T> {
    /// Creates a new `VolatileCell` containing the given value.
    pub fn new(value: T) -> (r: Self)
        ensures
            r@ == value,
    {
        VolatileCell { value }
    }

    /// Returns a copy of the contained value.
    pub fn get(&self) -> (r: T)
        ensures
            r == self@,
    {
        self.value
    }

    /// Sets the contained value.
    pub fn set(&mut self, value: T)
        ensures
            final(self)@ == value,
    {
        self.value = value;
    }
}

/// Read-only register.
pub struct RO<T> where T: Copy {
    register: VolatileCell<T>,
}

impl<T: Copy> View for RO<T> {
    type V = T;

    closed spec fn view(&self) -> T {
        self.register@
    }
}

impl<T> RO<T> where T: Copy {
    /// A register holding `value`.
    pub fn new(value: T) -> (r: Self)
        ensures
            r@ == value,
    {
        RO { register: VolatileCell::new(value) }
    }

    /// Reads the value of the register.
    pub fn read(&self) -> (r: T)
        ensures
            r == self@,
    {
        self.register.get()
    }
}

/// Read-write register.
pub struct RW<T> where T: Copy {
    register: VolatileCell<T>,
}

impl<T: Copy> View for RW<T> {
    type V = T;

    closed spec fn view(&self) -> T {
        self.register@
    }
}

impl<T> RW<T> where T: Copy {
    /// A register holding `value`.
    pub fn new(value: T) -> (r: Self)
        ensures
            r@ == value,
    {
        RW { register: VolatileCell::new(value) }
    }

    /// Performs a read-modify-write operation.
    pub fn modify<F>(&mut self, f: F) where F: FnOnce(T) -> T
        requires
            f.requires((old(self)@,)),
        ensures
            f.ensures((old(self)@,), final(self)@),
    {
        let value = f(self.register.get());
        self.register.set(value);
    }

    /// Reads the value of the register.
    pub fn read(&self) -> (r: T)
        ensures
            r == self@,
    {
        self.register.get()
    }

    /// Writes a `value` into the register.
    pub fn write(&mut self, value: T)
        ensures
            final(self)@ == value,
    {
        self.register.set(value)
    }
}

/// Write-only register.
pub struct WO<T> where T: Copy {
    register: VolatileCell<T>,
}

impl<T: Copy> View for WO<T> {
    type V = T;

    /// The value last written.
    closed spec fn view(&self) -> T {
        self.register@
    }
}

impl<T> WO<T> where T: Copy {
    /// A register holding `value`.
    pub fn new(value: T) -> (r: Self)
        ensures
            r@ == value,
    {
        WO { register: VolatileCell::new(value) }
    }

    /// Writes `value` into the register.
    pub fn write(&mut self, value: T)
        ensures
            final(self)@ == value,
    {
        self.register.set(value)
    }
}

} // verus!
