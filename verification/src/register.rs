//! The console's memory-mapped registers, modeled by their addresses.
//!
//! The console runtime exposes a fixed set of typed registers at fixed
//! addresses. The library models a register as the address it stands at;
//! the actual reads and writes of the hardware are the runtime layer's
//! work, outside the library.

use vstd::prelude::*;

verus! {

/// A typed register at a fixed address of the console's address space.
pub struct Register<T> {
    addr: usize,
    ty: core::marker::PhantomData<T>,
}

impl<T> View for Register<T> {
    type V = usize;

    closed spec fn view(&self) -> usize {
        self.addr
    }
}

impl<T> Register<T> {
    /// A register at the given address.
    pub fn new(address: usize) -> (r: Register<T>)
        ensures
            r@ == address,
    {
        Register { addr: address, ty: core::marker::PhantomData }
    }

    /// The address the register stands at.
    pub fn address(&self) -> (a: usize)
        ensures
            a == self@,
    {
        self.addr
    }
}

} // verus!
