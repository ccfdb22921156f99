//! The opaque chip handle.

use vstd::prelude::*;

verus! {

/// A handle to an open GPIO chip, as the host library returned it.
///
/// The handle is an address-shaped token. Nothing here looks behind it: the
/// only question ever asked of a handle is whether it is the null sentinel,
/// by which the host library reports that it could not open the device.
/// A handle is neither copied nor cloned, so whoever holds one holds the only
/// one.
#[derive(Debug)]
pub struct GpiodChip {
    addr: usize,
}

impl GpiodChip {
    /// The address that the handle stands for.
    pub closed spec fn address(&self) -> usize {
        self.addr
    }

    /// Whether this is the null sentinel.
    pub open spec fn null(&self) -> bool {
        self.address() == 0
    }

    /// Wraps the address that the open operation returned.
    pub fn from_addr(addr: usize) -> (chip: GpiodChip)
        ensures
            chip.address() == addr,
    {
        GpiodChip { addr }
    }

    /// Gives the address back, for the close operation.
    pub fn into_addr(self) -> (addr: usize)
        ensures
            addr == self.address(),
    {
        self.addr
    }

    /// The address of the handle, without giving the handle up.
    pub fn addr(&self) -> (addr: usize)
        ensures
            addr == self.address(),
    {
        self.addr
    }

    /// Whether the handle is the null sentinel, that is, whether the open
    /// operation failed.
    pub fn is_null(&self) -> (null: bool)
        ensures
            null == self.null(),
    {
        self.addr == 0
    }
}

} // verus!
