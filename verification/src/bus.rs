//! The memory bus at the boundary of the core.
//!
//! The core owns no memory: each `step` reads and writes through a bus the
//! caller supplies.  `OpenBus` is the primary, fallible contract — an
//! address with no device behind it is "open bus" and reads as absent.
//! `Bus` is the convenience variant where every address is mapped.

use vstd::prelude::*;

use crate::semantics::mem_get;

verus! {

/// A bus where not every address need be mapped to a device.
///
/// `mem()` is the mapped contents; `writable()` is the set of addresses on
/// which a write lands.  A read never changes the bus, a write never
/// changes what is writable.
pub trait OpenBus: Sized {
    /// The bytes behind the mapped addresses.
    spec fn mem(&self) -> Map<u16, u8>;

    /// The addresses that accept a write.
    spec fn writable(&self) -> Set<u16>;

    /// The byte at `addr`, or `None` for open bus.
    fn read(&self, addr: u16) -> (r: Option<u8>)
        ensures
            r == mem_get(self.mem(), addr),
    ;

    /// Store `byte` at `addr`; `None` means no device accepted the write
    /// and nothing changed.
    fn write(&mut self, addr: u16, byte: u8) -> (r: Option<()>)
        ensures
            final(self).writable() == old(self).writable(),
            old(self).writable().contains(addr) ==> r == Some(()) && final(self).mem()
                == old(self).mem().insert(addr, byte),
            !old(self).writable().contains(addr) ==> r == None::<()> && final(self).mem() == old(
                self,
            ).mem(),
    ;
}

/// A bus where every address is mapped: reads and writes cannot fail.
pub trait Bus: Sized {
    /// The bytes behind the addresses; every address is in its domain.
    spec fn mem(&self) -> Map<u16, u8>;

    /// The byte at `addr`.
    fn read(&self, addr: u16) -> (r: u8)
        ensures
            self.mem().dom().contains(addr),
            r == self.mem()[addr],
    ;

    /// Store `byte` at `addr`.
    fn write(&mut self, addr: u16, byte: u8)
        ensures
            final(self).mem() == old(self).mem().insert(addr, byte),
    ;
}

/// A device driven by an always-mapped bus.
pub trait BusDevice<M> {
    type Bus: Bus;

    fn cycle(&mut self, bus: &mut Self::Bus) -> Option<u8>;
}

/// A device driven by a bus with open addresses; `None` from `cycle`
/// reports that the device hit open bus or an invalid instruction.
pub trait OpenBusDevice<B: OpenBus> {
    fn cycle(&mut self, bus: &mut B) -> Option<u8>;
}

} // verus!
