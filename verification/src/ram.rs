//! Two memory implementations at the boundary of the core.
//!
//! The sparse RAM is an append-only list of `(address, byte)` pairs, the
//! shape test fixtures use: a read scans for the first pair with the
//! address, a write updates that pair or appends a new one, and every
//! address accepts a write.  The flat RAM is a plain 64 KiB array where
//! every address is mapped.

use vstd::prelude::*;

use crate::bus::{Bus, OpenBus};

verus! {

/// The set of every 16-bit address: both RAM forms accept every write.
pub open spec fn full_address_set() -> Set<u16> {
    Set::new(|a: u16| true)
}

/// The byte the first pair with address `addr` holds, scanning front to
/// back, or `None` when no pair has it.
pub open spec fn sparse_lookup(entries: Seq<(u16, u8)>, addr: u16) -> Option<u8>
    decreases entries.len(),
{
    if entries.len() == 0 {
        None
    } else if entries[0].0 == addr {
        Some(entries[0].1)
    } else {
        sparse_lookup(entries.skip(1), addr)
    }
}

/// The memory map a pair list stands for: an address is mapped iff some
/// pair holds it, to the byte of the first such pair.
pub open spec fn sparse_mem(entries: Seq<(u16, u8)>) -> Map<u16, u8> {
    Map::new(
        |a: u16| sparse_lookup(entries, a) is Some,
        |a: u16|
            match sparse_lookup(entries, a) {
                Some(v) => v,
                None => 0,
            },
    )
}

/// Scanning past a prefix without the address does not change the lookup.
proof fn lemma_lookup_skip(entries: Seq<(u16, u8)>, addr: u16, i: int)
    requires
        0 <= i <= entries.len(),
        forall|j: int| 0 <= j < i ==> (#[trigger] entries[j]).0 != addr,
    ensures
        sparse_lookup(entries, addr) == sparse_lookup(entries.skip(i), addr),
    decreases i,
{
    if i > 0 {
        assert(entries[0].0 != addr);
        assert(forall|j: int|
            0 <= j < i - 1 ==> (#[trigger] entries.skip(1)[j]).0 == entries[j + 1].0);
        lemma_lookup_skip(entries.skip(1), addr, i - 1);
        assert(entries.skip(1).skip(i - 1) =~= entries.skip(i));
    } else {
        assert(entries.skip(0) =~= entries);
    }
}

/// Updating the first pair that holds `addr` moves the lookup at `addr`
/// to the new byte and changes no other address.
proof fn lemma_lookup_update(entries: Seq<(u16, u8)>, i: int, addr: u16, byte: u8, a: u16)
    requires
        0 <= i < entries.len(),
        entries[i].0 == addr,
        forall|j: int| 0 <= j < i ==> (#[trigger] entries[j]).0 != addr,
    ensures
        sparse_lookup(entries.update(i, (addr, byte)), a) == (if a == addr {
            Some(byte)
        } else {
            sparse_lookup(entries, a)
        }),
    decreases i,
{
    let updated = entries.update(i, (addr, byte));
    if i == 0 {
        if a != addr {
            assert(updated.skip(1) =~= entries.skip(1));
        }
    } else {
        assert(updated[0] == entries[0]);
        assert(forall|j: int|
            0 <= j < i - 1 ==> (#[trigger] entries.skip(1)[j]).0 == entries[j + 1].0);
        lemma_lookup_update(entries.skip(1), i - 1, addr, byte, a);
        assert(updated.skip(1) =~= entries.skip(1).update(i - 1, (addr, byte)));
    }
}

/// Appending a pair for an address no pair holds maps that address to the
/// new byte and changes no other address.
proof fn lemma_lookup_push(entries: Seq<(u16, u8)>, addr: u16, byte: u8, a: u16)
    requires
        forall|j: int| 0 <= j < entries.len() ==> (#[trigger] entries[j]).0 != addr,
    ensures
        sparse_lookup(entries.push((addr, byte)), a) == (if a == addr {
            Some(byte)
        } else {
            sparse_lookup(entries, a)
        }),
    decreases entries.len(),
{
    let pushed = entries.push((addr, byte));
    if entries.len() == 0 {
        assert(pushed[0] == (addr, byte));
        assert(pushed.skip(1) =~= Seq::<(u16, u8)>::empty());
        assert(sparse_lookup(Seq::<(u16, u8)>::empty(), a) is None);
    } else {
        assert(pushed[0] == entries[0]);
        assert(forall|j: int|
            0 <= j < entries.len() - 1 ==> (#[trigger] entries.skip(1)[j]).0 == entries[j + 1].0);
        lemma_lookup_push(entries.skip(1), addr, byte, a);
        assert(pushed.skip(1) =~= entries.skip(1).push((addr, byte)));
    }
}

/// The sparse, append-only RAM of the test fixtures.  Every address
/// accepts a write, so `read` and `write` never report open bus for an
/// address that was ever written.
impl OpenBus for Vec<(u16, u8)> {
    open spec fn mem(&self) -> Map<u16, u8> {
        sparse_mem(self@)
    }

    open spec fn writable(&self) -> Set<u16> {
        full_address_set()
    }

    fn read(&self, addr: u16) -> (r: Option<u8>) {
        let mut i: usize = 0;
        while i < self.len()
            invariant
                i <= self@.len(),
                forall|j: int| 0 <= j < i ==> (#[trigger] self@[j]).0 != addr,
            decreases self@.len() - i,
        {
            let (entry_addr, entry_byte) = self[i];
            if entry_addr == addr {
                proof {
                    lemma_lookup_skip(self@, addr, i as int);
                    assert(self@.skip(i as int)[0] == self@[i as int]);
                }
                return Some(entry_byte);
            }
            i += 1;
        }
        proof {
            lemma_lookup_skip(self@, addr, i as int);
        }
        None
    }

    fn write(&mut self, addr: u16, byte: u8) -> (r: Option<()>) {
        let mut i: usize = 0;
        while i < self.len()
            invariant
                i <= self@.len(),
                forall|j: int| 0 <= j < i ==> (#[trigger] self@[j]).0 != addr,
                self@ == old(self)@,
            decreases self@.len() - i,
        {
            let (entry_addr, _) = self[i];
            if entry_addr == addr {
                self[i] = (addr, byte);
                proof {
                    assert forall|a: u16|
                        sparse_lookup(self@, a) == (if a == addr {
                            Some(byte)
                        } else {
                            sparse_lookup(old(self)@, a)
                        }) by {
                        lemma_lookup_update(old(self)@, i as int, addr, byte, a);
                    }
                    assert(sparse_mem(self@) =~= sparse_mem(old(self)@).insert(addr, byte));
                }
                return Some(());
            }
            i += 1;
        }
        self.push((addr, byte));
        proof {
            assert forall|a: u16|
                sparse_lookup(self@, a) == (if a == addr {
                    Some(byte)
                } else {
                    sparse_lookup(old(self)@, a)
                }) by {
                lemma_lookup_push(old(self)@, addr, byte, a);
            }
            assert(sparse_mem(self@) =~= sparse_mem(old(self)@).insert(addr, byte));
        }
        Some(())
    }
}

/// A flat 64 KiB RAM: every address is mapped and writable.
pub struct FlatRam {
    bytes: Vec<u8>,
}

impl FlatRam {
    /// Every address of a flat RAM holds a byte.
    #[verifier::type_invariant]
    spec fn wf(self) -> bool {
        self.bytes@.len() == 0x10000
    }

    /// A flat RAM with every byte zero.
    pub fn new() -> (r: FlatRam)
        ensures
            forall|a: u16| #[trigger] Bus::mem(&r)[a] == 0u8,
    {
        let bytes: Vec<u8> = vec![0u8; 0x10000];
        FlatRam { bytes }
    }
}

impl Bus for FlatRam {
    closed spec fn mem(&self) -> Map<u16, u8> {
        Map::new(|a: u16| true, |a: u16| self.bytes@[a as int])
    }

    fn read(&self, addr: u16) -> (r: u8) {
        proof {
            use_type_invariant(self);
        }
        self.bytes[addr as usize]
    }

    fn write(&mut self, addr: u16, byte: u8) {
        proof {
            use_type_invariant(&*self);
        }
        self.bytes[addr as usize] = byte;
        proof {
            assert(Bus::mem(self) =~= Bus::mem(&*old(self)).insert(addr, byte));
        }
    }
}

/// Every bus where each address is mapped is also an open bus that never
/// reports absence.
impl<B: Bus> OpenBus for B {
    open spec fn mem(&self) -> Map<u16, u8> {
        Bus::mem(self)
    }

    open spec fn writable(&self) -> Set<u16> {
        full_address_set()
    }

    fn read(&self, addr: u16) -> (r: Option<u8>) {
        Some(Bus::read(self, addr))
    }

    fn write(&mut self, addr: u16, byte: u8) -> (r: Option<()>) {
        Bus::write(self, addr, byte);
        Some(())
    }
}

} // verus!
