use vstd::prelude::*;

verus! {

/// A fixed-size, byte-addressable memory reached through local offsets.
pub trait Backend {
    /// The bytes the backend holds, offset 0 first.
    spec fn contents(&self) -> Seq<u8>;

    fn size(&self) -> (r: u16)
        ensures
            r as int == self.contents().len(),
    ;

    fn read(&self, offset: u16) -> (r: u8)
        requires
            offset < self.contents().len(),
        ensures
            r == self.contents()[offset as int],
    ;

    fn write(&mut self, offset: u16, value: u8)
        requires
            offset < old(self).contents().len(),
        ensures
            final(self).contents() == old(self).contents().update(offset as int, value),
    ;
}

/// Why a bus access failed.
#[derive(Clone, Copy, Debug, PartialEq, Eq, Structural)]
pub enum BusError {
    /// No attached entry covers the address.
    Unmapped(u16),
    /// A 16-bit access starts at the last byte of an entry's range.
    Unaligned(u16),
}

/// A backend bound to the inclusive address range `start..=end`.
pub struct BusEntry<B: Backend> {
    backend: B,
    name: String,
    start: u16,
    end: u16,
}

impl<B: Backend> BusEntry<B> {
    /// First address of the range.
    pub closed spec fn start_addr(&self) -> u16 {
        self.start
    }

    /// Last address of the range (inclusive).
    pub closed spec fn end_addr(&self) -> u16 {
        self.end
    }

    /// The bytes of the bound backend.
    pub closed spec fn mem(&self) -> Seq<u8> {
        self.backend.contents()
    }

    pub closed spec fn label(&self) -> Seq<char> {
        self.name@
    }

    pub open spec fn contains(&self, addr: u16) -> bool {
        self.start_addr() <= addr <= self.end_addr()
    }

    /// The range holds exactly as many addresses as the backend has bytes.
    pub open spec fn wf(&self) -> bool {
        &&& self.mem().len() >= 1
        &&& self.start_addr() + self.mem().len() - 1 == self.end_addr()
    }

    /// Binds `backend` at `start`; the range ends at `start + size - 1`.
    pub fn new(backend: B, name: String, start: u16) -> (r: BusEntry<B>)
        requires
            backend.contents().len() >= 1,
            start + backend.contents().len() - 1 <= u16::MAX,
        ensures
            r.start_addr() == start,
            r.end_addr() == start + backend.contents().len() - 1,
            r.mem() == backend.contents(),
            r.label() == name@,
            r.wf(),
    {
        let size = backend.size();
        BusEntry { backend, name, start, end: start + (size - 1) }
    }

    pub fn name(&self) -> (r: &String)
        ensures
            r@ == self.label(),
    {
        &self.name
    }

    pub fn start(&self) -> (r: u16)
        ensures
            r == self.start_addr(),
    {
        self.start
    }

    pub fn end(&self) -> (r: u16)
        ensures
            r == self.end_addr(),
    {
        self.end
    }

    /// Reads the byte at bus address `addr`, at offset `addr - start`.
    pub fn read(&self, addr: u16) -> (r: u8)
        requires
            self.wf(),
            self.contains(addr),
        ensures
            r == self.mem()[addr - self.start_addr()],
    {
        self.backend.read(addr - self.start)
    }

    /// Writes the byte at bus address `addr`, at offset `addr - start`.
    pub fn write(&mut self, addr: u16, value: u8)
        requires
            old(self).wf(),
            old(self).contains(addr),
        ensures
            final(self).wf(),
            final(self).start_addr() == old(self).start_addr(),
            final(self).end_addr() == old(self).end_addr(),
            final(self).label() == old(self).label(),
            final(self).mem() == old(self).mem().update(addr - old(self).start_addr(), value),
    {
        let offset = addr - self.start;
        self.backend.write(offset, value);
    }
}

/// Whether range `i` of `layout` covers `addr`.
pub open spec fn covers(layout: Seq<(u16, u16)>, i: int, addr: u16) -> bool {
    layout[i].0 <= addr <= layout[i].1
}

/// Range `i` is the first range of `layout` that covers `addr`.
pub open spec fn owns(layout: Seq<(u16, u16)>, i: int, addr: u16) -> bool {
    &&& 0 <= i < layout.len()
    &&& covers(layout, i, addr)
    &&& forall|j: int| 0 <= j < i ==> !covers(layout, j, addr)
}

/// Some range of `layout` covers `addr`.
pub open spec fn mapped_in(layout: Seq<(u16, u16)>, addr: u16) -> bool {
    exists|i: int| 0 <= i < layout.len() && covers(layout, i, addr)
}

/// The index of the first range of `layout` that covers `addr`.
pub open spec fn owner_in(layout: Seq<(u16, u16)>, addr: u16) -> int {
    choose|i: int| #[trigger] owns(layout, i, addr)
}

/// No two ranges of `layout` share an address.
pub open spec fn disjoint(layout: Seq<(u16, u16)>) -> bool {
    forall|i: int, j: int, a: u16|
        0 <= i < layout.len() && 0 <= j < layout.len() && i != j && #[trigger] covers(layout, i, a)
            ==> !#[trigger] covers(layout, j, a)
}

pub proof fn lemma_owner_unique(layout: Seq<(u16, u16)>, i: int, addr: u16)
    requires
        owns(layout, i, addr),
    ensures
        owner_in(layout, addr) == i,
        mapped_in(layout, addr),
{
    assert(exists|j: int| #[trigger] owns(layout, j, addr));
    let k = owner_in(layout, addr);
    assert(owns(layout, k, addr));
    if k < i {
        assert(!covers(layout, k, addr));
    } else if k > i {
        assert(!covers(layout, i, addr));
    }
}

pub proof fn lemma_owner_exists(layout: Seq<(u16, u16)>, addr: u16)
    requires
        mapped_in(layout, addr),
    ensures
        owns(layout, owner_in(layout, addr), addr),
    decreases layout.len(),
{
    let last = layout.len() - 1;
    let prefix = layout.drop_last();
    if mapped_in(prefix, addr) {
        lemma_owner_exists(prefix, addr);
        let k = owner_in(prefix, addr);
        assert(owns(prefix, k, addr));
        assert forall|j: int| 0 <= j < k implies !covers(layout, j, addr) by {
            assert(prefix[j] == layout[j]);
            assert(!covers(prefix, j, addr));
        }
        assert(prefix[k] == layout[k]);
        assert(owns(layout, k, addr));
        lemma_owner_unique(layout, k, addr);
    } else {
        assert(covers(layout, last, addr)) by {
            let w = choose|i: int| 0 <= i < layout.len() && covers(layout, i, addr);
            if w < last {
                assert(covers(prefix, w, addr));
            }
        }
        assert forall|j: int| 0 <= j < last implies !covers(layout, j, addr) by {
            if covers(layout, j, addr) {
                assert(covers(prefix, j, addr));
            }
        }
        assert(owns(layout, last, addr));
        lemma_owner_unique(layout, last, addr);
    }
}

/// An ordered list of backend bindings; the first entry that covers an
/// address serves it.
pub struct Bus<B: Backend> {
    entries: Vec<BusEntry<B>>,
}

impl<B: Backend> Bus<B> {
    /// Every attached entry is well formed.
    pub open spec fn wf(&self) -> bool {
        forall|i: int| 0 <= i < self.entries().len() ==> #[trigger] self.entries()[i].wf()
    }

    /// The attached entries, in insertion order.
    pub closed spec fn entries(&self) -> Seq<BusEntry<B>> {
        self.entries@
    }

    /// The inclusive address range of each entry, in insertion order.
    pub open spec fn layout(&self) -> Seq<(u16, u16)> {
        self.entries().map_values(|e: BusEntry<B>| (e.start_addr(), e.end_addr()))
    }

    pub open spec fn mapped(&self, addr: u16) -> bool {
        mapped_in(self.layout(), addr)
    }

    /// Index of the entry that serves `addr`.
    pub open spec fn owner(&self, addr: u16) -> int {
        owner_in(self.layout(), addr)
    }

    /// The byte that entry `i` holds for bus address `addr`.
    pub open spec fn entry_byte(&self, i: int, addr: u16) -> u8 {
        self.entries()[i].mem()[addr - self.entries()[i].start_addr()]
    }

    /// The byte a read of `addr` yields, or `None` where nothing is mapped.
    pub open spec fn peek(&self, addr: u16) -> Option<u8> {
        if self.mapped(addr) {
            Some(self.entry_byte(self.owner(addr), addr))
        } else {
            None
        }
    }

    /// What a 16-bit read at `addr` yields: the two bytes of the entry
    /// serving `addr`, little-endian.
    pub open spec fn peek_u16(&self, addr: u16) -> Result<u16, BusError> {
        if !self.mapped(addr) {
            Err(BusError::Unmapped(addr))
        } else if addr == self.entries()[self.owner(addr)].end_addr() {
            Err(BusError::Unaligned(addr))
        } else {
            let o = self.owner(addr);
            Ok((self.entry_byte(o, addr) as u16 | ((self.entry_byte(o, (addr + 1) as u16) as u16) << 8u16)) as u16)
        }
    }

    /// `self` is `prev` after entry `o` stored `value` for address `addr`.
    pub open spec fn stored(&self, prev: &Bus<B>, o: int, addr: u16, value: u8) -> bool {
        &&& self.entries().len() == prev.entries().len()
        &&& self.layout() == prev.layout()
        &&& forall|j: int| 0 <= j < self.entries().len() && j != o ==> #[trigger] self.entries()[j] == prev.entries()[j]
        &&& self.entries()[o].mem() == prev.entries()[o].mem().update(addr - prev.entries()[o].start_addr(), value)
        &&& self.entries()[o].label() == prev.entries()[o].label()
    }

    /// `self` is `prev` after a successful byte write of `value` at `addr`:
    /// only the byte read back at `addr` changed.
    pub open spec fn written(&self, prev: &Bus<B>, addr: u16, value: u8) -> bool {
        &&& self.layout() == prev.layout()
        &&& forall|b: u16| #[trigger] self.peek(b) == if b == addr { Some(value) } else { prev.peek(b) }
    }

    proof fn lemma_stored_written(&self, prev: &Bus<B>, addr: u16, value: u8)
        requires
            prev.wf(),
            prev.mapped(addr),
            self.stored(prev, prev.owner(addr), addr, value),
        ensures
            self.written(prev, addr, value),
    {
        let o = prev.owner(addr);
        lemma_owner_exists(prev.layout(), addr);
        assert forall|b: u16| #[trigger] self.peek(b) == if b == addr { Some(value) } else { prev.peek(b) } by {
            if prev.mapped(b) {
                lemma_owner_exists(prev.layout(), b);
                let j = prev.owner(b);
                assert(self.layout()[j] == (self.entries()[j].start_addr(), self.entries()[j].end_addr()));
                assert(prev.layout()[j] == (prev.entries()[j].start_addr(), prev.entries()[j].end_addr()));
                assert(prev.entries()[j].wf());
                if j == o {
                    assert(self.entries()[o].start_addr() == prev.entries()[o].start_addr());
                }
            }
        }
    }

    /// A read of an address is served by the first entry whose range
    /// covers it, at offset `addr - start`; an address no entry covers
    /// reads as unmapped.
    pub proof fn lemma_routing(&self, i: int, addr: u16)
        requires
            0 <= i < self.entries().len(),
            self.entries()[i].contains(addr),
            forall|j: int| 0 <= j < i ==> !(#[trigger] self.entries()[j]).contains(addr),
        ensures
            self.owner(addr) == i,
            self.peek(addr) == Some(
                self.entries()[i].mem()[addr - self.entries()[i].start_addr()],
            ),
    {
        assert forall|j: int| 0 <= j < i implies !covers(self.layout(), j, addr) by {
            assert(!self.entries()[j].contains(addr));
        }
        lemma_owner_unique(self.layout(), i, addr);
    }

    /// Where no two entries overlap, a 16-bit read that succeeds is the
    /// byte at `addr` ORed with the byte at `addr + 1` shifted left by 8.
    pub proof fn lemma_u16_composition(&self, addr: u16)
        requires
            self.wf(),
            disjoint(self.layout()),
            self.peek_u16(addr) is Ok,
        ensures
            self.peek(addr) is Some,
            self.peek((addr + 1) as u16) is Some,
            self.peek_u16(addr) == Ok::<u16, BusError>(
                (self.peek(addr).unwrap() as u16 | ((self.peek((addr + 1) as u16).unwrap() as u16) << 8u16)) as u16,
            ),
    {
        let o = self.owner(addr);
        lemma_owner_exists(self.layout(), addr);
        assert(self.entries()[o].wf());
        let next = (addr + 1) as u16;
        assert(covers(self.layout(), o, next));
        assert forall|j: int| 0 <= j < o implies !covers(self.layout(), j, next) by {
            if covers(self.layout(), j, next) {
                assert(covers(self.layout(), o, next));
            }
        }
        lemma_owner_unique(self.layout(), o, next);
    }

    /// An empty bus.
    pub fn new() -> (r: Bus<B>)
        ensures
            r.wf(),
            r.entries().len() == 0,
    {
        Bus { entries: Vec::new() }
    }

    /// Appends `entry`; it serves only the addresses no earlier entry covers.
    pub fn attach(&mut self, entry: BusEntry<B>)
        requires
            old(self).wf(),
            entry.wf(),
        ensures
            final(self).wf(),
            final(self).entries() == old(self).entries().push(entry),
    {
        let ghost prev = *self;
        self.entries.push(entry);
        assert forall|i: int| 0 <= i < self.entries().len() implies #[trigger] self.entries()[i].wf() by {
            if i < prev.entries().len() {
                assert(self.entries()[i] == prev.entries()[i]);
            }
        }
    }

    /// Removes every entry.
    pub fn clear(&mut self)
        ensures
            final(self).wf(),
            final(self).entries().len() == 0,
    {
        self.entries.clear();
    }

    /// The index of the first entry that covers `addr`.
    fn backend_index(&self, addr: u16) -> (r: Option<usize>)
        ensures
            r == (if self.mapped(addr) { Some(self.owner(addr) as usize) } else { None::<usize> }),
            r matches Some(i) ==> owns(self.layout(), i as int, addr),
    {
        let mut i: usize = 0;
        while i < self.entries.len()
            invariant
                i <= self.entries@.len(),
                forall|j: int| 0 <= j < i ==> !covers(self.layout(), j, addr),
            decreases self.entries@.len() - i,
        {
            let entry = &self.entries[i];
            if entry.start <= addr && addr <= entry.end {
                proof {
                    lemma_owner_unique(self.layout(), i as int, addr);
                }
                return Some(i);
            }
            i += 1;
        }
        None
    }

    /// Reads one byte through the entry that serves `addr`.
    pub fn read(&self, addr: u16) -> (r: Result<u8, BusError>)
        requires
            self.wf(),
        ensures
            r == (match self.peek(addr) {
                Some(v) => Ok(v),
                None => Err(BusError::Unmapped(addr)),
            }),
    {
        match self.backend_index(addr) {
            Some(i) => Ok(self.entries[i].read(addr)),
            None => Err(BusError::Unmapped(addr)),
        }
    }

    /// Reads a little-endian 16-bit value at `addr` and `addr + 1`, both
    /// through the entry that serves `addr`.
    pub fn read_u16(&self, addr: u16) -> (r: Result<u16, BusError>)
        requires
            self.wf(),
        ensures
            r == self.peek_u16(addr),
    {
        match self.backend_index(addr) {
            Some(i) => {
                let entry = &self.entries[i];
                if addr == entry.end {
                    Err(BusError::Unaligned(addr))
                } else {
                    let lo = entry.read(addr);
                    let hi = entry.read(addr + 1);
                    Ok(lo as u16 | ((hi as u16) << 8u16))
                }
            },
            None => Err(BusError::Unmapped(addr)),
        }
    }

    /// Writes one byte through the entry that serves `addr`.
    pub fn write(&mut self, addr: u16, value: u8) -> (r: Result<(), BusError>)
        requires
            old(self).wf(),
        ensures
            final(self).wf(),
            old(self).mapped(addr) ==> r == Ok::<(), BusError>(()) && final(self).stored(
                old(self),
                old(self).owner(addr),
                addr,
                value,
            ) && final(self).written(old(self), addr, value),
            !old(self).mapped(addr) ==> r == Err::<(), BusError>(BusError::Unmapped(addr))
                && *final(self) == *old(self),
    {
        match self.backend_index(addr) {
            Some(i) => {
                let ghost prev = *self;
                let mut entry = self.entries.remove(i);
                entry.write(addr, value);
                self.entries.insert(i, entry);
                proof {
                    assert(self.entries@ =~= prev.entries@.update(i as int, entry));
                    assert(self.layout() =~= prev.layout());
                    self.lemma_stored_written(&prev, addr, value);
                }
                Ok(())
            },
            None => Err(BusError::Unmapped(addr)),
        }
    }

    /// Writes `value` little-endian at `addr` and `addr + 1`, both through
    /// the entry that serves `addr`.
    pub fn write_u16(&mut self, addr: u16, value: u16) -> (r: Result<(), BusError>)
        requires
            old(self).wf(),
        ensures
            final(self).wf(),
            r == (match old(self).peek_u16(addr) {
                Ok(_) => Ok(()),
                Err(e) => Err::<(), BusError>(e),
            }),
            r is Ok ==> final(self).peek_u16(addr) == Ok::<u16, BusError>(value),
            r is Ok ==> final(self).layout() == old(self).layout(),
            r is Err ==> *final(self) == *old(self),
    {
        match self.backend_index(addr) {
            Some(i) => {
                if addr == self.entries[i].end {
                    return Err(BusError::Unaligned(addr));
                }
                let ghost prev = *self;
                let mut entry = self.entries.remove(i);
                entry.write(addr, value as u8);
                entry.write(addr + 1, (value >> 8u16) as u8);
                self.entries.insert(i, entry);
                proof {
                    assert(self.entries@ =~= prev.entries@.update(i as int, entry));
                    assert(self.layout() =~= prev.layout());
                    assert(prev.entries()[i as int].wf());
                    let s = entry.start_addr();
                    assert(self.entry_byte(i as int, addr) == value as u8);
                    assert(self.entry_byte(i as int, (addr + 1) as u16) == (value >> 8u16) as u8);
                    assert((value as u8) as u16 | ((((value >> 8u16) as u8) as u16) << 8u16) == value)
                        by (bit_vector);
                }
                Ok(())
            },
            None => Err(BusError::Unmapped(addr)),
        }
    }
}

} // verus!
