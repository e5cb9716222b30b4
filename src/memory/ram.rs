use crate::bus::{Backend, BusEntry};
use vstd::prelude::*;

verus! {

/// Number of bytes a `Ram` holds.
pub const RAM_SIZE: u16 = 0x8000;

/// 32 KiB of zero-initialised read/write memory.
pub struct Ram {
    data: [u8; 0x8000],
}

impl Ram {
    /// A zero-filled RAM.
    pub fn new() -> (r: Ram)
        ensures
            r.contents() == Seq::new(RAM_SIZE as nat, |i: int| 0u8),
    {
        let data = [0u8; 0x8000];
        assert(data@ =~= Seq::new(RAM_SIZE as nat, |i: int| 0u8));
        Ram { data }
    }

    /// A zero-filled RAM bound at address 0, named "RAM".
    pub fn new_entry() -> (r: BusEntry<Ram>)
        ensures
            r.start_addr() == 0,
            r.end_addr() == RAM_SIZE - 1,
            r.mem() == Seq::new(RAM_SIZE as nat, |i: int| 0u8),
            r.label() == "RAM"@,
            r.wf(),
    {
        BusEntry::new(Ram::new(), "RAM".to_string(), 0)
    }
}

impl Backend for Ram {
    closed spec fn contents(&self) -> Seq<u8> {
        self.data@
    }

    fn size(&self) -> (r: u16) {
        RAM_SIZE
    }

    fn read(&self, offset: u16) -> (r: u8) {
        self.data[offset as usize]
    }

    fn write(&mut self, offset: u16, value: u8) {
        self.data[offset as usize] = value;
    }
}

} // verus!
