use vstd::prelude::*;

verus! {

/// Size of the address space in bytes.
pub const MEMORY_SIZE: usize = 4096;

/// Address at which programs are loaded.
pub const PROGRAM_START: usize = 0x200;

/// A flat, zero-initialised, byte-addressable store of `MEMORY_SIZE` bytes.
#[derive(Debug)]
pub struct Memory {
    data: Vec<u8>,
}

impl View for Memory {
    type V = Seq<u8>;

    closed spec fn view(&self) -> Seq<u8> {
        self.data@
    }
}

/// `MEMORY_SIZE` zero bytes.
pub open spec fn zeroed() -> Seq<u8> {
    Seq::new(MEMORY_SIZE as nat, |a: int| 0u8)
}

/// `mem` with the bytes from `start` on replaced by `bytes`.
pub open spec fn overwritten(mem: Seq<u8>, start: int, bytes: Seq<u8>) -> Seq<u8> {
    Seq::new(
        mem.len(),
        |a: int|
            if start <= a < start + bytes.len() {
                bytes[a - start]
            } else {
                mem[a]
            },
    )
}

impl Memory {
    /// Well-formedness: the store holds exactly `MEMORY_SIZE` bytes.
    pub open spec fn wf(&self) -> bool {
        self@.len() == MEMORY_SIZE
    }

    /// A zeroed store.
    pub fn new() -> (r: Memory)
        ensures
            r@ == zeroed(),
    {
        let r = Memory { data: vec![0u8; MEMORY_SIZE] };
        assert(r@ =~= zeroed());
        r
    }

    /// The byte at `addr`.
    pub fn read(&self, addr: usize) -> (r: u8)
        requires
            addr < self@.len(),
        ensures
            r == self@[addr as int],
    {
        self.data[addr]
    }

    /// Stores `value` at `addr`.
    pub fn write(&mut self, addr: usize, value: u8)
        requires
            addr < old(self)@.len(),
        ensures
            final(self)@ == old(self)@.update(addr as int, value),
    {
        self.data.set(addr, value);
    }

    /// A copy of the bytes in `[start, end)`.
    pub fn read_slice(&self, start: usize, end: usize) -> (r: Vec<u8>)
        requires
            start <= end <= self@.len(),
        ensures
            r@ == self@.subrange(start as int, end as int),
    {
        let mut r: Vec<u8> = Vec::new();
        let mut a: usize = start;
        while a < end
            invariant
                start <= a <= end <= self@.len(),
                r@ == self@.subrange(start as int, a as int),
            decreases end - a,
        {
            r.push(self.data[a]);
            a = a + 1;
            assert(r@ =~= self@.subrange(start as int, a as int));
        }
        r
    }

    /// Stores `bytes` in `[start, end)`.
    pub fn write_slice(&mut self, start: usize, end: usize, bytes: &[u8])
        requires
            start <= end <= old(self)@.len(),
            bytes@.len() == end - start,
        ensures
            final(self)@ == overwritten(old(self)@, start as int, bytes@),
    {
        let mut a: usize = start;
        while a < end
            invariant
                start <= a <= end <= self@.len(),
                bytes@.len() == end - start,
                self@.len() == old(self)@.len(),
                forall|b: int|
                    0 <= b < self@.len() ==> #[trigger] self@[b] == if start <= b < a {
                        bytes@[b - start]
                    } else {
                        old(self)@[b]
                    },
            decreases end - a,
        {
            self.data.set(a, bytes[a - start]);
            a = a + 1;
        }
        assert(self@ =~= overwritten(old(self)@, start as int, bytes@));
    }

    /// Sets every byte to zero.
    pub fn clear(&mut self)
        requires
            old(self).wf(),
        ensures
            final(self)@ == zeroed(),
    {
        let mut a: usize = 0;
        while a < MEMORY_SIZE
            invariant
                0 <= a <= MEMORY_SIZE,
                self@.len() == MEMORY_SIZE,
                forall|b: int| 0 <= b < a ==> #[trigger] self@[b] == 0u8,
            decreases MEMORY_SIZE - a,
        {
            self.data.set(a, 0u8);
            a = a + 1;
        }
        assert(self@ =~= zeroed());
    }
}

impl Default for Memory {
    fn default() -> (r: Memory)
        ensures
            r@ == zeroed(),
    {
        Memory::new()
    }
}

} // verus!
