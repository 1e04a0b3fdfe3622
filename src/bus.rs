use vstd::prelude::*;

verus! {

/// Size of the flat address space, in bytes.
pub const RAM_SIZE: usize = 65536;

/// A flat 64 KiB memory: every 16-bit address holds one byte.
pub struct Bus {
    pub ram: [u8; RAM_SIZE],
}

impl Bus {
    /// The byte at `addr`.
    pub open spec fn mem(&self, addr: u16) -> u8 {
        self.ram@[addr as int]
    }

    /// A bus whose memory is all zero.
    pub fn new() -> (r: Bus)
        ensures
            forall|i: int| 0 <= i < RAM_SIZE ==> r.ram@[i] == 0,
    {
        Bus { ram: [0u8; RAM_SIZE] }
    }

    /// Stores `data` at `addr`; every other byte is kept.
    pub fn write(&mut self, addr: u16, data: u8)
        ensures
            final(self).ram@ == old(self).ram@.update(addr as int, data),
    {
        self.ram[addr as usize] = data;
    }

    /// Copies `data` into memory from `origin` on, addresses wrapping past
    /// `0xFFFF`; every other byte is kept.
    pub fn load(&mut self, origin: u16, data: &[u8])
        requires
            data@.len() <= RAM_SIZE,
        ensures
            forall|i: int|
                0 <= i < RAM_SIZE ==> #[trigger] final(self).ram@[i] == if (i - origin + RAM_SIZE)
                    % (RAM_SIZE as int) < data@.len() {
                    data@[(i - origin + RAM_SIZE) % (RAM_SIZE as int)]
                } else {
                    old(self).ram@[i]
                },
    {
        let mut k: usize = 0;
        while k < data.len()
            invariant
                k <= data@.len() <= RAM_SIZE,
                forall|i: int|
                    0 <= i < RAM_SIZE ==> #[trigger] self.ram@[i] == if (i - origin + RAM_SIZE) % (
                    RAM_SIZE as int) < k {
                        data@[(i - origin + RAM_SIZE) % (RAM_SIZE as int)]
                    } else {
                        old(self).ram@[i]
                    },
            decreases data@.len() - k,
        {
            let addr = ((origin as usize + k) % RAM_SIZE) as u16;
            self.write(addr, data[k]);
            k = k + 1;
        }
    }

    /// The byte stored at `addr`.
    pub fn read(&self, addr: u16) -> (r: u8)
        ensures
            r == self.mem(addr),
    {
        self.ram[addr as usize]
    }
}

} // verus!
