//! The machine's memory: one flat space of 524,288 bytes that holds data,
//! the memory-mapped input registers, code and the stack.

use vstd::prelude::*;
use vstd::slice::slice_subrange;
use crate::fault::Fault;

verus! {

/// The number of bytes in memory; also the initial stack pointer.
pub const MEMORY_SIZE: usize = 524288;

/// The address at which code is loaded and at which execution starts.
pub const CODE_BASE: usize = 65536;

/// The address of the first input register (the last key's glyph code).
/// The mouse position and the screen size follow, each as two big-endian
/// 16-bit values, up to and including address 65,535.
pub const INPUT_BASE: usize = 65527;

/// One sample of the input devices, taken once per cycle.
#[derive(Clone, Copy, PartialEq, Eq, Debug, Structural)]
pub struct InputSample {
    pub key: u8,
    pub mouse_x: u16,
    pub mouse_y: u16,
    pub screen_width: u16,
    pub screen_height: u16,
}

/// The high byte of a 16-bit value.
pub open spec fn high_byte(w: u16) -> u8 {
    (w / 256) as u8
}

/// The low byte of a 16-bit value.
pub open spec fn low_byte(w: u16) -> u8 {
    (w % 256) as u8
}

/// The nine bytes that an input sample occupies from `INPUT_BASE` on.
pub open spec fn input_bytes(input: InputSample) -> Seq<u8> {
    seq![
        input.key,
        high_byte(input.mouse_x),
        low_byte(input.mouse_x),
        high_byte(input.mouse_y),
        low_byte(input.mouse_y),
        high_byte(input.screen_width),
        low_byte(input.screen_width),
        high_byte(input.screen_height),
        low_byte(input.screen_height),
    ]
}

/// A byte sequence with `block` laid over it from index `at` on.
pub open spec fn with_block(bytes: Seq<u8>, at: int, block: Seq<u8>) -> Seq<u8> {
    Seq::new(
        bytes.len(),
        |i: int|
            if at <= i < at + block.len() {
                block[i - at]
            } else {
                bytes[i]
            },
    )
}

/// Memory contents after the input registers were refreshed from a sample.
pub open spec fn with_input(bytes: Seq<u8>, input: InputSample) -> Seq<u8> {
    with_block(bytes, INPUT_BASE as int, input_bytes(input))
}

/// The big-endian 16-bit value stored at `at` and `at + 1`.
pub open spec fn word_at(bytes: Seq<u8>, at: int) -> u16 {
    (bytes[at] * 256 + bytes[at + 1]) as u16
}

/// The big-endian 24-bit value stored at `at .. at + 3`.
pub open spec fn triple_at(bytes: Seq<u8>, at: int) -> u32 {
    (bytes[at] * 65536 + bytes[at + 1] * 256 + bytes[at + 2]) as u32
}

/// The big-endian 32-bit value stored at `at .. at + 4`.
pub open spec fn quad_at(bytes: Seq<u8>, at: int) -> u32 {
    (bytes[at] * 16777216 + bytes[at + 1] * 65536 + bytes[at + 2] * 256 + bytes[at + 3]) as u32
}

/// The machine's memory. Its length never changes.
pub struct Memory {
    bytes: Vec<u8>,
}

impl View for Memory {
    type V = Seq<u8>;

    closed spec fn view(&self) -> Seq<u8> {
        self.bytes@
    }
}

impl Memory {
    /// Memory always holds exactly `MEMORY_SIZE` bytes.
    pub open spec fn wf(&self) -> bool {
        self@.len() == MEMORY_SIZE
    }

    /// Memory with every byte zero.
    pub fn new() -> (m: Memory)
        ensures
            m.wf(),
            forall|i: int| 0 <= i < MEMORY_SIZE ==> m@[i] == 0,
    {
        Memory { bytes: vec![0u8; MEMORY_SIZE] }
    }

    /// The byte at an address known to be in range.
    pub fn byte(&self, addr: usize) -> (b: u8)
        requires
            self.wf(),
            addr < MEMORY_SIZE,
        ensures
            b == self@[addr as int],
    {
        self.bytes[addr]
    }

    /// Stores a byte at an address known to be in range.
    pub fn set_byte(&mut self, addr: usize, value: u8)
        requires
            old(self).wf(),
            addr < MEMORY_SIZE,
        ensures
            final(self).wf(),
            final(self)@ == old(self)@.update(addr as int, value),
    {
        self.bytes[addr] = value;
    }

    /// Reads the byte at `addr`, or reports that the address is outside memory.
    pub fn read(&self, addr: usize) -> (r: Result<u8, Fault>)
        requires
            self.wf(),
        ensures
            addr < MEMORY_SIZE ==> r == Ok::<u8, Fault>(self@[addr as int]),
            addr >= MEMORY_SIZE ==> r == Err::<u8, Fault>(Fault::MemoryAddressOutOfBounds),
    {
        if addr < MEMORY_SIZE {
            Ok(self.bytes[addr])
        } else {
            Err(Fault::MemoryAddressOutOfBounds)
        }
    }

    /// Stores `value` at `addr`, or reports that the address is outside memory
    /// and leaves memory as it was.
    pub fn write(&mut self, addr: usize, value: u8) -> (r: Result<(), Fault>)
        requires
            old(self).wf(),
        ensures
            final(self).wf(),
            addr < MEMORY_SIZE ==> r == Ok::<(), Fault>(()) && final(self)@ == old(self)@.update(
                addr as int,
                value,
            ),
            addr >= MEMORY_SIZE ==> r == Err::<(), Fault>(Fault::MemoryAddressOutOfBounds)
                && final(self)@ == old(self)@,
    {
        if addr < MEMORY_SIZE {
            self.bytes[addr] = value;
            Ok(())
        } else {
            Err(Fault::MemoryAddressOutOfBounds)
        }
    }

    /// The big-endian 16-bit value at `addr` and `addr + 1`, both known to be in range.
    pub fn word(&self, addr: usize) -> (w: u16)
        requires
            self.wf(),
            addr + 1 < MEMORY_SIZE,
        ensures
            w == word_at(self@, addr as int),
    {
        self.bytes[addr] as u16 * 256 + self.bytes[addr + 1] as u16
    }

    /// The big-endian 24-bit value at `addr .. addr + 3`, all known to be in range.
    pub fn triple(&self, addr: usize) -> (t: u32)
        requires
            self.wf(),
            addr + 2 < MEMORY_SIZE,
        ensures
            t == triple_at(self@, addr as int),
    {
        self.bytes[addr] as u32 * 65536 + self.bytes[addr + 1] as u32 * 256 + self.bytes[addr
            + 2] as u32
    }

    /// The big-endian 32-bit value at `addr .. addr + 4`, all known to be in range.
    pub fn quad(&self, addr: usize) -> (q: u32)
        requires
            self.wf(),
            addr + 3 < MEMORY_SIZE,
        ensures
            q == quad_at(self@, addr as int),
    {
        self.bytes[addr] as u32 * 16777216 + self.bytes[addr + 1] as u32 * 65536
            + self.bytes[addr + 2] as u32 * 256 + self.bytes[addr + 3] as u32
    }

    /// Reads the big-endian 16-bit value at `addr` and `addr + 1`, or reports
    /// that one of the two addresses is outside memory.
    pub fn read_word(&self, addr: usize) -> (r: Result<u16, Fault>)
        requires
            self.wf(),
        ensures
            addr + 1 < MEMORY_SIZE ==> r == Ok::<u16, Fault>(word_at(self@, addr as int)),
            addr + 1 >= MEMORY_SIZE ==> r == Err::<u16, Fault>(Fault::MemoryAddressOutOfBounds),
    {
        if addr < MEMORY_SIZE - 1 {
            Ok(self.word(addr))
        } else {
            Err(Fault::MemoryAddressOutOfBounds)
        }
    }

    /// The `count` bytes from `from` on, all known to be in range.
    pub fn slice(&self, from: usize, count: usize) -> (s: &[u8])
        requires
            self.wf(),
            from + count <= MEMORY_SIZE,
        ensures
            s@ == self@.subrange(from as int, from + count),
    {
        slice_subrange(self.bytes.as_slice(), from, from + count)
    }

    /// Copies `block` into memory from `at` on. A block that does not fit is
    /// rejected and memory is left as it was.
    pub fn load(&mut self, at: usize, block: &[u8]) -> (r: Result<(), Fault>)
        requires
            old(self).wf(),
        ensures
            final(self).wf(),
            at + block@.len() <= MEMORY_SIZE ==> r == Ok::<(), Fault>(()) && final(self)@
                == with_block(old(self)@, at as int, block@),
            at + block@.len() > MEMORY_SIZE ==> r == Err::<(), Fault>(
                Fault::MemoryAddressOutOfBounds,
            ) && final(self)@ == old(self)@,
    {
        let n: usize = block.len();
        if at > MEMORY_SIZE || n > MEMORY_SIZE - at {
            return Err(Fault::MemoryAddressOutOfBounds);
        }
        let ghost before = self@;
        let mut i: usize = 0;
        while i < n
            invariant
                i <= n,
                n == block@.len(),
                at + n <= MEMORY_SIZE,
                before.len() == MEMORY_SIZE,
                self@ == with_block(before, at as int, block@.subrange(0, i as int)),
            decreases n - i,
        {
            self.bytes[at + i] = block[i];
            i = i + 1;
        }
        assert(block@.subrange(0, n as int) =~= block@);
        Ok(())
    }

    /// Refreshes the nine input registers from a sample.
    pub fn sample(&mut self, input: InputSample)
        requires
            old(self).wf(),
        ensures
            final(self).wf(),
            final(self)@ == with_input(old(self)@, input),
    {
        self.bytes[INPUT_BASE] = input.key;
        self.bytes[INPUT_BASE + 1] = (input.mouse_x / 256) as u8;
        self.bytes[INPUT_BASE + 2] = (input.mouse_x % 256) as u8;
        self.bytes[INPUT_BASE + 3] = (input.mouse_y / 256) as u8;
        self.bytes[INPUT_BASE + 4] = (input.mouse_y % 256) as u8;
        self.bytes[INPUT_BASE + 5] = (input.screen_width / 256) as u8;
        self.bytes[INPUT_BASE + 6] = (input.screen_width % 256) as u8;
        self.bytes[INPUT_BASE + 7] = (input.screen_height / 256) as u8;
        self.bytes[INPUT_BASE + 8] = (input.screen_height % 256) as u8;
    }
}

} // verus!
