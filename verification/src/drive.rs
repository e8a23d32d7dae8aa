//! The drive: a byte store of its own, addressed by 32-bit addresses, that
//! outlives a run by being written out whole at each checkpoint.

use vstd::prelude::*;
use vstd::slice::slice_subrange;
use crate::fault::Fault;
use crate::memory::with_block;

verus! {

/// The drive's bytes. Its length is that of the image it was made from.
pub struct Drive {
    bytes: Vec<u8>,
}

impl View for Drive {
    type V = Seq<u8>;

    closed spec fn view(&self) -> Seq<u8> {
        self.bytes@
    }
}

impl Drive {
    /// A drive that holds the bytes of an image.
    pub fn from_bytes(image: Vec<u8>) -> (d: Drive)
        ensures
            d@ == image@,
    {
        Drive { bytes: image }
    }

    /// The number of bytes on the drive.
    pub fn len(&self) -> (n: usize)
        ensures
            n == self@.len(),
    {
        self.bytes.len()
    }

    /// Whether `count` bytes from `addr` on all lie on the drive.
    pub fn holds(&self, addr: u32, count: u16) -> (b: bool)
        ensures
            b <==> addr + count <= self@.len(),
    {
        let n: usize = self.bytes.len();
        addr as usize <= n && count as usize <= n - addr as usize
    }

    /// The byte at an address known to be on the drive.
    pub fn byte(&self, addr: usize) -> (b: u8)
        requires
            addr < self@.len(),
        ensures
            b == self@[addr as int],
    {
        self.bytes[addr]
    }

    /// Stores a byte at an address known to be on the drive.
    pub fn set_byte(&mut self, addr: usize, value: u8)
        requires
            addr < old(self)@.len(),
        ensures
            final(self)@ == old(self)@.update(addr as int, value),
    {
        self.bytes[addr] = value;
    }

    /// Reads the byte at `addr`, or reports that the address is past the end.
    pub fn read(&self, addr: u32) -> (r: Result<u8, Fault>)
        ensures
            addr < self@.len() ==> r == Ok::<u8, Fault>(self@[addr as int]),
            addr >= self@.len() ==> r == Err::<u8, Fault>(Fault::DriveAddressOutOfBounds),
    {
        if (addr as usize) < self.bytes.len() {
            Ok(self.bytes[addr as usize])
        } else {
            Err(Fault::DriveAddressOutOfBounds)
        }
    }

    /// Stores `value` at `addr`, or reports that the address is past the end
    /// and leaves the drive as it was.
    pub fn write(&mut self, addr: u32, value: u8) -> (r: Result<(), Fault>)
        ensures
            addr < old(self)@.len() ==> r == Ok::<(), Fault>(())
                && final(self)@ == old(self)@.update(addr as int, value),
            addr >= old(self)@.len() ==> r == Err::<(), Fault>(Fault::DriveAddressOutOfBounds)
                && final(self)@ == old(self)@,
    {
        if (addr as usize) < self.bytes.len() {
            self.bytes[addr as usize] = value;
            Ok(())
        } else {
            Err(Fault::DriveAddressOutOfBounds)
        }
    }

    /// The `count` bytes from `from` on, all known to be on the drive.
    pub fn slice(&self, from: usize, count: usize) -> (s: &[u8])
        requires
            from + count <= self@.len(),
        ensures
            s@ == self@.subrange(from as int, from + count),
    {
        let size: usize = self.bytes.len();
        assert(from + count <= size);
        slice_subrange(self.bytes.as_slice(), from, from + count)
    }

    /// Copies `block` onto the drive from `at` on. A block that reaches past
    /// the end is rejected and the drive is left as it was.
    pub fn load(&mut self, at: usize, block: &[u8]) -> (r: Result<(), Fault>)
        ensures
            at + block@.len() <= old(self)@.len() ==> r == Ok::<(), Fault>(()) && final(self)@
                == with_block(old(self)@, at as int, block@),
            at + block@.len() > old(self)@.len() ==> r == Err::<(), Fault>(
                Fault::DriveAddressOutOfBounds,
            ) && final(self)@ == old(self)@,
    {
        let n: usize = block.len();
        let size: usize = self.bytes.len();
        if at > size || n > size - at {
            return Err(Fault::DriveAddressOutOfBounds);
        }
        let ghost before = self@;
        let mut i: usize = 0;
        while i < n
            invariant
                i <= n,
                n == block@.len(),
                at + n <= size,
                before.len() == size,
                self@ == with_block(before, at as int, block@.subrange(0, i as int)),
            decreases n - i,
        {
            self.bytes[at + i] = block[i];
            i = i + 1;
        }
        assert(block@.subrange(0, n as int) =~= block@);
        Ok(())
    }

    /// A copy of the whole drive, as it is written out at a checkpoint.
    pub fn snapshot(&self) -> (image: Vec<u8>)
        ensures
            image@ == self@,
    {
        let n: usize = self.bytes.len();
        let mut image: Vec<u8> = Vec::with_capacity(n);
        let mut i: usize = 0;
        while i < n
            invariant
                i <= n,
                n == self.bytes@.len(),
                image@ == self.bytes@.subrange(0, i as int),
            decreases n - i,
        {
            image.push(self.bytes[i]);
            i = i + 1;
        }
        assert(self.bytes@.subrange(0, n as int) =~= self.bytes@);
        image
    }
}

/// A checkpoint loses nothing: a drive made from the snapshot of another
/// holds the same byte at every address.
pub proof fn lemma_snapshot_reloads(drive: Drive, image: Vec<u8>, reloaded: Drive)
    requires
        image@ == drive@,
        reloaded@ == image@,
    ensures
        reloaded@.len() == drive@.len(),
        forall|addr: int| 0 <= addr < drive@.len() ==> reloaded@[addr] == drive@[addr],
{
}

} // verus!
