//! A block device that lives in memory.

use vstd::prelude::*;
use crate::message::BLOCK_SIZE;

verus! {

/// A block device that keeps its blocks in memory.
pub struct RamDiskImpl {
    /// The bytes of the disk.
    pub disk: Vec<u8>,
}

impl RamDiskImpl {
    /// Whether the disk has a block with this number.
    pub open spec fn has_block(&self, block_id: usize) -> bool {
        block_id * BLOCK_SIZE + BLOCK_SIZE <= self.disk@.len()
    }

    /// The bytes of the block with this number.
    pub open spec fn block(&self, block_id: usize) -> Seq<u8> {
        self.disk@.subrange(block_id * BLOCK_SIZE, block_id * BLOCK_SIZE + BLOCK_SIZE)
    }

    /// The number of blocks of the disk.
    pub fn capacity(&self) -> (r: usize)
        ensures
            r == self.disk@.len() / (BLOCK_SIZE as nat),
    {
        self.disk.len() / BLOCK_SIZE
    }

    /// Copies a block of the disk into `buffer`.
    pub fn read_block(&self, block_id: usize, buffer: &mut Vec<u8>)
        requires
            old(buffer)@.len() == BLOCK_SIZE,
            self.has_block(block_id),
        ensures
            final(buffer)@ == self.block(block_id),
    {
        let total: usize = self.disk.len();
        assert(block_id * BLOCK_SIZE + BLOCK_SIZE <= total);
        let start: usize = block_id * BLOCK_SIZE;
        let mut i: usize = 0;
        while i < BLOCK_SIZE
            invariant
                i <= BLOCK_SIZE,
                start == block_id * BLOCK_SIZE,
                start + BLOCK_SIZE <= self.disk@.len(),
                buffer@.len() == BLOCK_SIZE,
                forall|j: int| 0 <= j < i ==> buffer@[j] == self.disk@[start + j],
            decreases BLOCK_SIZE - i,
        {
            buffer[i] = self.disk[start + i];
            i = i + 1;
        }
        proof {
            assert(buffer@ =~= self.block(block_id));
        }
    }

    /// Copies `buffer` into a block of the disk.
    pub fn write_block(&mut self, block_id: usize, buffer: &[u8])
        requires
            buffer@.len() == BLOCK_SIZE,
            old(self).has_block(block_id),
        ensures
            final(self).disk@.len() == old(self).disk@.len(),
            final(self).block(block_id) == buffer@,
            forall|j: int|
                0 <= j < old(self).disk@.len() && !(block_id * BLOCK_SIZE <= j < block_id * BLOCK_SIZE
                    + BLOCK_SIZE) ==> final(self).disk@[j] == old(self).disk@[j],
    {
        let total: usize = self.disk.len();
        assert(block_id * BLOCK_SIZE + BLOCK_SIZE <= total);
        let start: usize = block_id * BLOCK_SIZE;
        let mut i: usize = 0;
        while i < BLOCK_SIZE
            invariant
                i <= BLOCK_SIZE,
                start == block_id * BLOCK_SIZE,
                start + BLOCK_SIZE <= self.disk@.len(),
                self.disk@.len() == old(self).disk@.len(),
                buffer@.len() == BLOCK_SIZE,
                forall|j: int| 0 <= j < i ==> self.disk@[start + j] == buffer@[j],
                forall|j: int|
                    0 <= j < self.disk@.len() && !(start <= j < start + i) ==> self.disk@[j] == old(self).disk@[j],
            decreases BLOCK_SIZE - i,
        {
            self.disk[start + i] = buffer[i];
            i = i + 1;
        }
        proof {
            assert(self.block(block_id) =~= buffer@);
        }
    }

    /// The bytes of the disk.
    pub fn get_ram_disk(&self) -> (r: &Vec<u8>)
        ensures
            r@ == self.disk@,
    {
        &self.disk
    }
}

} // verus!
