//! The cursor with which the file system reads a block device, sector by
//! sector.

use vstd::prelude::*;

verus! {

/// The size of a sector, in bytes.
pub const SECTOR_SIZE: usize = 0x200;

/// A place on a block device: a sector, and an offset into it.
pub struct DiskCursor {
    /// The sector.
    pub sector: u64,
    /// The offset into the sector.
    pub offset: usize,
    /// The task that serves the block device.
    pub blk_tid: usize,
}

/// Where to move a cursor to.
#[derive(Debug, Clone, Copy, PartialEq, Eq)]
pub enum SeekFrom {
    /// To this place, counted from the start.
    Start(u64),
    /// To this place, counted from the end.
    End(i64),
    /// To this place, counted from where the cursor is.
    Current(i64),
}

impl DiskCursor {
    /// The place of the cursor as a number of bytes from the start.
    pub open spec fn position(self) -> int {
        self.sector * SECTOR_SIZE + self.offset
    }

    /// What holds of a cursor: its offset lies inside a sector.
    pub open spec fn wf(self) -> bool {
        self.offset < SECTOR_SIZE
    }

    /// The number of bytes that a read into a buffer of `len` bytes takes
    /// from the sector: up to the end of the sector where the cursor is not
    /// at its start or the buffer is shorter than a sector, and a whole
    /// sector otherwise.
    pub open spec fn read_size(self, len: int) -> int {
        if self.offset != 0 || len < SECTOR_SIZE {
            if self.offset + len < SECTOR_SIZE {
                len
            } else {
                SECTOR_SIZE - self.offset
            }
        } else {
            SECTOR_SIZE as int
        }
    }

    /// The place of the cursor as a number of bytes from the start.
    pub fn get_position(&self) -> (r: usize)
        requires
            self.position() <= usize::MAX,
        ensures
            r == self.position(),
    {
        assert(self.sector * SECTOR_SIZE <= usize::MAX) by (nonlinear_arith)
            requires
                self.sector * SECTOR_SIZE + self.offset <= usize::MAX,
                self.offset >= 0,
        ;
        (self.sector * 0x200) as usize + self.offset
    }

    /// Moves the cursor to the place `position`, in bytes from the start.
    pub fn set_position(&mut self, position: usize)
        ensures
            final(self).wf(),
            final(self).position() == position,
            final(self).sector == position / SECTOR_SIZE,
            final(self).offset == position % SECTOR_SIZE,
            final(self).blk_tid == old(self).blk_tid,
    {
        self.sector = (position / 0x200) as u64;
        self.offset = position % 0x200;
    }

    /// Moves the cursor on by `amount` bytes.
    pub fn move_cursor(&mut self, amount: usize)
        requires
            old(self).position() + amount <= usize::MAX,
        ensures
            final(self).wf(),
            final(self).position() == old(self).position() + amount,
            final(self).blk_tid == old(self).blk_tid,
    {
        let position = self.get_position();
        self.set_position(position + amount)
    }

    /// Reads from the sector under the cursor, whose bytes are `data`, into
    /// `buf`, moves the cursor on and returns the number of bytes read. A read
    /// never goes past the end of the sector.
    pub fn read(&mut self, buf: &mut Vec<u8>, data: &[u8]) -> (r: usize)
        requires
            old(self).wf(),
            data@.len() == SECTOR_SIZE,
            old(self).position() + SECTOR_SIZE <= usize::MAX,
            old(self).offset == 0 && old(buf)@.len() >= SECTOR_SIZE ==> old(buf)@.len() == SECTOR_SIZE,
        ensures
            r == old(self).read_size(old(buf)@.len() as int),
            final(self).wf(),
            final(self).position() == old(self).position() + r,
            final(self).blk_tid == old(self).blk_tid,
            final(buf)@.len() == old(buf)@.len(),
            forall|i: int| 0 <= i < r ==> final(buf)@[i] == data@[old(self).offset + i],
            forall|i: int| r <= i < old(buf)@.len() ==> final(buf)@[i] == old(buf)@[i],
    {
        let start: usize = self.offset;
        let end: usize = if buf.len() < SECTOR_SIZE - start {
            start + buf.len()
        } else {
            SECTOR_SIZE
        };
        let read_size: usize = end - start;
        let mut i: usize = 0;
        while i < read_size
            invariant
                i <= read_size,
                read_size == end - start,
                end <= SECTOR_SIZE,
                read_size <= buf@.len(),
                buf@.len() == old(buf)@.len(),
                data@.len() == SECTOR_SIZE,
                forall|j: int| 0 <= j < i ==> buf@[j] == data@[start + j],
                forall|j: int| i <= j < buf@.len() ==> buf@[j] == old(buf)@[j],
            decreases read_size - i,
        {
            buf[i] = data[start + i];
            i = i + 1;
        }
        self.move_cursor(read_size);
        read_size
    }

    /// Moves the cursor to a place counted from the start, or from where it
    /// is, and returns the new place.
    pub fn seek(&mut self, pos: SeekFrom) -> (r: Result<u64, ()>)
        requires
            !(pos is End),
            pos matches SeekFrom::Start(i) ==> i <= usize::MAX,
            pos matches SeekFrom::Current(i) ==> 0 <= old(self).position() + i <= usize::MAX
                && old(self).position() <= usize::MAX && old(self).position() <= i64::MAX && old(self).position() + i <= i64::MAX,
        ensures
            final(self).wf(),
            final(self).blk_tid == old(self).blk_tid,
            match pos {
                SeekFrom::Start(i) => r == Ok::<u64, ()>(i) && final(self).position() == i,
                SeekFrom::Current(i) => r == Ok::<u64, ()>((old(self).position() + i) as u64) && final(self).position() == old(self).position() + i,
                SeekFrom::End(_) => true,
            },
    {
        match pos {
            SeekFrom::Start(i) => {
                self.set_position(i as usize);
                Ok(i)
            },
            SeekFrom::Current(i) => {
                let new_pos: i64 = (self.get_position() as i64) + i;
                self.set_position(new_pos as usize);
                Ok(new_pos as u64)
            },
            SeekFrom::End(_) => Err(()),
        }
    }
}

} // verus!
