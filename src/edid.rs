use vstd::prelude::*;

verus! {

/// Most bytes asked of the EDID EEPROM in one block read.
pub const EDID_BLOCK_LEN: usize = 0x80;

/// Progress of reading the EDID into a buffer, one block read at a time.
pub struct EdidRead {
    offset: u8,
    len: usize,
    capacity: usize,
    done: bool,
}

/// What an EDID read holds.
pub struct EdidReadView {
    /// EEPROM offset of the next block.
    pub offset: u8,
    /// Bytes read so far, which fill the front of the buffer.
    pub len: usize,
    /// Size of the buffer.
    pub capacity: usize,
    /// Whether the EEPROM has nothing more to give.
    pub done: bool,
}

/// The length of the block that comes next: what is left of the buffer, at
/// most `EDID_BLOCK_LEN`.
pub open spec fn block_len(v: EdidReadView) -> usize {
    if v.capacity - v.len < EDID_BLOCK_LEN {
        (v.capacity - v.len) as usize
    } else {
        EDID_BLOCK_LEN
    }
}

impl View for EdidRead {
    type V = EdidReadView;

    closed spec fn view(&self) -> EdidReadView {
        EdidReadView { offset: self.offset, len: self.len, capacity: self.capacity, done: self.done }
    }
}

impl EdidRead {
    /// Whether the bytes read fit in the buffer.
    pub open spec fn wf(&self) -> bool {
        self@.len <= self@.capacity
    }

    /// Starts reading at EEPROM `offset` into a buffer of `capacity` bytes.
    pub fn new(offset: u8, capacity: usize) -> (r: Self)
        ensures
            r.wf(),
            r@ == (EdidReadView { offset, len: 0, capacity, done: false }),
    {
        EdidRead { offset, len: 0, capacity, done: false }
    }

    /// Bytes read so far.
    pub fn len(&self) -> (r: usize)
        ensures
            r == self@.len,
    {
        self.len
    }

    /// The next block to read: its EEPROM offset, and where it goes in the
    /// buffer with its length; nothing once the buffer is full or the
    /// EEPROM has ended.
    pub fn next_block(&self) -> (r: Option<(u8, usize, usize)>)
        requires
            self.wf(),
        ensures
            self@.done || self@.len == self@.capacity ==> r is None,
            !self@.done && self@.len < self@.capacity ==> r == Some(
                (self@.offset, self@.len, block_len(self@)),
            ),
    {
        if self.done || self.len == self.capacity {
            None
        } else {
            let rest = self.capacity - self.len;
            let n = if rest < EDID_BLOCK_LEN { rest } else { EDID_BLOCK_LEN };
            Some((self.offset, self.len, n))
        }
    }

    /// Records that the block of `next_block` gave `read` bytes; a count
    /// above the block length is taken as the block length. An empty block
    /// ends the read, and so does one that reaches the end of the 8-bit
    /// offset range; the latter is still counted.
    pub fn advance(&mut self, read: usize)
        requires
            old(self).wf(),
        ensures
            final(self).wf(),
            final(self)@.capacity == old(self)@.capacity,
            old(self)@.done || old(self)@.len == old(self)@.capacity ==> final(self)@ == old(self)@,
            !old(self)@.done && old(self)@.len < old(self)@.capacity ==> {
                let n = if read < block_len(old(self)@) { read } else { block_len(old(self)@) };
                &&& n == 0 ==> final(self)@ == (EdidReadView { done: true, ..old(self)@ })
                &&& n > 0 ==> final(self)@.len == old(self)@.len + n
                &&& n > 0 && old(self)@.offset + n <= u8::MAX ==> final(self)@.offset == old(self)@.offset
                    + n && !final(self)@.done
                &&& n > 0 && old(self)@.offset + n > u8::MAX ==> final(self)@.offset == old(self)@.offset
                    && final(self)@.done
            },
    {
        if self.done || self.len == self.capacity {
            return;
        }
        let rest = self.capacity - self.len;
        let block = if rest < EDID_BLOCK_LEN { rest } else { EDID_BLOCK_LEN };
        let n = if read < block { read } else { block };
        if n == 0 {
            self.done = true;
            return;
        }
        self.len = self.len + n;
        match self.offset.checked_add(n as u8) {
            Some(o) => {
                self.offset = o;
            },
            None => {
                self.done = true;
            },
        }
    }
}

} // verus!
