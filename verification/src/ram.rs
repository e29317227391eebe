//! A small system-RAM harness: a byte store with a video-RAM base offset,
//! used by display exercises to write and read the visible region.

use vstd::prelude::*;

verus! {

/// A RAM image together with the current video-RAM base offset.
#[derive(Debug)]
pub struct Ram {
    pub ram: Vec<u8>,
    pub vram_offset: usize,
}

impl Ram {
    /// A fresh 8 KiB zeroed RAM with the video base at zero.
    pub fn init() -> (r: Ram)
        ensures
            r.ram@.len() == 0x2000,
            forall|i: int| 0 <= i < r.ram@.len() ==> r.ram@[i] == 0u8,
            r.vram_offset == 0,
    {
        let mut ram: Vec<u8> = Vec::new();
        while ram.len() < 0x2000
            invariant
                ram@.len() <= 0x2000,
                forall|i: int| 0 <= i < ram@.len() ==> ram@[i] == 0u8,
            decreases 0x2000 - ram@.len(),
        {
            ram.push(0);
        }
        Ram { ram, vram_offset: 0 }
    }

    /// A copy of the whole RAM image.
    pub fn get_ram_clone(&self) -> (r: Vec<u8>)
        ensures
            r@ == self.ram@,
    {
        let mut r: Vec<u8> = Vec::new();
        let mut i: usize = 0;
        while i < self.ram.len()
            invariant
                0 <= i <= self.ram@.len(),
                r@ == self.ram@.take(i as int),
            decreases self.ram@.len() - i,
        {
            r.push(self.ram[i]);
            proof {
                assert(r@ =~= self.ram@.take(i as int + 1));
            }
            i = i + 1;
        }
        proof {
            assert(self.ram@.take(self.ram@.len() as int) =~= self.ram@);
        }
        r
    }

    pub fn set_vram_offset(&mut self, vram_offset: usize)
        ensures
            *final(self) == (Ram { vram_offset, ..*old(self) }),
    {
        self.vram_offset = vram_offset;
    }

    /// Writes one byte into video RAM at `index` past the base offset.
    pub fn write_vram_byte(&mut self, index: usize, data: u8)
        requires
            index + old(self).vram_offset < old(self).ram@.len(),
            index + old(self).vram_offset <= usize::MAX,
        ensures
            final(self).ram@ == old(self).ram@.update(index + old(self).vram_offset, data),
            final(self).vram_offset == old(self).vram_offset,
    {
        let addr = index + self.vram_offset;
        self.ram.set(addr, data);
    }

    /// Reads one byte from video RAM at `index` past the base offset.
    pub fn read_vram_byte(&self, index: usize) -> (b: u8)
        requires
            index + self.vram_offset < self.ram@.len(),
            index + self.vram_offset <= usize::MAX,
        ensures
            b == self.ram@[index + self.vram_offset],
    {
        self.ram[index + self.vram_offset]
    }
}

/// Shifts the three selected SAM VDG-mode bits in from a 3-bit value: bit
/// `i` of `bits` drives SAM index `2 * i + 1` (set) or `2 * i` (clear).
pub fn set_sam_vdg_bits(sam: &mut crate::sam::Sam, bits: u8)
    ensures
        final(sam).config == crate::sam::sam_write_spec(
            crate::sam::sam_write_spec(
                crate::sam::sam_write_spec(
                    old(sam).config,
                    if bits & 1 != 0 { 1 } else { 0 },
                ),
                if bits & 2 != 0 { 3 } else { 2 },
            ),
            if bits & 4 != 0 { 5 } else { 4 },
        ),
{
    if bits & 1 != 0 {
        sam.write(1);
    } else {
        sam.write(0);
    }
    if bits & 2 != 0 {
        sam.write(3);
    } else {
        sam.write(2);
    }
    if bits & 4 != 0 {
        sam.write(5);
    } else {
        sam.write(4);
    }
}

} // verus!
