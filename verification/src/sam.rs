//! The Synchronous Address Multiplexer: a 16-bit configuration word written
//! one bit at a time through a 32-entry index port.
//!
//! Control-register bit layout:
//! bits 0-2   VDG addressing mode (combined with the PIA's VDG bits)
//! bits 3-9   VDG address offset (start of VRAM, in 512-byte units)
//! bit  10    page switch
//! bits 11-12 MPU clock rate
//! bits 13-14 memory size
//! bit  15    map type

use vstd::prelude::*;

verus! {

/// A write of `index` clears config bit `index / 2` when `index` is even and
/// sets it when `index` is odd.
pub open spec fn sam_write_spec(config: u16, index: usize) -> u16
    recommends
        index < 32,
{
    if index % 2 == 1 {
        config | (1u16 << (index as u16 / 2))
    } else {
        config & !(1u16 << (index as u16 / 2))
    }
}

/// The configuration after a whole sequence of index writes.
pub open spec fn sam_config_after(config: u16, writes: Seq<usize>) -> u16
    decreases writes.len(),
{
    if writes.len() == 0 {
        config
    } else {
        sam_write_spec(sam_config_after(config, writes.drop_last()), writes.last())
    }
}

/// Whether bit `b` of `config` is set.
pub open spec fn config_bit(config: u16, b: u16) -> bool {
    config & (1u16 << b) != 0
}

#[derive(Clone, Copy, PartialEq, Eq, Structural, Debug)]
pub struct Sam {
    pub config: u16,
}

impl Sam {
    pub open spec fn vdg_bits_spec(self) -> u8 {
        (self.config & 0x0007) as u8
    }

    pub open spec fn vram_start_spec(self) -> u16 {
        (512 * ((self.config & 0x03f8) >> 3)) as u16
    }

    pub open spec fn page_switch_spec(self) -> bool {
        self.config & 0x0400 != 0
    }

    pub open spec fn mpu_rate_spec(self) -> u8 {
        ((self.config & 0x1800) >> 11) as u8
    }

    pub open spec fn map_type_spec(self) -> bool {
        self.config & 0x8000 != 0
    }

    pub fn new() -> (s: Sam)
        ensures
            s.config == 0,
    {
        Sam { config: 0 }
    }

    pub fn get_raw_config(&self) -> (c: u16)
        ensures
            c == self.config,
    {
        self.config
    }

    /// The 3-bit VDG mode field.
    pub fn get_vdg_bits(&self) -> (b: u8)
        ensures
            b == self.vdg_bits_spec(),
            b < 8,
    {
        proof {
            let c = self.config;
            assert((c & 0x0007) < 8) by (bit_vector);
        }
        (self.config & 0x0007) as u8
    }

    /// The VRAM start address: 512 bytes times the 7-bit offset field.
    pub fn get_vram_start(&self) -> (a: u16)
        ensures
            a == self.vram_start_spec(),
    {
        let field = (self.config & 0x03f8) >> 3;
        proof {
            let c = self.config;
            assert(((c & 0x03f8) >> 3) <= 0x7f) by (bit_vector);
        }
        512 * field
    }

    pub fn get_page_switch(&self) -> (p: bool)
        ensures
            p == self.page_switch_spec(),
    {
        self.config & 0x0400 != 0
    }

    /// The 2-bit MPU clock-rate field.
    pub fn get_mpu_rate(&self) -> (r: u8)
        ensures
            r == self.mpu_rate_spec(),
    {
        proof {
            let c = self.config;
            assert(((c & 0x1800) >> 11) < 4) by (bit_vector);
        }
        ((self.config & 0x1800) >> 11) as u8
    }

    pub fn get_map_type(&self) -> (m: bool)
        ensures
            m == self.map_type_spec(),
    {
        self.config & 0x8000 != 0
    }

    /// Writes one index into the shift-register port: the addressed bit is
    /// cleared for an even index and set for an odd one.
    pub fn write(&mut self, index: usize)
        requires
            index < 32,
        ensures
            final(self).config == sam_write_spec(old(self).config, index),
    {
        let val: u16 = 1u16 << ((index as u16) / 2);
        if index % 2 == 0 {
            self.config = self.config & !val;
        } else {
            self.config = self.config | val;
        }
    }
}

/// After any sequence of index writes (each below 32), a config bit `b` is set
/// iff the last index that touched it (an index with `i / 2 == b`) was odd;
/// a bit no write touched keeps its initial value.
pub proof fn lemma_sam_write_sequence(config: u16, writes: Seq<usize>, b: usize)
    requires
        b < 16,
        forall|j: int| 0 <= j < writes.len() ==> #[trigger] writes[j] < 32,
    ensures
        (exists|j: int| 0 <= j < writes.len() && #[trigger] writes[j] / 2 == b) ==> {
            let k = last_touch(writes, b);
            config_bit(sam_config_after(config, writes), b as u16) == (writes[k] % 2 == 1)
        },
        (forall|j: int| 0 <= j < writes.len() ==> #[trigger] writes[j] / 2 != b) ==>
            config_bit(sam_config_after(config, writes), b as u16) == config_bit(config, b as u16),
    decreases writes.len(),
{
    if writes.len() == 0 {
    } else {
        let prefix = writes.drop_last();
        let i = writes.last();
        let c0 = sam_config_after(config, prefix);
        let c1 = sam_config_after(config, writes);
        lemma_sam_write_sequence(config, prefix, b);
        let bb: u16 = b as u16;
        let ib: u16 = (i as u16) / 2;
        assert(i < 32);
        assert(ib == (i / 2) as u16);
        if i / 2 == b {
            assert(last_touch(writes, b) == writes.len() - 1);
            if i % 2 == 1 {
                assert((c0 | (1u16 << bb)) & (1u16 << bb) != 0) by (bit_vector)
                    requires
                        bb < 16,
                ;
            } else {
                assert((c0 & !(1u16 << bb)) & (1u16 << bb) == 0) by (bit_vector)
                    requires
                        bb < 16,
                ;
            }
        } else {
            assert(ib != bb && ib < 16);
            assert(((c0 | (1u16 << ib)) & (1u16 << bb) != 0) == (c0 & (1u16 << bb) != 0))
                by (bit_vector)
                requires
                    ib != bb,
                    ib < 16,
                    bb < 16,
            ;
            assert(((c0 & !(1u16 << ib)) & (1u16 << bb) != 0) == (c0 & (1u16 << bb) != 0))
                by (bit_vector)
                requires
                    ib != bb,
                    ib < 16,
                    bb < 16,
            ;
            if exists|j: int| 0 <= j < writes.len() && #[trigger] writes[j] / 2 == b {
                let w = choose|j: int| 0 <= j < writes.len() && #[trigger] writes[j] / 2 == b;
                assert(w < writes.len() - 1);
                assert(prefix[w] / 2 == b);
                lemma_last_touch_valid(prefix, b);
                let k = last_touch(prefix, b);
                assert(last_touch(writes, b) == k);
                assert(writes[k] == prefix[k]);
            }
        }
    }
}

/// The index of the last write in the sequence that touches config bit `b`.
pub open spec fn last_touch(writes: Seq<usize>, b: usize) -> int
    decreases writes.len(),
{
    if writes.len() == 0 {
        -1
    } else if writes.last() / 2 == b {
        writes.len() - 1
    } else {
        last_touch(writes.drop_last(), b)
    }
}

/// When some write touches bit `b`, `last_touch` names a valid position,
/// that position touches `b`, and no later position does.
pub proof fn lemma_last_touch_valid(writes: Seq<usize>, b: usize)
    requires
        exists|j: int| 0 <= j < writes.len() && #[trigger] writes[j] / 2 == b,
    ensures
        0 <= last_touch(writes, b) < writes.len(),
        writes[last_touch(writes, b)] / 2 == b,
        forall|j: int|
            last_touch(writes, b) < j < writes.len() ==> #[trigger] writes[j] / 2 != b,
    decreases writes.len(),
{
    if writes.last() / 2 == b {
    } else {
        let prefix = writes.drop_last();
        let w = choose|j: int| 0 <= j < writes.len() && #[trigger] writes[j] / 2 == b;
        assert(w < writes.len() - 1);
        assert(prefix[w] / 2 == b);
        lemma_last_touch_valid(prefix, b);
        assert forall|j: int|
            last_touch(writes, b) < j < writes.len() implies #[trigger] writes[j] / 2 != b by {
            if j < writes.len() - 1 {
                assert(prefix[j] == writes[j]);
            }
        }
    }
}

} // verus!
