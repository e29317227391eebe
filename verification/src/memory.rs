//! The memory-mapped bus. A single 64 KiB byte array backs everything; the
//! decoder routes each access to RAM, the ROM-shadowed high region, the PIA
//! register windows, the write-only SAM window, or the interrupt-vector
//! window (remapped down by 0x4000).

use vstd::prelude::*;

use crate::cpu::Core;
use crate::pia::Pia;
use crate::pia::Pia0;
use crate::pia::Pia1;
use crate::sam::sam_write_spec;

verus! {

/// How a bus access is classified. Only `System` accesses may write into the
/// ROM-shadowed region above `ram_top`.
#[derive(Clone, Copy, PartialEq, Eq, Structural, Debug)]
pub enum AccessType {
    Program,
    UserStack,
    SystemStack,
    Generic,
    System,
}

/// The PIA0 register window.
pub open spec fn pia0_window(addr: u16) -> bool {
    0xff00 <= addr <= 0xff1f
}

/// The PIA1 register window.
pub open spec fn pia1_window(addr: u16) -> bool {
    0xff20 <= addr <= 0xff3f
}

/// The write-only SAM configuration window.
pub open spec fn sam_window(addr: u16) -> bool {
    0xffc0 <= addr <= 0xffdf
}

/// The interrupt-vector window, remapped to `addr - 0x4000`.
pub open spec fn vector_window(addr: u16) -> bool {
    0xffe0 <= addr
}

/// The RAM (or ROM-shadowed RAM) region that plain reads and writes touch.
pub open spec fn ram_region(addr: u16) -> bool {
    addr <= 0xfeff
}

/// The backing-store contents after one 8-bit bus write: RAM and the vector
/// window update their byte unless the target lies in ROM (above `ram_top`)
/// and the access is not `System`; every other region leaves RAM alone.
pub open spec fn write_ram_seq(
    ram: Seq<u8>,
    ram_top: u16,
    at: AccessType,
    addr: u16,
    data: u8,
) -> Seq<u8> {
    if addr > ram_top && at != AccessType::System && (ram_region(addr) || vector_window(addr)) {
        ram
    } else if ram_region(addr) {
        ram.update(addr as int, data)
    } else if vector_window(addr) {
        ram.update(addr - 0x4000, data)
    } else {
        ram
    }
}

impl Core {
    /// Well-formedness: the backing store is the full 64 KiB address space.
    pub open spec fn wf(self) -> bool {
        self.ram@.len() == 0x10000
    }

    /// The DAC comparator input PIA0 caches on a side-A data read: the top
    /// six bits of PIA1's side-A data register.
    pub open spec fn pia0_dac_input(self) -> u8 {
        self.pia1.side_a.read_data_spec() >> 2
    }

    /// The byte an 8-bit bus read returns. The SAM window is write-only and
    /// reads as zero; so does the unmapped gap between the PIA and SAM
    /// windows.
    pub open spec fn bus_read_val(self, addr: u16) -> u8 {
        if ram_region(addr) {
            self.ram@[addr as int]
        } else if pia0_window(addr) {
            let i = (addr - 0xff00) as usize;
            let mid = if i % 4 == 0 {
                Pia0 { dac: self.pia0_dac_input(), ..self.pia0 }
            } else {
                self.pia0
            };
            mid.read_result_spec(i)
        } else if pia1_window(addr) {
            self.pia1.read_result_spec((addr - 0xff20) as usize)
        } else if vector_window(addr) {
            self.ram@[addr - 0x4000]
        } else {
            0
        }
    }

    /// PIA0 after an 8-bit bus read: a side-A data read refreshes the cached
    /// DAC byte and the joystick-comparator flag, and a control read clears
    /// its flag bits.
    pub open spec fn bus_read_pia0_after(self, addr: u16) -> Pia0 {
        if pia0_window(addr) {
            let i = (addr - 0xff00) as usize;
            let mid = if i % 4 == 0 {
                Pia0 { dac: self.pia0_dac_input(), ..self.pia0 }
            } else {
                self.pia0
            };
            mid.read_state_spec(i)
        } else {
            self.pia0
        }
    }

    /// PIA1 after an 8-bit bus read.
    pub open spec fn bus_read_pia1_after(self, addr: u16) -> Pia1 {
        if pia1_window(addr) {
            self.pia1.read_state_spec((addr - 0xff20) as usize)
        } else {
            self.pia1
        }
    }

    /// The whole machine after an 8-bit bus read: only the PIA chips can
    /// change (their read side effects), never RAM, the SAM, or a register.
    pub open spec fn bus_read_after(self, addr: u16) -> Core {
        Core {
            pia0: self.bus_read_pia0_after(addr),
            pia1: self.bus_read_pia1_after(addr),
            ..self
        }
    }

    /// PIA0 after an 8-bit bus write.
    pub open spec fn bus_write_pia0_after(self, addr: u16, data: u8) -> Pia0 {
        if pia0_window(addr) {
            self.pia0.write_state_spec((addr - 0xff00) as usize, data)
        } else {
            self.pia0
        }
    }

    /// Whether an 8-bit bus write into the PIA0 window propagates the
    /// control-line states to PIA1 as the DAC-mux selectors.
    pub open spec fn bus_write_propagates_mux(self, addr: u16) -> bool {
        pia0_window(addr) && ((addr - 0xff00) % 4 == 1 || (addr - 0xff00) % 4 == 3)
    }

    /// Relates PIA1 before and after an 8-bit bus write: a PIA1-window write
    /// applies the register write (possibly queueing an audio event); a PIA0
    /// control-register write drives the DAC-mux selectors from PIA0's
    /// post-write control lines; anything else leaves PIA1 alone.
    pub open spec fn bus_write_pia1_rel(pre: Core, post_pia1: Pia1, addr: u16, data: u8) -> bool {
        if pia1_window(addr) {
            Pia1::write_rel(pre.pia1, post_pia1, (addr - 0xff20) as usize, data)
        } else if pre.bus_write_propagates_mux(addr) {
            post_pia1 == Pia1 {
                dac_sel_a: pre.bus_write_pia0_after(addr, data).side_a.c2,
                dac_sel_b: pre.bus_write_pia0_after(addr, data).side_b.c2,
                ..pre.pia1
            }
        } else {
            post_pia1 == pre.pia1
        }
    }

    /// The SAM configuration after an 8-bit bus write.
    pub open spec fn bus_write_sam_after(self, addr: u16) -> u16 {
        if sam_window(addr) {
            sam_write_spec(self.sam.config, (addr - 0xffc0) as usize)
        } else {
            self.sam.config
        }
    }

    /// Relates the whole machine before and after one 8-bit bus write.
    pub open spec fn bus_write_rel(pre: Core, post: Core, at: AccessType, addr: u16, data: u8) -> bool {
        &&& post.ram@ == write_ram_seq(pre.ram@, pre.ram_top, at, addr, data)
        &&& post.pia0 == pre.bus_write_pia0_after(addr, data)
        &&& Core::bus_write_pia1_rel(pre, post.pia1, addr, data)
        &&& post.sam.config == pre.bus_write_sam_after(addr)
        &&& post.ram_top == pre.ram_top
        &&& post.reg == pre.reg
        &&& post.reset_vector == pre.reset_vector
        &&& post.cart_pending == pre.cart_pending
        &&& post.in_cwai == pre.in_cwai
        &&& post.in_sync == pre.in_sync
        &&& post.program_start == pre.program_start
        &&& post.faulted == pre.faulted
        &&& post.instruction_count == pre.instruction_count
        &&& post.clock_cycles == pre.clock_cycles
    }

    /// Reads one byte from the bus. Reads never fail; unmapped regions and
    /// the write-only SAM window read as zero. The access type does not
    /// affect reads; it is part of the bus interface.
    pub fn read_u8(&mut self, _at: AccessType, addr: u16) -> (b: u8)
        requires
            old(self).wf(),
        ensures
            final(self).wf(),
            b == old(self).bus_read_val(addr),
            *final(self) == old(self).bus_read_after(addr),
    {
        if addr <= 0xfeff {
            self.ram[addr as usize]
        } else if addr <= 0xff1f && addr >= 0xff00 {
            let i = (addr - 0xff00) as usize;
            if i % 4 == 0 {
                let dac = self.pia1.side_a.read_data() >> 2;
                self.pia0.set_dac(dac);
            }
            self.pia0.read(i)
        } else if addr <= 0xff3f && addr >= 0xff20 {
            self.pia1.read((addr - 0xff20) as usize)
        } else if addr >= 0xffe0 {
            self.ram[(addr - 0x4000) as usize]
        } else {
            // the SAM window is write-only, and 0xff40-0xffbf is unmapped
            0
        }
    }

    /// Reads one byte and widens it to 16 bits.
    pub fn read_u8_as_u16(&mut self, at: AccessType, addr: u16) -> (w: u16)
        requires
            old(self).wf(),
        ensures
            final(self).wf(),
            w == old(self).bus_read_val(addr) as u16,
            *final(self) == old(self).bus_read_after(addr),
    {
        self.read_u8(at, addr) as u16
    }

    /// Reads a 16-bit word: high byte at `addr`, low byte at `addr + 1`.
    pub fn read_u16(&mut self, at: AccessType, addr: u16) -> (w: u16)
        requires
            old(self).wf(),
            addr < 0xffff,
        ensures
            final(self).wf(),
            w == (old(self).bus_read_val(addr) as u16) << 8 | (old(self).bus_read_after(
                addr,
            ).bus_read_val((addr + 1) as u16) as u16),
            *final(self) == old(self).bus_read_after(addr).bus_read_after((addr + 1) as u16),
    {
        let hi = self.read_u8(at, addr);
        let lo = self.read_u8(at, addr + 1);
        (hi as u16) << 8 | (lo as u16)
    }

    /// Writes one byte to the bus. Out-of-range writes and non-`System`
    /// writes into the ROM shadow are dropped silently.
    pub fn write_u8(&mut self, at: AccessType, addr: u16, data: u8)
        requires
            old(self).wf(),
        ensures
            final(self).wf(),
            Core::bus_write_rel(*old(self), *final(self), at, addr, data),
    {
        if addr <= 0xfeff {
            if addr > self.ram_top && !matches!(at, AccessType::System) {
                // a write into ROM from regular code is dropped
                return ;
            }
            self.ram.set(addr as usize, data);
        } else if addr <= 0xff1f && addr >= 0xff00 {
            let i = (addr - 0xff00) as usize;
            self.pia0.write(i, data);
            if i % 4 == 1 || i % 4 == 3 {
                // a control-register write may have changed the control
                // lines that select the DAC mux in PIA1
                let a = self.pia0.side_a.c2;
                let b = self.pia0.side_b.c2;
                self.pia1.set_dac_mux(a, b);
            }
        } else if addr <= 0xff3f && addr >= 0xff20 {
            self.pia1.write((addr - 0xff20) as usize, data);
        } else if addr <= 0xffdf && addr >= 0xffc0 {
            self.sam.write((addr - 0xffc0) as usize);
        } else if addr >= 0xffe0 {
            if addr > self.ram_top && !matches!(at, AccessType::System) {
                return ;
            }
            self.ram.set((addr - 0x4000) as usize, data);
        }
        // writes into 0xff40-0xffbf are unmapped and dropped
    }

    /// Writes a 16-bit word: high byte at `addr`, low byte at `addr + 1`.
    pub fn write_u16(&mut self, at: AccessType, addr: u16, data: u16)
        requires
            old(self).wf(),
            addr < 0xffff,
        ensures
            final(self).wf(),
            exists|mid: Core|
                #[trigger] Core::bus_write_rel(*old(self), mid, at, addr, (data >> 8) as u8)
                    && Core::bus_write_rel(mid, *final(self), at, (addr + 1) as u16, data as u8),
    {
        let ghost pre = *self;
        self.write_u8(at, addr, (data >> 8) as u8);
        let ghost mid = *self;
        self.write_u8(at, addr + 1, data as u8);
        proof {
            assert(Core::bus_write_rel(pre, mid, at, addr, (data >> 8) as u8)
                && Core::bus_write_rel(mid, *self, at, (addr + 1) as u16, data as u8));
        }
    }
}

/// Writing a byte anywhere in RAM at or below `ram_top` with a `System`
/// access (or any access) and then reading it back with any access returns
/// that byte.
pub proof fn lemma_ram_write_read(pre: Core, post: Core, at: AccessType, addr: u16, data: u8)
    requires
        pre.wf(),
        addr <= pre.ram_top,
        ram_region(addr),
        Core::bus_write_rel(pre, post, at, addr, data),
    ensures
        post.wf(),
        post.bus_read_val(addr) == data,
{
}

/// In the ROM-shadowed region above `ram_top`, a `System` write followed by
/// a read yields the written byte, while a write from any other access
/// leaves the previous contents to be read back.
pub proof fn lemma_rom_shadow(pre: Core, post: Core, at: AccessType, addr: u16, data: u8)
    requires
        pre.wf(),
        addr > pre.ram_top,
        ram_region(addr),
        Core::bus_write_rel(pre, post, at, addr, data),
    ensures
        post.wf(),
        at == AccessType::System ==> post.bus_read_val(addr) == data,
        at != AccessType::System ==> post.bus_read_val(addr) == pre.bus_read_val(addr),
{
}

/// In the interrupt-vector window, a `System` write followed by a read
/// returns the written byte, and the same byte is observable through the
/// plain RAM region at `addr - 0x4000`.
pub proof fn lemma_vector_window_remap(pre: Core, post: Core, addr: u16, data: u8)
    requires
        pre.wf(),
        vector_window(addr),
        Core::bus_write_rel(pre, post, AccessType::System, addr, data),
    ensures
        post.wf(),
        post.bus_read_val(addr) == data,
        post.bus_read_val((addr - 0x4000) as u16) == data,
{
    assert(ram_region((addr - 0x4000) as u16));
}

} // verus!
