//! The simulator core: the 6809 register set, the 64 KiB backing store, and
//! the peripherals it decodes bus accesses to, together with program loading.

use vstd::prelude::*;

use crate::errors::Error;
use crate::errors::ErrorKind;
use crate::memory::AccessType;
use crate::memory::write_ram_seq;
use crate::pia::Pia0;
use crate::pia::Pia1;
use crate::registers::RegisterSet;
use crate::sam::Sam;

verus! {

/// The kinds of interrupt the 6809 accepts, each with its own vector.
#[derive(Clone, Copy, PartialEq, Eq, Structural, Debug)]
pub enum InterruptType {
    Reset,
    Nmi,
    Firq,
    Irq,
    Swi,
    Swi2,
    Swi3,
}

impl InterruptType {
    /// The address the interrupt's service-routine vector lives at.
    pub open spec fn vector_spec(self) -> u16 {
        match self {
            InterruptType::Reset => 0xfffe,
            InterruptType::Nmi => 0xfffc,
            InterruptType::Swi => 0xfffa,
            InterruptType::Irq => 0xfff8,
            InterruptType::Firq => 0xfff6,
            InterruptType::Swi2 => 0xfff4,
            InterruptType::Swi3 => 0xfff2,
        }
    }

    pub fn vector(&self) -> (v: u16)
        ensures
            v == self.vector_spec(),
            0xfff2 <= v <= 0xfffe,
    {
        match self {
            InterruptType::Reset => 0xfffe,
            InterruptType::Nmi => 0xfffc,
            InterruptType::Swi => 0xfffa,
            InterruptType::Irq => 0xfff8,
            InterruptType::Firq => 0xfff6,
            InterruptType::Swi2 => 0xfff4,
            InterruptType::Swi3 => 0xfff2,
        }
    }
}

/// The record types of an Intel HEX file. Only `Data` and `EndOfFile` are
/// honored by the loader; the others are skipped.
#[derive(Clone, Copy, PartialEq, Eq, Structural, Debug)]
pub enum HexRecordType {
    Data,
    EndOfFile,
    ExtendedSegmentAddress,
    StartSegmentAddress,
    ExtendedLinearAddress,
    StartLinearAddress,
}

/// One record of an Intel HEX file, already parsed into fields.
#[derive(Debug)]
pub struct HexRecord {
    pub record_type: HexRecordType,
    pub address: u16,
    pub data: Vec<u8>,
}

/// One contiguous run of object code produced by the assembler.
#[derive(Debug)]
pub struct CodeChunk {
    pub addr: u16,
    pub bytes: Vec<u8>,
}

/// An assembled program: its object code as address-tagged chunks.
#[derive(Debug)]
pub struct Program {
    pub chunks: Vec<CodeChunk>,
}

/// `ram` with `data` overlaid starting at `addr`.
pub open spec fn overlay(ram: Seq<u8>, addr: int, data: Seq<u8>) -> Seq<u8> {
    Seq::new(
        ram.len(),
        |i: int|
            if addr <= i < addr + data.len() {
                data[i - addr]
            } else {
                ram[i]
            },
    )
}

impl HexRecord {
    /// Whether a data record fits inside the 64 KiB address space.
    pub open spec fn fits(self) -> bool {
        self.address + self.data@.len() <= 0x10000
    }

    /// Whether this record stops the loader: the end-of-file marker, or a
    /// data record that overflows RAM.
    pub open spec fn stops_load(self) -> bool {
        self.record_type == HexRecordType::EndOfFile || (self.record_type == HexRecordType::Data
            && !self.fits())
    }
}

/// The index of the first record that stops the loader (the sequence length
/// when none does), scanning from position `j`.
pub open spec fn hex_stop_from(recs: Seq<HexRecord>, j: int) -> int
    recommends
        0 <= j <= recs.len(),
    decreases recs.len() - j,
{
    if j < 0 || j >= recs.len() {
        recs.len() as int
    } else if recs[j].stops_load() {
        j
    } else {
        hex_stop_from(recs, j + 1)
    }
}

/// RAM after the data records among the first `n` records are copied in.
pub open spec fn hex_ram_fold(ram: Seq<u8>, recs: Seq<HexRecord>, n: int) -> Seq<u8>
    recommends
        0 <= n <= recs.len(),
    decreases n,
{
    if n <= 0 {
        ram
    } else {
        let prev = hex_ram_fold(ram, recs, n - 1);
        let r = recs[n - 1];
        if r.record_type == HexRecordType::Data && r.fits() {
            overlay(prev, r.address as int, r.data@)
        } else {
            prev
        }
    }
}

/// The loader's byte count over the first `n` records, with the original's
/// 16-bit wrapping arithmetic.
pub open spec fn hex_extent(recs: Seq<HexRecord>, n: int) -> u16
    recommends
        0 <= n <= recs.len(),
    decreases n,
{
    if n <= 0 {
        0u16
    } else {
        let r = recs[n - 1];
        if r.record_type == HexRecordType::Data && r.fits() {
            vstd::wrapping::u16_specs::wrapping_add(
                hex_extent(recs, n - 1),
                r.data@.len() as u16,
            )
        } else {
            hex_extent(recs, n - 1)
        }
    }
}

/// RAM after the chunks among the first `n` of a program are copied in.
pub open spec fn program_ram_fold(ram: Seq<u8>, chunks: Seq<CodeChunk>, n: int) -> Seq<u8>
    recommends
        0 <= n <= chunks.len(),
    decreases n,
{
    if n <= 0 {
        ram
    } else {
        let prev = program_ram_fold(ram, chunks, n - 1);
        overlay(prev, chunks[n - 1].addr as int, chunks[n - 1].bytes@)
    }
}

/// Whether every chunk of a program fits inside the address space.
pub open spec fn program_fits(chunks: Seq<CodeChunk>, n: int) -> bool {
    forall|i: int|
        0 <= i < n ==> (#[trigger] chunks[i]).addr + chunks[i].bytes@.len() <= 0x10000
}

/// The index of the first chunk that does not fit.
pub open spec fn program_first_bad(chunks: Seq<CodeChunk>, j: int) -> int
    recommends
        0 <= j <= chunks.len(),
    decreases chunks.len() - j,
{
    if j < 0 || j >= chunks.len() {
        chunks.len() as int
    } else if chunks[j].addr + chunks[j].bytes@.len() > 0x10000 {
        j
    } else {
        program_first_bad(chunks, j + 1)
    }
}

/// The loader's byte count over the first `n` chunks, 16-bit wrapping.
pub open spec fn program_extent(chunks: Seq<CodeChunk>, n: int) -> u16
    recommends
        0 <= n <= chunks.len(),
    decreases n,
{
    if n <= 0 {
        0u16
    } else {
        vstd::wrapping::u16_specs::wrapping_add(
            program_extent(chunks, n - 1),
            chunks[n - 1].bytes@.len() as u16,
        )
    }
}

/// The 6809 simulator: registers, RAM, and the peripherals the bus decodes
/// to. Wall-clock concerns (sync timing, throttling) live with the caller,
/// which drives the core through `exec_next` and the sync entry points.
#[derive(Debug)]
pub struct Core {
    /// The single 64 KiB backing store for RAM, ROM and the vector window.
    pub ram: Vec<u8>,
    /// The last writable RAM address for non-`System` accesses.
    pub ram_top: u16,
    pub sam: Sam,
    pub pia0: Pia0,
    pub pia1: Pia1,
    /// The live register set.
    pub reg: RegisterSet,
    /// Overrides the reset vector when set.
    pub reset_vector: Option<u16>,
    /// A cartridge was loaded but its FIRQ has not fired yet.
    pub cart_pending: bool,
    /// The processor is stalled inside a CWAI instruction.
    pub in_cwai: bool,
    /// The processor is stalled inside a SYNC instruction.
    pub in_sync: bool,
    /// The address the program counter was loaded with at reset.
    pub program_start: u16,
    /// The CPU faulted (for the caller's benefit; the core itself never
    /// executes past an error).
    pub faulted: bool,
    /// Instructions executed since the last program start.
    pub instruction_count: u64,
    /// Clock cycles consumed since the last program start.
    pub clock_cycles: u64,
}

impl Core {
    /// Builds a core with zeroed RAM and registers and reset peripherals.
    pub fn new(ram_top: u16) -> (c: Core)
        ensures
            c.wf(),
            c.ram@ == Seq::new(0x10000, |i: int| 0u8),
            c.ram_top == ram_top,
            c.sam.config == 0,
            c.reg == RegisterSet::cleared_spec(),
            c.reset_vector is None,
            !c.cart_pending && !c.in_cwai && !c.in_sync && !c.faulted,
            c.program_start == 0,
            c.instruction_count == 0,
            c.clock_cycles == 0,
            c.pia1.audio@.len() == 0,
    {
        let mut ram: Vec<u8> = Vec::new();
        while ram.len() < 0x10000
            invariant
                ram@.len() <= 0x10000,
                forall|i: int| 0 <= i < ram@.len() ==> ram@[i] == 0u8,
            decreases 0x10000 - ram@.len(),
        {
            ram.push(0);
        }
        proof {
            assert(ram@ =~= Seq::new(0x10000, |i: int| 0u8));
        }
        Core {
            ram,
            ram_top,
            sam: Sam::new(),
            pia0: Pia0::new(),
            pia1: Pia1::new(),
            reg: RegisterSet::new(),
            reset_vector: None,
            cart_pending: false,
            in_cwai: false,
            in_sync: false,
            program_start: 0,
            faulted: false,
            instruction_count: 0,
            clock_cycles: 0,
        }
    }

    /// Builds a core around an existing 64 KiB image.
    pub fn with_ram(ram: Vec<u8>, ram_top: u16) -> (c: Core)
        requires
            ram@.len() == 0x10000,
        ensures
            c.wf(),
            c.ram@ == ram@,
            c.ram_top == ram_top,
            c.sam.config == 0,
            c.reg == RegisterSet::cleared_spec(),
            c.reset_vector is None,
            !c.cart_pending && !c.in_cwai && !c.in_sync && !c.faulted,
            c.program_start == 0,
            c.instruction_count == 0,
            c.clock_cycles == 0,
            c.pia1.audio@.len() == 0,
    {
        Core {
            ram,
            ram_top,
            sam: Sam::new(),
            pia0: Pia0::new(),
            pia1: Pia1::new(),
            reg: RegisterSet::new(),
            reset_vector: None,
            cart_pending: false,
            in_cwai: false,
            in_sync: false,
            program_start: 0,
            faulted: false,
            instruction_count: 0,
            clock_cycles: 0,
        }
    }

    /// Copies the contents of a parsed Intel HEX file into RAM (a raw copy:
    /// program loading bypasses the bus so ROM images can be placed).
    ///
    /// Records are honored up to the first end-of-file record, which yields
    /// `Ok` with the byte count (16-bit wrapping); a data record that
    /// overflows the address space yields a `Memory` error (records before
    /// it remain loaded); a file without an end-of-file record yields a
    /// `General` error. Other record types are skipped.
    pub fn load_hex(&mut self, hex: &Vec<HexRecord>) -> (r: Result<u16, Error>)
        requires
            old(self).wf(),
        ensures
            final(self).wf(),
            ({
                let stop = hex_stop_from(hex@, 0);
                &&& final(self).ram@ == hex_ram_fold(old(self).ram@, hex@, stop)
                &&& *final(self) == (Core { ram: final(self).ram, ..*old(self) })
                &&& (stop < hex@.len() && hex@[stop].record_type == HexRecordType::EndOfFile
                    ==> (r matches Ok(extent) && extent == hex_extent(hex@, stop)))
                &&& (stop < hex@.len() && hex@[stop].record_type != HexRecordType::EndOfFile
                    ==> (r matches Err(e) && e.kind == ErrorKind::Memory))
                &&& (stop == hex@.len() ==> (r matches Err(e) && e.kind == ErrorKind::General))
            }),
    {
        let ghost recs = hex@;
        let mut extent: u16 = 0;
        let mut j: usize = 0;
        while j < hex.len()
            invariant
                self.wf(),
                recs == hex@,
                0 <= j <= recs.len(),
                hex_stop_from(recs, 0) == hex_stop_from(recs, j as int),
                forall|i: int| 0 <= i < j ==> !(#[trigger] recs[i]).stops_load(),
                self.ram@ == hex_ram_fold(old(self).ram@, recs, j as int),
                *self == (Core { ram: self.ram, ..*old(self) }),
                extent == hex_extent(recs, j as int),
            decreases recs.len() - j,
        {
            let rec = &hex[j];
            match rec.record_type {
                HexRecordType::Data => {
                    if rec.data.len() > 0x10000 - rec.address as usize {
                        assert(hex_stop_from(recs, j as int) == j);
                        return Err(
                            Error::new(
                                ErrorKind::Memory,
                                None,
                                "program overflowed system RAM",
                            ),
                        );
                    }
                    let mut k: usize = 0;
                    let ghost ram_before = self.ram@;
                    while k < rec.data.len()
                        invariant
                            self.wf(),
                            0 <= k <= rec.data@.len(),
                            rec.address + rec.data@.len() <= 0x10000,
                            self.ram@ == overlay(ram_before, rec.address as int, rec.data@.take(k as int)),
                            ram_before.len() == 0x10000,
                            *self == (Core { ram: self.ram, ..*old(self) }),
                        decreases rec.data@.len() - k,
                    {
                        self.ram.set(rec.address as usize + k, rec.data[k]);
                        proof {
                            assert(self.ram@ =~= overlay(
                                ram_before,
                                rec.address as int,
                                rec.data@.take(k as int + 1),
                            ));
                        }
                        k = k + 1;
                    }
                    proof {
                        assert(rec.data@.take(rec.data@.len() as int) =~= rec.data@);
                        assert(self.ram@ == overlay(ram_before, rec.address as int, rec.data@));
                    }
                    extent = extent.wrapping_add(#[verifier::truncate] (rec.data.len() as u16));
                }
                HexRecordType::EndOfFile => {
                    assert(hex_stop_from(recs, j as int) == j);
                    return Ok(extent);
                }
                _ => {
                    // unsupported record types are skipped
                }
            }
            j = j + 1;
        }
        Err(Error::new(ErrorKind::General, None, "failed to find EOF record in hex file"))
    }

    /// Copies raw bytes into RAM at `addr`, truncating at the end of the
    /// address space, and returns how many bytes were copied.
    pub fn load_bin(&mut self, data: &Vec<u8>, addr: u16) -> (n: usize)
        requires
            old(self).wf(),
        ensures
            final(self).wf(),
            n == if data@.len() <= 0x10000 - addr {
                data@.len() as int
            } else {
                0x10000 - addr
            },
            final(self).ram@ == overlay(old(self).ram@, addr as int, data@.take(n as int)),
            *final(self) == (Core { ram: final(self).ram, ..*old(self) }),
    {
        let space = 0x10000 - addr as usize;
        let n = if data.len() <= space {
            data.len()
        } else {
            space
        };
        let mut k: usize = 0;
        while k < n
            invariant
                self.wf(),
                0 <= k <= n,
                n <= data@.len(),
                addr + n <= 0x10000,
                self.ram@ == overlay(old(self).ram@, addr as int, data@.take(k as int)),
                *self == (Core { ram: self.ram, ..*old(self) }),
            decreases n - k,
        {
            self.ram.set(addr as usize + k, data[k]);
            proof {
                assert(self.ram@ =~= overlay(old(self).ram@, addr as int, data@.take(k as int + 1)));
            }
            k = k + 1;
        }
        n
    }

    /// Loads a cartridge image at its fixed base address 0xc000 and marks
    /// its FIRQ as pending.
    pub fn load_cart(&mut self, data: &Vec<u8>) -> (n: usize)
        requires
            old(self).wf(),
        ensures
            final(self).wf(),
            n == if data@.len() <= 0x4000 {
                data@.len() as int
            } else {
                0x4000
            },
            final(self).ram@ == overlay(old(self).ram@, 0xc000, data@.take(n as int)),
            *final(self) == (Core {
                ram: final(self).ram,
                cart_pending: true,
                ..*old(self)
            }),
    {
        let n = self.load_bin(data, 0xc000);
        self.cart_pending = true;
        n
    }

    /// Copies an assembled program's object code into RAM, clearing the
    /// reset vector first so a stale one cannot survive. A chunk that
    /// overflows the address space yields a `Memory` error (chunks before it
    /// remain loaded); otherwise the byte count is returned (16-bit
    /// wrapping).
    pub fn load_program(&mut self, program: &Program) -> (r: Result<u16, Error>)
        requires
            old(self).wf(),
        ensures
            final(self).wf(),
            ({
                let cleared = write_ram_seq(
                    write_ram_seq(old(self).ram@, old(self).ram_top, AccessType::System, 0xfffe, 0),
                    old(self).ram_top,
                    AccessType::System,
                    0xffff,
                    0,
                );
                let bad = program_first_bad(program.chunks@, 0);
                &&& final(self).ram@ == program_ram_fold(cleared, program.chunks@, bad)
                &&& *final(self) == (Core { ram: final(self).ram, ..*old(self) })
                &&& (bad == program.chunks@.len() ==> (r matches Ok(extent) && extent
                    == program_extent(program.chunks@, bad)))
                &&& (bad < program.chunks@.len() ==> (r matches Err(e) && e.kind
                    == ErrorKind::Memory))
            }),
    {
        self.force_reset_vector(0);
        proof {
            assert((0u16 >> 8) as u8 == 0u8) by (bit_vector);
        }
        let ghost cleared = self.ram@;
        let ghost chunks = program.chunks@;
        let mut extent: u16 = 0;
        let mut j: usize = 0;
        while j < program.chunks.len()
            invariant
                self.wf(),
                chunks == program.chunks@,
                cleared == write_ram_seq(
                    write_ram_seq(old(self).ram@, old(self).ram_top, AccessType::System, 0xfffe, 0),
                    old(self).ram_top,
                    AccessType::System,
                    0xffff,
                    0,
                ),
                0 <= j <= chunks.len(),
                program_first_bad(chunks, 0) == program_first_bad(chunks, j as int),
                forall|i: int|
                    0 <= i < j ==> (#[trigger] chunks[i]).addr + chunks[i].bytes@.len() <= 0x10000,
                self.ram@ == program_ram_fold(cleared, chunks, j as int),
                *self == (Core { ram: self.ram, ..*old(self) }),
                extent == program_extent(chunks, j as int),
            decreases chunks.len() - j,
        {
            let chunk = &program.chunks[j];
            if chunk.bytes.len() > 0x10000 - chunk.addr as usize {
                proof {
                    assert(program_first_bad(chunks, j as int) == j);
                }
                return Err(Error::new(ErrorKind::Memory, None, "program overflowed system RAM"));
            }
            let ghost ram_before = self.ram@;
            let mut k: usize = 0;
            while k < chunk.bytes.len()
                invariant
                    self.wf(),
                    0 <= k <= chunk.bytes@.len(),
                    chunk.addr + chunk.bytes@.len() <= 0x10000,
                    self.ram@ == overlay(ram_before, chunk.addr as int, chunk.bytes@.take(k as int)),
                    ram_before.len() == 0x10000,
                    *self == (Core { ram: self.ram, ..*old(self) }),
                decreases chunk.bytes@.len() - k,
            {
                self.ram.set(chunk.addr as usize + k, chunk.bytes[k]);
                proof {
                    assert(self.ram@ =~= overlay(
                        ram_before,
                        chunk.addr as int,
                        chunk.bytes@.take(k as int + 1),
                    ));
                }
                k = k + 1;
            }
            proof {
                assert(chunk.bytes@.take(chunk.bytes@.len() as int) =~= chunk.bytes@);
            }
            extent = extent.wrapping_add(#[verifier::truncate] (chunk.bytes.len() as u16));
            j = j + 1;
        }
        Ok(extent)
    }

    /// Writes the given address into the reset vector through the bus (the
    /// vector window remaps it into RAM below the ROM).
    pub fn force_reset_vector(&mut self, addr: u16)
        requires
            old(self).wf(),
        ensures
            final(self).wf(),
            final(self).ram@ == write_ram_seq(
                write_ram_seq(
                    old(self).ram@,
                    old(self).ram_top,
                    AccessType::System,
                    0xfffe,
                    (addr >> 8) as u8,
                ),
                old(self).ram_top,
                AccessType::System,
                0xffff,
                addr as u8,
            ),
            *final(self) == (Core { ram: final(self).ram, ..*old(self) }),
    {
        self.write_u8(AccessType::System, 0xfffe, (addr >> 8) as u8);
        self.write_u8(AccessType::System, 0xffff, addr as u8);
    }
}

} // verus!
