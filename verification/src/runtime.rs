//! The execution engine: addressing-mode resolution, fetch-decode-execute,
//! interrupt stacking and acceptance. Everything here is specified against a
//! pure model of the bus; the model is exact whenever the addresses an
//! instruction touches lie outside the PIA register windows (whose reads have
//! side effects).

use vstd::prelude::*;

use crate::cpu::Core;
use crate::cpu::InterruptType;
use crate::errors::Error;
use crate::errors::ErrorKind;
use crate::instructions::AddressingMode;
use crate::instructions::DeferredWrite;
use crate::instructions::Flavor;
use crate::instructions::Instance;
use crate::instructions::Meta;
use crate::instructions::Op;
use crate::instructions::Outcome;
use crate::instructions::flavor_spec;
use crate::instructions::is_high_byte_of_16bit_instruction;
use crate::instructions::is_prefix_byte;
use crate::memory::AccessType;
use crate::memory::pia0_window;
use crate::pia::Pia0;
use crate::pia::Pia1;
use crate::memory::write_ram_seq;
use crate::memory::pia1_window;
use crate::memory::ram_region;
use crate::registers::CCBit;
use crate::registers::Name;
use crate::registers::RegisterSet;
use crate::registers::cc_mask_spec;
use crate::registers::reg_size_spec;

verus! {

/// An address whose read has no side effect on the machine.
pub open spec fn addr_pure(a: u16) -> bool {
    !pia0_window(a) && !pia1_window(a)
}

/// Reading a side-effect-free address leaves the machine unchanged.
pub proof fn lemma_pure_read_id(core: Core, a: u16)
    requires
        addr_pure(a),
    ensures
        core.bus_read_after(a) == core,
{
}

/// A 16-bit read from the pure model: high byte first.
pub open spec fn rd16(core: Core, a: u16) -> u16
    recommends
        a < 0xffff,
{
    (core.bus_read_val(a) as u16) << 8 | (core.bus_read_val((a + 1) as u16) as u16)
}

/// Program-counter addition that the 6809 cannot wrap: `None` is the
/// instruction-overflow fault.
pub open spec fn checked_add_spec(pc: u16, rhs: u16) -> Option<u16> {
    if pc + rhs <= 0xffff {
        Some((pc + rhs) as u16)
    } else {
        None
    }
}

/// Sign extension of a byte to 16 bits.
pub open spec fn sign_ext8(b: u8) -> u16 {
    if b < 0x80 {
        b as u16
    } else {
        (b as u16 + 0xff00) as u16
    }
}

/// Sign-extending a byte through `i8` computes `sign_ext8`.
pub proof fn lemma_i8_sign_extend(b: u8)
    ensures
        (b as i8) as u16 == sign_ext8(b),
{
    assert((b as i8) as u16 == (if b < 0x80 {
        b as u16
    } else {
        (b as u16 + 0xff00) as u16
    })) by (bit_vector);
}

/// The indexed-mode register selected by post-byte bits 5-6.
pub open spec fn indexed_reg_spec(rr: u8) -> Name {
    if rr == 0 {
        Name::X
    } else if rr == 1 {
        Name::Y
    } else if rr == 2 {
        Name::U
    } else {
        Name::S
    }
}

/// The resolved addressing state: the effective address, the instruction
/// size including every operand byte, and the register set after any
/// auto-increment or auto-decrement side effects.
#[derive(Clone, Copy, PartialEq, Eq, Structural, Debug)]
pub struct AddrOk {
    pub ea: u16,
    pub size: u16,
    pub regs: RegisterSet,
}

/// The outcome of addressing-mode resolution in the pure model.
#[derive(Clone, Copy, PartialEq, Eq, Structural, Debug)]
pub enum AddrSpec {
    /// An operand fetch would run past the top of the address space.
    Overflow,
    /// An illegal indexed post-byte.
    Bad,
    Done(AddrOk),
}

/// Indexed-mode resolution in the pure model, after the post-byte has been
/// read. `pb` is the post-byte, `size` counts the opcode and the post-byte.
#[verifier::opaque]
pub open spec fn indexed_spec(core: Core, pb: u8, size: u16, regs: RegisterSet) -> AddrSpec {
    let pc = regs.pc;
    let indirect = pb & 0b10010000 == 0b10010000;
    let rr = ((pb & 0b01100000) >> 5) as u8;
    let reg = indexed_reg_spec(rr);
    let r0 = regs.get_spec(reg);
    let low = pb & 0x8f;
    if pb & 0x80 == 0 {
        // 5-bit constant offset
        AddrSpec::Done(
            AddrOk {
                ea: r0.wrapping_add(
                    sign_ext8(
                        (pb & 0x1f) | (if pb & 0x10 == 0x10 {
                            0xe0
                        } else {
                            0
                        }),
                    ),
                ),
                size,
                regs,
            },
        )
    } else if low == 0x80 {
        if indirect {
            AddrSpec::Bad
        } else {
            AddrSpec::Done(
                AddrOk { ea: r0, size, regs: regs.set_spec(reg, r0.wrapping_add(1)) },
            )
        }
    } else if low == 0x81 {
        AddrSpec::Done(AddrOk { ea: r0, size, regs: regs.set_spec(reg, r0.wrapping_add(2)) })
    } else if low == 0x82 {
        if indirect {
            AddrSpec::Bad
        } else {
            AddrSpec::Done(
                AddrOk {
                    ea: r0.wrapping_sub(1),
                    size,
                    regs: regs.set_spec(reg, r0.wrapping_sub(1)),
                },
            )
        }
    } else if low == 0x83 {
        AddrSpec::Done(
            AddrOk { ea: r0.wrapping_sub(2), size, regs: regs.set_spec(reg, r0.wrapping_sub(2)) },
        )
    } else if low == 0x84 {
        AddrSpec::Done(AddrOk { ea: r0, size, regs })
    } else if low == 0x85 {
        AddrSpec::Done(AddrOk { ea: r0.wrapping_add(sign_ext8(regs.b)), size, regs })
    } else if low == 0x86 {
        AddrSpec::Done(AddrOk { ea: r0.wrapping_add(sign_ext8(regs.a)), size, regs })
    } else if low == 0x88 {
        match checked_add_spec(pc, size) {
            None => AddrSpec::Overflow,
            Some(q) => AddrSpec::Done(
                AddrOk {
                    ea: r0.wrapping_add(sign_ext8(core.bus_read_val(q))),
                    size: (size + 1) as u16,
                    regs,
                },
            ),
        }
    } else if low == 0x89 {
        match checked_add_spec(pc, size) {
            None => AddrSpec::Overflow,
            Some(q) => if q == 0xffff {
                AddrSpec::Overflow
            } else {
                AddrSpec::Done(
                    AddrOk {
                        ea: r0.wrapping_add(rd16(core, q)),
                        size: (size + 2) as u16,
                        regs,
                    },
                )
            },
        }
    } else if low == 0x8b {
        AddrSpec::Done(AddrOk { ea: r0.wrapping_add(regs.d_spec()), size, regs })
    } else if low == 0x8c {
        match checked_add_spec(pc, size) {
            None => AddrSpec::Overflow,
            Some(q) => AddrSpec::Done(
                AddrOk {
                    ea: pc.wrapping_add((size + 1) as u16).wrapping_add(
                        sign_ext8(core.bus_read_val(q)),
                    ),
                    size: (size + 1) as u16,
                    regs,
                },
            ),
        }
    } else if low == 0x8d {
        match checked_add_spec(pc, size) {
            None => AddrSpec::Overflow,
            Some(q) => if q == 0xffff {
                AddrSpec::Overflow
            } else {
                AddrSpec::Done(
                    AddrOk {
                        ea: pc.wrapping_add((size + 2) as u16).wrapping_add(rd16(core, q)),
                        size: (size + 2) as u16,
                        regs,
                    },
                )
            },
        }
    } else if low == 0x8f {
        match checked_add_spec(pc, size) {
            None => AddrSpec::Overflow,
            Some(q) => if q == 0xffff {
                AddrSpec::Overflow
            } else {
                AddrSpec::Done(
                    AddrOk { ea: rd16(core, q), size: (size + 2) as u16, regs },
                )
            },
        }
    } else {
        AddrSpec::Bad
    }
}

/// Applies the indirect bit to a resolved indexed address: the address is
/// dereferenced through the bus as a 16-bit pointer.
pub open spec fn indexed_indirect_spec(core: Core, pb: u8, resolved: AddrSpec) -> AddrSpec {
    let indirect = pb & 0b10010000 == 0b10010000;
    match resolved {
        AddrSpec::Done(a) => if indirect {
            if a.ea == 0xffff {
                AddrSpec::Overflow
            } else {
                AddrSpec::Done(AddrOk { ea: rd16(core, a.ea), ..a })
            }
        } else {
            resolved
        },
        _ => resolved,
    }
}

/// Addressing-mode resolution in the pure model. `opsize` is the size of the
/// opcode already consumed; `regs.pc` still points at the opcode.
pub open spec fn addressing_spec(
    core: Core,
    flavor: Flavor,
    opsize: u16,
    regs: RegisterSet,
) -> AddrSpec {
    let pc = regs.pc;
    match flavor.mode {
        AddressingMode::Immediate => match checked_add_spec(pc, opsize) {
            None => AddrSpec::Overflow,
            Some(ea) => AddrSpec::Done(AddrOk { ea, size: flavor.sz, regs }),
        },
        AddressingMode::Direct => match checked_add_spec(pc, opsize) {
            None => AddrSpec::Overflow,
            Some(p) => AddrSpec::Done(
                AddrOk {
                    ea: (regs.dp as u16) << 8 | (core.bus_read_val(p) as u16),
                    size: (opsize + 1) as u16,
                    regs,
                },
            ),
        },
        AddressingMode::Extended => match checked_add_spec(pc, opsize) {
            None => AddrSpec::Overflow,
            Some(p) => if p == 0xffff {
                AddrSpec::Overflow
            } else {
                AddrSpec::Done(
                    AddrOk { ea: rd16(core, p), size: (opsize + 2) as u16, regs },
                )
            },
        },
        AddressingMode::Inherent => AddrSpec::Done(AddrOk { ea: 0, size: opsize, regs }),
        AddressingMode::Relative => {
            let offset_size = (flavor.sz - opsize) as u16;
            match checked_add_spec(pc, opsize) {
                None => AddrSpec::Overflow,
                Some(p) => if offset_size != 1 && p == 0xffff {
                    AddrSpec::Overflow
                } else {
                    let offset = if offset_size == 1 {
                        sign_ext8(core.bus_read_val(p))
                    } else {
                        rd16(core, p)
                    };
                    match checked_add_spec(pc, flavor.sz) {
                        None => AddrSpec::Overflow,
                        Some(after) => AddrSpec::Done(
                            AddrOk {
                                ea: after.wrapping_add(offset),
                                size: flavor.sz,
                                regs,
                            },
                        ),
                    }
                },
            }
        },
        AddressingMode::Indexed => indexed_arm_spec(core, opsize, regs),
    }
}

/// The whole indexed-mode arm in the pure model: post-byte fetch, sub-mode
/// resolution, and the indirect dereference.
pub open spec fn indexed_arm_spec(core: Core, opsize: u16, regs: RegisterSet) -> AddrSpec {
    match checked_add_spec(regs.pc, opsize) {
        None => AddrSpec::Overflow,
        Some(p) => {
            let pb = core.bus_read_val(p);
            indexed_indirect_spec(core, pb, indexed_spec(core, pb, (opsize + 1) as u16, regs))
        },
    }
}

/// Whether every address addressing-mode resolution reads in the pure model
/// is side-effect free (outside the PIA windows). Under this condition the
/// pure model is exact.
pub open spec fn addressing_reads_pure(
    core: Core,
    flavor: Flavor,
    opsize: u16,
    regs: RegisterSet,
) -> bool {
    let pc = regs.pc;
    match flavor.mode {
        AddressingMode::Immediate => true,
        AddressingMode::Inherent => true,
        AddressingMode::Direct => match checked_add_spec(pc, opsize) {
            None => true,
            Some(p) => addr_pure(p),
        },
        AddressingMode::Extended => match checked_add_spec(pc, opsize) {
            None => true,
            Some(p) => p == 0xffff || (addr_pure(p) && addr_pure((p + 1) as u16)),
        },
        AddressingMode::Relative => match checked_add_spec(pc, opsize) {
            None => true,
            Some(p) => if flavor.sz - opsize == 1 {
                addr_pure(p)
            } else {
                p == 0xffff || (addr_pure(p) && addr_pure((p + 1) as u16))
            },
        },
        AddressingMode::Indexed => indexed_arm_pure(core, opsize, regs),
    }
}

/// Whether the extension bytes an indexed post-byte asks for lie at
/// side-effect-free addresses. `size` counts the opcode and the post-byte.
pub open spec fn indexed_operand_pure(core: Core, pb: u8, size: u16, regs: RegisterSet) -> bool {
    let pc = regs.pc;
    let low = pb & 0x8f;
    if pb & 0x80 == 0 {
        true
    } else if low == 0x88 || low == 0x8c {
        match checked_add_spec(pc, size) {
            None => true,
            Some(q) => addr_pure(q),
        }
    } else if low == 0x89 || low == 0x8d || low == 0x8f {
        match checked_add_spec(pc, size) {
            None => true,
            Some(q) => q == 0xffff || (addr_pure(q) && addr_pure((q + 1) as u16)),
        }
    } else {
        true
    }
}

/// Whether every address the indexed-mode arm reads is side-effect free.
pub open spec fn indexed_arm_pure(core: Core, opsize: u16, regs: RegisterSet) -> bool {
    let pc = regs.pc;
    match checked_add_spec(pc, opsize) {
        None => true,
        Some(p) => addr_pure(p) && {
            let pb = core.bus_read_val(p);
            let indirect_pure = if pb & 0b10010000 == 0b10010000 {
                match indexed_spec(core, pb, (opsize + 1) as u16, regs) {
                    AddrSpec::Done(a) => a.ea == 0xffff || (addr_pure(a.ea) && addr_pure(
                        (a.ea + 1) as u16,
                    )),
                    _ => true,
                }
            } else {
                true
            };
            indexed_operand_pure(core, pb, (opsize + 1) as u16, regs) && indirect_pure
        },
    }
}

impl Core {
    /// Increases the program counter by `rhs`; overflowing the top of the
    /// address space is a `Runtime` fault.
    pub fn checked_pc_add(&self, pc: u16, rhs: u16) -> (r: Result<u16, Error>)
        ensures
            checked_add_spec(pc, rhs) matches Some(v) ==> (r matches Ok(w) && w == v),
            checked_add_spec(pc, rhs) is None ==> (r matches Err(e) && e.kind
                == ErrorKind::Runtime),
    {
        if let Some(v) = pc.checked_add(rhs) {
            Ok(v)
        } else {
            Err(
                Error::new(
                    ErrorKind::Runtime,
                    Some(self.reg),
                    "Instruction overflow",
                ),
            )
        }
    }

    /// Resolves the instruction's addressing mode: computes the effective
    /// address, extends the instruction size by the operand bytes consumed,
    /// and applies any auto-increment or auto-decrement to the working
    /// register set. Exact against the pure model whenever the operand bytes
    /// (and an indirect pointer) lie outside the PIA windows; reads never
    /// change RAM, the SAM, or the live registers in any case.
    #[verifier::rlimit(100)]
    pub fn process_addressing_mode(
        &mut self,
        inst: &mut Instance,
        live_ctx: &mut RegisterSet,
    ) -> (r: Result<(), Error>)
        requires
            old(self).wf(),
            old(inst).size <= old(inst).flavor.sz,
            old(inst).flavor.sz <= 5,
        ensures
            final(self).wf(),
            *final(self) == (Core {
                pia0: final(self).pia0,
                pia1: final(self).pia1,
                ..*old(self)
            }),
            final(inst).flavor == old(inst).flavor,
            final(inst).opcode == old(inst).opcode,
            final(inst).opsize == old(inst).opsize,
            final(live_ctx).pc == old(live_ctx).pc,
            r matches Err(e) && e.kind == ErrorKind::Syntax ==> *final(live_ctx) == *old(
                live_ctx,
            ),
            addressing_reads_pure(
                *old(self),
                old(inst).flavor,
                old(inst).size,
                *old(live_ctx),
            ) ==> {
                &&& *final(self) == *old(self)
                &&& match addressing_spec(
                    *old(self),
                    old(inst).flavor,
                    old(inst).size,
                    *old(live_ctx),
                ) {
                    AddrSpec::Done(a) => {
                        &&& r matches Ok(u)
                        &&& final(inst).ea == a.ea
                        &&& final(inst).size == a.size
                        &&& *final(live_ctx) == a.regs
                    },
                    AddrSpec::Overflow => r matches Err(e) && e.kind == ErrorKind::Runtime,
                    AddrSpec::Bad => r matches Err(e) && e.kind == ErrorKind::Syntax,
                }
            },
    {
        let ghost pre = *self;
        let pc = live_ctx.pc;
        match inst.flavor.mode {
            AddressingMode::Immediate => {
                inst.ea = self.checked_pc_add(pc, inst.size)?;
                inst.size = inst.flavor.sz;
            },
            AddressingMode::Direct => {
                let p = self.checked_pc_add(pc, inst.size)?;
                let b = self.read_u8(AccessType::Program, p);
                inst.ea = (live_ctx.dp as u16) << 8 | (b as u16);
                inst.size = inst.size + 1;
            },
            AddressingMode::Extended => {
                let p = self.checked_pc_add(pc, inst.size)?;
                if p == 0xffff {
                    return Err(
                        Error::new(ErrorKind::Runtime, Some(self.reg), "Instruction overflow"),
                    );
                }
                inst.ea = self.read_u16(AccessType::Program, p);
                inst.size = inst.size + 2;
            },
            AddressingMode::Inherent => {
                // the opcode itself is sufficient
                inst.ea = 0;
            },
            AddressingMode::Relative => {
                let offset_size = inst.flavor.sz - inst.size;
                let p = self.checked_pc_add(pc, inst.size)?;
                let offset: u16;
                if offset_size == 1 {
                    let b = self.read_u8(AccessType::Program, p);
                    proof {
                        lemma_i8_sign_extend(b);
                    }
                    offset = #[verifier::truncate] ((b as i8) as u16);
                } else {
                    if p == 0xffff {
                        return Err(
                            Error::new(
                                ErrorKind::Runtime,
                                Some(self.reg),
                                "Instruction overflow",
                            ),
                        );
                    }
                    offset = self.read_u16(AccessType::Program, p);
                }
                inst.size = inst.flavor.sz;
                let after = self.checked_pc_add(pc, inst.size)?;
                inst.ea = after.wrapping_add(offset);
            },
            AddressingMode::Indexed => {
                return self.process_indexed(inst, live_ctx);
            },
        }
        Ok(())
    }

    /// Resolves an indexed-mode post-byte: reads it, resolves the sub-mode,
    /// and applies the indirect dereference. Exact against the pure model
    /// under the same conditions as `process_addressing_mode`.
    fn process_indexed(
        &mut self,
        inst: &mut Instance,
        live_ctx: &mut RegisterSet,
    ) -> (r: Result<(), Error>)
        requires
            old(self).wf(),
            old(inst).size <= old(inst).flavor.sz,
            old(inst).flavor.sz <= 5,
        ensures
            final(self).wf(),
            *final(self) == (Core {
                pia0: final(self).pia0,
                pia1: final(self).pia1,
                ..*old(self)
            }),
            final(inst).flavor == old(inst).flavor,
            final(inst).opcode == old(inst).opcode,
            final(inst).opsize == old(inst).opsize,
            final(live_ctx).pc == old(live_ctx).pc,
            r matches Err(e) && e.kind == ErrorKind::Syntax ==> *final(live_ctx) == *old(
                live_ctx,
            ),
            indexed_arm_pure(*old(self), old(inst).size, *old(live_ctx)) ==> {
                &&& *final(self) == *old(self)
                &&& match indexed_arm_spec(*old(self), old(inst).size, *old(live_ctx)) {
                    AddrSpec::Done(a) => {
                        &&& r matches Ok(u)
                        &&& final(inst).ea == a.ea
                        &&& final(inst).size == a.size
                        &&& *final(live_ctx) == a.regs
                    },
                    AddrSpec::Overflow => r matches Err(e) && e.kind == ErrorKind::Runtime,
                    AddrSpec::Bad => r matches Err(e) && e.kind == ErrorKind::Syntax,
                }
            },
    {
        reveal(indexed_spec);
        let pc = live_ctx.pc;
        let p = self.checked_pc_add(pc, inst.size)?;
        let pb = self.read_u8(AccessType::Program, p);
        inst.size = inst.size + 1;
        let indirect = (pb & 0b10010000) == 0b10010000;
        let resolved = self.indexed_resolve(pb, inst.size, live_ctx)?;
        inst.ea = resolved.0;
        inst.size = resolved.1;
        if indirect {
            if inst.ea == 0xffff {
                return Err(
                    Error::new(ErrorKind::Runtime, Some(self.reg), "Indirect pointer overflow"),
                );
            }
            inst.ea = self.read_u16(AccessType::Generic, inst.ea);
        }
        Ok(())
    }

    /// Resolves the sub-mode of an indexed post-byte into an effective
    /// address and the extended instruction size, applying auto-increment
    /// and auto-decrement to the working registers. `size` counts the opcode
    /// and the post-byte.
    #[verifier::rlimit(100)]
    fn indexed_resolve(
        &mut self,
        pb: u8,
        size: u16,
        live_ctx: &mut RegisterSet,
    ) -> (r: Result<(u16, u16), Error>)
        requires
            old(self).wf(),
            size <= 6,
        ensures
            final(self).wf(),
            *final(self) == (Core {
                pia0: final(self).pia0,
                pia1: final(self).pia1,
                ..*old(self)
            }),
            final(live_ctx).pc == old(live_ctx).pc,
            r matches Err(e) && e.kind == ErrorKind::Syntax ==> *final(live_ctx) == *old(
                live_ctx,
            ),
            indexed_operand_pure(*old(self), pb, size, *old(live_ctx)) ==> {
                &&& *final(self) == *old(self)
                &&& match indexed_spec(*old(self), pb, size, *old(live_ctx)) {
                    AddrSpec::Done(a) => {
                        &&& r matches Ok(u)
                        &&& u.0 == a.ea
                        &&& u.1 == a.size
                        &&& *final(live_ctx) == a.regs
                    },
                    AddrSpec::Overflow => r matches Err(e) && e.kind == ErrorKind::Runtime,
                    AddrSpec::Bad => r matches Err(e) && e.kind == ErrorKind::Syntax,
                }
            },
    {
        reveal(indexed_spec);
        let pc = live_ctx.pc;
        let indirect = (pb & 0b10010000) == 0b10010000;
        let rr = (pb & 0b01100000) >> 5;
        let reg = if rr == 0 {
            Name::X
        } else if rr == 1 {
            Name::Y
        } else if rr == 2 {
            Name::U
        } else {
            Name::S
        };
        let r0 = live_ctx.get_register(reg);
        let low = pb & 0x8f;
        if pb & 0x80 == 0 {
            // constant 5-bit offset
            let ob = (pb & 0b11111) | (if pb & 0b10000 == 0b10000 {
                0b11100000
            } else {
                0
            });
            proof {
                lemma_i8_sign_extend(ob);
            }
            Ok((r0.wrapping_add(#[verifier::truncate] ((ob as i8) as u16)), size))
        } else if low == 0b10000000 {
            // post-increment by one; illegal when indirect
            if indirect {
                return Err(
                    Error::new(
                        ErrorKind::Syntax,
                        Some(self.reg),
                        "Illegal indirect indexed addressing mode [,R+]",
                    ),
                );
            }
            live_ctx.set_register(reg, r0.wrapping_add(1));
            Ok((r0, size))
        } else if low == 0b10000001 {
            live_ctx.set_register(reg, r0.wrapping_add(2));
            Ok((r0, size))
        } else if low == 0b10000010 {
            // pre-decrement by one; illegal when indirect
            if indirect {
                return Err(
                    Error::new(
                        ErrorKind::Syntax,
                        Some(self.reg),
                        "Illegal indirect indexed addressing mode [,-R]",
                    ),
                );
            }
            live_ctx.set_register(reg, r0.wrapping_sub(1));
            Ok((r0.wrapping_sub(1), size))
        } else if low == 0b10000011 {
            live_ctx.set_register(reg, r0.wrapping_sub(2));
            Ok((r0.wrapping_sub(2), size))
        } else if low == 0b10000100 {
            Ok((r0, size))
        } else if low == 0b10000101 {
            let b = live_ctx.b;
            proof {
                lemma_i8_sign_extend(b);
            }
            Ok((r0.wrapping_add(#[verifier::truncate] ((b as i8) as u16)), size))
        } else if low == 0b10000110 {
            let a = live_ctx.a;
            proof {
                lemma_i8_sign_extend(a);
            }
            Ok((r0.wrapping_add(#[verifier::truncate] ((a as i8) as u16)), size))
        } else if low == 0b10001000 {
            let q = self.checked_pc_add(pc, size)?;
            let ob = self.read_u8(AccessType::Program, q);
            proof {
                lemma_i8_sign_extend(ob);
            }
            Ok((r0.wrapping_add(#[verifier::truncate] ((ob as i8) as u16)), size + 1))
        } else if low == 0b10001001 {
            let q = self.checked_pc_add(pc, size)?;
            if q == 0xffff {
                return Err(
                    Error::new(ErrorKind::Runtime, Some(self.reg), "Instruction overflow"),
                );
            }
            let offset = self.read_u16(AccessType::Program, q);
            Ok((r0.wrapping_add(offset), size + 2))
        } else if low == 0b10001011 {
            Ok((r0.wrapping_add(live_ctx.get_d()), size))
        } else if low == 0b10001100 {
            let q = self.checked_pc_add(pc, size)?;
            let ob = self.read_u8(AccessType::Program, q);
            proof {
                lemma_i8_sign_extend(ob);
            }
            // relative to the address of the next instruction
            Ok((
                pc.wrapping_add(size + 1).wrapping_add(#[verifier::truncate] ((ob as i8) as u16)),
                size + 1,
            ))
        } else if low == 0b10001101 {
            let q = self.checked_pc_add(pc, size)?;
            if q == 0xffff {
                return Err(
                    Error::new(ErrorKind::Runtime, Some(self.reg), "Instruction overflow"),
                );
            }
            let offset = self.read_u16(AccessType::Program, q);
            Ok((pc.wrapping_add(size + 2).wrapping_add(offset), size + 2))
        } else if low == 0b10001111 {
            let q = self.checked_pc_add(pc, size)?;
            if q == 0xffff {
                return Err(
                    Error::new(ErrorKind::Runtime, Some(self.reg), "Instruction overflow"),
                );
            }
            let ea = self.read_u16(AccessType::Program, q);
            Ok((ea, size + 2))
        } else {
            Err(
                Error::new(
                    ErrorKind::Syntax,
                    Some(self.reg),
                    "Invalid indexed addressing post-byte",
                ),
            )
        }
    }
}

/// A wrapping 16-bit read from the pure model: the 6809 data bus wraps
/// around the top of the address space.
pub open spec fn rd16w(core: Core, a: u16) -> u16 {
    (core.bus_read_val(a) as u16) << 8 | (core.bus_read_val(a.wrapping_add(1)) as u16)
}

/// CC after an 8-bit load or store: N from bit 7, Z from zero, V cleared.
pub open spec fn cc_nz8(cc: u8, v: u8) -> u8 {
    (cc & 0xf1) | (if v >= 0x80 {
        0x08u8
    } else {
        0u8
    }) | (if v == 0 {
        0x04u8
    } else {
        0u8
    })
}

/// CC after a 16-bit load or store: N from bit 15, Z from zero, V cleared.
pub open spec fn cc_nz16(cc: u8, v: u16) -> u8 {
    (cc & 0xf1) | (if v >= 0x8000 {
        0x08u8
    } else {
        0u8
    }) | (if v == 0 {
        0x04u8
    } else {
        0u8
    })
}

/// An evaluated instruction in the pure model: the registers to commit, the
/// deferred memory writes, and an optional meta marker.
pub struct EvalOk {
    pub regs: RegisterSet,
    pub writes: Seq<DeferredWrite>,
    pub meta: Option<Meta>,
}

/// One 16-bit push onto a descending stack: the stack pointer drops by two
/// and the value's bytes land at the new top, high byte first.
pub open spec fn push16_spec(
    at: AccessType,
    s: u16,
    v: u16,
    ws: Seq<DeferredWrite>,
) -> (u16, Seq<DeferredWrite>) {
    let s2 = s.wrapping_sub(2);
    (
        s2,
        ws + seq![
            DeferredWrite { at, addr: s2, data: (v >> 8) as u8 },
            DeferredWrite { at, addr: s2.wrapping_add(1), data: v as u8 },
        ],
    )
}

/// One 8-bit push onto a descending stack.
pub open spec fn push8_spec(
    at: AccessType,
    s: u16,
    v: u8,
    ws: Seq<DeferredWrite>,
) -> (u16, Seq<DeferredWrite>) {
    let s2 = s.wrapping_sub(1);
    (s2, ws + seq![DeferredWrite { at, addr: s2, data: v }])
}

/// A register push (PSHS): the registers selected by the post-byte `mask`
/// are pushed in the order PC, U, Y, X, DP, B, A, CC; each 16-bit register
/// goes high byte first, and the stack grows downward.
#[verifier::opaque]
pub open spec fn pshs_spec(mask: u8, regs: RegisterSet) -> EvalOk {
    let at = AccessType::SystemStack;
    let w0: Seq<DeferredWrite> = Seq::empty();
    let p1 = if mask & 0x80 == 0x80 {
        push16_spec(at, regs.s, regs.pc, w0)
    } else {
        (regs.s, w0)
    };
    let p2 = if mask & 0x40 == 0x40 {
        push16_spec(at, p1.0, regs.u, p1.1)
    } else {
        p1
    };
    let p3 = if mask & 0x20 == 0x20 {
        push16_spec(at, p2.0, regs.y, p2.1)
    } else {
        p2
    };
    let p4 = if mask & 0x10 == 0x10 {
        push16_spec(at, p3.0, regs.x, p3.1)
    } else {
        p3
    };
    let p5 = if mask & 0x08 == 0x08 {
        push8_spec(at, p4.0, regs.dp, p4.1)
    } else {
        p4
    };
    let p6 = if mask & 0x04 == 0x04 {
        push8_spec(at, p5.0, regs.b, p5.1)
    } else {
        p5
    };
    let p7 = if mask & 0x02 == 0x02 {
        push8_spec(at, p6.0, regs.a, p6.1)
    } else {
        p6
    };
    let p8 = if mask & 0x01 == 0x01 {
        push8_spec(at, p7.0, regs.cc, p7.1)
    } else {
        p7
    };
    EvalOk { regs: RegisterSet { s: p8.0, ..regs }, writes: p8.1, meta: None }
}

/// A register pull (PULS): the registers selected by the post-byte `mask`
/// are pulled in the order CC, A, B, DP, X, Y, U, PC from the ascending
/// stack, reading through the pure model.
#[verifier::opaque]
pub open spec fn puls_spec(core: Core, mask: u8, regs: RegisterSet) -> EvalOk {
    let s0 = regs.s;
    let r0 = regs;
    let q1 = if mask & 0x01 == 0x01 {
        (s0.wrapping_add(1), RegisterSet { cc: core.bus_read_val(s0), ..r0 })
    } else {
        (s0, r0)
    };
    let q2 = if mask & 0x02 == 0x02 {
        (q1.0.wrapping_add(1), RegisterSet { a: core.bus_read_val(q1.0), ..q1.1 })
    } else {
        q1
    };
    let q3 = if mask & 0x04 == 0x04 {
        (q2.0.wrapping_add(1), RegisterSet { b: core.bus_read_val(q2.0), ..q2.1 })
    } else {
        q2
    };
    let q4 = if mask & 0x08 == 0x08 {
        (q3.0.wrapping_add(1), RegisterSet { dp: core.bus_read_val(q3.0), ..q3.1 })
    } else {
        q3
    };
    let q5 = if mask & 0x10 == 0x10 {
        (q4.0.wrapping_add(2), RegisterSet { x: rd16w(core, q4.0), ..q4.1 })
    } else {
        q4
    };
    let q6 = if mask & 0x20 == 0x20 {
        (q5.0.wrapping_add(2), RegisterSet { y: rd16w(core, q5.0), ..q5.1 })
    } else {
        q5
    };
    let q7 = if mask & 0x40 == 0x40 {
        (q6.0.wrapping_add(2), RegisterSet { u: rd16w(core, q6.0), ..q6.1 })
    } else {
        q6
    };
    let q8 = if mask & 0x80 == 0x80 {
        (q7.0.wrapping_add(2), RegisterSet { pc: rd16w(core, q7.0), ..q7.1 })
    } else {
        q7
    };
    EvalOk { regs: RegisterSet { s: q8.0, ..q8.1 }, writes: Seq::empty(), meta: None }
}

/// Whether every stack byte a PULS would read lies at a side-effect-free
/// address.
#[verifier::opaque]
pub open spec fn puls_reads_pure(mask: u8, s: u16) -> bool {
    let s0 = s;
    let ok1 = mask & 0x01 != 0x01 || addr_pure(s0);
    let s1 = if mask & 0x01 == 0x01 { s0.wrapping_add(1) } else { s0 };
    let ok2 = mask & 0x02 != 0x02 || addr_pure(s1);
    let s2 = if mask & 0x02 == 0x02 { s1.wrapping_add(1) } else { s1 };
    let ok3 = mask & 0x04 != 0x04 || addr_pure(s2);
    let s3 = if mask & 0x04 == 0x04 { s2.wrapping_add(1) } else { s2 };
    let ok4 = mask & 0x08 != 0x08 || addr_pure(s3);
    let s4 = if mask & 0x08 == 0x08 { s3.wrapping_add(1) } else { s3 };
    let ok5 = mask & 0x10 != 0x10 || (addr_pure(s4) && addr_pure(s4.wrapping_add(1)));
    let s5 = if mask & 0x10 == 0x10 { s4.wrapping_add(2) } else { s4 };
    let ok6 = mask & 0x20 != 0x20 || (addr_pure(s5) && addr_pure(s5.wrapping_add(1)));
    let s6 = if mask & 0x20 == 0x20 { s5.wrapping_add(2) } else { s5 };
    let ok7 = mask & 0x40 != 0x40 || (addr_pure(s6) && addr_pure(s6.wrapping_add(1)));
    let s7 = if mask & 0x40 == 0x40 { s6.wrapping_add(2) } else { s6 };
    let ok8 = mask & 0x80 != 0x80 || (addr_pure(s7) && addr_pure(s7.wrapping_add(1)));
    ok1 && ok2 && ok3 && ok4 && ok5 && ok6 && ok7 && ok8
}

/// Evaluating one instruction in the pure model. `regs` already has the
/// program counter advanced past the instruction. The implemented subset
/// never faults at evaluation time: 16-bit data accesses wrap around the
/// top of the address space.
#[verifier::opaque]
pub open spec fn eval_spec(core: Core, op: Op, ea: u16, regs: RegisterSet) -> EvalOk {
    match op {
        Op::Nop => EvalOk { regs, writes: Seq::empty(), meta: None },
        Op::Sync => EvalOk { regs, writes: Seq::empty(), meta: Some(Meta::Sync) },
        Op::Exit => EvalOk { regs, writes: Seq::empty(), meta: Some(Meta::Exit) },
        Op::Swi => EvalOk { regs, writes: Seq::empty(), meta: Some(Meta::Swi) },
        Op::Swi2 => EvalOk { regs, writes: Seq::empty(), meta: Some(Meta::Swi2) },
        Op::Swi3 => EvalOk { regs, writes: Seq::empty(), meta: Some(Meta::Swi3) },
        Op::Cwai => {
            let m = core.bus_read_val(ea);
            EvalOk {
                regs: RegisterSet { cc: regs.cc & m, ..regs },
                writes: Seq::empty(),
                meta: Some(Meta::Cwai),
            }
        },
        Op::Lda => {
            let v = core.bus_read_val(ea);
            EvalOk {
                regs: RegisterSet { a: v, cc: cc_nz8(regs.cc, v), ..regs },
                writes: Seq::empty(),
                meta: None,
            }
        },
        Op::Ldb => {
            let v = core.bus_read_val(ea);
            EvalOk {
                regs: RegisterSet { b: v, cc: cc_nz8(regs.cc, v), ..regs },
                writes: Seq::empty(),
                meta: None,
            }
        },
        Op::Ldx => {
            let v = rd16w(core, ea);
            EvalOk {
                regs: RegisterSet { x: v, cc: cc_nz16(regs.cc, v), ..regs },
                writes: Seq::empty(),
                meta: None,
            }
        },
        Op::Sta => EvalOk {
            regs: RegisterSet { cc: cc_nz8(regs.cc, regs.a), ..regs },
            writes: seq![DeferredWrite { at: AccessType::Generic, addr: ea, data: regs.a }],
            meta: None,
        },
        Op::Stb => EvalOk {
            regs: RegisterSet { cc: cc_nz8(regs.cc, regs.b), ..regs },
            writes: seq![DeferredWrite { at: AccessType::Generic, addr: ea, data: regs.b }],
            meta: None,
        },
        Op::Stx => EvalOk {
            regs: RegisterSet { cc: cc_nz16(regs.cc, regs.x), ..regs },
            writes: seq![
                DeferredWrite { at: AccessType::Generic, addr: ea, data: (regs.x >> 8) as u8 },
                DeferredWrite {
                    at: AccessType::Generic,
                    addr: ea.wrapping_add(1),
                    data: regs.x as u8,
                },
            ],
            meta: None,
        },
        Op::Jmp => EvalOk { regs: RegisterSet { pc: ea, ..regs }, writes: Seq::empty(), meta: None },
        Op::Bra => EvalOk { regs: RegisterSet { pc: ea, ..regs }, writes: Seq::empty(), meta: None },
        Op::Lbra => EvalOk {
            regs: RegisterSet { pc: ea, ..regs },
            writes: Seq::empty(),
            meta: None,
        },
        Op::Pshs => pshs_spec(core.bus_read_val(ea), regs),
        Op::Puls => puls_spec(core, core.bus_read_val(ea), regs),
    }
}

/// Whether every address an evaluation reads lies outside the PIA windows.
pub open spec fn eval_pure(core: Core, op: Op, ea: u16, regs: RegisterSet) -> bool {
    match op {
        Op::Lda | Op::Ldb | Op::Cwai => addr_pure(ea),
        Op::Ldx => addr_pure(ea) && addr_pure(ea.wrapping_add(1)),
        Op::Pshs => addr_pure(ea),
        Op::Puls => addr_pure(ea) && puls_reads_pure(core.bus_read_val(ea), regs.s),
        _ => true,
    }
}

/// The decoded opcode of the instruction at the program counter: the
/// (possibly prefixed) opcode value and its byte count, or `None` when the
/// second opcode byte would lie past the top of the address space.
pub open spec fn fetch_spec(core: Core) -> Option<(u16, u16)> {
    let pc = core.reg.pc;
    let b0 = core.bus_read_val(pc);
    if is_prefix_byte(b0) {
        if pc == 0xffff {
            None
        } else {
            Some((((b0 as u16) << 8 | (core.bus_read_val((pc + 1) as u16) as u16)), 2))
        }
    } else {
        Some((b0 as u16, 1))
    }
}

/// Whether the opcode bytes lie at side-effect-free addresses.
pub open spec fn fetch_pure(core: Core) -> bool {
    let pc = core.reg.pc;
    addr_pure(pc) && (is_prefix_byte(core.bus_read_val(pc)) ==> pc == 0xffff || addr_pure(
        (pc + 1) as u16,
    ))
}

/// One fetch-decode-execute step in the pure model, before the commit.
pub enum StepSpec {
    /// The step faults with this error kind.
    Fault(ErrorKind),
    /// The step succeeds: the instruction, the registers to commit, the
    /// deferred writes, and the meta marker.
    Step(Instance, EvalOk),
}

/// The instruction step of the machine in the pure model: fetch the opcode,
/// look up its flavor, resolve the addressing mode, advance the program
/// counter past the instruction, and evaluate.
pub open spec fn step_spec(core: Core) -> StepSpec {
    match fetch_spec(core) {
        None => StepSpec::Fault(ErrorKind::Runtime),
        Some(f) => match flavor_spec(f.0) {
            None => StepSpec::Fault(ErrorKind::Runtime),
            Some(flavor) => match addressing_spec(core, flavor, f.1, core.reg) {
                AddrSpec::Overflow => StepSpec::Fault(ErrorKind::Runtime),
                AddrSpec::Bad => StepSpec::Fault(ErrorKind::Syntax),
                AddrSpec::Done(a) => match checked_add_spec(core.reg.pc, a.size) {
                    None => StepSpec::Fault(ErrorKind::Runtime),
                    Some(pc2) => {
                        let regs2 = RegisterSet { pc: pc2, ..a.regs };
                        let inst = Instance {
                            opcode: f.0,
                            size: a.size,
                            opsize: f.1,
                            flavor,
                            ea: a.ea,
                        };
                        StepSpec::Step(inst, eval_spec(core, flavor.op, a.ea, regs2))
                    },
                },
            },
        },
    }
}

/// Whether every address the whole step reads lies outside the PIA windows,
/// so that the pure model is exact.
pub open spec fn step_pure(core: Core) -> bool {
    fetch_pure(core) && match fetch_spec(core) {
        None => true,
        Some(f) => match flavor_spec(f.0) {
            None => true,
            Some(flavor) => addressing_reads_pure(core, flavor, f.1, core.reg) && match
                addressing_spec(core, flavor, f.1, core.reg) {
                AddrSpec::Done(a) => eval_pure(core, flavor.op, a.ea, a.regs),
                _ => true,
            },
        },
    }
}

/// Relates a machine to the machine after a list of deferred writes has
/// been flushed through the bus in order.
pub open spec fn writes_applied(pre: Core, post: Core, ws: Seq<DeferredWrite>) -> bool
    decreases ws.len(),
{
    if ws.len() == 0 {
        post == pre
    } else {
        exists|mid: Core|
            #[trigger] Core::bus_write_rel(pre, mid, ws[0].at, ws[0].addr, ws[0].data)
                && writes_applied(mid, post, ws.skip(1))
    }
}

/// Extends an applied write chain by one more write.
pub proof fn lemma_writes_applied_push(
    pre: Core,
    mid: Core,
    post: Core,
    ws: Seq<DeferredWrite>,
    w: DeferredWrite,
)
    requires
        writes_applied(pre, mid, ws),
        Core::bus_write_rel(mid, post, w.at, w.addr, w.data),
    ensures
        writes_applied(pre, post, ws.push(w)),
    decreases ws.len(),
{
    if ws.len() == 0 {
        assert(mid == pre);
        assert(ws.push(w)[0] == w);
        assert(ws.push(w).skip(1) =~= Seq::<DeferredWrite>::empty());
        assert(writes_applied(post, post, ws.push(w).skip(1)));
        assert(Core::bus_write_rel(pre, post, w.at, w.addr, w.data));
    } else {
        let m0 = choose|m: Core|
            #[trigger] Core::bus_write_rel(pre, m, ws[0].at, ws[0].addr, ws[0].data)
                && writes_applied(m, mid, ws.skip(1));
        lemma_writes_applied_push(m0, mid, post, ws.skip(1), w);
        assert(ws.push(w).skip(1) =~= ws.skip(1).push(w));
        assert(ws.push(w)[0] == ws[0]);
        assert(Core::bus_write_rel(pre, m0, ws.push(w)[0].at, ws.push(w)[0].addr, ws.push(w)[0].data)
            && writes_applied(m0, post, ws.push(w).skip(1)));
    }
}

impl Core {
    /// Pushes one 16-bit value onto a descending stack image: drops the
    /// pointer by two and queues the bytes, high first.
    fn push16_step(at: AccessType, s: u16, v: u16, writes: &mut Vec<DeferredWrite>) -> (s2: u16)
        ensures
            (s2, final(writes)@) == push16_spec(at, s, v, old(writes)@),
    {
        let s2 = s.wrapping_sub(2);
        writes.push(DeferredWrite { at, addr: s2, data: (v >> 8) as u8 });
        writes.push(DeferredWrite { at, addr: s2.wrapping_add(1), data: v as u8 });
        proof {
            assert(final(writes)@ =~= push16_spec(at, s, v, old(writes)@).1);
        }
        s2
    }

    /// Pushes one 8-bit value onto a descending stack image.
    fn push8_step(at: AccessType, s: u16, v: u8, writes: &mut Vec<DeferredWrite>) -> (s2: u16)
        ensures
            (s2, final(writes)@) == push8_spec(at, s, v, old(writes)@),
    {
        let s2 = s.wrapping_sub(1);
        writes.push(DeferredWrite { at, addr: s2, data: v });
        proof {
            assert(final(writes)@ =~= push8_spec(at, s, v, old(writes)@).1);
        }
        s2
    }

    /// Reads a 16-bit value from the bus with a wrapping address, high byte
    /// first.
    fn read_u16_wrapping(&mut self, at: AccessType, addr: u16) -> (w: u16)
        requires
            old(self).wf(),
        ensures
            final(self).wf(),
            *final(self) == old(self).bus_read_after(addr).bus_read_after(addr.wrapping_add(1)),
            addr_pure(addr) && addr_pure(addr.wrapping_add(1)) ==> {
                &&& w == rd16w(*old(self), addr)
                &&& *final(self) == *old(self)
            },
    {
        let hi = self.read_u8(at, addr);
        let lo = self.read_u8(at, addr.wrapping_add(1));
        (hi as u16) << 8 | (lo as u16)
    }

    /// Evaluates the decoded instruction: updates the working register set,
    /// queues deferred memory writes, and sets the meta marker. The
    /// implemented subset cannot fault here; 16-bit data accesses wrap
    /// around the top of the address space.
    #[verifier::rlimit(100)]
    fn eval_instruction(&mut self, o: &mut Outcome)
        requires
            old(self).wf(),
            old(o).writes@.len() == 0,
            old(o).meta is None,
        ensures
            final(self).wf(),
            *final(self) == (Core {
                pia0: final(self).pia0,
                pia1: final(self).pia1,
                ..*old(self)
            }),
            final(o).inst == old(o).inst,
            eval_pure(*old(self), old(o).inst.flavor.op, old(o).inst.ea, old(o).new_ctx) ==> ({
                let ev = eval_spec(
                    *old(self),
                    old(o).inst.flavor.op,
                    old(o).inst.ea,
                    old(o).new_ctx,
                );
                &&& *final(self) == *old(self)
                &&& final(o).new_ctx == ev.regs
                &&& final(o).writes@ == ev.writes
                &&& final(o).meta == ev.meta
            }),
    {
        reveal(eval_spec);
        let ea = o.inst.ea;
        match o.inst.flavor.op {
            Op::Nop => {},
            Op::Sync => {
                o.meta = Some(Meta::Sync);
            },
            Op::Exit => {
                o.meta = Some(Meta::Exit);
            },
            Op::Swi => {
                o.meta = Some(Meta::Swi);
            },
            Op::Swi2 => {
                o.meta = Some(Meta::Swi2);
            },
            Op::Swi3 => {
                o.meta = Some(Meta::Swi3);
            },
            Op::Cwai => {
                let m = self.read_u8(AccessType::Generic, ea);
                o.new_ctx.cc = o.new_ctx.cc & m;
                o.meta = Some(Meta::Cwai);
            },
            Op::Lda => {
                let v = self.read_u8(AccessType::Generic, ea);
                o.new_ctx.a = v;
                o.new_ctx.cc = Core::nz8(o.new_ctx.cc, v);
            },
            Op::Ldb => {
                let v = self.read_u8(AccessType::Generic, ea);
                o.new_ctx.b = v;
                o.new_ctx.cc = Core::nz8(o.new_ctx.cc, v);
            },
            Op::Ldx => {
                let v = self.read_u16_wrapping(AccessType::Generic, ea);
                o.new_ctx.x = v;
                o.new_ctx.cc = Core::nz16(o.new_ctx.cc, v);
            },
            Op::Sta => {
                let v = o.new_ctx.a;
                o.writes.push(DeferredWrite { at: AccessType::Generic, addr: ea, data: v });
                o.new_ctx.cc = Core::nz8(o.new_ctx.cc, v);
            },
            Op::Stb => {
                let v = o.new_ctx.b;
                o.writes.push(DeferredWrite { at: AccessType::Generic, addr: ea, data: v });
                o.new_ctx.cc = Core::nz8(o.new_ctx.cc, v);
            },
            Op::Stx => {
                let v = o.new_ctx.x;
                o.writes.push(
                    DeferredWrite { at: AccessType::Generic, addr: ea, data: (v >> 8) as u8 },
                );
                o.writes.push(
                    DeferredWrite {
                        at: AccessType::Generic,
                        addr: ea.wrapping_add(1),
                        data: v as u8,
                    },
                );
                o.new_ctx.cc = Core::nz16(o.new_ctx.cc, v);
                proof {
                    assert(o.writes@ =~= eval_spec(
                        *old(self),
                        old(o).inst.flavor.op,
                        old(o).inst.ea,
                        old(o).new_ctx,
                    ).writes);
                }
            },
            Op::Jmp | Op::Bra | Op::Lbra => {
                o.new_ctx.pc = ea;
            },
            Op::Pshs => {
                self.eval_pshs(o);
            },
            Op::Puls => {
                self.eval_puls(o);
            },
        }
    }

    /// Evaluates a PSHS: reads the register mask from the immediate operand
    /// and queues the selected registers onto the descending system stack.
    #[verifier::rlimit(100)]
    fn eval_pshs(&mut self, o: &mut Outcome)
        requires
            old(self).wf(),
            old(o).writes@.len() == 0,
            old(o).meta is None,
            old(o).inst.flavor.op == Op::Pshs,
        ensures
            final(self).wf(),
            *final(self) == (Core {
                pia0: final(self).pia0,
                pia1: final(self).pia1,
                ..*old(self)
            }),
            final(o).inst == old(o).inst,
            final(o).meta is None,
            addr_pure(old(o).inst.ea) ==> ({
                let ev = pshs_spec(old(self).bus_read_val(old(o).inst.ea), old(o).new_ctx);
                &&& *final(self) == *old(self)
                &&& final(o).new_ctx == ev.regs
                &&& final(o).writes@ == ev.writes
                &&& final(o).meta == ev.meta
            }),
    {
        reveal(pshs_spec);
        let ea = o.inst.ea;
        let mask = self.read_u8(AccessType::Generic, ea);
        let mut s = o.new_ctx.s;
        let at = AccessType::SystemStack;
        if mask & 0x80 == 0x80 {
            s = Core::push16_step(at, s, o.new_ctx.pc, &mut o.writes);
        }
        if mask & 0x40 == 0x40 {
            s = Core::push16_step(at, s, o.new_ctx.u, &mut o.writes);
        }
        if mask & 0x20 == 0x20 {
            s = Core::push16_step(at, s, o.new_ctx.y, &mut o.writes);
        }
        if mask & 0x10 == 0x10 {
            s = Core::push16_step(at, s, o.new_ctx.x, &mut o.writes);
        }
        if mask & 0x08 == 0x08 {
            s = Core::push8_step(at, s, o.new_ctx.dp, &mut o.writes);
        }
        if mask & 0x04 == 0x04 {
            s = Core::push8_step(at, s, o.new_ctx.b, &mut o.writes);
        }
        if mask & 0x02 == 0x02 {
            s = Core::push8_step(at, s, o.new_ctx.a, &mut o.writes);
        }
        if mask & 0x01 == 0x01 {
            s = Core::push8_step(at, s, o.new_ctx.cc, &mut o.writes);
        }
        o.new_ctx.s = s;
    }

    /// Evaluates a PULS: reads the register mask from the immediate operand
    /// and pulls the selected registers from the ascending system stack.
    #[verifier::rlimit(100)]
    fn eval_puls(&mut self, o: &mut Outcome)
        requires
            old(self).wf(),
            old(o).writes@.len() == 0,
            old(o).meta is None,
            old(o).inst.flavor.op == Op::Puls,
        ensures
            final(self).wf(),
            *final(self) == (Core {
                pia0: final(self).pia0,
                pia1: final(self).pia1,
                ..*old(self)
            }),
            final(o).inst == old(o).inst,
            final(o).meta is None,
            final(o).writes@ == old(o).writes@,
            addr_pure(old(o).inst.ea) && puls_reads_pure(
                old(self).bus_read_val(old(o).inst.ea),
                old(o).new_ctx.s,
            ) ==> ({
                let ev = puls_spec(
                    *old(self),
                    old(self).bus_read_val(old(o).inst.ea),
                    old(o).new_ctx,
                );
                &&& *final(self) == *old(self)
                &&& final(o).new_ctx == ev.regs
                &&& final(o).writes@ == ev.writes
                &&& final(o).meta == ev.meta
            }),
    {
        reveal(puls_spec);
        reveal(puls_reads_pure);
        let ea = o.inst.ea;
        let mask = self.read_u8(AccessType::Generic, ea);
        let mut s = o.new_ctx.s;
        if mask & 0x01 == 0x01 {
            o.new_ctx.cc = self.read_u8(AccessType::SystemStack, s);
            s = s.wrapping_add(1);
        }
        if mask & 0x02 == 0x02 {
            o.new_ctx.a = self.read_u8(AccessType::SystemStack, s);
            s = s.wrapping_add(1);
        }
        if mask & 0x04 == 0x04 {
            o.new_ctx.b = self.read_u8(AccessType::SystemStack, s);
            s = s.wrapping_add(1);
        }
        if mask & 0x08 == 0x08 {
            o.new_ctx.dp = self.read_u8(AccessType::SystemStack, s);
            s = s.wrapping_add(1);
        }
        if mask & 0x10 == 0x10 {
            o.new_ctx.x = self.read_u16_wrapping(AccessType::SystemStack, s);
            s = s.wrapping_add(2);
        }
        if mask & 0x20 == 0x20 {
            o.new_ctx.y = self.read_u16_wrapping(AccessType::SystemStack, s);
            s = s.wrapping_add(2);
        }
        if mask & 0x40 == 0x40 {
            o.new_ctx.u = self.read_u16_wrapping(AccessType::SystemStack, s);
            s = s.wrapping_add(2);
        }
        if mask & 0x80 == 0x80 {
            o.new_ctx.pc = self.read_u16_wrapping(AccessType::SystemStack, s);
            s = s.wrapping_add(2);
        }
        o.new_ctx.s = s;
    }

    /// CC after an 8-bit load or store.
    fn nz8(cc: u8, v: u8) -> (r: u8)
        ensures
            r == cc_nz8(cc, v),
    {
        (cc & 0xf1) | (if v >= 0x80 {
            0x08
        } else {
            0
        }) | (if v == 0 {
            0x04
        } else {
            0
        })
    }

    /// CC after a 16-bit load or store.
    fn nz16(cc: u8, v: u16) -> (r: u8)
        ensures
            r == cc_nz16(cc, v),
    {
        (cc & 0xf1) | (if v >= 0x8000 {
            0x08
        } else {
            0
        }) | (if v == 0 {
            0x04
        } else {
            0
        })
    }
}

/// Every flavor in the opcode table is well-formed: at most three encoded
/// bytes before indexed extension, at least one, and the prefixed opcodes
/// (above 0xff) count both opcode bytes in their size.
pub proof fn lemma_flavor_wf(op16: u16)
    ensures
        flavor_spec(op16) matches Some(f) ==> 1 <= f.sz <= 3 && (op16 > 0xff ==> f.sz == 2),
{
}

impl Core {
    /// Commits an outcome: writes the registers back and flushes every
    /// deferred write through the bus in order.
    fn commit_outcome(&mut self, o: &Outcome)
        requires
            old(self).wf(),
        ensures
            final(self).wf(),
            writes_applied(Core { reg: o.new_ctx, ..*old(self) }, *final(self), o.writes@),
            *final(self) == (Core {
                ram: final(self).ram,
                sam: final(self).sam,
                pia0: final(self).pia0,
                pia1: final(self).pia1,
                reg: o.new_ctx,
                ..*old(self)
            }),
    {
        self.reg = o.new_ctx;
        let ghost committed = *self;
        let n = o.writes.len();
        let mut i: usize = 0;
        while i < n
            invariant
                self.wf(),
                n == o.writes@.len(),
                0 <= i <= n,
                writes_applied(committed, *self, o.writes@.take(i as int)),
                *self == (Core {
                    ram: self.ram,
                    sam: self.sam,
                    pia0: self.pia0,
                    pia1: self.pia1,
                    ..committed
                }),
            decreases n - i,
        {
            let w = o.writes[i];
            let ghost mid = *self;
            self.write_u8(w.at, w.addr, w.data);
            proof {
                lemma_writes_applied_push(committed, mid, *self, o.writes@.take(i as int), w);
                assert(o.writes@.take(i as int).push(w) =~= o.writes@.take(i as int + 1));
            }
            i = i + 1;
        }
        proof {
            assert(o.writes@.take(n as int) =~= o.writes@);
        }
    }

    /// Fetches and decodes the instruction at the program counter and
    /// evaluates it into an outcome, without committing anything.
    #[verifier::rlimit(100)]
    fn decode_eval(&mut self) -> (r: Result<Outcome, Error>)
        requires
            old(self).wf(),
        ensures
            final(self).wf(),
            *final(self) == (Core {
                pia0: final(self).pia0,
                pia1: final(self).pia1,
                ..*old(self)
            }),
            step_pure(*old(self)) ==> match step_spec(*old(self)) {
                StepSpec::Fault(k) => {
                    &&& r matches Err(e) && e.kind == k
                    &&& *final(self) == *old(self)
                },
                StepSpec::Step(inst, ev) => {
                    &&& r matches Ok(o) && o.inst == inst && o.new_ctx == ev.regs && o.writes@
                        == ev.writes && o.meta == ev.meta
                    &&& *final(self) == *old(self)
                },
            },
    {
        // fetch the opcode, growing it to 16 bits behind a prefix byte
        let pc = self.reg.pc;
        let b0 = self.read_u8(AccessType::Program, pc);
        let op16: u16;
        let opsize: u16;
        if is_high_byte_of_16bit_instruction(b0) {
            let p1 = self.checked_pc_add(pc, 1)?;
            let b1 = self.read_u8(AccessType::Program, p1);
            op16 = (b0 as u16) << 8 | (b1 as u16);
            opsize = 2;
            proof {
                let bb0 = b0;
                let bb1 = b1;
                assert((bb0 == 0x10 || bb0 == 0x11) ==> ((bb0 as u16) << 8 | (bb1 as u16)) > 0xff)
                    by (bit_vector);
            }
        } else {
            op16 = b0 as u16;
            opsize = 1;
        }
        proof {
            lemma_flavor_wf(op16);
        }
        let flavor = if let Some(f) = crate::instructions::opcode_to_flavor(op16) {
            f
        } else {
            return Err(Error::new(ErrorKind::Runtime, Some(self.reg), "Bad instruction"));
        };
        let mut inst = Instance { opcode: op16, size: opsize, opsize, flavor, ea: 0 };
        let mut live_ctx = self.reg;
        self.process_addressing_mode(&mut inst, &mut live_ctx)?;
        live_ctx.pc = self.checked_pc_add(live_ctx.pc, inst.size)?;
        let mut o = Outcome { inst, new_ctx: live_ctx, writes: Vec::new(), meta: None };
        self.eval_instruction(&mut o);
        Ok(o)
    }

    /// Fetches, decodes and evaluates the instruction at the program
    /// counter. When `commit` is set, the resulting register set is written
    /// back and every deferred write is flushed through the bus; the
    /// instruction and cycle counters advance either way.
    ///
    /// The contract is exact against `step_spec` whenever the instruction's
    /// bytes and data lie outside the PIA register windows: faults are
    /// returned as errors with the machine unchanged, and a successful step
    /// leaves exactly the committed registers and the flushed writes.
    #[verifier::rlimit(100)]
    pub fn exec_next(&mut self, commit: bool) -> (r: Result<Outcome, Error>)
        requires
            old(self).wf(),
        ensures
            final(self).wf(),
            final(self).ram_top == old(self).ram_top,
            final(self).reset_vector == old(self).reset_vector,
            final(self).cart_pending == old(self).cart_pending,
            final(self).in_cwai == old(self).in_cwai,
            final(self).in_sync == old(self).in_sync,
            final(self).program_start == old(self).program_start,
            final(self).faulted == old(self).faulted,
            step_pure(*old(self)) ==> match step_spec(*old(self)) {
                StepSpec::Fault(k) => {
                    &&& r matches Err(e) && e.kind == k
                    &&& *final(self) == *old(self)
                },
                StepSpec::Step(inst, ev) => {
                    &&& r matches Ok(o) && o.inst == inst && o.new_ctx == ev.regs && o.writes@
                        == ev.writes && o.meta == ev.meta
                    &&& (!commit ==> *final(self) == (Core {
                        instruction_count: vstd::wrapping::u64_specs::wrapping_add(
                            old(self).instruction_count,
                            1,
                        ),
                        clock_cycles: vstd::wrapping::u64_specs::wrapping_add(
                            old(self).clock_cycles,
                            inst.flavor.clk as u64,
                        ),
                        ..*old(self)
                    }))
                    &&& (commit ==> {
                        &&& writes_applied(
                            Core { reg: ev.regs, ..*old(self) },
                            Core {
                                instruction_count: old(self).instruction_count,
                                clock_cycles: old(self).clock_cycles,
                                ..*final(self)
                            },
                            ev.writes,
                        )
                        &&& final(self).instruction_count
                            == vstd::wrapping::u64_specs::wrapping_add(
                            old(self).instruction_count,
                            1,
                        )
                        &&& final(self).clock_cycles == vstd::wrapping::u64_specs::wrapping_add(
                            old(self).clock_cycles,
                            inst.flavor.clk as u64,
                        )
                    })
                },
            },
    {
        let o = self.decode_eval()?;
        if commit {
            self.commit_outcome(&o);
        }
        self.instruction_count = self.instruction_count.wrapping_add(1);
        self.clock_cycles = self.clock_cycles.wrapping_add(o.inst.flavor.clk as u64);
        Ok(o)
    }
}

/// An address a `System` write reaches without touching a peripheral.
pub open spec fn write_pure(a: u16) -> bool {
    !pia0_window(a) && !pia1_window(a) && !crate::memory::sam_window(a)
}

/// Whether an interrupt stacks the whole register frame (everything but S)
/// or only PC and CC (the fast interrupt).
pub open spec fn int_entire(it: InterruptType) -> bool {
    it != InterruptType::Firq
}

/// The mask of condition-code bits an accepted interrupt ORs into CC.
pub open spec fn int_mask(it: InterruptType) -> u8 {
    match it {
        InterruptType::Swi2 | InterruptType::Swi3 => 0,
        InterruptType::Irq => 0x10,
        _ => 0x50,
    }
}

/// The bytes of an interrupt register frame as they lie in memory, lowest
/// address (the new top of stack) first. CC is pushed last and carries the
/// E flag: set when the entire frame was stacked.
pub open spec fn int_frame(regs: RegisterSet, entire: bool) -> Seq<u8> {
    let cc_e = if entire {
        regs.cc | 0x80
    } else {
        regs.cc & !0x80
    };
    if entire {
        seq![
            cc_e,
            regs.a,
            regs.b,
            regs.dp,
            (regs.x >> 8) as u8,
            regs.x as u8,
            (regs.y >> 8) as u8,
            regs.y as u8,
            (regs.u >> 8) as u8,
            regs.u as u8,
            (regs.pc >> 8) as u8,
            regs.pc as u8,
        ]
    } else {
        seq![cc_e, (regs.pc >> 8) as u8, regs.pc as u8]
    }
}

impl Core {
    /// Pushes one register onto the system stack for interrupt handling.
    /// A stack pointer too low to hold the register is a `Runtime` fault.
    pub fn system_psh(&mut self, rn: Name) -> (r: Result<(), Error>)
        requires
            old(self).wf(),
        ensures
            final(self).wf(),
            final(self).ram_top == old(self).ram_top,
            final(self).reset_vector == old(self).reset_vector,
            final(self).cart_pending == old(self).cart_pending,
            final(self).in_cwai == old(self).in_cwai,
            final(self).in_sync == old(self).in_sync,
            final(self).program_start == old(self).program_start,
            final(self).faulted == old(self).faulted,
            final(self).instruction_count == old(self).instruction_count,
            final(self).clock_cycles == old(self).clock_cycles,
            r matches Err(e) ==> e.kind == ErrorKind::Runtime,
            r is Err <==> old(self).reg.s < reg_size_spec(rn),
            r is Err ==> *final(self) == *old(self),
            r is Ok ==> ({
                let size = reg_size_spec(rn);
                let addr = (old(self).reg.s - size) as u16;
                let v = old(self).reg.get_spec(rn);
                &&& final(self).ram@ == (if size == 2 {
                    write_ram_seq(
                        write_ram_seq(
                            old(self).ram@,
                            old(self).ram_top,
                            AccessType::System,
                            addr,
                            (v >> 8) as u8,
                        ),
                        old(self).ram_top,
                        AccessType::System,
                        (addr + 1) as u16,
                        v as u8,
                    )
                } else {
                    write_ram_seq(
                        old(self).ram@,
                        old(self).ram_top,
                        AccessType::System,
                        addr,
                        v as u8,
                    )
                })
                &&& final(self).reg == old(self).reg.set_spec(Name::S, addr)
                &&& (write_pure(addr) && write_pure((addr + 1) as u16) ==> *final(self) == (Core {
                    ram: final(self).ram,
                    reg: final(self).reg,
                    ..*old(self)
                }))
            }),
    {
        let size = crate::registers::reg_size(rn);
        let mut addr = self.reg.get_register(Name::S);
        if addr < size {
            return Err(Error::new(ErrorKind::Runtime, Some(self.reg), "interrupt push stack overflow"));
        }
        addr = addr - size;
        let v = self.reg.get_register(rn);
        if size == 2 {
            self.write_u8(AccessType::System, addr, (v >> 8) as u8);
            self.write_u8(AccessType::System, addr + 1, v as u8);
        } else {
            self.write_u8(AccessType::System, addr, v as u8);
        }
        self.reg.set_register(Name::S, addr);
        Ok(())
    }

    /// Stacks the register frame for an interrupt: PC first, then (for an
    /// entire frame) U, Y, X, DP, B and A, then CC with its E flag recording
    /// whether the whole frame was saved.
    ///
    /// With enough room on a stack that lies in plain RAM, the frame lands
    /// as one contiguous block below the old stack pointer.
    #[verifier::rlimit(100)]
    pub fn stack_for_interrupt(&mut self, entire: bool) -> (r: Result<(), Error>)
        requires
            old(self).wf(),
        ensures
            final(self).wf(),
            final(self).ram_top == old(self).ram_top,
            final(self).reset_vector == old(self).reset_vector,
            final(self).cart_pending == old(self).cart_pending,
            final(self).in_cwai == old(self).in_cwai,
            final(self).in_sync == old(self).in_sync,
            final(self).program_start == old(self).program_start,
            final(self).faulted == old(self).faulted,
            final(self).instruction_count == old(self).instruction_count,
            final(self).clock_cycles == old(self).clock_cycles,
            r matches Err(e) ==> e.kind == ErrorKind::Runtime,
            ({
                let n: u16 = if entire {
                    12
                } else {
                    3
                };
                n <= old(self).reg.s <= 0xff00 ==> {
                    &&& r is Ok
                    &&& final(self).ram@ == crate::cpu::overlay(
                        old(self).ram@,
                        old(self).reg.s - n,
                        int_frame(old(self).reg, entire),
                    )
                    &&& final(self).reg == (RegisterSet {
                        s: (old(self).reg.s - n) as u16,
                        cc: if entire {
                            old(self).reg.cc | 0x80
                        } else {
                            old(self).reg.cc & !0x80
                        },
                        ..old(self).reg
                    })
                    &&& *final(self) == (Core {
                        ram: final(self).ram,
                        reg: final(self).reg,
                        ..*old(self)
                    })
                }
            }),
    {
        let ghost pre = *self;
        let ghost s0 = pre.reg.s as int;
        let ghost ok = (if entire { 12u16 } else { 3u16 }) <= pre.reg.s <= 0xff00;
        self.system_psh(Name::PC)?;
        proof {
            if ok {
                assert(self.ram@ =~= pre.ram@.update(s0 - 2, (pre.reg.pc >> 8) as u8).update(
                    s0 - 1,
                    pre.reg.pc as u8,
                ));
            }
        }
        if entire {
            self.system_psh(Name::U)?;
            self.system_psh(Name::Y)?;
            self.system_psh(Name::X)?;
            proof {
                if ok {
                    assert(self.ram@ =~= pre.ram@.update(s0 - 2, (pre.reg.pc >> 8) as u8).update(
                        s0 - 1,
                        pre.reg.pc as u8,
                    ).update(s0 - 4, (pre.reg.u >> 8) as u8).update(s0 - 3, pre.reg.u as u8).update(
                        s0 - 6,
                        (pre.reg.y >> 8) as u8,
                    ).update(s0 - 5, pre.reg.y as u8).update(s0 - 8, (pre.reg.x >> 8) as u8).update(
                        s0 - 7,
                        pre.reg.x as u8,
                    ));
                }
            }
            self.system_psh(Name::DP)?;
            self.system_psh(Name::B)?;
            self.system_psh(Name::A)?;
        }
        self.reg.cc_set(CCBit::E, entire);
        self.system_psh(Name::CC)?;
        proof {
            let n: u16 = if entire {
                12
            } else {
                3
            };
            if n <= pre.reg.s <= 0xff00 {
                assert(self.ram@ =~= crate::cpu::overlay(
                    pre.ram@,
                    pre.reg.s - n,
                    int_frame(pre.reg, entire),
                ));
                assert(self.reg == (RegisterSet {
                    s: (pre.reg.s - n) as u16,
                    cc: if entire {
                        pre.reg.cc | 0x80
                    } else {
                        pre.reg.cc & !0x80
                    },
                    ..pre.reg
                }));
                assert(*self == (Core { ram: self.ram, reg: self.reg, ..pre }));
            }
        }
        Ok(())
    }
}

/// The byte a read of a side-effect-free address returns, as a function of
/// the backing store alone.
pub open spec fn pure_mem_byte(ram: Seq<u8>, a: u16) -> u8
    recommends
        addr_pure(a),
{
    if a <= 0xfeff {
        ram[a as int]
    } else if 0xffe0 <= a {
        ram[a - 0x4000]
    } else {
        0
    }
}


/// PIA1 after the hsync tick: a pending cartridge drives the FIRQ edge into
/// side B's C1 line and consumes the latch.
pub open spec fn hsync_pia1_after(core: Core) -> Pia1 {
    if core.cart_pending {
        Pia1 {
            side_b: core.pia1.side_b.set_c1_spec(true).consume_interrupt_state_spec(),
            ..core.pia1
        }
    } else {
        core.pia1
    }
}

/// Whether the hsync tick raises a cartridge FIRQ.
pub open spec fn hsync_firq_fires(core: Core) -> bool {
    core.cart_pending && core.pia1.side_b.set_c1_spec(true).consume_interrupt_result_spec()
}

/// PIA0 after the sync ticks: the hsync edge on side A's C1 line, and on a
/// vsync additionally the edge on side B's C1 line, each latch consumed.
pub open spec fn hsync_pia0_after(core: Core, vsync: bool) -> Pia0 {
    let p1 = Pia0 {
        side_a: core.pia0.side_a.set_c1_spec(true).consume_interrupt_state_spec(),
        ..core.pia0
    };
    if vsync {
        Pia0 { side_b: p1.side_b.set_c1_spec(true).consume_interrupt_state_spec(), ..p1 }
    } else {
        p1
    }
}

/// Whether the sync ticks raise an IRQ.
pub open spec fn hsync_irq_fires(core: Core, vsync: bool) -> bool {
    core.pia0.side_a.set_c1_spec(true).consume_interrupt_result_spec() || (vsync
        && core.pia0.side_b.set_c1_spec(true).consume_interrupt_result_spec())
}

/// Relates the machine before and after an accepted interrupt entry of kind
/// `it`, with `ok` recording whether the entry succeeded. Exact whenever the
/// frame (if one is stacked) fits on a stack lying in plain RAM and the
/// vector's target is side-effect free to read; `start_interrupt` promises
/// exactly this relation.
pub open spec fn int_entry_rel(pre: Core, post: Core, it: InterruptType, ok: bool) -> bool {
    let entire = int_entire(it);
    let n: u16 = if entire {
        12
    } else {
        3
    };
    let stacked = !pre.in_cwai;
    (pre.in_cwai || n <= pre.reg.s <= 0xff00) ==> {
        let ram1 = if stacked {
            crate::cpu::overlay(pre.ram@, pre.reg.s - n, int_frame(pre.reg, entire))
        } else {
            pre.ram@
        };
        let cc1 = (if !stacked {
            pre.reg.cc
        } else if entire {
            pre.reg.cc | 0x80
        } else {
            pre.reg.cc & !0x80
        }) | int_mask(it);
        let s1 = if stacked {
            (pre.reg.s - n) as u16
        } else {
            pre.reg.s
        };
        let vec = it.vector_spec();
        let addr = ((ram1[vec - 0x4000] as u16) << 8 | (ram1[vec - 0x4000 + 1] as u16)) as u16;
        addr_pure(addr) ==> {
            let b = pure_mem_byte(ram1, addr);
            &&& (b == 0 ==> !ok)
            &&& (b != 0 ==> {
                &&& ok
                &&& post.ram@ == ram1
                &&& post.reg == (RegisterSet { pc: addr, cc: cc1, s: s1, ..pre.reg })
                &&& !post.in_cwai
                &&& post == (Core {
                    ram: post.ram,
                    reg: post.reg,
                    in_cwai: false,
                    ..pre
                })
            })
        }
    }
}

impl Core {
    /// Sets the condition codes and stacks the register frame as the
    /// interrupt kind demands, then loads the program counter from the
    /// interrupt's vector. A vector that points at a zero byte is a
    /// `Runtime` fault (an unmapped service routine). A CWAI instruction
    /// has already stacked the frame, so none is pushed then.
    #[verifier::rlimit(100)]
    pub fn start_interrupt(&mut self, it: InterruptType) -> (r: Result<(), Error>)
        requires
            old(self).wf(),
            !old(self).in_sync,
        ensures
            final(self).wf(),
            final(self).in_sync == old(self).in_sync,
            final(self).ram_top == old(self).ram_top,
            final(self).reset_vector == old(self).reset_vector,
            final(self).cart_pending == old(self).cart_pending,
            final(self).program_start == old(self).program_start,
            final(self).faulted == old(self).faulted,
            final(self).instruction_count == old(self).instruction_count,
            final(self).clock_cycles == old(self).clock_cycles,
            r matches Err(e) ==> e.kind == ErrorKind::Runtime,
            int_entry_rel(*old(self), *final(self), it, r is Ok),
    {
        let entire = !matches!(it, InterruptType::Firq);
        let if_mask_flags: u8 = match it {
            InterruptType::Swi2 | InterruptType::Swi3 => 0,
            InterruptType::Irq => 0x10,
            _ => 0x50,
        };
        // the frame was already stacked if the CPU sits inside a CWAI
        if !self.in_cwai {
            self.stack_for_interrupt(entire)?;
        }
        self.reg.cc_or_with_byte(if_mask_flags);
        let addr = self.read_u16(AccessType::System, it.vector());
        let b = self.read_u8(AccessType::System, addr);
        if b == 0 {
            // an interrupt vector pointing at a zero byte marks an unmapped
            // service routine
            return Err(
                Error::new(
                    ErrorKind::Runtime,
                    Some(self.reg),
                    "interrupt vector points to zero instruction",
                ),
            );
        }
        self.reg.set_register(Name::PC, addr);
        self.in_cwai = false;
        Ok(())
    }

    /// Resets the 6809: clears the registers, applies the reset-vector
    /// override if one is set, and loads the program counter from the reset
    /// vector.
    pub fn reset(&mut self) -> (r: Result<(), Error>)
        requires
            old(self).wf(),
        ensures
            final(self).wf(),
            r is Ok,
            ({
                let ram1 = match old(self).reset_vector {
                    Some(a) => write_ram_seq(
                        write_ram_seq(
                            old(self).ram@,
                            old(self).ram_top,
                            AccessType::System,
                            0xfffe,
                            (a >> 8) as u8,
                        ),
                        old(self).ram_top,
                        AccessType::System,
                        0xffff,
                        a as u8,
                    ),
                    None => old(self).ram@,
                };
                let pc = ((ram1[0xbffe] as u16) << 8 | (ram1[0xbfff] as u16)) as u16;
                &&& final(self).ram@ == ram1
                &&& final(self).reg == (RegisterSet { pc, ..RegisterSet::cleared_spec() })
                &&& final(self).program_start == pc
                &&& !final(self).faulted
                &&& *final(self) == (Core {
                    ram: final(self).ram,
                    reg: final(self).reg,
                    program_start: pc,
                    faulted: false,
                    ..*old(self)
                })
            }),
    {
        self.reg.reset();
        if let Some(addr) = self.reset_vector {
            self.force_reset_vector(addr);
        }
        let pc = self.read_u16(AccessType::System, 0xfffe);
        self.reg.pc = pc;
        self.program_start = pc;
        self.faulted = false;
        Ok(())
    }

    /// Executes one instruction and performs the periodic work the caller
    /// asks for: on `hsync`, the horizontal-sync edge is driven into PIA0
    /// (and a pending cartridge FIRQ into PIA1); on `vsync` additionally the
    /// vertical-sync edge. Resulting interrupts are serviced when the CC
    /// masks allow; SYNC completes on any interrupt regardless of masking.
    ///
    /// An EXIT instruction surfaces as an `Exit` error, the clean
    /// termination signal.
    pub fn exec_one(&mut self, hsync: bool, vsync: bool) -> (r: Result<(), Error>)
        requires
            old(self).wf(),
        ensures
            final(self).wf(),
            (!hsync && !vsync && !old(self).in_cwai && !old(self).in_sync && step_pure(
                *old(self),
            )) ==> match step_spec(*old(self)) {
                StepSpec::Fault(k) => {
                    &&& r matches Err(e) && e.kind == k
                    &&& *final(self) == *old(self)
                },
                StepSpec::Step(inst, ev) => {
                    &&& (ev.meta is None ==> {
                        &&& r is Ok
                        &&& writes_applied(
                            Core { reg: ev.regs, ..*old(self) },
                            Core {
                                instruction_count: old(self).instruction_count,
                                clock_cycles: old(self).clock_cycles,
                                ..*final(self)
                            },
                            ev.writes,
                        )
                        &&& final(self).instruction_count
                            == vstd::wrapping::u64_specs::wrapping_add(
                            old(self).instruction_count,
                            1,
                        )
                        &&& final(self).clock_cycles == vstd::wrapping::u64_specs::wrapping_add(
                            old(self).clock_cycles,
                            inst.flavor.clk as u64,
                        )
                    })
                    &&& (ev.meta == Some(Meta::Exit) ==> {
                        &&& r matches Err(e) && e.kind == ErrorKind::Exit
                        &&& writes_applied(
                            Core { reg: ev.regs, ..*old(self) },
                            Core {
                                instruction_count: old(self).instruction_count,
                                clock_cycles: old(self).clock_cycles,
                                ..*final(self)
                            },
                            ev.writes,
                        )
                        &&& final(self).instruction_count
                            == vstd::wrapping::u64_specs::wrapping_add(
                            old(self).instruction_count,
                            1,
                        )
                        &&& final(self).clock_cycles == vstd::wrapping::u64_specs::wrapping_add(
                            old(self).clock_cycles,
                            inst.flavor.clk as u64,
                        )
                    })
                },
            },
            (hsync && (old(self).in_cwai || old(self).in_sync)) ==> ({
                let firq = hsync_firq_fires(*old(self));
                let irq = hsync_irq_fires(*old(self), vsync);
                let mid = Core {
                    pia0: hsync_pia0_after(*old(self), vsync),
                    pia1: hsync_pia1_after(*old(self)),
                    in_sync: old(self).in_sync && !irq && !firq,
                    ..*old(self)
                };
                // SYNC completes on any latched interrupt, masked or not
                &&& ((irq || firq) ==> !final(self).in_sync)
                &&& (!irq && !firq ==> (*final(self) == mid && r is Ok))
                // a masked interrupt is not serviced
                &&& ((irq && !firq && old(self).reg.cc & 0x10 != 0) ==> (*final(self) == mid
                    && r is Ok))
                &&& ((firq && !irq && old(self).reg.cc & 0x40 != 0) ==> (*final(self) == mid
                    && r is Ok))
                // an unmasked IRQ enters the interrupt over the ticked state
                &&& ((irq && !firq && old(self).reg.cc & 0x10 == 0) ==> int_entry_rel(
                    mid,
                    *final(self),
                    InterruptType::Irq,
                    r is Ok,
                ))
                // an unmasked cartridge FIRQ enters the interrupt, and a
                // serviced one clears the pending flag
                &&& ((firq && !irq && old(self).reg.cc & 0x40 == 0) ==> {
                    &&& int_entry_rel(
                        mid,
                        Core { cart_pending: true, ..*final(self) },
                        InterruptType::Firq,
                        r is Ok,
                    )
                    &&& (r is Ok ==> !final(self).cart_pending)
                })
            }),
    {
        if !self.in_cwai && !self.in_sync {
            let o = self.exec_next(true)?;
            if let Some(meta) = o.meta {
                match meta {
                    Meta::Exit => {
                        return Err(
                            Error::new(
                                ErrorKind::Exit,
                                None,
                                "program terminated by EXIT instruction",
                            ),
                        );
                    },
                    Meta::Cwai => {
                        self.stack_for_interrupt(true)?;
                        self.in_cwai = true;
                    },
                    Meta::Sync => {
                        self.in_sync = true;
                    },
                    Meta::Swi => {
                        self.start_interrupt(InterruptType::Swi)?;
                    },
                    Meta::Swi2 => {
                        self.start_interrupt(InterruptType::Swi2)?;
                    },
                    Meta::Swi3 => {
                        self.start_interrupt(InterruptType::Swi3)?;
                    },
                }
            }
        }
        if hsync {
            let mut irq: bool;
            let mut firq = false;
            if self.cart_pending {
                firq = self.pia1.cart_firq();
            }
            irq = self.pia0.hsync_irq();
            if vsync {
                let v = self.pia0.vsync_irq();
                irq = irq || v;
            }
            if irq {
                // sync completes whether or not the interrupt is serviced
                self.in_sync = false;
                if !self.reg.cc_is_set(CCBit::I) {
                    self.start_interrupt(InterruptType::Irq)?;
                }
            }
            if firq {
                self.in_sync = false;
                if !self.reg.cc_is_set(CCBit::F) {
                    self.start_interrupt(InterruptType::Firq)?;
                    self.cart_pending = false;
                }
            }
        }
        Ok(())
    }

    /// Runs the processor from the current program counter until an EXIT
    /// instruction (a clean termination, `Ok`) or a fault (the error, with
    /// nothing committed for the faulting instruction). Sync-signal timing
    /// is the caller's concern: this loop drives none.
    ///
    /// The contract pins the first step: a fault there is returned with the
    /// machine unchanged, and a first instruction carrying the EXIT marker
    /// terminates cleanly with exactly that step committed. Later steps are
    /// each governed by `exec_one`'s contract as the loop reapplies it.
    pub fn exec(&mut self) -> (r: Result<(), Error>)
        requires
            old(self).wf(),
        ensures
            final(self).wf(),
            r matches Err(e) ==> e.kind != ErrorKind::Exit,
            (!old(self).in_cwai && !old(self).in_sync && step_pure(*old(self))) ==> match
                step_spec(*old(self)) {
                StepSpec::Fault(k) => {
                    &&& r matches Err(e) && e.kind == k
                    &&& *final(self) == *old(self)
                },
                StepSpec::Step(inst, ev) => (ev.meta == Some(Meta::Exit) ==> {
                    &&& r is Ok
                    &&& writes_applied(
                        Core { reg: ev.regs, ..*old(self) },
                        Core {
                            instruction_count: old(self).instruction_count,
                            clock_cycles: old(self).clock_cycles,
                            ..*final(self)
                        },
                        ev.writes,
                    )
                    &&& final(self).instruction_count
                        == vstd::wrapping::u64_specs::wrapping_add(
                        old(self).instruction_count,
                        1,
                    )
                    &&& final(self).clock_cycles == vstd::wrapping::u64_specs::wrapping_add(
                        old(self).clock_cycles,
                        inst.flavor.clk as u64,
                    )
                }),
            },
    {
        match self.exec_one(false, false) {
            Ok(u) => {},
            Err(e) => {
                if matches!(e.kind, ErrorKind::Exit) {
                    return Ok(());
                }
                return Err(e);
            },
        }
        let mut budget: u64 = 0xffff_ffff_ffff_ffff;
        while budget > 0
            invariant
                self.wf(),
                !old(self).in_cwai && !old(self).in_sync && step_pure(*old(self))
                    ==> !(step_spec(*old(self)) is Fault),
                (!old(self).in_cwai && !old(self).in_sync && step_pure(*old(self)))
                    ==> (step_spec(*old(self)) matches StepSpec::Step(inst, ev) ==> ev.meta
                    != Some(Meta::Exit)),
            decreases budget,
        {
            match self.exec_one(false, false) {
                Ok(u) => {},
                Err(e) => {
                    if matches!(e.kind, ErrorKind::Exit) {
                        return Ok(());
                    }
                    return Err(e);
                },
            }
            budget = budget - 1;
        }
        Err(Error::new(ErrorKind::Runtime, Some(self.reg), "instruction budget exhausted"))
    }
}

/// An instruction fetch at a program counter whose second opcode byte would
/// overflow the top of the address space is a `Runtime` fault.
pub proof fn lemma_fetch_overflow_faults(core: Core)
    requires
        core.reg.pc == 0xffff,
        is_prefix_byte(core.bus_read_val(0xffff)),
    ensures
        step_spec(core) == StepSpec::Fault(ErrorKind::Runtime),
{
}

/// An indexed post-byte asking for post-increment by one with the indirect
/// bit set is illegal: addressing resolution reports a syntax fault.
pub proof fn lemma_indirect_post_increment_is_syntax(
    core: Core,
    size: u16,
    regs: RegisterSet,
)
    ensures
        indexed_spec(core, 0b10010000, size, regs) == AddrSpec::Bad,
{
    reveal(indexed_spec);
    assert(0b10010000u8 & 0b10010000 == 0b10010000) by (bit_vector);
    assert(0b10010000u8 & 0x80 != 0) by (bit_vector);
    assert(0b10010000u8 & 0x8f == 0x80) by (bit_vector);
}

/// Loading A with immediate-mode LDA leaves in A exactly its operand byte,
/// and an STA of that same address queues that byte straight back, so
/// flushing the store leaves every byte of memory as it was: the
/// load-then-store round trip is the identity on memory, whatever access
/// class commits the write.
pub proof fn lemma_lda_sta_identity(
    core: Core,
    regs: RegisterSet,
    sta: Core,
    sta_regs: RegisterSet,
    post: Core,
    ea: u16,
    at: AccessType,
)
    requires
        core.wf(),
        sta.wf(),
        // A still holds what the load produced
        sta_regs.a == eval_spec(core, Op::Lda, ea, regs).regs.a,
        // the byte at the address is unchanged between the two instructions
        sta.bus_read_val(ea) == core.bus_read_val(ea),
        ram_region(ea),
        // the store's one deferred write is flushed through the bus
        Core::bus_write_rel(sta, post, at, ea, eval_spec(sta, Op::Sta, ea, sta_regs).writes[0].data),
    ensures
        eval_spec(sta, Op::Sta, ea, sta_regs).writes == seq![
            DeferredWrite { at: AccessType::Generic, addr: ea, data: sta_regs.a },
        ],
        post.ram@ == sta.ram@,
{
    reveal(eval_spec);
    assert(post.ram@ =~= sta.ram@);
}

/// Pushing any single register with PSHS and pulling it back with PULS is
/// the identity on the register file: with the stacked bytes still in
/// memory and the pull starting from the pushed stack pointer, the pulled
/// register holds its pushed value and S returns to where it began.
pub proof fn lemma_push_pull_identity(core: Core, mask: u8, regs: RegisterSet, regs2: RegisterSet)
    requires
        mask == 0x01 || mask == 0x02 || mask == 0x04 || mask == 0x08 || mask == 0x10 || mask
            == 0x20 || mask == 0x40 || mask == 0x80,
        regs2.s == pshs_spec(mask, regs).regs.s,
        forall|k: int|
            0 <= k < pshs_spec(mask, regs).writes.len() ==> core.bus_read_val(
                #[trigger] pshs_spec(mask, regs).writes[k].addr,
            ) == pshs_spec(mask, regs).writes[k].data,
    ensures
        ({
            let pulled = puls_spec(core, mask, regs2).regs;
            &&& pulled.s == regs.s
            &&& (mask == 0x01 ==> pulled.cc == regs.cc)
            &&& (mask == 0x02 ==> pulled.a == regs.a)
            &&& (mask == 0x04 ==> pulled.b == regs.b)
            &&& (mask == 0x08 ==> pulled.dp == regs.dp)
            &&& (mask == 0x10 ==> pulled.x == regs.x)
            &&& (mask == 0x20 ==> pulled.y == regs.y)
            &&& (mask == 0x40 ==> pulled.u == regs.u)
            &&& (mask == 0x80 ==> pulled.pc == regs.pc)
        }),
{
    reveal(pshs_spec);
    reveal(puls_spec);
    let m = mask;
    assert(m == 0x01 ==> (m & 0x01 == 0x01) && m & 0x02 != 0x02 && m & 0x04 != 0x04 && m & 0x08
        != 0x08 && m & 0x10 != 0x10 && m & 0x20 != 0x20 && m & 0x40 != 0x40 && m & 0x80 != 0x80)
        by (bit_vector);
    assert(m == 0x02 ==> (m & 0x02 == 0x02) && m & 0x01 != 0x01 && m & 0x04 != 0x04 && m & 0x08
        != 0x08 && m & 0x10 != 0x10 && m & 0x20 != 0x20 && m & 0x40 != 0x40 && m & 0x80 != 0x80)
        by (bit_vector);
    assert(m == 0x04 ==> (m & 0x04 == 0x04) && m & 0x01 != 0x01 && m & 0x02 != 0x02 && m & 0x08
        != 0x08 && m & 0x10 != 0x10 && m & 0x20 != 0x20 && m & 0x40 != 0x40 && m & 0x80 != 0x80)
        by (bit_vector);
    assert(m == 0x08 ==> (m & 0x08 == 0x08) && m & 0x01 != 0x01 && m & 0x02 != 0x02 && m & 0x04
        != 0x04 && m & 0x10 != 0x10 && m & 0x20 != 0x20 && m & 0x40 != 0x40 && m & 0x80 != 0x80)
        by (bit_vector);
    assert(m == 0x10 ==> (m & 0x10 == 0x10) && m & 0x01 != 0x01 && m & 0x02 != 0x02 && m & 0x04
        != 0x04 && m & 0x08 != 0x08 && m & 0x20 != 0x20 && m & 0x40 != 0x40 && m & 0x80 != 0x80)
        by (bit_vector);
    assert(m == 0x20 ==> (m & 0x20 == 0x20) && m & 0x01 != 0x01 && m & 0x02 != 0x02 && m & 0x04
        != 0x04 && m & 0x08 != 0x08 && m & 0x10 != 0x10 && m & 0x40 != 0x40 && m & 0x80 != 0x80)
        by (bit_vector);
    assert(m == 0x40 ==> (m & 0x40 == 0x40) && m & 0x01 != 0x01 && m & 0x02 != 0x02 && m & 0x04
        != 0x04 && m & 0x08 != 0x08 && m & 0x10 != 0x10 && m & 0x20 != 0x20 && m & 0x80 != 0x80)
        by (bit_vector);
    assert(m == 0x80 ==> (m & 0x80 == 0x80) && m & 0x01 != 0x01 && m & 0x02 != 0x02 && m & 0x04
        != 0x04 && m & 0x08 != 0x08 && m & 0x10 != 0x10 && m & 0x20 != 0x20 && m & 0x40 != 0x40)
        by (bit_vector);
    let ev = pshs_spec(mask, regs);
    let s0 = regs.s;
    if mask == 0x01 || mask == 0x02 || mask == 0x04 || mask == 0x08 {
        // one 8-bit register: one pushed byte, pulled straight back
        let s2 = regs.s.wrapping_sub(1);
        assert(ev.writes.len() == 1);
        assert(core.bus_read_val(ev.writes[0].addr) == ev.writes[0].data);
        assert(s0.wrapping_sub(1).wrapping_add(1) == s0) by (bit_vector);
    } else {
        // one 16-bit register: two pushed bytes, reassembled by the pull
        let s2 = regs.s.wrapping_sub(2);
        let v = if mask == 0x10 {
            regs.x
        } else if mask == 0x20 {
            regs.y
        } else if mask == 0x40 {
            regs.u
        } else {
            regs.pc
        };
        assert(ev.writes.len() == 2);
        assert(core.bus_read_val(ev.writes[0].addr) == ev.writes[0].data);
        assert(core.bus_read_val(ev.writes[1].addr) == ev.writes[1].data);
        let vv = v;
        assert(((((vv >> 8) as u8) as u16) << 8 | ((vv as u8) as u16)) == vv) by (bit_vector);
        assert(s0.wrapping_sub(2).wrapping_add(2) == s0) by (bit_vector);
    }
}

} // verus!
