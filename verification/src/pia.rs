//! The 6821 Peripheral Interface Adapters. A PIA chip has two identical
//! "sides"; each side holds a control register (CR), an input register (IR),
//! an output register (OR), a data-direction register (DDR) and two control
//! lines C1 and C2. PIA0 serves the keyboard and joystick, PIA1 the DAC,
//! single-bit sound and the VDG mode bits.

use vstd::prelude::*;

verus! {

/// Register-level access shared by both PIA chips: even indices address data,
/// odd indices control, and the index wraps every four registers.
pub trait Pia {
    fn read(&mut self, reg_num: usize) -> u8;

    fn write(&mut self, reg_num: usize, data: u8);
}

/// One side of a PIA chip.
#[derive(Clone, Copy, PartialEq, Eq, Structural, Debug)]
pub struct PiaSide {
    /// Control register; bits 6-7 are interrupt flags set by control-line edges.
    pub cr: u8,
    /// Input (peripheral) register.
    pub ir: u8,
    /// Output register.
    pub or: u8,
    /// Data-direction register: a set bit marks the line as an output.
    pub ddr: u8,
    pub c1: bool,
    pub c2: bool,
}

impl PiaSide {
    /// C2 is an output under manual control when CR bits 4 and 5 are both set.
    pub open spec fn manual_c2_trigger_spec(self) -> bool {
        self.cr & 0x30 == 0x30
    }

    /// CR bit 2 selects the peripheral register (else the DDR) on data access.
    pub open spec fn pr_selected_spec(self) -> bool {
        self.cr & 4 == 4
    }

    /// The side after a control-register write: bits 6-7 are preserved, bits
    /// 0-5 overwritten; if C2 is then under manual control it is driven from
    /// CR bit 3 (a manual C2 edge never sets the C2 flag).
    pub open spec fn write_control_spec(self, b: u8) -> PiaSide {
        let cr2 = (b & 0x3f) | (self.cr & 0xc0);
        if cr2 & 0x30 == 0x30 {
            PiaSide { cr: cr2, c2: cr2 & 8 == 8, ..self }
        } else {
            PiaSide { cr: cr2, ..self }
        }
    }

    /// The value a control-register read returns, and the side after it:
    /// the flag bits 6-7 are cleared by the read.
    pub open spec fn read_control_result_spec(self) -> u8 {
        self.cr
    }

    pub open spec fn read_control_state_spec(self) -> PiaSide {
        PiaSide { cr: self.cr & 0x3f, ..self }
    }

    /// The side after a data-register write: CR bit 2 routes the byte to the
    /// output register (masked by the DDR) or to the DDR itself.
    pub open spec fn write_data_spec(self, b: u8) -> PiaSide {
        if self.pr_selected_spec() {
            PiaSide { or: b & self.ddr, ..self }
        } else {
            PiaSide { ddr: b, ..self }
        }
    }

    /// A data-register read: output bits come from OR, input bits from IR;
    /// with CR bit 2 clear the DDR itself is returned. Reading mutates nothing.
    pub open spec fn read_data_spec(self) -> u8 {
        if self.pr_selected_spec() {
            self.or & self.ddr | self.ir & !self.ddr
        } else {
            self.ddr
        }
    }

    /// What the peripheral sees on the lines: output bits from OR, input
    /// lines read high.
    pub open spec fn read_output_spec(self) -> u8 {
        (self.or & self.ddr) | !self.ddr
    }

    /// The side after driving C1: only a low-to-high transition is observed,
    /// and it sets CR bit 7.
    pub open spec fn set_c1_spec(self, v: bool) -> PiaSide {
        if v && !self.c1 {
            PiaSide { cr: self.cr | 0x80, c1: v, ..self }
        } else {
            PiaSide { c1: v, ..self }
        }
    }

    /// The side after driving C2: a low-to-high transition sets CR bit 6
    /// unless C2 is under manual output control.
    pub open spec fn set_c2_spec(self, v: bool) -> PiaSide {
        if v && !self.c2 && !self.manual_c2_trigger_spec() {
            PiaSide { cr: self.cr | 0x40, c2: v, ..self }
        } else {
            PiaSide { c2: v, ..self }
        }
    }

    /// Whether a latched control-line edge is enabled to raise an interrupt:
    /// C1 with CR bit 0 set, or C2 with CR bits 3-5 equal to 0b001 (C2 an
    /// input with its interrupt enabled).
    pub open spec fn consume_interrupt_result_spec(self) -> bool {
        (self.c1 && self.cr & 1 == 1) || (self.c2 && self.cr & 0x38 == 0x8)
    }

    /// The side after consuming the interrupt: each contributing edge latch
    /// is cleared.
    pub open spec fn consume_interrupt_state_spec(self) -> PiaSide {
        let s1 = if self.c1 && self.cr & 1 == 1 {
            PiaSide { c1: false, ..self }
        } else {
            self
        };
        if s1.c2 && s1.cr & 0x38 == 0x8 {
            PiaSide { c2: false, ..s1 }
        } else {
            s1
        }
    }

    /// A register write: odd indices address control, even indices data.
    pub open spec fn write_spec(self, index: usize, b: u8) -> PiaSide {
        if index % 2 == 1 {
            self.write_control_spec(b)
        } else {
            self.write_data_spec(b)
        }
    }

    /// A register read: the returned byte and the side after it.
    pub open spec fn read_result_spec(self, index: usize) -> u8 {
        if index % 2 == 1 {
            self.read_control_result_spec()
        } else {
            self.read_data_spec()
        }
    }

    pub open spec fn read_state_spec(self, index: usize) -> PiaSide {
        if index % 2 == 1 {
            self.read_control_state_spec()
        } else {
            self
        }
    }

    /// The reset state of a side: every register zero, both lines low.
    pub open spec fn cleared_spec() -> PiaSide {
        PiaSide { cr: 0, ir: 0, or: 0, ddr: 0, c1: false, c2: false }
    }

    pub fn new() -> (s: PiaSide)
        ensures
            s == PiaSide::cleared_spec(),
    {
        PiaSide { cr: 0, ir: 0, or: 0, ddr: 0, c1: false, c2: false }
    }

    pub fn manual_c2_trigger(&self) -> (r: bool)
        ensures
            r == self.manual_c2_trigger_spec(),
    {
        self.cr & 0x30 == 0x30
    }

    pub fn pr_selected(&self) -> (r: bool)
        ensures
            r == self.pr_selected_spec(),
    {
        self.cr & 4 == 4
    }

    pub fn write_control(&mut self, b: u8)
        ensures
            *final(self) == old(self).write_control_spec(b),
    {
        self.cr = (b & 0x3f) | (self.cr & 0xc0);
        if self.manual_c2_trigger() {
            self.c2 = self.cr & 8 == 8;
        }
    }

    pub fn read_control(&mut self) -> (b: u8)
        ensures
            b == old(self).read_control_result_spec(),
            *final(self) == old(self).read_control_state_spec(),
    {
        let b = self.cr;
        self.cr = self.cr & 0x3f;
        b
    }

    pub fn write_data(&mut self, b: u8)
        ensures
            *final(self) == old(self).write_data_spec(b),
    {
        if self.pr_selected() {
            self.or = b & self.ddr;
        } else {
            self.ddr = b;
        }
    }

    pub fn read_data(&self) -> (b: u8)
        ensures
            b == self.read_data_spec(),
    {
        if self.pr_selected() {
            self.or & self.ddr | self.ir & !self.ddr
        } else {
            self.ddr
        }
    }

    pub fn read_output(&self) -> (b: u8)
        ensures
            b == self.read_output_spec(),
    {
        (self.or & self.ddr) | !self.ddr
    }

    pub fn set_c1(&mut self, c1: bool)
        ensures
            *final(self) == old(self).set_c1_spec(c1),
    {
        if c1 && !self.c1 {
            self.cr = self.cr | 0x80;
        }
        self.c1 = c1;
    }

    pub fn set_c2(&mut self, c2: bool)
        ensures
            *final(self) == old(self).set_c2_spec(c2),
    {
        if c2 && !self.c2 && !self.manual_c2_trigger() {
            self.cr = self.cr | 0x40;
        }
        self.c2 = c2;
    }

    /// Reports whether an enabled interrupt edge is latched and clears the
    /// contributing latches.
    pub fn consume_interrupt(&mut self) -> (r: bool)
        ensures
            r == old(self).consume_interrupt_result_spec(),
            *final(self) == old(self).consume_interrupt_state_spec(),
    {
        let mut interrupt = false;
        if self.c1 && (self.cr & 1 == 1) {
            interrupt = true;
            self.c1 = false;
        }
        if self.c2 && (self.cr & 0x38 == 0x8) {
            interrupt = true;
            self.c2 = false;
        }
        interrupt
    }

    pub fn write(&mut self, index: usize, b: u8)
        ensures
            *final(self) == old(self).write_spec(index, b),
    {
        if index % 2 == 1 {
            self.write_control(b)
        } else {
            self.write_data(b)
        }
    }

    pub fn read(&mut self, index: usize) -> (b: u8)
        ensures
            b == old(self).read_result_spec(index),
            *final(self) == old(self).read_state_spec(index),
    {
        if index % 2 == 1 {
            self.read_control()
        } else {
            self.read_data()
        }
    }
}

/// Writing any byte to the control register preserves the flag bits 6-7;
/// reading the control register returns the stored byte as it was, and a
/// second read returns that byte with bits 6-7 cleared.
pub proof fn lemma_control_write_read(s: PiaSide, b: u8)
    ensures
        s.write_control_spec(b).cr & 0xc0 == s.cr & 0xc0,
        s.read_control_result_spec() == s.cr,
        s.read_control_state_spec().read_control_result_spec() == s.cr & 0x3f,
        s.read_control_state_spec().read_control_result_spec() & 0xc0 == 0,
{
    let cr = s.cr;
    assert(((b & 0x3f) | (cr & 0xc0)) & 0xc0 == cr & 0xc0) by (bit_vector);
    assert((cr & 0x3f) & 0xc0 == 0) by (bit_vector);
}

/// After a low-to-high transition on C1, bit 7 of CR reads as 1; after the
/// control register has been read, bit 7 of CR is 0.
pub proof fn lemma_c1_edge_sets_flag(s: PiaSide)
    requires
        !s.c1,
    ensures
        s.set_c1_spec(true).cr & 0x80 != 0,
        s.set_c1_spec(true).read_control_state_spec().cr & 0x80 == 0,
{
    let cr = s.cr;
    assert((cr | 0x80) & 0x80 != 0) by (bit_vector);
    assert(((cr | 0x80) & 0x3f) & 0x80 == 0) by (bit_vector);
}

/// The OR of the selected keyboard columns: for each set bit `i` of `cols`,
/// column byte `i` contributes.
pub open spec fn strobe_partial(cols: u8, colv: Seq<u8>, n: int) -> u8
    recommends
        colv.len() == 8,
        0 <= n <= 8,
    decreases n,
{
    if n <= 0 {
        0
    } else {
        strobe_partial(cols, colv, n - 1) | (
        if cols & (1u8 << ((n - 1) as u8)) != 0 && n - 1 < colv.len() {
            colv[n - 1]
        } else {
            0
        })
    }
}

/// The keyboard-matrix column bytes after asserting a list of (row, column)
/// key coordinates on an all-clear matrix.
pub open spec fn keys_matrix_spec(coords: Seq<(u8, u8)>, n: int) -> Seq<u8>
    recommends
        0 <= n <= coords.len(),
    decreases n,
{
    if n <= 0 {
        Seq::new(8, |i: int| 0u8)
    } else {
        let prev = keys_matrix_spec(coords, n - 1);
        let r = coords[n - 1].0;
        let c = coords[n - 1].1;
        prev.update(c as int, prev[c as int] | (1u8 << r))
    }
}

/// PIA0: the keyboard and joystick interface. Side A's input register is
/// driven by keyboard strobing and the joystick comparator; side B's output
/// register selects keyboard columns.
///
/// The joystick comparator needs PIA1's current DAC output; the bus caches
/// that byte here (see `set_dac`) just before a side-A data read.
#[derive(Debug)]
pub struct Pia0 {
    pub side_a: PiaSide,
    pub side_b: PiaSide,
    /// One byte per keyboard column; bit r asserts the key at (row r, that column).
    pub col: Vec<u8>,
    /// 6-bit joystick axis values.
    pub joy_x: u8,
    pub joy_y: u8,
    /// Joystick fire buttons.
    pub joy_sw_1: bool,
    pub joy_sw_2: bool,
    /// Cached 6-bit DAC value from PIA1, for the comparator on side-A reads.
    pub dac: u8,
}

impl Pia0 {
    /// The combined byte that strobing the keyboard produces, before inversion:
    /// the OR of the column bytes whose (active-low) selector is driven low,
    /// plus the fire-button bits on unstrobed lines.
    pub open spec fn strobe_com_spec(self) -> u8 {
        let cols = !self.side_b.read_output_spec();
        let com0 = strobe_partial(cols, self.col@, 8);
        let com1 = if self.joy_sw_1 {
            com0 | (0x3 & !cols)
        } else {
            com0
        };
        if self.joy_sw_2 {
            com1 | (0xc & !cols)
        } else {
            com1
        }
    }

    /// The state after a keyboard strobe: side A's input register holds the
    /// inverted combined byte.
    pub open spec fn strobe_state_spec(self) -> Pia0 {
        Pia0 { side_a: PiaSide { ir: !self.strobe_com_spec(), ..self.side_a }, ..self }
    }

    /// The state after refreshing the joystick-comparator flag (side-A IR
    /// bit 7): set iff the cached DAC value is at most the selected axis.
    pub open spec fn comparator_spec(self) -> Pia0 {
        let joy_val = if self.side_a.c2 {
            self.joy_y
        } else {
            self.joy_x
        };
        if self.dac > joy_val {
            Pia0 { side_a: PiaSide { ir: self.side_a.ir & 0x7f, ..self.side_a }, ..self }
        } else {
            Pia0 { side_a: PiaSide { ir: self.side_a.ir | 0x80, ..self.side_a }, ..self }
        }
    }

    /// The state after a register write (the strobe on a side-B data write
    /// included). Propagating the DAC-mux bits to PIA1 on control writes is
    /// the bus's task.
    pub open spec fn write_state_spec(self, reg_num: usize, data: u8) -> Pia0 {
        let i = reg_num % 4;
        let s = if i < 2 {
            Pia0 { side_a: self.side_a.write_spec(i, data), ..self }
        } else {
            Pia0 { side_b: self.side_b.write_spec(i, data), ..self }
        };
        if i == 2 {
            s.strobe_state_spec()
        } else {
            s
        }
    }

    /// The byte a register read returns, and the state after it.
    pub open spec fn read_result_spec(self, reg_num: usize) -> u8 {
        let i = reg_num % 4;
        let s = if i == 0 {
            self.comparator_spec()
        } else {
            self
        };
        if i < 2 {
            s.side_a.read_result_spec(i)
        } else {
            s.side_b.read_result_spec(i)
        }
    }

    pub open spec fn read_state_spec(self, reg_num: usize) -> Pia0 {
        let i = reg_num % 4;
        let s = if i == 0 {
            self.comparator_spec()
        } else {
            self
        };
        if i < 2 {
            Pia0 { side_a: s.side_a.read_state_spec(i), ..s }
        } else {
            Pia0 { side_b: s.side_b.read_state_spec(i), ..s }
        }
    }

    pub fn new() -> (p: Pia0)
        ensures
            p.col@.len() == 8,
            p.side_a == PiaSide::cleared_spec(),
            p.side_b == PiaSide::cleared_spec(),
            p.col@ == Seq::new(8, |i: int| 0xffu8),
            p.joy_x == 0x1f && p.joy_y == 0x1f,
            !p.joy_sw_1 && !p.joy_sw_2,
            p.dac == 0,
    {
        let p = Pia0 {
            side_a: PiaSide::new(),
            side_b: PiaSide::new(),
            col: vec![0xff, 0xff, 0xff, 0xff, 0xff, 0xff, 0xff, 0xff],
            joy_x: 0x1f,
            joy_y: 0x1f,
            joy_sw_1: false,
            joy_sw_2: false,
            dac: 0,
        };
        proof {
            assert(p.col@ =~= Seq::new(8, |i: int| 0xffu8));
        }
        p
    }

    /// Caches the 6-bit DAC byte read from PIA1 for the comparator.
    pub fn set_dac(&mut self, dac: u8)
        ensures
            *final(self) == (Pia0 { dac, ..*old(self) }),
    {
        self.dac = dac;
    }

    /// Records the host joystick state: two 6-bit axes and the fire buttons.
    pub fn set_joystick(&mut self, x: u8, y: u8, sw1: bool, sw2: bool)
        ensures
            *final(self) == (Pia0 {
                joy_x: x,
                joy_y: y,
                joy_sw_1: sw1,
                joy_sw_2: sw2,
                ..*old(self)
            }),
    {
        self.joy_x = x;
        self.joy_y = y;
        self.joy_sw_1 = sw1;
        self.joy_sw_2 = sw2;
    }

    /// Rebuilds the keyboard matrix from a list of asserted (row, column)
    /// coordinates, then strobes it into side A's input register.
    pub fn set_keys_from_coords(&mut self, coords: &Vec<(u8, u8)>)
        requires
            forall|i: int|
                0 <= i < coords@.len() ==> (#[trigger] coords@[i]).0 < 8 && coords@[i].1 < 8,
        ensures
            *final(self) == (Pia0 {
                col: final(self).col,
                ..*old(self)
            }).strobe_state_spec(),
            final(self).col@ == keys_matrix_spec(coords@, coords@.len() as int),
    {
        self.col = vec![0, 0, 0, 0, 0, 0, 0, 0];
        proof {
            assert(self.col@ =~= keys_matrix_spec(coords@, 0));
        }
        let n = coords.len();
        let mut k: usize = 0;
        while k < n
            invariant
                self.col@.len() == 8,
                n == coords@.len(),
                k <= n,
                forall|i: int|
                    0 <= i < coords@.len() ==> (#[trigger] coords@[i]).0 < 8 && coords@[i].1 < 8,
                self.col@ == keys_matrix_spec(coords@, k as int),
                self.side_a == old(self).side_a,
                self.side_b == old(self).side_b,
                self.joy_x == old(self).joy_x,
                self.joy_y == old(self).joy_y,
                self.joy_sw_1 == old(self).joy_sw_1,
                self.joy_sw_2 == old(self).joy_sw_2,
                self.dac == old(self).dac,
            decreases n - k,
        {
            let (r, c) = coords[k];
            let updated = self.col[c as usize] | (1u8 << r);
            self.col.set(c as usize, updated);
            k = k + 1;
        }
        self.strobe_keyboard();
    }

    /// Strobes the keyboard: side B's output register drives the column
    /// selectors active-low; the selected column bytes are ORed together, the
    /// fire buttons contribute on unstrobed lines, and side A's input
    /// register receives the inverse.
    pub fn strobe_keyboard(&mut self)
        ensures
            *final(self) == old(self).strobe_state_spec(),
    {
        let cols0 = !self.side_b.read_output();
        let mut com: u8 = 0;
        let mut i: usize = 0;
        while i < 8
            invariant
                self == old(self),
                0 <= i <= 8,
                cols0 == !self.side_b.read_output_spec(),
                com == strobe_partial(cols0, self.col@, i as int),
            decreases 8 - i,
        {
            if cols0 & (1u8 << (i as u8)) != 0 && i < self.col.len() {
                com = com | self.col[i];
            } else {
                proof {
                    assert(forall|a: u8| #[trigger] (a | 0u8) == a) by (bit_vector);
                }
            }
            i = i + 1;
        }
        if self.joy_sw_1 {
            com = com | (0x3 & !cols0);
        }
        if self.joy_sw_2 {
            com = com | (0xc & !cols0);
        }
        self.side_a.ir = !com;
    }

    /// Raises the horizontal-sync edge on side A's C1 line and reports
    /// whether an IRQ results, consuming the latch.
    pub fn hsync_irq(&mut self) -> (irq: bool)
        ensures
            irq == old(self).side_a.set_c1_spec(true).consume_interrupt_result_spec(),
            *final(self) == (Pia0 {
                side_a: old(self).side_a.set_c1_spec(true).consume_interrupt_state_spec(),
                ..*old(self)
            }),
    {
        self.side_a.set_c1(true);
        self.side_a.consume_interrupt()
    }

    /// Raises the vertical-sync edge on side B's C1 line and reports whether
    /// an IRQ results, consuming the latch.
    pub fn vsync_irq(&mut self) -> (irq: bool)
        ensures
            irq == old(self).side_b.set_c1_spec(true).consume_interrupt_result_spec(),
            *final(self) == (Pia0 {
                side_b: old(self).side_b.set_c1_spec(true).consume_interrupt_state_spec(),
                ..*old(self)
            }),
    {
        self.side_b.set_c1(true);
        self.side_b.consume_interrupt()
    }
}

impl Pia for Pia0 {
    /// A register read; index 0 first refreshes the joystick-comparator flag
    /// from the cached DAC byte.
    fn read(&mut self, reg_num: usize) -> (b: u8)
        ensures
            b == old(self).read_result_spec(reg_num),
            *final(self) == old(self).read_state_spec(reg_num),
    {
        let i = reg_num % 4;
        if i == 0 {
            let joy_val = if self.side_a.c2 {
                self.joy_y
            } else {
                self.joy_x
            };
            if self.dac > joy_val {
                self.side_a.ir = self.side_a.ir & 0x7f;
            } else {
                self.side_a.ir = self.side_a.ir | 0x80;
            }
        }
        if i < 2 {
            self.side_a.read(i)
        } else {
            self.side_b.read(i)
        }
    }

    /// A register write; a side-B data write (index 2) strobes the keyboard.
    fn write(&mut self, reg_num: usize, data: u8)
        ensures
            *final(self) == old(self).write_state_spec(reg_num, data),
    {
        let i = reg_num % 4;
        if i < 2 {
            self.side_a.write(i, data);
        } else {
            self.side_b.write(i, data);
        }
        if i == 2 {
            self.strobe_keyboard();
        }
    }
}

/// A sound event emitted by PIA1 toward the audio pipeline: either a 6-bit
/// DAC level (zero maps to full negative amplitude, 63 to full positive), or
/// a single-bit sound edge (half amplitude, positive when true).
#[derive(Clone, Copy, PartialEq, Eq, Structural, Debug)]
pub enum AudioEvent {
    Dac(u8),
    Bit(bool),
}

/// PIA1: the DAC output toward the audio pipeline, single-bit sound, the
/// cartridge FIRQ line and the VDG mode bits. Emitted audio events queue up
/// in `audio` until the audio front end drains them.
#[derive(Debug)]
pub struct Pia1 {
    pub side_a: PiaSide,
    pub side_b: PiaSide,
    pub sound_enabled: bool,
    /// The DAC-mux selector bits, driven by PIA0's control-line outputs.
    pub dac_sel_a: bool,
    pub dac_sel_b: bool,
    pub last_bit_sound: bool,
    /// Pending audio events, oldest first.
    pub audio: Vec<AudioEvent>,
}

impl Pia1 {
    /// The 6-bit DAC level a side-A data write leaves on the output lines.
    pub open spec fn dac_level_spec(self) -> u8 {
        self.side_a.read_output_spec() >> 2
    }

    /// Whether the single-bit sound line is high.
    pub open spec fn bit_sound_spec(self) -> bool {
        self.side_b.read_output_spec() & 2 == 2
    }

    /// The VDG mode bits: 0, 0, 0, G/!A, GM2, GM1, GM0, CSS.
    pub open spec fn vdg_bits_spec(self) -> u8 {
        (self.side_b.read_data_spec() >> 3) & 0x1f
    }

    /// The byte a register read returns, and the state after it.
    pub open spec fn read_result_spec(self, reg_num: usize) -> u8 {
        if reg_num % 4 < 2 {
            self.side_a.read_result_spec(reg_num % 4)
        } else {
            self.side_b.read_result_spec(reg_num % 4)
        }
    }

    pub open spec fn read_state_spec(self, reg_num: usize) -> Pia1 {
        if reg_num % 4 < 2 {
            Pia1 { side_a: self.side_a.read_state_spec(reg_num % 4), ..self }
        } else {
            Pia1 { side_b: self.side_b.read_state_spec(reg_num % 4), ..self }
        }
    }

    /// Side A after a register write.
    pub open spec fn write_side_a_after(self, reg_num: usize, data: u8) -> PiaSide {
        if reg_num % 4 < 2 {
            self.side_a.write_spec(reg_num % 4, data)
        } else {
            self.side_a
        }
    }

    /// Side B after a register write.
    pub open spec fn write_side_b_after(self, reg_num: usize, data: u8) -> PiaSide {
        if reg_num % 4 >= 2 {
            self.side_b.write_spec(reg_num % 4, data)
        } else {
            self.side_b
        }
    }

    /// The chip with both sides updated by a register write, before the
    /// write's side effects (audio, enables) are applied.
    pub open spec fn write_mid_spec(self, reg_num: usize, data: u8) -> Pia1 {
        Pia1 {
            side_a: self.write_side_a_after(reg_num, data),
            side_b: self.write_side_b_after(reg_num, data),
            ..self
        }
    }

    /// Whether a side-A data write emits a DAC sample: sound must be enabled
    /// and the DAC mux must select the sound path (both selectors low).
    pub open spec fn write_emits_dac(self, reg_num: usize) -> bool {
        reg_num % 4 == 0 && self.sound_enabled && !self.dac_sel_a && !self.dac_sel_b
    }

    /// Whether a side-B data write emits a single-bit sound edge.
    pub open spec fn write_emits_bit(self, reg_num: usize, data: u8) -> bool {
        reg_num % 4 == 2 && self.write_mid_spec(reg_num, data).bit_sound_spec()
            != self.last_bit_sound
    }

    /// The audio event queue after a register write.
    pub open spec fn write_audio_after(self, reg_num: usize, data: u8) -> Seq<AudioEvent> {
        if self.write_emits_dac(reg_num) {
            self.audio@.push(AudioEvent::Dac(self.write_mid_spec(reg_num, data).dac_level_spec()))
        } else if self.write_emits_bit(reg_num, data) {
            self.audio@.push(AudioEvent::Bit(self.write_mid_spec(reg_num, data).bit_sound_spec()))
        } else {
            self.audio@
        }
    }

    pub open spec fn write_sound_enabled_after(self, reg_num: usize, data: u8) -> bool {
        if reg_num % 4 == 3 {
            data & 8 == 8
        } else {
            self.sound_enabled
        }
    }

    pub open spec fn write_last_bit_after(self, reg_num: usize, data: u8) -> bool {
        if reg_num % 4 == 2 {
            self.write_mid_spec(reg_num, data).bit_sound_spec()
        } else {
            self.last_bit_sound
        }
    }

    /// Relates the chip before and after a register write.
    pub open spec fn write_rel(pre: Pia1, post: Pia1, reg_num: usize, data: u8) -> bool {
        &&& post.side_a == pre.write_side_a_after(reg_num, data)
        &&& post.side_b == pre.write_side_b_after(reg_num, data)
        &&& post.dac_sel_a == pre.dac_sel_a
        &&& post.dac_sel_b == pre.dac_sel_b
        &&& post.audio@ == pre.write_audio_after(reg_num, data)
        &&& post.sound_enabled == pre.write_sound_enabled_after(reg_num, data)
        &&& post.last_bit_sound == pre.write_last_bit_after(reg_num, data)
    }

    pub fn new() -> (p: Pia1)
        ensures
            p.side_a == PiaSide::cleared_spec(),
            p.side_b == PiaSide::cleared_spec(),
            !p.sound_enabled,
            !p.dac_sel_a && !p.dac_sel_b,
            !p.last_bit_sound,
            p.audio@.len() == 0,
    {
        Pia1 {
            side_a: PiaSide::new(),
            side_b: PiaSide::new(),
            sound_enabled: false,
            dac_sel_a: false,
            dac_sel_b: false,
            last_bit_sound: false,
            audio: Vec::new(),
        }
    }

    /// Returns the VDG mode bits as a byte: 0, 0, 0, G/!A, GM2, GM1, GM0, CSS.
    pub fn get_vdg_bits(&self) -> (b: u8)
        ensures
            b == self.vdg_bits_spec(),
            b < 0x20,
    {
        proof {
            let x = self.side_b.read_data_spec();
            assert((x >> 3) & 0x1f < 0x20) by (bit_vector);
        }
        (self.side_b.read_data() >> 3) & 0x1f
    }

    /// Signals that a cartridge was inserted: raises side B's C1 line and
    /// reports whether a FIRQ results, consuming the latch.
    pub fn cart_firq(&mut self) -> (firq: bool)
        ensures
            firq == old(self).side_b.set_c1_spec(true).consume_interrupt_result_spec(),
            *final(self) == (Pia1 {
                side_b: old(self).side_b.set_c1_spec(true).consume_interrupt_state_spec(),
                ..*old(self)
            }),
    {
        self.side_b.set_c1(true);
        self.side_b.consume_interrupt()
    }

    /// Records the DAC-mux selection bits that PIA0's control lines drive.
    pub fn set_dac_mux(&mut self, a: bool, b: bool)
        ensures
            *final(self) == (Pia1 { dac_sel_a: a, dac_sel_b: b, ..*old(self) }),
    {
        self.dac_sel_a = a;
        self.dac_sel_b = b;
    }

    /// Hands the queued audio events to the caller, oldest first, and leaves
    /// the queue empty.
    pub fn take_audio(&mut self) -> (events: Vec<AudioEvent>)
        ensures
            events@ == old(self).audio@,
            *final(self) == (Pia1 { audio: final(self).audio, ..*old(self) }),
            final(self).audio@.len() == 0,
    {
        let events = self.audio.split_off(0);
        proof {
            assert(events@ =~= old(self).audio@);
            assert(self.audio@ =~= Seq::<AudioEvent>::empty());
        }
        events
    }
}

impl Pia for Pia1 {
    fn read(&mut self, reg_num: usize) -> (b: u8)
        ensures
            b == old(self).read_result_spec(reg_num),
            *final(self) == old(self).read_state_spec(reg_num),
    {
        let i = reg_num % 4;
        if i < 2 {
            self.side_a.read(i)
        } else {
            self.side_b.read(i)
        }
    }

    /// A register write. A side-A data write while sound is enabled and the
    /// DAC mux is clear queues a DAC audio event with the resulting 6-bit
    /// level; a side-B data write queues a single-bit sound event on an edge
    /// of output bit 1; a side-B control write updates the sound enable from
    /// data bit 3.
    fn write(&mut self, reg_num: usize, data: u8)
        ensures
            Pia1::write_rel(*old(self), *final(self), reg_num, data),
    {
        let i = reg_num % 4;
        if i < 2 {
            self.side_a.write(i, data);
        } else {
            self.side_b.write(i, data);
        }
        if i == 0 {
            if self.sound_enabled && !self.dac_sel_a && !self.dac_sel_b {
                let level = self.side_a.read_output() >> 2;
                self.audio.push(AudioEvent::Dac(level));
            }
        } else if i == 2 {
            let bit = self.side_b.read_output() & 2 == 2;
            if bit != self.last_bit_sound {
                self.audio.push(AudioEvent::Bit(bit));
            }
            self.last_bit_sound = bit;
        } else if i == 3 {
            self.sound_enabled = data & 8 == 8;
        }
    }
}

} // verus!
