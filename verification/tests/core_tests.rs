use coco::AccessType;
use coco::AudioEvent;
use coco::CCBit;
use coco::CodeChunk;
use coco::Color;
use coco::Core;
use coco::ErrorKind;
use coco::HexRecord;
use coco::HexRecordType;
use coco::Pia;
use coco::Pia0;
use coco::Pia1;
use coco::PiaSide;
use coco::Program;
use coco::Ram;
use coco::Sam;
use coco::HostKey;
use coco::Settings;
use coco::Vdg;
use coco::VdgMode;
use coco::set_sam_vdg_bits;

#[test]
fn reset_loads_pc_from_vector() {
    // construct a core with zeroed RAM, write 0x12 0x34 at 0xFFFE, reset
    let mut core = Core::new(0x7fff);
    core.write_u8(AccessType::System, 0xfffe, 0x12);
    core.write_u8(AccessType::System, 0xffff, 0x34);
    core.reset().unwrap();
    assert_eq!(core.reg.pc, 0x1234);
    assert_eq!(core.program_start, 0x1234);
    assert_eq!(core.reg.a, 0);
    assert_eq!(core.reg.b, 0);
    assert_eq!(core.reg.x, 0);
    assert_eq!(core.reg.y, 0);
    assert_eq!(core.reg.u, 0);
    assert_eq!(core.reg.s, 0);
    assert_eq!(core.reg.dp, 0);
    assert_eq!(core.reg.cc, 0);
}

#[test]
fn lda_immediate() {
    let mut core = Core::new(0x7fff);
    core.write_u8(AccessType::System, 0x0000, 0x86);
    core.write_u8(AccessType::System, 0x0001, 0x7f);
    core.reg.pc = 0;
    core.exec_next(true).unwrap();
    assert_eq!(core.reg.a, 0x7f);
    assert_eq!(core.reg.pc, 0x0002);
    assert!(!core.reg.cc_is_set(CCBit::N));
    assert!(!core.reg.cc_is_set(CCBit::Z));
}

#[test]
fn swi_pushes_frame_and_vectors() {
    let mut core = Core::new(0x7fff);
    core.write_u8(AccessType::System, 0x0100, 0x3f);
    core.write_u8(AccessType::System, 0xfffa, 0x02);
    core.write_u8(AccessType::System, 0xfffb, 0x00);
    core.write_u8(AccessType::System, 0x0200, 0x12);
    core.reg.pc = 0x0100;
    core.reg.s = 0x4000;
    core.reg.a = 0xaa;
    core.reg.b = 0xbb;
    core.reg.x = 0x1122;
    core.exec_one(false, false).unwrap();
    // the whole register frame was pushed below the old stack pointer
    assert_eq!(core.reg.s, 0x4000 - 12);
    let base = (0x4000 - 12) as u16;
    let cc_pushed = core.read_u8(AccessType::System, base);
    assert_eq!(cc_pushed & 0x80, 0x80); // E flag
    assert_eq!(core.read_u8(AccessType::System, base + 1), 0xaa);
    assert_eq!(core.read_u8(AccessType::System, base + 2), 0xbb);
    assert_eq!(core.read_u8(AccessType::System, base + 4), 0x11);
    assert_eq!(core.read_u8(AccessType::System, base + 5), 0x22);
    // the pushed PC is the address after the SWI opcode
    assert_eq!(core.read_u8(AccessType::System, base + 10), 0x01);
    assert_eq!(core.read_u8(AccessType::System, base + 11), 0x01);
    // CC.E, and the SWI masks (bits 4 and 6), are set
    assert!(core.reg.cc_is_set(CCBit::E));
    assert!(core.reg.cc_is_set(CCBit::I));
    assert!(core.reg.cc_is_set(CCBit::F));
    assert_eq!(core.reg.pc, 0x0200);
}

#[test]
fn indexed_post_increment() {
    let mut core = Core::new(0x7fff);
    // LDA ,X+ with X pointing at a known byte
    core.write_u8(AccessType::System, 0x0000, 0xa6);
    core.write_u8(AccessType::System, 0x0001, 0x80);
    core.write_u8(AccessType::System, 0x0100, 0x42);
    core.reg.pc = 0;
    core.reg.x = 0x0100;
    core.exec_next(true).unwrap();
    assert_eq!(core.reg.a, 0x42);
    assert_eq!(core.reg.x, 0x0101);
}

#[test]
fn hex_load_round_trip() {
    let mut core = Core::new(0x7fff);
    let hex = vec![
        HexRecord { record_type: HexRecordType::Data, address: 0x0100, data: vec![0xaa, 0xbb, 0xcc] },
        HexRecord { record_type: HexRecordType::EndOfFile, address: 0, data: vec![] },
    ];
    let extent = core.load_hex(&hex).unwrap();
    assert_eq!(extent, 3);
    assert_eq!(core.read_u8(AccessType::System, 0x0100), 0xaa);
    assert_eq!(core.read_u8(AccessType::System, 0x0101), 0xbb);
    assert_eq!(core.read_u8(AccessType::System, 0x0102), 0xcc);
}

#[test]
fn hex_load_missing_eof_is_general_error() {
    let mut core = Core::new(0x7fff);
    let hex = vec![
        HexRecord { record_type: HexRecordType::Data, address: 0x0100, data: vec![0xaa] },
    ];
    let e = core.load_hex(&hex).unwrap_err();
    assert!(matches!(e.kind, ErrorKind::General));
}

#[test]
fn hex_load_overflow_is_memory_error() {
    let mut core = Core::new(0x7fff);
    let hex = vec![
        HexRecord { record_type: HexRecordType::Data, address: 0xffff, data: vec![1, 2] },
        HexRecord { record_type: HexRecordType::EndOfFile, address: 0, data: vec![] },
    ];
    let e = core.load_hex(&hex).unwrap_err();
    assert!(matches!(e.kind, ErrorKind::Memory));
}

#[test]
fn load_program_copies_chunks() {
    let mut core = Core::new(0x7fff);
    let program = Program {
        chunks: vec![CodeChunk { addr: 0x2000, bytes: vec![0x86, 0x01, 0x3e] }],
    };
    let extent = core.load_program(&program).unwrap();
    assert_eq!(extent, 3);
    assert_eq!(core.read_u8(AccessType::System, 0x2000), 0x86);
    // the reset vector was cleared first
    assert_eq!(core.read_u8(AccessType::System, 0xfffe), 0);
}

#[test]
fn exec_runs_until_exit() {
    let mut core = Core::new(0x7fff);
    // LDA #5 then EXIT
    let program = Program {
        chunks: vec![CodeChunk { addr: 0x1000, bytes: vec![0x86, 0x05, 0x3e] }],
    };
    core.load_program(&program).unwrap();
    core.reg.pc = 0x1000;
    core.exec().unwrap();
    assert_eq!(core.reg.a, 0x05);
}

#[test]
fn fetch_overflow_is_runtime_error() {
    let mut core = Core::new(0x7fff);
    // a prefix byte at the very top of memory has no room for its pair
    core.write_u8(AccessType::System, 0xffff, 0x10);
    core.reg.pc = 0xffff;
    let e = core.exec_next(true).unwrap_err();
    assert!(matches!(e.kind, ErrorKind::Runtime));
}

#[test]
fn indirect_post_increment_is_syntax_error() {
    let mut core = Core::new(0x7fff);
    core.write_u8(AccessType::System, 0x0000, 0xa6);
    core.write_u8(AccessType::System, 0x0001, 0x90);
    core.reg.pc = 0;
    let e = core.exec_next(true).unwrap_err();
    assert!(matches!(e.kind, ErrorKind::Syntax));
}

#[test]
fn push_pull_identity_on_each_register() {
    // PSHS r; PULS r leaves the register file as it was
    let masks = [0x01u8, 0x02, 0x04, 0x08, 0x10, 0x20, 0x40];
    for &m in masks.iter() {
        let mut core = Core::new(0x7fff);
        core.write_u8(AccessType::System, 0x0000, 0x34);
        core.write_u8(AccessType::System, 0x0001, m);
        core.write_u8(AccessType::System, 0x0002, 0x35);
        core.write_u8(AccessType::System, 0x0003, m);
        core.reg.pc = 0;
        core.reg.s = 0x3000;
        core.reg.a = 0x12;
        core.reg.b = 0x34;
        core.reg.dp = 0x56;
        core.reg.cc = 0x0f;
        core.reg.x = 0x789a;
        core.reg.y = 0xbcde;
        core.reg.u = 0xf012;
        let before = core.reg;
        core.exec_next(true).unwrap();
        core.exec_next(true).unwrap();
        assert_eq!(core.reg.a, before.a);
        assert_eq!(core.reg.b, before.b);
        assert_eq!(core.reg.dp, before.dp);
        assert_eq!(core.reg.cc, before.cc);
        assert_eq!(core.reg.x, before.x);
        assert_eq!(core.reg.y, before.y);
        assert_eq!(core.reg.u, before.u);
        assert_eq!(core.reg.s, before.s);
    }
}

#[test]
fn lda_immediate_then_sta_same_address_preserves_memory() {
    let mut core = Core::new(0x7fff);
    // LDA #0x55 at 0x0000; STA 0x0001 writes the operand byte back
    core.write_u8(AccessType::System, 0x0000, 0x86);
    core.write_u8(AccessType::System, 0x0001, 0x55);
    core.write_u8(AccessType::System, 0x0002, 0xb7);
    core.write_u8(AccessType::System, 0x0003, 0x00);
    core.write_u8(AccessType::System, 0x0004, 0x01);
    core.reg.pc = 0;
    core.exec_next(true).unwrap();
    core.exec_next(true).unwrap();
    assert_eq!(core.read_u8(AccessType::System, 0x0001), 0x55);
    assert_eq!(core.reg.a, 0x55);
}

#[test]
fn ram_write_read_round_trip() {
    let mut core = Core::new(0x7fff);
    core.write_u8(AccessType::System, 0x1234, 0x99);
    assert_eq!(core.read_u8(AccessType::Generic, 0x1234), 0x99);
    core.write_u8(AccessType::Program, 0x0042, 0x77);
    assert_eq!(core.read_u8(AccessType::System, 0x0042), 0x77);
}

#[test]
fn rom_shadow_drops_non_system_writes() {
    let mut core = Core::new(0x7fff);
    core.write_u8(AccessType::System, 0x9000, 0x5a);
    assert_eq!(core.read_u8(AccessType::Generic, 0x9000), 0x5a);
    core.write_u8(AccessType::Program, 0x9000, 0xff);
    assert_eq!(core.read_u8(AccessType::Generic, 0x9000), 0x5a);
}

#[test]
fn vector_window_remaps() {
    let mut core = Core::new(0x7fff);
    core.write_u8(AccessType::System, 0xffe0, 0xab);
    assert_eq!(core.read_u8(AccessType::Generic, 0xffe0), 0xab);
    assert_eq!(core.read_u8(AccessType::Generic, 0xbfe0), 0xab);
}

#[test]
fn sam_shift_register() {
    let mut sam = Sam::new();
    sam.write(1);
    assert_eq!(sam.get_raw_config(), 1);
    assert_eq!(sam.get_vdg_bits(), 1);
    sam.write(0);
    assert_eq!(sam.get_raw_config(), 0);
    // the last write to a bit wins
    sam.write(7);
    sam.write(7);
    sam.write(6);
    assert_eq!(sam.get_raw_config(), 0);
    sam.write(31);
    assert!(sam.get_map_type());
    sam.write(21);
    assert!(sam.get_page_switch());
}

#[test]
fn sam_vram_start() {
    let mut sam = Sam::new();
    // set offset field bit 0 (config bit 3): vram starts at 512
    sam.write(7);
    assert_eq!(sam.get_vram_start(), 512);
    let mut sam2 = Sam::new();
    set_sam_vdg_bits(&mut sam2, 0b101);
    assert_eq!(sam2.get_vdg_bits(), 0b101);
}

#[test]
fn pia_side_control_flags() {
    let mut side = PiaSide::new();
    side.set_c1(true);
    // the rising edge latches bit 7
    assert_eq!(side.read_control() & 0x80, 0x80);
    // reading cleared the flag
    assert_eq!(side.read_control() & 0x80, 0);
    // control writes preserve bits 6-7
    side.set_c1(false);
    side.set_c1(true);
    side.write_control(0x3f);
    assert_eq!(side.read_control(), 0x80 | 0x3f);
}

#[test]
fn pia_hsync_irq_when_enabled() {
    let mut pia0 = Pia0::new();
    // no interrupt while CR bit 0 is clear
    assert!(!pia0.hsync_irq());
    // enable the C1 interrupt on side A
    pia0.write(1, 0x01);
    pia0.side_a.c1 = false;
    assert!(pia0.hsync_irq());
}

#[test]
fn pia1_dac_write_queues_audio() {
    let mut pia1 = Pia1::new();
    // make all side-A lines outputs, then select the data register
    pia1.write(1, 0x00);
    pia1.write(0, 0xff);
    pia1.write(1, 0x04);
    // enable sound via side-B control (data bit 3)
    pia1.write(3, 0x08);
    // a DAC write emits its 6-bit level
    pia1.write(0, 0xfc);
    let events = pia1.take_audio();
    assert_eq!(events, vec![AudioEvent::Dac(0x3f)]);
    let empty = pia1.take_audio();
    assert!(empty.is_empty());
}

#[test]
fn vdg_mode_table() {
    assert_eq!(VdgMode::try_from_pia_and_sam(0, 0), Some(VdgMode::SG4));
    assert_eq!(VdgMode::try_from_pia_and_sam(0b10000, 1), Some(VdgMode::CG1));
    assert_eq!(VdgMode::try_from_pia_and_sam(0b11110, 6), Some(VdgMode::RG6));
    assert_eq!(VdgMode::try_from_pia_and_sam(0, 7), None);
    assert_eq!(VdgMode::try_from_pia_and_sam(0b11110, 5), None);
}

#[test]
fn vdg_colors_and_chars() {
    assert_eq!(Color::Green.to_rgb(), 0x0020e000);
    assert_eq!(Color::from_code(0), Color::Black);
    assert_eq!(Color::from_3bits(7), Color::Orange);
    assert_eq!(Color::from_2bits(0, false), Color::Green);
    assert_eq!(Color::from_2bits(0, true), Color::Buff);
    let c = coco::Char::try_from_ascii(0x41).unwrap();
    assert_eq!(c.font_index, 12);
    assert!(!c.inverted);
    assert!(coco::Char::try_from_ascii(0x80).is_none());
    let r = coco::Char::try_from_raw(0x41).unwrap();
    assert_eq!(r.font_index, 12);
    assert!(r.inverted);
}

#[test]
fn vdg_renders_sg4() {
    let mut vdg = Vdg::new(0x2000, 0x0400);
    let mut ram = vec![0u8; 0x2000];
    // a full semigraphic block in color 1 (yellow) at the top-left cell
    ram[0x0400] = 0x9f;
    let mut display = vec![0u32; 256 * 192];
    let drawn = vdg.render(&ram, &mut display, false);
    assert!(drawn);
    assert_eq!(display[0], Color::Yellow.to_rgb());
}

#[test]
fn ram_harness_round_trip() {
    let mut ram = Ram::init();
    ram.set_vram_offset(0x400);
    ram.write_vram_byte(3, 0x5a);
    assert_eq!(ram.read_vram_byte(3), 0x5a);
    let copy = ram.get_ram_clone();
    assert_eq!(copy[0x403], 0x5a);
}

#[test]
fn settings_queries() {
    let s = coco::init();
    assert!(!coco::debug(&s));
    assert!(!coco::help_humans(&s));
    assert!(!coco::auto_load_syms(&s));
    let s2 = Settings { debug: true, trace: false, no_auto_sym: false };
    assert!(coco::debug(&s2));
    assert!(coco::help_humans(&s2));
    assert!(coco::auto_load_syms(&s2));
}

#[test]
fn cart_load_sets_pending_firq() {
    let mut core = Core::new(0x7fff);
    let n = core.load_cart(&vec![0x11, 0x22]);
    assert_eq!(n, 2);
    assert!(core.cart_pending);
    assert_eq!(core.read_u8(AccessType::System, 0xc000), 0x11);
}

#[test]
fn keyboard_translation() {
    // direct mapping: each pressed key expands via the direct map
    let keys = vec![HostKey::A, HostKey::Enter];
    let coords = coco::keys_to_coords(&keys);
    assert_eq!(coords, vec![(0, 1), (6, 0)]);
    // a shift-mapped key wins over everything else while shift is held
    let keys = vec![HostKey::LeftShift, HostKey::Key2, HostKey::A];
    let coords = coco::keys_to_coords(&keys);
    assert_eq!(coords, vec![(0, 0)]);
    // shift with no shift-mapped key falls back to the direct map
    let keys = vec![HostKey::LeftShift, HostKey::A];
    let coords = coco::keys_to_coords(&keys);
    assert_eq!(coords, vec![(6, 7), (0, 1)]);
    // the matrix sees the coordinates through the strobe
    let mut pia0 = coco::Pia0::new();
    pia0.set_keys_from_coords(&coords);
    assert_eq!(pia0.col[1], 0x01);
    assert_eq!(pia0.col[7], 0x40);
}

#[test]
fn pia_c2_interrupt_needs_input_config() {
    // C2 raises an interrupt only when CR bits 3..5 read 0b001
    let mut side = PiaSide::new();
    side.write_control(0x08);
    side.set_c2(true);
    assert!(side.consume_interrupt());
    // with bit 4 set as well, the configuration is no longer C2-input-enabled
    let mut side = PiaSide::new();
    side.write_control(0x18);
    side.set_c2(true);
    assert!(!side.consume_interrupt());
}

#[test]
fn sync_completes_on_masked_interrupt() {
    let mut core = Core::new(0x7fff);
    // enable the hsync (side-A C1) interrupt in PIA0
    core.write_u8(AccessType::Generic, 0xff01, 0x01);
    // the CPU sits in a SYNC with IRQs masked
    core.in_sync = true;
    core.reg.cc = 0x10;
    core.reg.pc = 0x0300;
    core.exec_one(true, false).unwrap();
    // the sync ends even though the interrupt is not serviced
    assert!(!core.in_sync);
    assert_eq!(core.reg.pc, 0x0300);
}

#[test]
fn sync_serviced_interrupt_vectors() {
    let mut core = Core::new(0x7fff);
    core.write_u8(AccessType::Generic, 0xff01, 0x01);
    // IRQ vector and a nonzero service routine
    core.write_u8(AccessType::System, 0xfff8, 0x04);
    core.write_u8(AccessType::System, 0xfff9, 0x00);
    core.write_u8(AccessType::System, 0x0400, 0x12);
    core.in_sync = true;
    core.reg.cc = 0;
    core.reg.s = 0x4000;
    core.reg.pc = 0x0300;
    core.exec_one(true, false).unwrap();
    assert!(!core.in_sync);
    assert_eq!(core.reg.pc, 0x0400);
    // the whole frame went onto the stack
    assert_eq!(core.reg.s, 0x4000 - 12);
}
