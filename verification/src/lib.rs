//! A cycle-aware simulator core for the TRS-80 Color Computer: a Motorola 6809
//! CPU coupled to the machine's period peripherals (SAM memory multiplexer,
//! two PIA peripheral interface adapters, and the VDG video display generator),
//! together with the memory-mapped bus that ties them together.

use vstd::prelude::*;

mod config;
mod cpu;
mod errors;
mod instructions;
mod keyboard;
mod memory;
mod pia;
mod ram;
mod registers;
mod runtime;
mod sam;
mod vdg;

pub use config::ConfigFile;
pub use config::LoadCode;
pub use config::RomSpec;
pub use config::Settings;
pub use config::auto_load_syms;
pub use config::debug;
pub use config::help_humans;
pub use config::init;
pub use ram::Ram;
pub use ram::set_sam_vdg_bits;
pub use cpu::CodeChunk;
pub use cpu::Core;
pub use cpu::HexRecord;
pub use cpu::HexRecordType;
pub use cpu::InterruptType;
pub use cpu::Program;
pub use instructions::AddressingMode;
pub use instructions::DeferredWrite;
pub use instructions::Flavor;
pub use instructions::Instance;
pub use instructions::Meta;
pub use instructions::Op;
pub use instructions::Outcome;
pub use keyboard::HostKey;
pub use keyboard::key_coords;
pub use keyboard::keys_to_coords;
pub use keyboard::shift_key_coords;
pub use errors::Error;
pub use errors::ErrorKind;
pub use memory::AccessType;
pub use pia::AudioEvent;
pub use pia::Pia;
pub use pia::Pia0;
pub use pia::Pia1;
pub use pia::PiaSide;
pub use registers::CCBit;
pub use registers::Name;
pub use registers::RegisterSet;
pub use sam::Sam;
pub use vdg::Char;
pub use vdg::Color;
pub use vdg::Vdg;
pub use vdg::VdgMode;
pub use vdg::VdgModeDetails;
pub use vdg::font_map;

verus! {

} // verus!
