//! Run-time settings threaded through the simulator's constructors, and the
//! shapes of the YAML configuration file (ROM images and code to load).

use vstd::prelude::*;

verus! {

/// The flags the core consults while running. The command-line front end
/// fills one of these in at start-up.
#[derive(Clone, Copy, PartialEq, Eq, Structural, Debug)]
pub struct Settings {
    /// Run with the debugger enabled.
    pub debug: bool,
    /// Display each instruction as it is executed.
    pub trace: bool,
    /// Disable the automatic loading of symbol files.
    pub no_auto_sym: bool,
}

/// A ROM image to load and the address it lives at.
#[derive(Debug)]
pub struct RomSpec {
    pub path: String,
    pub addr: u16,
}

/// One code file (assembly or hex) to load.
#[derive(Debug)]
pub struct LoadCode {
    pub path: String,
}

/// The configuration file: ROM images are loaded before code.
#[derive(Debug)]
pub struct ConfigFile {
    pub load_rom: Option<Vec<RomSpec>>,
    pub load_code: Option<Vec<LoadCode>>,
}

/// Returns the default settings: everything off.
pub fn init() -> (s: Settings)
    ensures
        !s.debug && !s.trace && !s.no_auto_sym,
{
    Settings { debug: false, trace: false, no_auto_sym: false }
}

/// Symbols are auto-loaded only when debugging and not disabled.
pub fn auto_load_syms(s: &Settings) -> (r: bool)
    ensures
        r == (!s.no_auto_sym && s.debug),
{
    !s.no_auto_sym && s.debug
}

/// Whether the debugger is enabled.
pub fn debug(s: &Settings) -> (r: bool)
    ensures
        r == s.debug,
{
    s.debug
}

/// Whether human-readable output (disassembly) should be produced.
pub fn help_humans(s: &Settings) -> (r: bool)
    ensures
        r == (s.debug || s.trace),
{
    s.debug || s.trace
}

} // verus!
