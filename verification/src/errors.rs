//! The simulator's error type. `Exit` is not a fault: it is the control
//! signal that unwinds the execution loop cleanly when the program runs an
//! EXIT instruction.

use vstd::prelude::*;

use crate::registers::RegisterSet;

verus! {

#[derive(Clone, Copy, PartialEq, Eq, Structural, Debug)]
pub enum ErrorKind {
    /// A malformed instruction, such as an illegal indexed post-byte.
    Syntax,
    /// A program image that does not fit in system RAM.
    Memory,
    /// A fault while executing: an unknown opcode, program-counter overflow,
    /// a stack that cannot hold a push, or an interrupt vector pointing at a
    /// zero byte.
    Runtime,
    /// A test criterion failed.
    Test,
    /// Clean termination by an EXIT instruction.
    Exit,
    General,
}

#[derive(Clone, Debug)]
pub struct Error {
    pub kind: ErrorKind,
    /// The register set at the fault, when one was captured.
    pub ctx: Option<RegisterSet>,
    pub msg: String,
}

impl Error {
    pub fn new(kind: ErrorKind, ctx: Option<RegisterSet>, msg: &str) -> (e: Error)
        ensures
            e.kind == kind,
            e.ctx == ctx,
            e.msg@ == msg@,
    {
        Error { kind, ctx, msg: msg.to_owned() }
    }
}

} // verus!
