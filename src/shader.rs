//! The shader program that shapes are drawn with.
//!
//! The program is passed explicitly rather than kept in a global: whoever
//! draws holds a [`ProgramRegister`] and hands it on.
use vstd::prelude::*;

verus! {

/// Holds the program in use; 0 stands for none.
#[derive(Clone, Copy, Debug, PartialEq, Eq)]
pub struct ProgramRegister {
    pub program: u32,
}

impl ProgramRegister {
    /// A register with no program.
    pub fn new() -> (r: ProgramRegister)
        ensures
            r.program == 0,
    {
        ProgramRegister { program: 0 }
    }
}

/// Makes `program` the one in use.
pub fn set_current_program(reg: &mut ProgramRegister, program: u32)
    ensures
        final(reg).program == program,
{
    reg.program = program;
}

/// The program in use.
pub fn get_current_program(reg: &ProgramRegister) -> (r: u32)
    ensures
        r == reg.program,
{
    reg.program
}

} // verus!
