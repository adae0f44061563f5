//! An interpreter core for a 16-register, 4 KiB virtual machine that runs
//! two-byte instructions, keeps two 60 Hz countdown timers and draws
//! XOR-composited sprites on a 64x32 monochrome display.

pub mod cpu;
pub mod fault;
pub mod io;
pub mod laws;
pub mod machine;
pub mod memory;
pub mod opcode;
pub mod ops;
pub mod output;
pub mod pointer;
pub mod timer;

use vstd::prelude::*;

use crate::cpu::{initial, Cpu};
use crate::fault::Fault;
use crate::machine::{ROM_START, STACK_START};
use crate::output::graphics::Display;

verus! {

/// A processor that is ready to run `rom` and draws on `graphics`.
///
/// Fails with `OversizedLoad` when `rom` is longer than the program region.
pub fn init_cpu(rom: &Vec<u8>, graphics: Display) -> (made: Result<Cpu, Fault>)
    requires
        graphics.wf(),
    ensures
        rom@.len() <= STACK_START - ROM_START ==> made is Ok && made->Ok_0.wf() && made->Ok_0@
            == initial(rom@, graphics@, graphics.redraw),
        rom@.len() > STACK_START - ROM_START ==> made == Err::<Cpu, Fault>(Fault::OversizedLoad),
{
    Cpu::new(rom, graphics)
}

} // verus!
