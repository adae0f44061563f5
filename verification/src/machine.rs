//! The machine as a mathematical value, and what each instruction makes of it.

use vstd::prelude::*;

use crate::fault::Fault;
use crate::memory::overlay;
use crate::opcode::Opcode;
use crate::ops::{decode, Operation};
use crate::output::graphics::{blit, collides, touches};
use crate::timer::decayed;

verus! {

/// The number of general-purpose registers. The last one doubles as the flag.
pub const NUM_REGISTERS: usize = 16;

/// The register that instructions overwrite with carry, borrow and collision.
pub const FLAG_REGISTER: usize = 0xF;

/// The size of the address space.
pub const MAX_ADDR: usize = 0x1000;

/// The first address of the glyph region.
pub const FONT_START: usize = 0x000;

/// The first address of the program region; the glyph region ends here.
pub const ROM_START: usize = 0x200;

/// The first address of the call stack; the program region ends here.
pub const STACK_START: usize = 0xFA0;

/// The end of the call stack.
pub const STACK_END: usize = 0x1000;

/// The first address of the display region; the call stack ends here. The
/// display is a surface of its own, so this region is empty: it starts where
/// the address space ends.
pub const DISPLAY_START: usize = 0x1000;

/// What both timers hold when the machine is made.
pub const TIMER_START: u8 = 60;

/// Whether `addr` lies in the glyph region.
pub open spec fn in_font(addr: int) -> bool {
    FONT_START <= addr < ROM_START
}

/// Whether `addr` lies in the program region, where the program counter
/// moves.
pub open spec fn in_program(addr: int) -> bool {
    ROM_START <= addr < STACK_START
}

/// Whether `addr` lies in the call stack, where the stack pointer moves.
pub open spec fn in_stack(addr: int) -> bool {
    STACK_START <= addr < STACK_END
}

/// Whether `addr` lies in the display region.
pub open spec fn in_display(addr: int) -> bool {
    DISPLAY_START <= addr < MAX_ADDR
}

/// Whether the index register may stand at `addr`: in the glyphs, in the
/// program or in the display region, but not in the call stack.
pub open spec fn in_index(addr: int) -> bool {
    in_font(addr) || in_program(addr) || in_display(addr)
}

/// The two bytes `hi`, `lo` read as one big-endian word.
pub open spec fn word(hi: u8, lo: u8) -> int {
    hi * 256 + lo
}

/// The three decimal digits of `value`, hundreds first.
pub open spec fn bcd(value: u8) -> Seq<u8> {
    seq![value / 100, (value % 100) / 10, value % 10]
}

/// Everything an instruction can read or change.
pub struct Machine {
    /// Whether the program has halted.
    pub exit: bool,
    /// Whether the sound timer was still running after the last cycle.
    pub beep: bool,
    /// The program counter.
    pub pc: int,
    /// The stack pointer.
    pub sp: int,
    /// The index register.
    pub i: int,
    /// The delay timer.
    pub dt: u8,
    /// The sound timer.
    pub st: u8,
    /// The sixteen registers.
    pub v: Seq<u8>,
    /// The 4096 bytes of the address space.
    pub memory: Seq<u8>,
    /// The 2048 pixels of the display, in row-major order.
    pub pixels: Seq<bool>,
    /// Whether the display changed since it was last presented.
    pub redraw: bool,
}

impl Machine {
    /// Every cursor is inside its region, and registers, memory and display
    /// have their sizes.
    pub open spec fn wf(self) -> bool {
        &&& in_program(self.pc)
        &&& in_stack(self.sp)
        &&& in_index(self.i)
        &&& self.v.len() == NUM_REGISTERS
        &&& self.memory.len() == MAX_ADDR
        &&& self.pixels.len() == 2048
    }

    /// The instruction word under the program counter.
    pub open spec fn fetch(self) -> Opcode {
        Opcode { code: word(self.memory[self.pc], self.memory[self.pc + 1]) as u16 }
    }

    /// What the flag register holds.
    pub open spec fn flag(self) -> u8 {
        self.v[FLAG_REGISTER as int]
    }

    /// The machine with `value` in register `x`.
    pub open spec fn with_register(self, x: int, value: u8) -> Machine {
        Machine { v: self.v.update(x, value), ..self }
    }

    /// The machine with the flag register set to 1 if `raised`, else to 0.
    pub open spec fn with_flag(self, raised: bool) -> Machine {
        self.with_register(
            FLAG_REGISTER as int,
            if raised {
                1u8
            } else {
                0u8
            },
        )
    }

    /// The machine with the program counter on the next instruction.
    pub open spec fn next(self) -> Result<Machine, Fault> {
        if in_program(self.pc + 2) {
            Ok(Machine { pc: self.pc + 2, ..self })
        } else {
            Err(Fault::OutOfRange)
        }
    }

    /// The machine with the program counter one instruction further than
    /// `next` if `taken`, else as `next`.
    pub open spec fn skip_if(self, taken: bool) -> Result<Machine, Fault> {
        if !taken {
            self.next()
        } else if in_program(self.pc + 4) {
            Ok(Machine { pc: self.pc + 4, ..self })
        } else {
            Err(Fault::OutOfRange)
        }
    }

    /// `0000`: nothing but the move to the next instruction.
    pub open spec fn no_op(self) -> Result<Machine, Fault> {
        self.next()
    }

    /// `00E0`: every pixel goes dark.
    pub open spec fn clear_display(self) -> Result<Machine, Fault> {
        Machine { pixels: Seq::new(2048, |p: int| false), ..self }.next()
    }

    /// `00EE`: the stack pointer moves down one slot, and the word in that
    /// slot, high byte first, is where the program goes on. The stack must not
    /// be empty, and the word has to be an address of the program.
    pub open spec fn return_from_subroutine(self) -> Result<Machine, Fault> {
        let popped = word(self.memory[self.sp - 2], self.memory[self.sp - 1]);
        if in_stack(self.sp - 2) && in_program(popped) {
            Ok(Machine { pc: popped, sp: self.sp - 2, ..self })
        } else {
            Err(Fault::OutOfRange)
        }
    }

    /// `1nnn`: a jump to where the program counter already stands is the
    /// signal to halt, and changes nothing else.
    pub open spec fn jump_addr(self, opcode: Opcode) -> Result<Machine, Fault> {
        let addr = opcode.spec_nnn() as int;
        if self.pc == addr {
            Ok(Machine { exit: true, ..self })
        } else if in_program(addr) {
            Ok(Machine { pc: addr, ..self })
        } else {
            Err(Fault::OutOfRange)
        }
    }

    /// `2nnn`: the program counter is stored in the slot under the stack
    /// pointer, high byte first, the stack pointer moves up one slot, and the
    /// jump is made. The stack pointer has to stay inside the stack, and the
    /// target has to lie inside the program.
    pub open spec fn call_addr(self, opcode: Opcode) -> Result<Machine, Fault> {
        let addr = opcode.spec_nnn() as int;
        if in_stack(self.sp + 2) && in_program(addr) {
            Ok(
                Machine {
                    pc: addr,
                    sp: self.sp + 2,
                    memory: self.memory.update(self.sp, (self.pc / 256) as u8).update(
                        self.sp + 1,
                        (self.pc % 256) as u8,
                    ),
                    ..self
                },
            )
        } else {
            Err(Fault::OutOfRange)
        }
    }

    /// `3xkk`: skips the next instruction if `Vx == kk`.
    pub open spec fn skip_equal_vx_byte(self, opcode: Opcode) -> Result<Machine, Fault> {
        self.skip_if(self.v[opcode.spec_x() as int] == opcode.spec_kk())
    }

    /// `4xkk`: skips the next instruction if `Vx != kk`.
    pub open spec fn skip_not_equal_vx_byte(self, opcode: Opcode) -> Result<Machine, Fault> {
        self.skip_if(self.v[opcode.spec_x() as int] != opcode.spec_kk())
    }

    /// `5xy0`: skips the next instruction if `Vx == Vy`.
    pub open spec fn skip_equal_vx_vy(self, opcode: Opcode) -> Result<Machine, Fault> {
        self.skip_if(self.v[opcode.spec_x() as int] == self.v[opcode.spec_y() as int])
    }

    /// `9xy0`: skips the next instruction if `Vx != Vy`.
    pub open spec fn skip_not_equal_vx_vy(self, opcode: Opcode) -> Result<Machine, Fault> {
        self.skip_if(self.v[opcode.spec_x() as int] != self.v[opcode.spec_y() as int])
    }

    /// `6xkk`: `Vx = kk`.
    pub open spec fn load_vx_byte(self, opcode: Opcode) -> Result<Machine, Fault> {
        self.with_register(opcode.spec_x() as int, opcode.spec_kk()).next()
    }

    /// `7xkk`: `Vx = (Vx + kk) mod 256`; the flag is not touched.
    pub open spec fn add_vx_byte(self, opcode: Opcode) -> Result<Machine, Fault> {
        let x = opcode.spec_x() as int;
        self.with_register(x, ((self.v[x] + opcode.spec_kk()) % 256) as u8).next()
    }

    /// `8xy0`: `Vx = Vy`.
    pub open spec fn load_vx_vy(self, opcode: Opcode) -> Result<Machine, Fault> {
        self.with_register(opcode.spec_x() as int, self.v[opcode.spec_y() as int]).next()
    }

    /// `8xy1`: `Vx = Vx | Vy`.
    pub open spec fn or_vx_vy(self, opcode: Opcode) -> Result<Machine, Fault> {
        let x = opcode.spec_x() as int;
        self.with_register(x, self.v[x] | self.v[opcode.spec_y() as int]).next()
    }

    /// `8xy2`: `Vx = Vx & Vy`.
    pub open spec fn and_vx_vy(self, opcode: Opcode) -> Result<Machine, Fault> {
        let x = opcode.spec_x() as int;
        self.with_register(x, self.v[x] & self.v[opcode.spec_y() as int]).next()
    }

    /// `8xy3`: `Vx = Vx ^ Vy`.
    pub open spec fn xor_vx_vy(self, opcode: Opcode) -> Result<Machine, Fault> {
        let x = opcode.spec_x() as int;
        self.with_register(x, self.v[x] ^ self.v[opcode.spec_y() as int]).next()
    }

    /// `8xy4`: `Vx = (Vx + Vy) mod 256`, and then the flag is 1 if and only
    /// if `Vx + Vy > 255`.
    pub open spec fn add_vx_vy(self, opcode: Opcode) -> Result<Machine, Fault> {
        let x = opcode.spec_x() as int;
        let vx = self.v[x];
        let vy = self.v[opcode.spec_y() as int];
        self.with_register(x, ((vx + vy) % 256) as u8).with_flag(vx + vy > 255).next()
    }

    /// `8xy5`: `Vx = (Vx - Vy) mod 256`, and then the flag is 1 if and only
    /// if `Vx >= Vy`: nothing was borrowed.
    pub open spec fn sub_vx_vy(self, opcode: Opcode) -> Result<Machine, Fault> {
        let x = opcode.spec_x() as int;
        let vx = self.v[x];
        let vy = self.v[opcode.spec_y() as int];
        self.with_register(x, ((vx - vy) % 256) as u8).with_flag(vx >= vy).next()
    }

    /// `8xy6`: `Vx = Vy / 2`, and then the flag is the lowest bit of `Vy`.
    pub open spec fn shr_vx_vy(self, opcode: Opcode) -> Result<Machine, Fault> {
        let vy = self.v[opcode.spec_y() as int];
        self.with_register(opcode.spec_x() as int, vy / 2).with_flag(vy % 2 == 1).next()
    }

    /// `8xy7`: `Vx = (Vy - Vx) mod 256`, and then the flag is 1 if and only
    /// if `Vy >= Vx`: nothing was borrowed.
    pub open spec fn subn_vx_vy(self, opcode: Opcode) -> Result<Machine, Fault> {
        let x = opcode.spec_x() as int;
        let vx = self.v[x];
        let vy = self.v[opcode.spec_y() as int];
        self.with_register(x, ((vy - vx) % 256) as u8).with_flag(vy >= vx).next()
    }

    /// `8xyE`: `Vx = (Vy * 2) mod 256`, and then the flag is the highest bit
    /// of `Vy`.
    pub open spec fn shl_vx_vy(self, opcode: Opcode) -> Result<Machine, Fault> {
        let vy = self.v[opcode.spec_y() as int];
        self.with_register(opcode.spec_x() as int, ((vy * 2) % 256) as u8).with_flag(
            vy >= 128,
        ).next()
    }

    /// The index register moves to `addr`, if glyphs or program hold it, and
    /// the program moves on.
    pub open spec fn load_i(self, addr: int) -> Result<Machine, Fault> {
        if in_index(addr) {
            Machine { i: addr, ..self }.next()
        } else {
            Err(Fault::OutOfRange)
        }
    }

    /// `Annn`: `I = nnn`.
    pub open spec fn load_i_addr(self, opcode: Opcode) -> Result<Machine, Fault> {
        self.load_i(opcode.spec_nnn() as int)
    }

    /// `Bnnn`: a jump to `nnn + V0`.
    pub open spec fn jump_v0_addr(self, opcode: Opcode) -> Result<Machine, Fault> {
        let addr = opcode.spec_nnn() + self.v[0];
        if in_program(addr) {
            Ok(Machine { pc: addr, ..self })
        } else {
            Err(Fault::OutOfRange)
        }
    }

    /// `Cxkk`: `Vx = random & kk`.
    pub open spec fn rand_vx_byte(self, opcode: Opcode, random: u8) -> Result<Machine, Fault> {
        self.with_register(opcode.spec_x() as int, random & opcode.spec_kk()).next()
    }

    /// `Dxyn`: the `n` bytes under the index register are the rows of a
    /// sprite that is XOR-composited onto the display at `(Vx, Vy)`, both
    /// axes wrapping. Then the flag says whether a lit pixel went dark.
    pub open spec fn draw_vx_vy_n(self, opcode: Opcode) -> Result<Machine, Fault> {
        let rows = self.memory.subrange(self.i, self.i + opcode.spec_k());
        let vx = self.v[opcode.spec_x() as int] as int;
        let vy = self.v[opcode.spec_y() as int] as int;
        Machine {
            pixels: blit(self.pixels, vx, vy, rows),
            redraw: self.redraw || touches(vx, vy, rows),
            ..self
        }.with_flag(collides(self.pixels, vx, vy, rows)).next()
    }

    /// `Ex9E`, `ExA1`, `Fx0A`: the key instructions. Keys are the host's
    /// business: the machine stays exactly as it is.
    pub open spec fn key(self) -> Result<Machine, Fault> {
        Ok(self)
    }

    /// `Fx07`: `Vx = DT`.
    pub open spec fn load_vx_dt(self, opcode: Opcode) -> Result<Machine, Fault> {
        self.with_register(opcode.spec_x() as int, self.dt).next()
    }

    /// `Fx15`: `DT = Vx`.
    pub open spec fn load_dt_vx(self, opcode: Opcode) -> Result<Machine, Fault> {
        Machine { dt: self.v[opcode.spec_x() as int], ..self }.next()
    }

    /// `Fx18`: `ST = Vx`.
    pub open spec fn load_st_vx(self, opcode: Opcode) -> Result<Machine, Fault> {
        Machine { st: self.v[opcode.spec_x() as int], ..self }.next()
    }

    /// `Fx1E`: `I = I + Vx`.
    pub open spec fn add_i_vx(self, opcode: Opcode) -> Result<Machine, Fault> {
        self.load_i(self.i + self.v[opcode.spec_x() as int])
    }

    /// `Fx29`: `I` = where the glyph of the digit in `Vx` starts: five bytes
    /// for each digit before it.
    pub open spec fn load_i_vx_font(self, opcode: Opcode) -> Result<Machine, Fault> {
        self.load_i(FONT_START + self.v[opcode.spec_x() as int] * 5)
    }

    /// `Fx33`: the decimal digits of `Vx` go to `[I]`, `[I + 1]`, `[I + 2]`.
    pub open spec fn load_bcd_vx(self, opcode: Opcode) -> Result<Machine, Fault> {
        Machine {
            memory: overlay(self.memory, self.i, bcd(self.v[opcode.spec_x() as int])),
            ..self
        }.next()
    }

    /// `Fx55`: registers `V0..=Vx` are stored from the index register on,
    /// which then moves past them.
    pub open spec fn load_through_vx(self, opcode: Opcode) -> Result<Machine, Fault> {
        let x = opcode.spec_x() as int;
        if in_index(self.i + x + 1) {
            Machine {
                i: self.i + x + 1,
                memory: overlay(self.memory, self.i, self.v.subrange(0, x + 1)),
                ..self
            }.next()
        } else {
            Err(Fault::OutOfRange)
        }
    }

    /// `Fx65`: registers `V0..=Vx` are filled from the index register on,
    /// which then moves past what was read.
    pub open spec fn read_through_vx(self, opcode: Opcode) -> Result<Machine, Fault> {
        let x = opcode.spec_x() as int;
        if in_index(self.i + x + 1) {
            Machine {
                i: self.i + x + 1,
                v: overlay(self.v, 0, self.memory.subrange(self.i, self.i + x + 1)),
                ..self
            }.next()
        } else {
            Err(Fault::OutOfRange)
        }
    }

    /// What `op`, decoded from `opcode`, makes of the machine. `random` is the
    /// byte that chance supplies; only `RND` reads it. A fault leaves the
    /// machine as it was.
    #[verifier::opaque]
    pub open spec fn execute(self, op: Operation, opcode: Opcode, random: u8) -> Result<
        Machine,
        Fault,
    > {
        match op {
            Operation::NoOp => self.no_op(),
            Operation::Unknown => Err(Fault::UnknownOpcode),
            Operation::ClearDisplay => self.clear_display(),
            Operation::ReturnFromSubroutine => self.return_from_subroutine(),
            Operation::JumpAddr => self.jump_addr(opcode),
            Operation::CallAddr => self.call_addr(opcode),
            Operation::SkipEqualVxByte => self.skip_equal_vx_byte(opcode),
            Operation::SkipNotEqualVxByte => self.skip_not_equal_vx_byte(opcode),
            Operation::SkipEqualVxVy => self.skip_equal_vx_vy(opcode),
            Operation::LoadVxByte => self.load_vx_byte(opcode),
            Operation::AddVxByte => self.add_vx_byte(opcode),
            Operation::LoadVxVy => self.load_vx_vy(opcode),
            Operation::OrVxVy => self.or_vx_vy(opcode),
            Operation::AndVxVy => self.and_vx_vy(opcode),
            Operation::XorVxVy => self.xor_vx_vy(opcode),
            Operation::AddVxVy => self.add_vx_vy(opcode),
            Operation::SubVxVy => self.sub_vx_vy(opcode),
            Operation::ShrVxVy => self.shr_vx_vy(opcode),
            Operation::SubnVxVy => self.subn_vx_vy(opcode),
            Operation::ShlVxVy => self.shl_vx_vy(opcode),
            Operation::SkipNotEqualVxVy => self.skip_not_equal_vx_vy(opcode),
            Operation::LoadIAddr => self.load_i_addr(opcode),
            Operation::JumpV0Addr => self.jump_v0_addr(opcode),
            Operation::RandVxByte => self.rand_vx_byte(opcode, random),
            Operation::DrawVxVyN => self.draw_vx_vy_n(opcode),
            Operation::SkipKeyPressedVx => self.key(),
            Operation::SkipKeyNotPressedVx => self.key(),
            Operation::LoadVxDt => self.load_vx_dt(opcode),
            Operation::LoadVxKey => self.key(),
            Operation::LoadDtVx => self.load_dt_vx(opcode),
            Operation::LoadStVx => self.load_st_vx(opcode),
            Operation::AddIVx => self.add_i_vx(opcode),
            Operation::LoadIVxFont => self.load_i_vx_font(opcode),
            Operation::LoadBcdVx => self.load_bcd_vx(opcode),
            Operation::LoadThroughVx => self.load_through_vx(opcode),
            Operation::ReadThroughVx => self.read_through_vx(opcode),
        }
    }

    /// What one cycle makes of the machine before the timers decay: the
    /// instruction under the program counter is fetched, decoded and carried
    /// out.
    pub open spec fn step(self, random: u8) -> Result<Machine, Fault> {
        self.execute(decode(self.fetch()), self.fetch(), random)
    }

    /// The machine after its timers lost `dt_intervals` and `st_intervals`;
    /// the beep follows the sound timer.
    pub open spec fn ticked(self, dt_intervals: u8, st_intervals: u8) -> Machine {
        Machine {
            dt: decayed(self.dt, dt_intervals),
            st: decayed(self.st, st_intervals),
            beep: decayed(self.st, st_intervals) > 0,
            ..self
        }
    }
}

} // verus!
