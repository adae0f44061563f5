//! The processor: registers, cursors, timers, memory and display, and the
//! single-step transition over them.

use vstd::prelude::*;

use crate::fault::Fault;
use crate::machine::{
    in_index, in_program, in_stack, word, Machine, FLAG_REGISTER, FONT_START, MAX_ADDR,
    NUM_REGISTERS, ROM_START, STACK_END, STACK_START, TIMER_START,
};
use crate::memory::{overlay, Address, Memory};
use crate::opcode::Opcode;
use crate::ops::{decode, outcome, Operation};
use crate::output::font::{font_set, spec_font_set};
use crate::output::graphics::{
    blit_row, byte_start, lemma_byte_of_column, lemma_column_drawn, lemma_halves_drawn,
    lemma_row_empty, lemma_row_same_place, row_collides, row_collides_upto, row_covers_upto,
    row_touches, row_touches_upto, Display, SCREEN_SIZE, SCREEN_WIDTH_SPRITES, SPRITE_WIDTH,
};
use crate::pointer::{Pointer, STEP_SIZE};
use crate::timer::Timer;

verus! {

/// The index of a register.
pub type Register = usize;

/// The processor. Its fields are open to the caller; the operations ask for
/// `wf` and keep it.
#[derive(Debug)]
pub struct Cpu {
    /// Set once the program has jumped onto itself, which is how it halts.
    pub exit: bool,
    /// Whether the sound timer was still running after the last step.
    pub beep: bool,
    /// The program counter: the address of the next instruction.
    pub pc: Pointer,
    /// The stack pointer: the slot that the next return address goes to.
    pub sp: Pointer,
    /// The index register: the address that sprites, digits and stored
    /// registers are read from and written to.
    pub i: Pointer,
    /// The delay timer.
    pub dt: Timer,
    /// The sound timer.
    pub st: Timer,
    /// The registers `V0..=VF`.
    pub v: [u8; 16],
    /// The address space.
    pub memory: Memory<u8>,
    /// The display.
    pub graphics: Display,
}

impl View for Cpu {
    type V = Machine;

    /// The processor as the machine that the instructions are stated over.
    /// The clock readings of the timers are no part of it.
    open spec fn view(&self) -> Machine {
        Machine {
            exit: self.exit,
            beep: self.beep,
            pc: self.pc.current as int,
            sp: self.sp.current as int,
            i: self.i.current as int,
            dt: self.dt.current,
            st: self.st.current,
            v: self.v@,
            memory: self.memory@,
            pixels: self.graphics@,
            redraw: self.graphics.redraw,
        }
    }
}

/// The machine right after it was made with `rom` as its program and a
/// display that shows `pixels`.
pub open spec fn initial(rom: Seq<u8>, pixels: Seq<bool>, redraw: bool) -> Machine {
    Machine {
        exit: false,
        beep: true,
        pc: ROM_START as int,
        sp: STACK_START as int,
        i: FONT_START as int,
        dt: TIMER_START,
        st: TIMER_START,
        v: Seq::new(NUM_REGISTERS as nat, |r: int| 0u8),
        memory: overlay(
            overlay(Seq::new(MAX_ADDR as nat, |a: int| 0u8), FONT_START as int, spec_font_set()),
            ROM_START as int,
            rom,
        ),
        pixels,
        redraw,
    }
}

/// Whether `post` has the clock readings that a cycle with the instruction
/// `op` leaves alone: a timer that `op` does not write, and that has lost
/// nothing in the cycle, is the timer it was, the countdown and the clock
/// reading of its last write.
pub open spec fn clocks_kept(pre: Cpu, post: Cpu, op: Operation) -> bool {
    &&& op != Operation::LoadDtVx && post.dt.current == pre.dt.current ==> post.dt == pre.dt
    &&& op != Operation::LoadStVx && post.st.current == pre.st.current ==> post.st == pre.st
}

/// Whether `post` and `result` are what one cycle leaves of `pre` when chance
/// supplies `random`: the machine that `Machine::step` names, with timers
/// that have not grown, their clock readings kept where nothing was written
/// or lost, and the beep following the sound timer; or the fault and the
/// processor untouched.
pub open spec fn stepped(pre: Cpu, post: Cpu, random: u8, result: Result<(), Fault>) -> bool {
    match pre@.step(random) {
        Ok(machine) => {
            &&& result is Ok
            &&& post.wf()
            &&& post@ == (Machine {
                dt: post@.dt,
                st: post@.st,
                beep: post@.st > 0,
                ..machine
            })
            &&& post@.dt <= machine.dt
            &&& post@.st <= machine.st
            &&& clocks_kept(pre, post, decode(pre@.fetch()))
        },
        Err(fault) => result == Err::<(), Fault>(fault) && post == pre,
    }
}

impl Cpu {
    /// Each cursor owns its region and stands inside it, and memory and
    /// display have their sizes.
    pub open spec fn wf(&self) -> bool {
        &&& self.pc.wf()
        &&& self.pc.range.start == ROM_START
        &&& self.pc.range.end == STACK_START
        &&& self.sp.wf()
        &&& self.sp.range.start == STACK_START
        &&& self.sp.range.end == STACK_END
        &&& self.i.wf()
        &&& self.i.range.start == FONT_START
        &&& self.i.range.end == STACK_START
        &&& self.memory@.len() == MAX_ADDR
        &&& self.graphics.wf()
    }

    /// This processor with the program counter at `addr`.
    pub open spec fn with_pc(self, addr: int) -> Cpu {
        Cpu { pc: Pointer { current: addr as usize, ..self.pc }, ..self }
    }

    /// This processor with the stack pointer at `addr`.
    pub open spec fn with_sp(self, addr: int) -> Cpu {
        Cpu { sp: Pointer { current: addr as usize, ..self.sp }, ..self }
    }

    /// This processor with the index register at `addr`.
    pub open spec fn with_i(self, addr: int) -> Cpu {
        Cpu { i: Pointer { current: addr as usize, ..self.i }, ..self }
    }

    /// Whether `wf` holds, found out at run time.
    pub fn is_valid(&self) -> (valid: bool)
        ensures
            valid == self.wf(),
    {
        let pc = self.pc.contains(self.pc.current) && self.pc.step_size == STEP_SIZE
            && self.pc.range.start == ROM_START && self.pc.range.end == STACK_START;
        let sp = self.sp.contains(self.sp.current) && self.sp.step_size == STEP_SIZE
            && self.sp.range.start == STACK_START && self.sp.range.end == STACK_END;
        let i = self.i.contains(self.i.current) && self.i.step_size == STEP_SIZE
            && self.i.range.start == FONT_START && self.i.range.end == STACK_START;
        pc && sp && i && self.memory.len() == MAX_ADDR && self.graphics.memory.len()
            == SCREEN_SIZE
    }

    /// A processor with the glyphs and `rom` in memory, the program counter on
    /// the first byte of `rom`, an empty stack, both timers at 60 and
    /// `graphics` as its display.
    ///
    /// Fails with `OversizedLoad` when `rom` is longer than the program
    /// region.
    pub fn new(rom: &Vec<u8>, graphics: Display) -> (made: Result<Cpu, Fault>)
        requires
            graphics.wf(),
        ensures
            rom@.len() <= STACK_START - ROM_START ==> made is Ok && made->Ok_0.wf() && made->Ok_0@
                == initial(rom@, graphics@, graphics.redraw),
            rom@.len() > STACK_START - ROM_START ==> made == Err::<Cpu, Fault>(
                Fault::OversizedLoad,
            ),
    {
        let mut memory: Memory<u8> = Memory::new(MAX_ADDR, 0x0);
        let font = font_set();
        match memory.load(font.as_slice(), FONT_START..ROM_START) {
            Ok(()) => {},
            Err(fault) => {
                return Err(fault);
            },
        }
        match memory.load(rom.as_slice(), ROM_START..STACK_START) {
            Ok(()) => {},
            Err(fault) => {
                return Err(fault);
            },
        }
        let cpu = Cpu {
            exit: false,
            beep: true,
            pc: Pointer::new(ROM_START..STACK_START),
            sp: Pointer::new(STACK_START..STACK_END),
            i: Pointer::new(FONT_START..STACK_START),
            dt: Timer::new(TIMER_START),
            st: Timer::new(TIMER_START),
            v: [0x0;16],
            memory,
            graphics,
        };
        assert(cpu.v@ =~= Seq::new(NUM_REGISTERS as nat, |r: int| 0u8));
        Ok(cpu)
    }

    /// One cycle with nothing left to the outside but the clock readings of
    /// the timers that are written: the instruction under the program counter
    /// is fetched, decoded and carried out with `random` as the byte of
    /// chance, and then the delay timer loses `dt_intervals` and the sound
    /// timer `st_intervals`. A fault leaves the processor as it was.
    pub fn step_with(&mut self, random: u8, dt_intervals: u8, st_intervals: u8) -> (result: Result<
        (),
        Fault,
    >)
        requires
            old(self).wf(),
        ensures
            match old(self)@.step(random) {
                Ok(machine) => result is Ok && final(self).wf() && final(self)@ == machine.ticked(
                    dt_intervals,
                    st_intervals,
                ) && clocks_kept(*old(self), *final(self), decode(old(self)@.fetch())),
                Err(fault) => result == Err::<(), Fault>(fault) && *final(self) == *old(self),
            },
    {
        let opcode = self.fetch_opcode();
        let op = self.operation(&opcode);
        op.apply_with(self, &opcode, random)?;
        self.update_timers_by(dt_intervals, st_intervals);
        Ok(())
    }

    /// One cycle: the instruction under the program counter is fetched,
    /// decoded and carried out, and then both timers decay by the clock.
    ///
    /// Chance and the clock have their say, so the contract holds for one of
    /// the random bytes and says of the timers only that neither grows and
    /// that the beep follows the sound timer. A fault leaves the processor as
    /// it was.
    pub fn step(&mut self) -> (result: Result<(), Fault>)
        requires
            old(self).wf(),
        ensures
            exists|random: u8| stepped(*old(self), *final(self), random, result),
    {
        let opcode = self.fetch_opcode();
        let op = self.operation(&opcode);
        let ghost entered = *self;
        let applied = op.apply(self, &opcode);
        let ghost executed = *self;
        if applied.is_ok() {
            self.update_timers();
        }
        proof {
            let random = choose|random: u8|
                outcome(entered, executed, op, opcode, random, applied);
            assert(outcome(entered, executed, op, opcode, random, applied));
            assert(stepped(entered, *self, random, applied));
        }
        applied
    }

    /// The instruction word under the program counter, high byte first.
    pub fn fetch_opcode(&self) -> (opcode: Opcode)
        requires
            self.wf(),
        ensures
            opcode == self@.fetch(),
    {
        let current = self.pc.current;
        let bytes = (self.memory.read(current), self.memory.read(current + 1));
        Opcode::from_bytes(bytes)
    }

    /// The operation that `opcode` stands for.
    pub fn operation(&self, opcode: &Opcode) -> (op: Operation)
        ensures
            op == decode(*opcode),
    {
        match opcode.first_hex_digit() {
            0x0 => match opcode.kk() {
                0x00 => Operation::NoOp,
                0xE0 => Operation::ClearDisplay,
                0xEE => Operation::ReturnFromSubroutine,
                _ => Operation::Unknown,
            },
            0x1 => Operation::JumpAddr,
            0x2 => Operation::CallAddr,
            0x3 => Operation::SkipEqualVxByte,
            0x4 => Operation::SkipNotEqualVxByte,
            0x5 => Operation::SkipEqualVxVy,
            0x6 => Operation::LoadVxByte,
            0x7 => Operation::AddVxByte,
            0x8 => match opcode.k() {
                0x0 => Operation::LoadVxVy,
                0x1 => Operation::OrVxVy,
                0x2 => Operation::AndVxVy,
                0x3 => Operation::XorVxVy,
                0x4 => Operation::AddVxVy,
                0x5 => Operation::SubVxVy,
                0x6 => Operation::ShrVxVy,
                0x7 => Operation::SubnVxVy,
                0xE => Operation::ShlVxVy,
                _ => Operation::Unknown,
            },
            0x9 => Operation::SkipNotEqualVxVy,
            0xA => Operation::LoadIAddr,
            0xB => Operation::JumpV0Addr,
            0xC => Operation::RandVxByte,
            0xD => Operation::DrawVxVyN,
            0xE => match opcode.kk() {
                0x9E => Operation::SkipKeyPressedVx,
                0xA1 => Operation::SkipKeyNotPressedVx,
                _ => Operation::Unknown,
            },
            0xF => match opcode.kk() {
                0x07 => Operation::LoadVxDt,
                0x0A => Operation::LoadVxKey,
                0x15 => Operation::LoadDtVx,
                0x18 => Operation::LoadStVx,
                0x1E => Operation::AddIVx,
                0x29 => Operation::LoadIVxFont,
                0x33 => Operation::LoadBcdVx,
                0x55 => Operation::LoadThroughVx,
                0x65 => Operation::ReadThroughVx,
                _ => Operation::Unknown,
            },
            _ => Operation::Unknown,
        }
    }

    /// Moves the program counter to `addr`, if the program region holds it.
    pub fn jump(&mut self, addr: Address) -> (moved: Result<(), Fault>)
        requires
            old(self).wf(),
        ensures
            in_program(addr as int) ==> moved is Ok && *final(self) == old(self).with_pc(
                addr as int,
            ),
            !in_program(addr as int) ==> moved == Err::<(), Fault>(Fault::OutOfRange)
                && *final(self) == *old(self),
    {
        self.pc.set(addr)
    }

    /// Moves the program counter onto the next instruction, if the program
    /// region holds it.
    pub fn advance_pc(&mut self) -> (moved: Result<(), Fault>)
        requires
            old(self).wf(),
        ensures
            in_program(old(self).pc.current + 2) ==> moved is Ok && *final(self) == old(
                self,
            ).with_pc(old(self).pc.current + 2),
            !in_program(old(self).pc.current + 2) ==> moved == Err::<(), Fault>(Fault::OutOfRange)
                && *final(self) == *old(self),
    {
        self.pc.move_forward()
    }

    /// Steps over one instruction: the same move as `advance_pc`, made a
    /// second time in a cycle by the instructions that skip.
    pub fn skip(&mut self) -> (moved: Result<(), Fault>)
        requires
            old(self).wf(),
        ensures
            in_program(old(self).pc.current + 2) ==> moved is Ok && *final(self) == old(
                self,
            ).with_pc(old(self).pc.current + 2),
            !in_program(old(self).pc.current + 2) ==> moved == Err::<(), Fault>(Fault::OutOfRange)
                && *final(self) == *old(self),
    {
        self.advance_pc()
    }

    /// Where the index register stands.
    pub fn read_i(&self) -> (addr: Address)
        ensures
            addr == self.i.current,
    {
        self.i.current
    }

    /// Moves the index register to `addr`, if glyphs or program hold it.
    pub fn load_i(&mut self, addr: Address) -> (moved: Result<(), Fault>)
        requires
            old(self).wf(),
        ensures
            in_index(addr as int) ==> moved is Ok && *final(self) == old(self).with_i(addr as int),
            !in_index(addr as int) ==> moved == Err::<(), Fault>(Fault::OutOfRange) && *final(self)
                == *old(self),
    {
        self.i.set(addr)
    }

    /// Writes `val` to a register.
    pub fn load_register(&mut self, register: Register, val: u8)
        requires
            register < NUM_REGISTERS,
        ensures
            *final(self) == (Cpu { v: final(self).v, ..*old(self) }),
            final(self).v@ == old(self).v@.update(register as int, val),
    {
        self.v[register] = val;
    }

    /// What a register holds.
    pub fn read_register(&self, register: Register) -> (val: u8)
        requires
            register < NUM_REGISTERS,
        ensures
            val == self.v@[register as int],
    {
        self.v[register]
    }

    /// Writes 1 to the flag register if `b`, else 0.
    pub fn load_flag(&mut self, b: bool)
        ensures
            *final(self) == (Cpu { v: final(self).v, ..*old(self) }),
            final(self).v@ == old(self).v@.update(
                FLAG_REGISTER as int,
                if b {
                    1u8
                } else {
                    0u8
                },
            ),
    {
        if b {
            self.load_register(FLAG_REGISTER, 0b1);
        } else {
            self.load_register(FLAG_REGISTER, 0b0);
        }
    }

    /// The `n` bytes of memory from `addr` on.
    pub fn read_bytes(&self, addr: Address, n: usize) -> (bytes: Vec<u8>)
        requires
            self.wf(),
            addr + n <= MAX_ADDR,
        ensures
            bytes@ == self.memory@.subrange(addr as int, addr + n),
    {
        self.memory.read_range(addr, n)
    }

    /// Writes one byte of memory.
    pub fn load_byte(&mut self, addr: Address, byte: u8)
        requires
            old(self).wf(),
            addr < MAX_ADDR,
        ensures
            *final(self) == (Cpu { memory: final(self).memory, ..*old(self) }),
            final(self).memory@ == old(self).memory@.update(addr as int, byte),
    {
        self.memory.write(addr, byte);
    }

    /// The `n` bytes of memory under the index register: the rows of a
    /// sprite, or stored registers.
    pub fn read_image_bytes(&self, n: usize) -> (bytes: Vec<u8>)
        requires
            self.wf(),
            self.i.current + n <= MAX_ADDR,
        ensures
            bytes@ == self.memory@.subrange(self.i.current as int, self.i.current + n),
    {
        let i = self.read_i();
        self.read_bytes(i, n)
    }

    /// XOR-composites one byte onto the display: bit `b` of `to_byte`,
    /// counted from the left, goes onto pixel `b` of byte `x` in row `y`. A
    /// display row is eight bytes of eight pixels, and both axes wrap. Says
    /// whether a lit pixel went dark.
    pub fn load_image_byte(&mut self, x: Address, y: Address, to_byte: u8) -> (collision: bool)
        requires
            old(self).wf(),
        ensures
            *final(self) == (Cpu { graphics: final(self).graphics, ..*old(self) }),
            final(self).graphics.wf(),
            final(self).graphics@ == blit_row(old(self).graphics@, 8 * (x % 8), y as int, to_byte),
            collision == row_collides(old(self).graphics@, 8 * (x % 8), y as int, to_byte),
            final(self).graphics.redraw == (old(self).graphics.redraw || row_touches(
                8 * (x % 8),
                y as int,
                to_byte,
            )),
    {
        let left = (x % SCREEN_WIDTH_SPRITES) * SPRITE_WIDTH;
        let ghost shown = self.graphics@;
        let mut collision = false;
        let mut b: u8 = 0;
        proof {
            lemma_row_empty(shown, left as int, y as int, to_byte);
        }
        while b < 8
            invariant
                b <= 8,
                left == 8 * (x % 8),
                shown == old(self).graphics@,
                shown.len() == 2048,
                self.graphics.wf(),
                *self == (Cpu { graphics: self.graphics, ..*old(self) }),
                forall|p: int|
                    0 <= p < 2048 ==> self.graphics@[p] == (shown[p] != #[trigger] row_covers_upto(
                        left as int,
                        y as int,
                        to_byte,
                        b as int,
                        p,
                    )),
                collision == row_collides_upto(shown, left as int, y as int, to_byte, b as int),
                self.graphics.redraw == (old(self).graphics.redraw || row_touches_upto(
                    left as int,
                    y as int,
                    to_byte,
                    b as int,
                )),
            decreases 8 - b,
        {
            let bit = (0x80u8 >> b) & to_byte != 0;
            let ghost before = self.graphics@;
            if self.graphics.update_pixel(left + b as usize, y, bit) {
                collision = true;
            }
            proof {
                lemma_column_drawn(
                    shown,
                    before,
                    self.graphics@,
                    left as int,
                    y as int,
                    to_byte,
                    b as int,
                );
            }
            b = b + 1;
        }
        assert(self.graphics@ =~= blit_row(shown, left as int, y as int, to_byte));
        collision
    }

    /// XOR-composites one sprite row onto the display at `(x, y)`: bit `b` of
    /// `byte`, counted from the left, goes onto the pixel at `(x + b, y)`,
    /// both axes wrapping. Says whether a lit pixel went dark.
    ///
    /// A row that starts on a byte of the display is drawn onto that byte.
    /// One that does not is split in two: its bits shifted right go onto the
    /// byte that holds `x`, and the rest, shifted left, onto the byte after
    /// it.
    pub fn draw_byte(&mut self, x: Address, y: Address, byte: u8) -> (collision: bool)
        requires
            old(self).wf(),
        ensures
            *final(self) == (Cpu { graphics: final(self).graphics, ..*old(self) }),
            final(self).graphics.wf(),
            final(self).graphics@ == blit_row(old(self).graphics@, x as int, y as int, byte),
            collision == row_collides(old(self).graphics@, x as int, y as int, byte),
            final(self).graphics.redraw == (old(self).graphics.redraw || row_touches(
                x as int,
                y as int,
                byte,
            )),
    {
        let byte_x = (x / SPRITE_WIDTH) % SCREEN_WIDTH_SPRITES;
        let pixel_x = x % SPRITE_WIDTH;
        let ghost before = self.graphics@;
        proof {
            lemma_byte_of_column(x as int);
        }
        if pixel_x == 0 {
            let hit = self.load_image_byte(byte_x, y, byte);
            proof {
                lemma_row_same_place(before, 8 * byte_x, y as int, x as int, y as int, byte);
            }
            hit
        } else {
            let left = byte >> (pixel_x as u8);
            let right = byte << ((SPRITE_WIDTH - pixel_x) as u8);
            let right_x = (byte_x + 1) % SCREEN_WIDTH_SPRITES;
            let hit_left = self.load_image_byte(byte_x, y, left);
            let ghost between = self.graphics@;
            let hit_right = self.load_image_byte(right_x, y, right);
            proof {
                assert(8 * (byte_x % 8) == byte_start(x as int));
                assert(8 * (right_x % 8) == byte_start(x + 8));
                lemma_halves_drawn(before, between, self.graphics@, x as int, y as int, byte);
            }
            hit_left || hit_right
        }
    }

    /// Stores `to_bytes` in memory from the index register on.
    pub fn load_image_bytes(&mut self, to_bytes: &Vec<u8>)
        requires
            old(self).wf(),
            old(self).i.current + to_bytes@.len() <= MAX_ADDR,
        ensures
            *final(self) == (Cpu { memory: final(self).memory, ..*old(self) }),
            final(self).memory@ == overlay(
                old(self).memory@,
                old(self).i.current as int,
                to_bytes@,
            ),
    {
        let i = self.read_i();
        self.memory.write_range(i, to_bytes.as_slice());
    }

    /// What the delay timer holds.
    pub fn read_delay_timer(&self) -> (val: u8)
        ensures
            val == self.dt.current,
    {
        self.dt.current
    }

    /// Writes the delay timer.
    pub fn load_delay_timer(&mut self, val: u8)
        ensures
            *final(self) == (Cpu { dt: final(self).dt, ..*old(self) }),
            final(self).dt.current == val,
    {
        self.dt.set(val);
    }

    /// What the sound timer holds.
    pub fn read_sound_timer(&self) -> (val: u8)
        ensures
            val == self.st.current,
    {
        self.st.current
    }

    /// Writes the sound timer.
    pub fn load_sound_timer(&mut self, val: u8)
        ensures
            *final(self) == (Cpu { st: final(self).st, ..*old(self) }),
            final(self).st.current == val,
    {
        self.st.set(val);
    }

    /// Takes `dt_intervals` off the delay timer and `st_intervals` off the
    /// sound timer, and lets the beep follow the sound timer. A timer that
    /// loses nothing keeps the clock reading of its last write.
    pub fn update_timers_by(&mut self, dt_intervals: u8, st_intervals: u8)
        ensures
            *final(self) == (Cpu {
                dt: final(self).dt,
                st: final(self).st,
                beep: final(self).beep,
                ..*old(self)
            }),
            final(self)@ == old(self)@.ticked(dt_intervals, st_intervals),
            final(self).dt.current == old(self).dt.current ==> final(self).dt == old(self).dt,
            final(self).st.current == old(self).st.current ==> final(self).st == old(self).st,
    {
        self.dt.tick_by(dt_intervals);
        self.st.tick_by(st_intervals);
        self.beep = self.st.active();
    }

    /// Lets both timers decay by the clock, and the beep follow the sound
    /// timer. By how much they decay is the clock's to say: neither grows, and
    /// one that loses nothing keeps the clock reading of its last write.
    pub fn update_timers(&mut self)
        ensures
            *final(self) == (Cpu {
                dt: final(self).dt,
                st: final(self).st,
                beep: final(self).beep,
                ..*old(self)
            }),
            final(self).dt.current <= old(self).dt.current,
            final(self).st.current <= old(self).st.current,
            final(self).beep == (final(self).st.current > 0),
            final(self).dt.current == old(self).dt.current ==> final(self).dt == old(self).dt,
            final(self).st.current == old(self).st.current ==> final(self).st == old(self).st,
    {
        self.dt.tick();
        self.st.tick();
        self.beep = self.st.active();
    }

    /// Takes the latest return address off the stack: the stack pointer moves
    /// one slot down, and the word in that slot, high byte first, is the
    /// address. Fails, and changes nothing, when the stack is empty.
    pub fn stack_pop(&mut self) -> (popped: Result<Address, Fault>)
        requires
            old(self).wf(),
        ensures
            in_stack(old(self).sp.current - 2) ==> popped == Ok::<Address, Fault>(
                word(
                    old(self).memory@[old(self).sp.current - 2],
                    old(self).memory@[old(self).sp.current - 1],
                ) as usize,
            ) && *final(self) == old(self).with_sp(old(self).sp.current - 2),
            !in_stack(old(self).sp.current - 2) ==> popped == Err::<Address, Fault>(
                Fault::OutOfRange,
            ) && *final(self) == *old(self),
    {
        self.sp.move_backward()?;
        let current = self.sp.current;
        let hi = self.memory.read(current);
        let lo = self.memory.read(current + 1);
        Ok(hi as usize * 256 + lo as usize)
    }

    /// Puts the program counter on the stack: the word is stored in the slot
    /// under the stack pointer, high byte first, and the stack pointer moves
    /// one slot up. No other byte of memory changes. Fails, and changes
    /// nothing, when the stack pointer cannot move up inside the stack.
    pub fn stack_push(&mut self) -> (pushed: Result<(), Fault>)
        requires
            old(self).wf(),
        ensures
            in_stack(old(self).sp.current + 2) ==> pushed is Ok && *final(self) == (Cpu {
                memory: final(self).memory,
                ..old(self).with_sp(old(self).sp.current + 2)
            }) && final(self).memory@ == old(self).memory@.update(
                old(self).sp.current as int,
                (old(self).pc.current / 256) as u8,
            ).update(old(self).sp.current + 1, (old(self).pc.current % 256) as u8),
            !in_stack(old(self).sp.current + 2) ==> pushed == Err::<(), Fault>(Fault::OutOfRange)
                && *final(self) == *old(self),
    {
        self.sp.next()?;
        let current = self.sp.current;
        let addr = self.pc.current;
        self.memory.write(current, (addr / 256) as u8);
        self.memory.write(current + 1, (addr % 256) as u8);
        self.sp.move_forward()
    }

    /// Turns every pixel of the display off.
    pub fn clear_display(&mut self)
        ensures
            *final(self) == (Cpu { graphics: final(self).graphics, ..*old(self) }),
            final(self).graphics.wf(),
            final(self).graphics@ == Seq::new(2048, |p: int| false),
            final(self).graphics.redraw == old(self).graphics.redraw,
    {
        self.graphics.clear();
    }

    /// The display as 2048 pixels in row-major order: 32 rows of 64.
    pub fn display_data(&self) -> (pixels: Vec<bool>)
        ensures
            pixels@ == self.graphics@,
    {
        self.graphics.pixels()
    }
}

} // verus!
