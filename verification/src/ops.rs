//! The instructions. Each one takes the processor and the instruction word,
//! and either carries the instruction out or reports a fault and leaves the
//! processor as it was.

use rand::rngs::ThreadRng;
use rand::Rng;
use vstd::prelude::*;

use crate::cpu::Cpu;
use crate::fault::Fault;
use crate::machine::{bcd, Machine, FONT_START};
use crate::memory::overlay;
use crate::opcode::Opcode;
use crate::output::font::SPRITE_HEIGHT;
use crate::output::graphics::{
    collides_upto, lemma_row_drawn, lemma_sprite_empty, sprite_covers_upto, touches_upto,
};

verus! {

/// What an instruction word can ask for.
#[derive(Clone, Copy, Debug, PartialEq, Eq, Structural)]
pub enum Operation {
    NoOp,
    Unknown,
    ClearDisplay,
    ReturnFromSubroutine,
    JumpAddr,
    CallAddr,
    SkipEqualVxByte,
    SkipNotEqualVxByte,
    SkipEqualVxVy,
    LoadVxByte,
    AddVxByte,
    LoadVxVy,
    OrVxVy,
    AndVxVy,
    XorVxVy,
    AddVxVy,
    SubVxVy,
    ShrVxVy,
    SubnVxVy,
    ShlVxVy,
    SkipNotEqualVxVy,
    LoadIAddr,
    JumpV0Addr,
    RandVxByte,
    DrawVxVyN,
    SkipKeyPressedVx,
    SkipKeyNotPressedVx,
    LoadVxDt,
    LoadVxKey,
    LoadDtVx,
    LoadStVx,
    AddIVx,
    LoadIVxFont,
    LoadBcdVx,
    LoadThroughVx,
    ReadThroughVx,
}

/// The operation that an instruction word stands for: the family nibble
/// decides, and within the families 0, 8, E and F the low byte or nibble.
/// Whatever is not an instruction is `Unknown`.
pub open spec fn decode(opcode: Opcode) -> Operation {
    let family = opcode.spec_first_hex_digit();
    let kk = opcode.spec_kk();
    let k = opcode.spec_k();
    if family == 0x0 {
        if kk == 0x00 {
            Operation::NoOp
        } else if kk == 0xE0 {
            Operation::ClearDisplay
        } else if kk == 0xEE {
            Operation::ReturnFromSubroutine
        } else {
            Operation::Unknown
        }
    } else if family == 0x1 {
        Operation::JumpAddr
    } else if family == 0x2 {
        Operation::CallAddr
    } else if family == 0x3 {
        Operation::SkipEqualVxByte
    } else if family == 0x4 {
        Operation::SkipNotEqualVxByte
    } else if family == 0x5 {
        Operation::SkipEqualVxVy
    } else if family == 0x6 {
        Operation::LoadVxByte
    } else if family == 0x7 {
        Operation::AddVxByte
    } else if family == 0x8 {
        if k == 0x0 {
            Operation::LoadVxVy
        } else if k == 0x1 {
            Operation::OrVxVy
        } else if k == 0x2 {
            Operation::AndVxVy
        } else if k == 0x3 {
            Operation::XorVxVy
        } else if k == 0x4 {
            Operation::AddVxVy
        } else if k == 0x5 {
            Operation::SubVxVy
        } else if k == 0x6 {
            Operation::ShrVxVy
        } else if k == 0x7 {
            Operation::SubnVxVy
        } else if k == 0xE {
            Operation::ShlVxVy
        } else {
            Operation::Unknown
        }
    } else if family == 0x9 {
        Operation::SkipNotEqualVxVy
    } else if family == 0xA {
        Operation::LoadIAddr
    } else if family == 0xB {
        Operation::JumpV0Addr
    } else if family == 0xC {
        Operation::RandVxByte
    } else if family == 0xD {
        Operation::DrawVxVyN
    } else if family == 0xE {
        if kk == 0x9E {
            Operation::SkipKeyPressedVx
        } else if kk == 0xA1 {
            Operation::SkipKeyNotPressedVx
        } else {
            Operation::Unknown
        }
    } else if family == 0xF {
        if kk == 0x07 {
            Operation::LoadVxDt
        } else if kk == 0x0A {
            Operation::LoadVxKey
        } else if kk == 0x15 {
            Operation::LoadDtVx
        } else if kk == 0x18 {
            Operation::LoadStVx
        } else if kk == 0x1E {
            Operation::AddIVx
        } else if kk == 0x29 {
            Operation::LoadIVxFont
        } else if kk == 0x33 {
            Operation::LoadBcdVx
        } else if kk == 0x55 {
            Operation::LoadThroughVx
        } else if kk == 0x65 {
            Operation::ReadThroughVx
        } else {
            Operation::Unknown
        }
    } else {
        Operation::Unknown
    }
}

/// Whether `post` and `result` are what an instruction leaves of `pre`, when
/// `expected` is what the instruction makes of the machine: that machine in
/// a valid processor, or the fault and the processor untouched.
pub open spec fn ran(
    pre: Cpu,
    post: Cpu,
    expected: Result<Machine, Fault>,
    result: Result<(), Fault>,
) -> bool {
    match expected {
        Ok(machine) => result is Ok && post@ == machine && post.wf(),
        Err(fault) => result == Err::<(), Fault>(fault) && post == pre,
    }
}

/// Whether both timers of `post` are those of `pre`, the countdown and the
/// clock reading of its last write. Only the two instructions that write a
/// timer touch one, and each of them leaves the other.
pub open spec fn timers_kept(pre: Cpu, post: Cpu) -> bool {
    post.dt == pre.dt && post.st == pre.st
}

/// Whether `post` and `result` are what `op` makes of `pre` when chance
/// supplies `random`. A timer that `op` does not write is kept, the
/// countdown and the clock reading of its last write.
pub open spec fn outcome(
    pre: Cpu,
    post: Cpu,
    op: Operation,
    opcode: Opcode,
    random: u8,
    result: Result<(), Fault>,
) -> bool {
    &&& ran(pre, post, pre@.execute(op, opcode, random), result)
    &&& op != Operation::LoadDtVx ==> post.dt == pre.dt
    &&& op != Operation::LoadStVx ==> post.st == pre.st
}

/// `0000`: nothing but the move to the next instruction.
pub fn no_op(cpu: &mut Cpu, opcode: &Opcode) -> (result: Result<(), Fault>)
    requires
        old(cpu).wf(),
    ensures
        ran(*old(cpu), *final(cpu), old(cpu)@.no_op(), result),
        timers_kept(*old(cpu), *final(cpu)),
{
    cpu.advance_pc()
}

/// A word that is no instruction: the machine stops with `UnknownOpcode`.
pub fn unknown(cpu: &mut Cpu, opcode: &Opcode) -> (result: Result<(), Fault>)
    requires
        old(cpu).wf(),
    ensures
        ran(*old(cpu), *final(cpu), Err::<Machine, Fault>(Fault::UnknownOpcode), result),
        timers_kept(*old(cpu), *final(cpu)),
{
    Err(Fault::UnknownOpcode)
}

/// Moves on by one instruction, or by two if `p`.
pub fn skip_if(cpu: &mut Cpu, p: bool) -> (result: Result<(), Fault>)
    requires
        old(cpu).wf(),
    ensures
        ran(*old(cpu), *final(cpu), old(cpu)@.skip_if(p), result),
        timers_kept(*old(cpu), *final(cpu)),
{
    let landing = cpu.pc.next()?;
    if p {
        if !cpu.pc.contains(landing + 2) {
            return Err(Fault::OutOfRange);
        }
        cpu.pc.current = landing + 2;
    } else {
        cpu.pc.current = landing;
    }
    Ok(())
}

/// `3xkk`: skips the next instruction if `Vx == kk`.
pub fn skip_equal_vx_byte(cpu: &mut Cpu, opcode: &Opcode) -> (result: Result<(), Fault>)
    requires
        old(cpu).wf(),
    ensures
        ran(*old(cpu), *final(cpu), old(cpu)@.skip_equal_vx_byte(*opcode), result),
        timers_kept(*old(cpu), *final(cpu)),
{
    let vx = cpu.read_register(opcode.x());
    let byte = opcode.kk();
    skip_if(cpu, vx == byte)
}

/// `4xkk`: skips the next instruction if `Vx != kk`.
pub fn skip_not_equal_vx_byte(cpu: &mut Cpu, opcode: &Opcode) -> (result: Result<(), Fault>)
    requires
        old(cpu).wf(),
    ensures
        ran(*old(cpu), *final(cpu), old(cpu)@.skip_not_equal_vx_byte(*opcode), result),
        timers_kept(*old(cpu), *final(cpu)),
{
    let vx = cpu.read_register(opcode.x());
    let byte = opcode.kk();
    skip_if(cpu, vx != byte)
}

/// `5xy0`: skips the next instruction if `Vx == Vy`.
pub fn skip_equal_vx_vy(cpu: &mut Cpu, opcode: &Opcode) -> (result: Result<(), Fault>)
    requires
        old(cpu).wf(),
    ensures
        ran(*old(cpu), *final(cpu), old(cpu)@.skip_equal_vx_vy(*opcode), result),
        timers_kept(*old(cpu), *final(cpu)),
{
    let vx = cpu.read_register(opcode.x());
    let vy = cpu.read_register(opcode.y());
    skip_if(cpu, vx == vy)
}

/// `9xy0`: skips the next instruction if `Vx != Vy`.
pub fn skip_not_equal_vx_vy(cpu: &mut Cpu, opcode: &Opcode) -> (result: Result<(), Fault>)
    requires
        old(cpu).wf(),
    ensures
        ran(*old(cpu), *final(cpu), old(cpu)@.skip_not_equal_vx_vy(*opcode), result),
        timers_kept(*old(cpu), *final(cpu)),
{
    let x = opcode.x();
    let y = opcode.y();
    let vx = cpu.read_register(x);
    let vy = cpu.read_register(y);
    skip_if(cpu, vx != vy)
}

/// `6xkk`: `Vx = kk`.
pub fn load_vx_byte(cpu: &mut Cpu, opcode: &Opcode) -> (result: Result<(), Fault>)
    requires
        old(cpu).wf(),
    ensures
        ran(*old(cpu), *final(cpu), old(cpu)@.load_vx_byte(*opcode), result),
        timers_kept(*old(cpu), *final(cpu)),
{
    cpu.advance_pc()?;
    let x = opcode.x();
    cpu.load_register(x, opcode.kk());
    Ok(())
}

/// `7xkk`: `Vx = Vx + kk`, wrapping; the flag is not touched.
pub fn add_vx_byte(cpu: &mut Cpu, opcode: &Opcode) -> (result: Result<(), Fault>)
    requires
        old(cpu).wf(),
    ensures
        ran(*old(cpu), *final(cpu), old(cpu)@.add_vx_byte(*opcode), result),
        timers_kept(*old(cpu), *final(cpu)),
{
    cpu.advance_pc()?;
    let x = opcode.x();
    let byte = opcode.kk();
    let vx = cpu.read_register(x);
    let sum = vx.wrapping_add(byte);
    assert(sum == ((vx + byte) % 256) as u8);
    cpu.load_register(x, sum);
    Ok(())
}

/// `8xy0`: `Vx = Vy`.
pub fn load_vx_vy(cpu: &mut Cpu, opcode: &Opcode) -> (result: Result<(), Fault>)
    requires
        old(cpu).wf(),
    ensures
        ran(*old(cpu), *final(cpu), old(cpu)@.load_vx_vy(*opcode), result),
        timers_kept(*old(cpu), *final(cpu)),
{
    cpu.advance_pc()?;
    let x = opcode.x();
    let y = opcode.y();
    let vy = cpu.read_register(y);
    cpu.load_register(x, vy);
    Ok(())
}

/// `8xy1`: `Vx = Vx | Vy`.
pub fn or_vx_vy(cpu: &mut Cpu, opcode: &Opcode) -> (result: Result<(), Fault>)
    requires
        old(cpu).wf(),
    ensures
        ran(*old(cpu), *final(cpu), old(cpu)@.or_vx_vy(*opcode), result),
        timers_kept(*old(cpu), *final(cpu)),
{
    cpu.advance_pc()?;
    let x = opcode.x();
    let y = opcode.y();
    let vx = cpu.read_register(x);
    let vy = cpu.read_register(y);
    cpu.load_register(x, vx | vy);
    Ok(())
}

/// `8xy2`: `Vx = Vx & Vy`.
pub fn and_vx_vy(cpu: &mut Cpu, opcode: &Opcode) -> (result: Result<(), Fault>)
    requires
        old(cpu).wf(),
    ensures
        ran(*old(cpu), *final(cpu), old(cpu)@.and_vx_vy(*opcode), result),
        timers_kept(*old(cpu), *final(cpu)),
{
    cpu.advance_pc()?;
    let x = opcode.x();
    let y = opcode.y();
    let vx = cpu.read_register(x);
    let vy = cpu.read_register(y);
    cpu.load_register(x, vx & vy);
    Ok(())
}

/// `8xy3`: `Vx = Vx ^ Vy`.
pub fn xor_vx_vy(cpu: &mut Cpu, opcode: &Opcode) -> (result: Result<(), Fault>)
    requires
        old(cpu).wf(),
    ensures
        ran(*old(cpu), *final(cpu), old(cpu)@.xor_vx_vy(*opcode), result),
        timers_kept(*old(cpu), *final(cpu)),
{
    cpu.advance_pc()?;
    let x = opcode.x();
    let y = opcode.y();
    let vx = cpu.read_register(x);
    let vy = cpu.read_register(y);
    cpu.load_register(x, vx ^ vy);
    Ok(())
}

/// `8xy4`: `Vx = Vx + Vy`, wrapping; the flag is 1 if and only if the sum
/// does not fit in eight bits.
pub fn add_vx_vy(cpu: &mut Cpu, opcode: &Opcode) -> (result: Result<(), Fault>)
    requires
        old(cpu).wf(),
    ensures
        ran(*old(cpu), *final(cpu), old(cpu)@.add_vx_vy(*opcode), result),
        timers_kept(*old(cpu), *final(cpu)),
{
    cpu.advance_pc()?;
    let x = opcode.x();
    let y = opcode.y();
    let vx = cpu.read_register(x);
    let vy = cpu.read_register(y);
    let carry = vx as u16 + vy as u16 > 0xFF;
    let sum = vx.wrapping_add(vy);
    assert(sum == ((vx + vy) % 256) as u8);
    cpu.load_register(x, sum);
    cpu.load_flag(carry);
    Ok(())
}

/// `8xy5`: `Vx = Vx - Vy`, wrapping; the flag is 1 if and only if nothing
/// was borrowed, that is if `Vx >= Vy`.
pub fn sub_vx_vy(cpu: &mut Cpu, opcode: &Opcode) -> (result: Result<(), Fault>)
    requires
        old(cpu).wf(),
    ensures
        ran(*old(cpu), *final(cpu), old(cpu)@.sub_vx_vy(*opcode), result),
        timers_kept(*old(cpu), *final(cpu)),
{
    cpu.advance_pc()?;
    let x = opcode.x();
    let y = opcode.y();
    let vx = cpu.read_register(x);
    let vy = cpu.read_register(y);
    let borrow = vx < vy;
    let difference = vx.wrapping_sub(vy);
    assert(difference == ((vx - vy) % 256) as u8);
    cpu.load_register(x, difference);
    cpu.load_flag(!borrow);
    Ok(())
}

/// `8xy6`: `Vx = Vy >> 1`; the flag is the bit that was shifted out, the
/// lowest bit of `Vy`.
pub fn shr_vx_vy(cpu: &mut Cpu, opcode: &Opcode) -> (result: Result<(), Fault>)
    requires
        old(cpu).wf(),
    ensures
        ran(*old(cpu), *final(cpu), old(cpu)@.shr_vx_vy(*opcode), result),
        timers_kept(*old(cpu), *final(cpu)),
{
    cpu.advance_pc()?;
    let x = opcode.x();
    let y = opcode.y();
    let vy = cpu.read_register(y);
    let bit = vy % 2;
    assert(vy >> 1 == vy / 2) by (bit_vector);
    cpu.load_register(x, vy >> 1);
    cpu.load_flag(bit == 1);
    Ok(())
}

/// `8xy7`: `Vx = Vy - Vx`, wrapping; the flag is 1 if and only if nothing
/// was borrowed, that is if `Vy >= Vx`.
pub fn subn_vx_vy(cpu: &mut Cpu, opcode: &Opcode) -> (result: Result<(), Fault>)
    requires
        old(cpu).wf(),
    ensures
        ran(*old(cpu), *final(cpu), old(cpu)@.subn_vx_vy(*opcode), result),
        timers_kept(*old(cpu), *final(cpu)),
{
    cpu.advance_pc()?;
    let x = opcode.x();
    let y = opcode.y();
    let vx = cpu.read_register(x);
    let vy = cpu.read_register(y);
    let borrow = vy < vx;
    let difference = vy.wrapping_sub(vx);
    assert(difference == ((vy - vx) % 256) as u8);
    cpu.load_register(x, difference);
    cpu.load_flag(!borrow);
    Ok(())
}

/// `8xyE`: `Vx = Vy << 1`; the flag is the bit that was shifted out, the
/// highest bit of `Vy`.
pub fn shl_vx_vy(cpu: &mut Cpu, opcode: &Opcode) -> (result: Result<(), Fault>)
    requires
        old(cpu).wf(),
    ensures
        ran(*old(cpu), *final(cpu), old(cpu)@.shl_vx_vy(*opcode), result),
        timers_kept(*old(cpu), *final(cpu)),
{
    cpu.advance_pc()?;
    let x = opcode.x();
    let y = opcode.y();
    let vy = cpu.read_register(y);
    let bit = vy >> 7;
    assert(vy << 1 == (vy * 2) % 256 && (vy >> 7 == 1 <==> vy >= 128)) by (bit_vector);
    cpu.load_register(x, vy << 1);
    cpu.load_flag(bit == 1);
    Ok(())
}

/// `00E0`: every pixel of the display goes dark.
pub fn clear_display(cpu: &mut Cpu, opcode: &Opcode) -> (result: Result<(), Fault>)
    requires
        old(cpu).wf(),
    ensures
        ran(*old(cpu), *final(cpu), old(cpu)@.clear_display(), result),
        timers_kept(*old(cpu), *final(cpu)),
{
    cpu.advance_pc()?;
    cpu.clear_display();
    Ok(())
}

/// `00EE`: takes the latest return address off the stack and jumps to it.
pub fn return_from_subroutine(cpu: &mut Cpu, opcode: &Opcode) -> (result: Result<(), Fault>)
    requires
        old(cpu).wf(),
    ensures
        ran(*old(cpu), *final(cpu), old(cpu)@.return_from_subroutine(), result),
        timers_kept(*old(cpu), *final(cpu)),
{
    let slot = cpu.sp.prev()?;
    let popped = cpu.memory.read(slot) as usize * 256 + cpu.memory.read(slot + 1) as usize;
    if !cpu.pc.contains(popped) {
        return Err(Fault::OutOfRange);
    }
    let addr = cpu.stack_pop()?;
    cpu.jump(addr)
}

/// `1nnn`: jumps to `nnn`. A jump onto itself is how a program halts: it
/// sets `exit` and changes nothing else.
pub fn jump_addr(cpu: &mut Cpu, opcode: &Opcode) -> (result: Result<(), Fault>)
    requires
        old(cpu).wf(),
    ensures
        ran(*old(cpu), *final(cpu), old(cpu)@.jump_addr(*opcode), result),
        timers_kept(*old(cpu), *final(cpu)),
{
    let addr = opcode.nnn();
    if cpu.pc.current == addr {
        cpu.exit = true;
        return Ok(());
    }
    cpu.jump(addr)
}

/// `2nnn`: puts the program counter on the stack and jumps to `nnn`.
pub fn call_addr(cpu: &mut Cpu, opcode: &Opcode) -> (result: Result<(), Fault>)
    requires
        old(cpu).wf(),
    ensures
        ran(*old(cpu), *final(cpu), old(cpu)@.call_addr(*opcode), result),
        timers_kept(*old(cpu), *final(cpu)),
{
    let addr = opcode.nnn();
    if !cpu.pc.contains(addr) {
        return Err(Fault::OutOfRange);
    }
    cpu.stack_push()?;
    cpu.pc.current = addr;
    Ok(())
}

/// `Annn`: `I = nnn`.
pub fn load_i_addr(cpu: &mut Cpu, opcode: &Opcode) -> (result: Result<(), Fault>)
    requires
        old(cpu).wf(),
    ensures
        ran(*old(cpu), *final(cpu), old(cpu)@.load_i_addr(*opcode), result),
        timers_kept(*old(cpu), *final(cpu)),
{
    let addr = opcode.nnn();
    if !cpu.i.contains(addr) {
        return Err(Fault::OutOfRange);
    }
    cpu.advance_pc()?;
    cpu.i.current = addr;
    Ok(())
}

/// `Bnnn`: jumps to `nnn + V0`.
pub fn jump_v0_addr(cpu: &mut Cpu, opcode: &Opcode) -> (result: Result<(), Fault>)
    requires
        old(cpu).wf(),
    ensures
        ran(*old(cpu), *final(cpu), old(cpu)@.jump_v0_addr(*opcode), result),
        timers_kept(*old(cpu), *final(cpu)),
{
    let v0 = cpu.read_register(0x0) as usize;
    let addr = opcode.nnn();
    cpu.jump(addr + v0)
}

/// `rand::rngs::ThreadRng`, a handle to the generator that the thread
/// keeps. Nothing is known of what a value of it holds.
#[verifier::external_type_specification]
#[verifier::external_body]
pub struct ExThreadRng(ThreadRng);

/// Calls `rand::thread_rng` for the generator of this thread, which the
/// operating system has seeded. Nothing is claimed of the handle.
#[verifier::external_body]
fn thread_generator() -> (generator: ThreadRng) {
    rand::thread_rng()
}

/// Calls `Rng::gen` for a `u8`, which takes the low eight bits of the next
/// word of the generator: every byte can come. Nothing is claimed of the
/// byte.
#[verifier::external_body]
fn random_byte(generator: &mut ThreadRng) -> (byte: u8) {
    generator.gen::<u8>()
}

/// `Cxkk` with the byte that chance supplied: `Vx = random_byte & kk`.
pub fn rand_vx_byte_with(cpu: &mut Cpu, opcode: &Opcode, random_byte: u8) -> (result: Result<
    (),
    Fault,
>)
    requires
        old(cpu).wf(),
    ensures
        ran(*old(cpu), *final(cpu), old(cpu)@.rand_vx_byte(*opcode, random_byte), result),
        timers_kept(*old(cpu), *final(cpu)),
{
    cpu.advance_pc()?;
    let x = opcode.x();
    let byte = opcode.kk();
    cpu.load_register(x, random_byte & byte);
    Ok(())
}

/// `Cxkk`: `Vx = random & kk` for a byte drawn at random. Which byte is
/// chance's to say; the outcome is that of `rand_vx_byte_with` for one of
/// them.
pub fn rand_vx_byte(cpu: &mut Cpu, opcode: &Opcode) -> (result: Result<(), Fault>)
    requires
        old(cpu).wf(),
    ensures
        exists|random: u8|
            ran(*old(cpu), *final(cpu), old(cpu)@.rand_vx_byte(*opcode, random), result),
        timers_kept(*old(cpu), *final(cpu)),
{
    let mut generator = thread_generator();
    let random = random_byte(&mut generator);
    rand_vx_byte_with(cpu, opcode, random)
}

/// `Ex9E`: a key query. Keys are the host's business, so this changes
/// nothing, not even the program counter.
pub fn skip_key_pressed_vx(cpu: &mut Cpu, opcode: &Opcode) -> (result: Result<(), Fault>)
    requires
        old(cpu).wf(),
    ensures
        ran(*old(cpu), *final(cpu), old(cpu)@.key(), result),
        timers_kept(*old(cpu), *final(cpu)),
{
    Ok(())
}

/// `ExA1`: a key query. It changes nothing, not even the program counter.
pub fn skip_key_not_pressed_vx(cpu: &mut Cpu, opcode: &Opcode) -> (result: Result<(), Fault>)
    requires
        old(cpu).wf(),
    ensures
        ran(*old(cpu), *final(cpu), old(cpu)@.key(), result),
        timers_kept(*old(cpu), *final(cpu)),
{
    Ok(())
}

/// `Fx0A`: a wait for a key. It changes nothing, not even the program
/// counter.
pub fn load_vx_key(cpu: &mut Cpu, opcode: &Opcode) -> (result: Result<(), Fault>)
    requires
        old(cpu).wf(),
    ensures
        ran(*old(cpu), *final(cpu), old(cpu)@.key(), result),
        timers_kept(*old(cpu), *final(cpu)),
{
    Ok(())
}

/// `Fx07`: `Vx = DT`.
pub fn load_vx_dt(cpu: &mut Cpu, opcode: &Opcode) -> (result: Result<(), Fault>)
    requires
        old(cpu).wf(),
    ensures
        ran(*old(cpu), *final(cpu), old(cpu)@.load_vx_dt(*opcode), result),
        timers_kept(*old(cpu), *final(cpu)),
{
    cpu.advance_pc()?;
    let x = opcode.x();
    let dt = cpu.read_delay_timer();
    cpu.load_register(x, dt);
    Ok(())
}

/// `Fx15`: `DT = Vx`.
pub fn load_dt_vx(cpu: &mut Cpu, opcode: &Opcode) -> (result: Result<(), Fault>)
    requires
        old(cpu).wf(),
    ensures
        ran(*old(cpu), *final(cpu), old(cpu)@.load_dt_vx(*opcode), result),
        final(cpu).st == old(cpu).st,
{
    cpu.advance_pc()?;
    let x = opcode.x();
    let vx = cpu.read_register(x);
    cpu.load_delay_timer(vx);
    Ok(())
}

/// `Fx18`: `ST = Vx`.
pub fn load_st_vx(cpu: &mut Cpu, opcode: &Opcode) -> (result: Result<(), Fault>)
    requires
        old(cpu).wf(),
    ensures
        ran(*old(cpu), *final(cpu), old(cpu)@.load_st_vx(*opcode), result),
        final(cpu).dt == old(cpu).dt,
{
    cpu.advance_pc()?;
    let x = opcode.x();
    let vx = cpu.read_register(x);
    cpu.load_sound_timer(vx);
    Ok(())
}

/// `Fx1E`: `I = I + Vx`.
pub fn add_i_vx(cpu: &mut Cpu, opcode: &Opcode) -> (result: Result<(), Fault>)
    requires
        old(cpu).wf(),
    ensures
        ran(*old(cpu), *final(cpu), old(cpu)@.add_i_vx(*opcode), result),
        timers_kept(*old(cpu), *final(cpu)),
{
    let i = cpu.read_i();
    let x = opcode.x();
    let vx = cpu.read_register(x) as usize;
    let addr = i.wrapping_add(vx);
    if !cpu.i.contains(addr) {
        return Err(Fault::OutOfRange);
    }
    cpu.advance_pc()?;
    cpu.i.current = addr;
    Ok(())
}

/// `Fx29`: `I` = where the glyph of the digit in `Vx` starts.
pub fn load_i_vx_font(cpu: &mut Cpu, opcode: &Opcode) -> (result: Result<(), Fault>)
    requires
        old(cpu).wf(),
    ensures
        ran(*old(cpu), *final(cpu), old(cpu)@.load_i_vx_font(*opcode), result),
        timers_kept(*old(cpu), *final(cpu)),
{
    let x = opcode.x();
    let vx = cpu.read_register(x) as usize;
    let addr = FONT_START + vx * SPRITE_HEIGHT;
    if !cpu.i.contains(addr) {
        return Err(Fault::OutOfRange);
    }
    cpu.advance_pc()?;
    cpu.i.current = addr;
    Ok(())
}

/// `Fx33`: the hundreds, tens and ones of `Vx` go to `[I]`, `[I + 1]` and
/// `[I + 2]`.
pub fn load_bcd_vx(cpu: &mut Cpu, opcode: &Opcode) -> (result: Result<(), Fault>)
    requires
        old(cpu).wf(),
    ensures
        ran(*old(cpu), *final(cpu), old(cpu)@.load_bcd_vx(*opcode), result),
        timers_kept(*old(cpu), *final(cpu)),
{
    cpu.advance_pc()?;
    let x = opcode.x();
    let vx = cpu.read_register(x);
    let bytes = vec![vx / 100, vx % 100 / 10, vx % 10];
    assert(bytes@ =~= bcd(vx));
    cpu.load_image_bytes(&bytes);
    Ok(())
}

/// `Fx55`: `V0..=Vx` go to memory from `I` on, and `I` moves past them.
pub fn load_through_vx(cpu: &mut Cpu, opcode: &Opcode) -> (result: Result<(), Fault>)
    requires
        old(cpu).wf(),
    ensures
        ran(*old(cpu), *final(cpu), old(cpu)@.load_through_vx(*opcode), result),
        timers_kept(*old(cpu), *final(cpu)),
{
    let x = opcode.x();
    let i = cpu.read_i();
    if !cpu.i.contains(i + x + 1) {
        return Err(Fault::OutOfRange);
    }
    cpu.advance_pc()?;
    let mut bytes: Vec<u8> = Vec::new();
    let mut r: usize = 0;
    while r < x + 1
        invariant
            r <= x + 1 <= 16,
            bytes@ == cpu.v@.subrange(0, r as int),
        decreases x + 1 - r,
    {
        bytes.push(cpu.read_register(r));
        r = r + 1;
        assert(bytes@ =~= cpu.v@.subrange(0, r as int));
    }
    cpu.load_image_bytes(&bytes);
    cpu.i.current = i + x + 1;
    Ok(())
}

/// `Fx65`: `V0..=Vx` are filled from memory from `I` on, and `I` moves past
/// what was read.
pub fn read_through_vx(cpu: &mut Cpu, opcode: &Opcode) -> (result: Result<(), Fault>)
    requires
        old(cpu).wf(),
    ensures
        ran(*old(cpu), *final(cpu), old(cpu)@.read_through_vx(*opcode), result),
        timers_kept(*old(cpu), *final(cpu)),
{
    let x = opcode.x();
    let i = cpu.read_i();
    if !cpu.i.contains(i + x + 1) {
        return Err(Fault::OutOfRange);
    }
    cpu.advance_pc()?;
    let bytes = cpu.read_image_bytes(x + 1);
    let ghost entered = *cpu;
    let mut r: usize = 0;
    while r < x + 1
        invariant
            r <= x + 1 <= 16,
            bytes@.len() == x + 1,
            *cpu == (Cpu { v: cpu.v, ..entered }),
            cpu.v@ == overlay(entered.v@, 0, bytes@.subrange(0, r as int)),
        decreases x + 1 - r,
    {
        cpu.load_register(r, bytes[r]);
        r = r + 1;
        assert(cpu.v@ =~= overlay(entered.v@, 0, bytes@.subrange(0, r as int)));
    }
    assert(bytes@.subrange(0, r as int) =~= bytes@);
    cpu.i.current = i + x + 1;
    Ok(())
}

/// `Dxyn`: draws the `n`-row sprite under `I` at `(Vx, Vy)`. Each row is
/// XOR-composited onto the display, both axes wrapping; the flag becomes 1 if
/// any lit pixel went dark, else 0.
pub fn draw_vx_vy_n(cpu: &mut Cpu, opcode: &Opcode) -> (result: Result<(), Fault>)
    requires
        old(cpu).wf(),
    ensures
        ran(*old(cpu), *final(cpu), old(cpu)@.draw_vx_vy_n(*opcode), result),
        timers_kept(*old(cpu), *final(cpu)),
{
    cpu.advance_pc()?;
    let vx = cpu.read_register(opcode.x()) as usize;
    let vy = cpu.read_register(opcode.y()) as usize;
    let n = opcode.k();
    let sprite_bytes = cpu.read_image_bytes(n);
    let ghost entered = *cpu;
    let ghost shown = entered.graphics@;
    let ghost rows = sprite_bytes@;
    let mut collision = false;
    let mut sprite_y: usize = 0;
    proof {
        lemma_sprite_empty(shown, vx as int, vy as int, rows);
    }
    while sprite_y < n
        invariant
            sprite_y <= n < 16,
            vx < 256,
            vy < 256,
            rows == sprite_bytes@,
            rows.len() == n,
            shown == entered.graphics@,
            shown.len() == 2048,
            cpu.wf(),
            *cpu == (Cpu { graphics: cpu.graphics, ..entered }),
            forall|p: int|
                0 <= p < 2048 ==> cpu.graphics@[p] == (shown[p] != #[trigger] sprite_covers_upto(
                    vx as int,
                    vy as int,
                    rows,
                    sprite_y as int,
                    p,
                )),
            collision == collides_upto(shown, vx as int, vy as int, rows, sprite_y as int),
            cpu.graphics.redraw == (entered.graphics.redraw || touches_upto(
                vx as int,
                vy as int,
                rows,
                sprite_y as int,
            )),
        decreases n - sprite_y,
    {
        let sprite_byte = sprite_bytes[sprite_y];
        let ghost before = cpu.graphics@;
        if cpu.draw_byte(vx, vy + sprite_y, sprite_byte) {
            collision = true;
        }
        proof {
            lemma_row_drawn(
                shown,
                before,
                cpu.graphics@,
                vx as int,
                vy as int,
                rows,
                sprite_y as int,
            );
        }
        sprite_y = sprite_y + 1;
    }
    cpu.load_flag(collision);
    assert(cpu@.pixels =~= old(cpu)@.draw_vx_vy_n(*opcode)->Ok_0.pixels);
    Ok(())
}

impl Operation {
    /// Carries the operation out, with `random` as the byte that chance
    /// supplies to `RND`.
    pub fn apply_with(self, cpu: &mut Cpu, opcode: &Opcode, random: u8) -> (result: Result<
        (),
        Fault,
    >)
        requires
            old(cpu).wf(),
        ensures
            outcome(*old(cpu), *final(cpu), self, *opcode, random, result),
    {
        reveal(Machine::execute);
        match self {
            Operation::NoOp => no_op(cpu, opcode),
            Operation::Unknown => unknown(cpu, opcode),
            Operation::ClearDisplay => clear_display(cpu, opcode),
            Operation::ReturnFromSubroutine => return_from_subroutine(cpu, opcode),
            Operation::JumpAddr => jump_addr(cpu, opcode),
            Operation::CallAddr => call_addr(cpu, opcode),
            Operation::SkipEqualVxByte => skip_equal_vx_byte(cpu, opcode),
            Operation::SkipNotEqualVxByte => skip_not_equal_vx_byte(cpu, opcode),
            Operation::SkipEqualVxVy => skip_equal_vx_vy(cpu, opcode),
            Operation::LoadVxByte => load_vx_byte(cpu, opcode),
            Operation::AddVxByte => add_vx_byte(cpu, opcode),
            Operation::LoadVxVy => load_vx_vy(cpu, opcode),
            Operation::OrVxVy => or_vx_vy(cpu, opcode),
            Operation::AndVxVy => and_vx_vy(cpu, opcode),
            Operation::XorVxVy => xor_vx_vy(cpu, opcode),
            Operation::AddVxVy => add_vx_vy(cpu, opcode),
            Operation::SubVxVy => sub_vx_vy(cpu, opcode),
            Operation::ShrVxVy => shr_vx_vy(cpu, opcode),
            Operation::SubnVxVy => subn_vx_vy(cpu, opcode),
            Operation::ShlVxVy => shl_vx_vy(cpu, opcode),
            Operation::SkipNotEqualVxVy => skip_not_equal_vx_vy(cpu, opcode),
            Operation::LoadIAddr => load_i_addr(cpu, opcode),
            Operation::JumpV0Addr => jump_v0_addr(cpu, opcode),
            Operation::RandVxByte => rand_vx_byte_with(cpu, opcode, random),
            Operation::DrawVxVyN => draw_vx_vy_n(cpu, opcode),
            Operation::SkipKeyPressedVx => skip_key_pressed_vx(cpu, opcode),
            Operation::SkipKeyNotPressedVx => skip_key_not_pressed_vx(cpu, opcode),
            Operation::LoadVxDt => load_vx_dt(cpu, opcode),
            Operation::LoadVxKey => load_vx_key(cpu, opcode),
            Operation::LoadDtVx => load_dt_vx(cpu, opcode),
            Operation::LoadStVx => load_st_vx(cpu, opcode),
            Operation::AddIVx => add_i_vx(cpu, opcode),
            Operation::LoadIVxFont => load_i_vx_font(cpu, opcode),
            Operation::LoadBcdVx => load_bcd_vx(cpu, opcode),
            Operation::LoadThroughVx => load_through_vx(cpu, opcode),
            Operation::ReadThroughVx => read_through_vx(cpu, opcode),
        }
    }

    /// Carries the operation out. Only `RND` leaves anything to chance: for
    /// every other operation the outcome is the one that `Machine::execute`
    /// names, whatever byte it is given.
    pub fn apply(self, cpu: &mut Cpu, opcode: &Opcode) -> (result: Result<(), Fault>)
        requires
            old(cpu).wf(),
        ensures
            exists|random: u8| outcome(*old(cpu), *final(cpu), self, *opcode, random, result),
            self != Operation::RandVxByte ==> outcome(
                *old(cpu),
                *final(cpu),
                self,
                *opcode,
                0,
                result,
            ),
    {
        match self {
            Operation::RandVxByte => {
                let result = rand_vx_byte(cpu, opcode);
                proof {
                    let random = choose|random: u8|
                        ran(
                            *old(cpu),
                            *cpu,
                            old(cpu)@.rand_vx_byte(*opcode, random),
                            result,
                        );
                    reveal(Machine::execute);
                    assert(outcome(*old(cpu), *cpu, self, *opcode, random, result));
                }
                result
            },
            _ => self.apply_with(cpu, opcode, 0),
        }
    }
}

} // verus!
