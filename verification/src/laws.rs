//! What holds of the instructions whatever the machine is in.

use vstd::prelude::*;

use crate::fault::Fault;
use crate::machine::{
    in_display, in_font, in_index, in_program, in_stack, word, Machine, DISPLAY_START,
    FLAG_REGISTER, FONT_START, MAX_ADDR, ROM_START, STACK_END, STACK_START,
};
use crate::opcode::Opcode;
use crate::ops::Operation;
use crate::output::graphics::{
    blit, collides, collides_upto, lemma_column_of_pixel, pixel_index, row_bit, sprite_covers,
    sprite_covers_upto, touches, touches_upto,
};
use crate::timer::{decayed, spec_intervals_elapsed};

verus! {

/// The four regions follow one another without a gap and fill the address
/// space: every address lies in exactly one of them.
pub proof fn law_regions_partition(addr: int)
    ensures
        FONT_START <= ROM_START < STACK_START < DISPLAY_START <= MAX_ADDR,
        STACK_END == DISPLAY_START,
        0 <= addr < MAX_ADDR <==> in_font(addr) || in_program(addr) || in_stack(addr) || in_display(
            addr,
        ),
        !(in_font(addr) && in_program(addr)),
        !(in_font(addr) && in_stack(addr)),
        !(in_font(addr) && in_display(addr)),
        !(in_program(addr) && in_stack(addr)),
        !(in_program(addr) && in_display(addr)),
        !(in_stack(addr) && in_display(addr)),
        in_index(addr) <==> 0 <= addr < MAX_ADDR && !in_stack(addr),
{
}

/// `ADD Vx, Vy` with `Vx = a` and `Vy = b` leaves 1 in the flag if and only
/// if `a + b > 255`, and `(a + b) mod 256` in `Vx`. Where `Vx` is the flag
/// register itself, the flag is what it holds. The instruction is carried out
/// wherever there is a next instruction to move on to.
pub proof fn law_add_carries(machine: Machine, opcode: Opcode)
    requires
        machine.wf(),
        in_program(machine.pc + 2),
    ensures
        machine.add_vx_vy(opcode) is Ok,
        ({
            let x = opcode.spec_x() as int;
            let a = machine.v[x];
            let b = machine.v[opcode.spec_y() as int];
            let after = machine.add_vx_vy(opcode)->Ok_0;
            &&& after.flag() == 1 <==> a + b > 255
            &&& after.flag() == 0 <==> a + b <= 255
            &&& x != FLAG_REGISTER ==> after.v[x] == (a + b) % 256
        }),
{
}

/// `SUB Vx, Vy` with `Vx = a` and `Vy = b` leaves 1 in the flag if and only
/// if `a >= b`, and `(a - b) mod 256` in `Vx`. Where `Vx` is the flag
/// register itself, the flag is what it holds.
pub proof fn law_sub_borrows(machine: Machine, opcode: Opcode)
    requires
        machine.wf(),
        in_program(machine.pc + 2),
    ensures
        machine.sub_vx_vy(opcode) is Ok,
        ({
            let x = opcode.spec_x() as int;
            let a = machine.v[x];
            let b = machine.v[opcode.spec_y() as int];
            let after = machine.sub_vx_vy(opcode)->Ok_0;
            &&& after.flag() == 1 <==> a >= b
            &&& after.flag() == 0 <==> a < b
            &&& x != FLAG_REGISTER ==> after.v[x] == (a - b) % 256
        }),
{
}

/// `SUBN Vx, Vy` is `SUB` with the operands changed over: with `Vx = a` and
/// `Vy = b` it leaves 1 in the flag if and only if `b >= a`, and
/// `(b - a) mod 256` in `Vx`.
pub proof fn law_subn_mirrors(machine: Machine, opcode: Opcode)
    requires
        machine.wf(),
        in_program(machine.pc + 2),
    ensures
        machine.subn_vx_vy(opcode) is Ok,
        ({
            let x = opcode.spec_x() as int;
            let a = machine.v[x];
            let b = machine.v[opcode.spec_y() as int];
            let after = machine.subn_vx_vy(opcode)->Ok_0;
            &&& after.flag() == 1 <==> b >= a
            &&& after.flag() == 0 <==> b < a
            &&& x != FLAG_REGISTER ==> after.v[x] == (b - a) % 256
        }),
{
}

/// The instructions that add, subtract, shift and draw always leave 0 or 1
/// in the flag register.
pub proof fn law_flag_is_a_bit(machine: Machine, opcode: Opcode)
    requires
        machine.wf(),
    ensures
        machine.add_vx_vy(opcode) is Ok ==> machine.add_vx_vy(opcode)->Ok_0.flag() <= 1,
        machine.sub_vx_vy(opcode) is Ok ==> machine.sub_vx_vy(opcode)->Ok_0.flag() <= 1,
        machine.subn_vx_vy(opcode) is Ok ==> machine.subn_vx_vy(opcode)->Ok_0.flag() <= 1,
        machine.shr_vx_vy(opcode) is Ok ==> machine.shr_vx_vy(opcode)->Ok_0.flag() <= 1,
        machine.shl_vx_vy(opcode) is Ok ==> machine.shl_vx_vy(opcode)->Ok_0.flag() <= 1,
        machine.draw_vx_vy_n(opcode) is Ok ==> machine.draw_vx_vy_n(opcode)->Ok_0.flag() <= 1,
{
}

/// The instructions that load a register other than the flag register leave
/// the flag as it was.
pub proof fn law_loads_keep_the_flag(machine: Machine, opcode: Opcode, random: u8)
    requires
        machine.wf(),
        opcode.spec_x() != FLAG_REGISTER,
    ensures
        machine.load_vx_byte(opcode) is Ok ==> machine.load_vx_byte(opcode)->Ok_0.flag()
            == machine.flag(),
        machine.load_vx_vy(opcode) is Ok ==> machine.load_vx_vy(opcode)->Ok_0.flag()
            == machine.flag(),
        machine.load_vx_dt(opcode) is Ok ==> machine.load_vx_dt(opcode)->Ok_0.flag()
            == machine.flag(),
        machine.add_vx_byte(opcode) is Ok ==> machine.add_vx_byte(opcode)->Ok_0.flag()
            == machine.flag(),
        machine.rand_vx_byte(opcode, random) is Ok ==> machine.rand_vx_byte(
            opcode,
            random,
        )->Ok_0.flag() == machine.flag(),
        machine.read_through_vx(opcode) is Ok ==> machine.read_through_vx(opcode)->Ok_0.flag()
            == machine.flag(),
{
}

/// A cycle that finds a jump onto itself under the program counter, wherever
/// in the program that is, sets `exit` and changes nothing else: not memory,
/// not a register, not a cursor, not the display.
pub proof fn law_self_jump_halts(machine: Machine, random: u8)
    requires
        machine.wf(),
        machine.fetch().spec_first_hex_digit() == 1,
        machine.fetch().spec_nnn() == machine.pc,
    ensures
        machine.step(random) == Ok::<Machine, Fault>(Machine { exit: true, ..machine }),
{
    reveal(Machine::execute);
}

/// A call straight followed by a return puts the program counter back
/// where it was before the call, and the stack pointer too. Registers, index,
/// timers and display are as before; memory differs only in the stack slot
/// that the call has written the program counter to.
pub proof fn law_call_then_return(machine: Machine, call: Opcode)
    requires
        machine.wf(),
        machine.call_addr(call) is Ok,
    ensures
        ({
            let called = machine.call_addr(call)->Ok_0;
            &&& called.wf()
            &&& called.memory == machine.memory.update(machine.sp, (machine.pc / 256) as u8).update(
                machine.sp + 1,
                (machine.pc % 256) as u8,
            )
            &&& called.return_from_subroutine() == Ok::<Machine, Fault>(
                Machine { memory: called.memory, ..machine },
            )
        }),
{
    // The two bytes in the slot make up the program counter again.
    assert(word((machine.pc / 256) as u8, (machine.pc % 256) as u8) == machine.pc);
}

/// The bit in row `row`, column `column` of a sprite drawn at `(x, y)` is
/// what the sprite puts on the pixel at `(x + column, y + row)`, both axes
/// wrapping.
pub proof fn law_sprite_bit_lands(x: int, y: int, rows: Seq<u8>, row: int, column: int)
    requires
        0 <= x,
        0 <= y,
        0 <= row < rows.len() <= 32,
        0 <= column < 8,
    ensures
        0 <= pixel_index(x + column, y + row) < 2048,
        sprite_covers(x, y, rows, pixel_index(x + column, y + row)) == row_bit(
            rows[row],
            column as u8,
        ),
{
    let p = pixel_index(x + column, y + row);
    lemma_column_of_pixel(x, y + row, column, p);
    assert(p / 64 == (y + row) % 32);
    assert(((p / 64) - (y % 32) + 32) % 32 == row);
}

/// A sprite drawn at `(x, y)` covers a pixel only with one of its set bits:
/// the pixel is `column` places right and `row` places down from `(x, y)`,
/// both axes wrapping.
pub proof fn law_sprite_covers_its_bits(x: int, y: int, rows: Seq<u8>, p: int)
    requires
        0 <= x,
        0 <= y,
        rows.len() <= 32,
        0 <= p < 2048,
        sprite_covers(x, y, rows, p),
    ensures
        exists|row: int, column: int|
            0 <= row < rows.len() && 0 <= column < 8 && row_bit(rows[row], column as u8) && p
                == #[trigger] pixel_index(x + column, y + row),
{
    let row = ((p / 64) - (y % 32) + 32) % 32;
    let column = ((p % 64) - (x % 64) + 64) % 64;
    lemma_column_of_pixel(x, y + row, column, p);
    assert(p == pixel_index(x + column, y + row));
}

/// Drawing a sprite a second time at the same place undoes the first
/// drawing.
pub proof fn law_blit_twice(pixels: Seq<bool>, x: int, y: int, rows: Seq<u8>)
    ensures
        blit(blit(pixels, x, y, rows), x, y, rows) == pixels,
{
    assert(blit(blit(pixels, x, y, rows), x, y, rows) =~= pixels);
}

/// On a dark display the first drawing of a sprite collides with nothing,
/// and the second, at the same place, collides if and only if the sprite
/// has a set bit at all.
pub proof fn law_second_draw_collides(pixels: Seq<bool>, x: int, y: int, rows: Seq<u8>)
    requires
        pixels.len() == 2048,
        forall|p: int| 0 <= p < 2048 ==> !pixels[p],
    ensures
        !collides(pixels, x, y, rows),
        collides(blit(pixels, x, y, rows), x, y, rows) == touches(x, y, rows),
{
    let drawn = blit(pixels, x, y, rows);
    let count = rows.len() as int;
    if collides_upto(drawn, x, y, rows, count) {
        let p = choose|p: int|
            0 <= p < drawn.len() && drawn[p] && #[trigger] sprite_covers_upto(x, y, rows, count, p);
        assert(sprite_covers_upto(x, y, rows, count, p));
    }
    if touches_upto(x, y, rows, count) {
        let p = choose|p: int| 0 <= p < 2048 && #[trigger] sprite_covers_upto(x, y, rows, count, p);
        assert(drawn[p]);
    }
}

/// The instructions that move the program counter or the stack pointer keep
/// a valid machine valid.
pub proof fn law_control_keeps_validity(machine: Machine, opcode: Opcode)
    requires
        machine.wf(),
    ensures
        machine.no_op() is Ok ==> machine.no_op()->Ok_0.wf(),
        machine.clear_display() is Ok ==> machine.clear_display()->Ok_0.wf(),
        machine.return_from_subroutine() is Ok ==> machine.return_from_subroutine()->Ok_0.wf(),
        machine.jump_addr(opcode) is Ok ==> machine.jump_addr(opcode)->Ok_0.wf(),
        machine.call_addr(opcode) is Ok ==> machine.call_addr(opcode)->Ok_0.wf(),
        machine.skip_equal_vx_byte(opcode) is Ok ==> machine.skip_equal_vx_byte(opcode)->Ok_0.wf(),
        machine.skip_not_equal_vx_byte(opcode) is Ok ==> machine.skip_not_equal_vx_byte(
            opcode,
        )->Ok_0.wf(),
        machine.skip_equal_vx_vy(opcode) is Ok ==> machine.skip_equal_vx_vy(opcode)->Ok_0.wf(),
        machine.skip_not_equal_vx_vy(opcode) is Ok ==> machine.skip_not_equal_vx_vy(
            opcode,
        )->Ok_0.wf(),
{
}

/// The instructions that load and combine registers keep a valid machine
/// valid.
pub proof fn law_arithmetic_keeps_validity(machine: Machine, opcode: Opcode)
    requires
        machine.wf(),
    ensures
        machine.load_vx_byte(opcode) is Ok ==> machine.load_vx_byte(opcode)->Ok_0.wf(),
        machine.add_vx_byte(opcode) is Ok ==> machine.add_vx_byte(opcode)->Ok_0.wf(),
        machine.load_vx_vy(opcode) is Ok ==> machine.load_vx_vy(opcode)->Ok_0.wf(),
        machine.or_vx_vy(opcode) is Ok ==> machine.or_vx_vy(opcode)->Ok_0.wf(),
        machine.and_vx_vy(opcode) is Ok ==> machine.and_vx_vy(opcode)->Ok_0.wf(),
        machine.xor_vx_vy(opcode) is Ok ==> machine.xor_vx_vy(opcode)->Ok_0.wf(),
        machine.add_vx_vy(opcode) is Ok ==> machine.add_vx_vy(opcode)->Ok_0.wf(),
        machine.sub_vx_vy(opcode) is Ok ==> machine.sub_vx_vy(opcode)->Ok_0.wf(),
        machine.shr_vx_vy(opcode) is Ok ==> machine.shr_vx_vy(opcode)->Ok_0.wf(),
        machine.subn_vx_vy(opcode) is Ok ==> machine.subn_vx_vy(opcode)->Ok_0.wf(),
        machine.shl_vx_vy(opcode) is Ok ==> machine.shl_vx_vy(opcode)->Ok_0.wf(),
{
}

/// The instructions that use the index register, the timers, chance or the
/// display keep a valid machine valid.
pub proof fn law_index_and_memory_keeps_validity(machine: Machine, opcode: Opcode, random: u8)
    requires
        machine.wf(),
    ensures
        machine.load_i_addr(opcode) is Ok ==> machine.load_i_addr(opcode)->Ok_0.wf(),
        machine.jump_v0_addr(opcode) is Ok ==> machine.jump_v0_addr(opcode)->Ok_0.wf(),
        machine.rand_vx_byte(opcode, random) is Ok ==> machine.rand_vx_byte(
            opcode,
            random,
        )->Ok_0.wf(),
        machine.draw_vx_vy_n(opcode) is Ok ==> machine.draw_vx_vy_n(opcode)->Ok_0.wf(),
        machine.key() is Ok ==> machine.key()->Ok_0.wf(),
        machine.load_vx_dt(opcode) is Ok ==> machine.load_vx_dt(opcode)->Ok_0.wf(),
        machine.load_dt_vx(opcode) is Ok ==> machine.load_dt_vx(opcode)->Ok_0.wf(),
        machine.load_st_vx(opcode) is Ok ==> machine.load_st_vx(opcode)->Ok_0.wf(),
        machine.add_i_vx(opcode) is Ok ==> machine.add_i_vx(opcode)->Ok_0.wf(),
        machine.load_i_vx_font(opcode) is Ok ==> machine.load_i_vx_font(opcode)->Ok_0.wf(),
        machine.load_bcd_vx(opcode) is Ok ==> machine.load_bcd_vx(opcode)->Ok_0.wf(),
        machine.load_through_vx(opcode) is Ok ==> machine.load_through_vx(opcode)->Ok_0.wf(),
        machine.read_through_vx(opcode) is Ok ==> machine.read_through_vx(opcode)->Ok_0.wf(),
{
}

/// Whatever an instruction makes of a valid machine is a valid machine:
/// every cursor is still inside its region, and registers, memory and
/// display keep their sizes.
#[verifier::rlimit(40)]
pub proof fn law_execute_keeps_validity(
    machine: Machine,
    op: Operation,
    opcode: Opcode,
    random: u8,
)
    requires
        machine.wf(),
    ensures
        machine.execute(op, opcode, random) is Ok ==> machine.execute(
            op,
            opcode,
            random,
        )->Ok_0.wf(),
{
    law_control_keeps_validity(machine, opcode);
    law_arithmetic_keeps_validity(machine, opcode);
    law_index_and_memory_keeps_validity(machine, opcode, random);
    reveal(Machine::execute);
}

/// The only fault of a word that is no instruction is `UnknownOpcode`, and
/// the only fault of an instruction is `OutOfRange`.
pub proof fn law_faults_of_execution(machine: Machine, op: Operation, opcode: Opcode, random: u8)
    ensures
        op == Operation::Unknown ==> machine.execute(op, opcode, random) == Err::<Machine, Fault>(
            Fault::UnknownOpcode,
        ),
        op != Operation::Unknown && machine.execute(op, opcode, random) is Err ==> machine.execute(
            op,
            opcode,
            random,
        ) == Err::<Machine, Fault>(Fault::OutOfRange),
{
    reveal(Machine::execute);
}

/// Chance has a say in `RND` alone.
pub proof fn law_only_rnd_reads_chance(
    machine: Machine,
    op: Operation,
    opcode: Opcode,
    random: u8,
    other: u8,
)
    requires
        op != Operation::RandVxByte,
    ensures
        machine.execute(op, opcode, random) == machine.execute(op, opcode, other),
{
    reveal(Machine::execute);
}

/// A timer does not care how its intervals are told apart: losing `first`
/// and then `second` is losing both at once.
pub proof fn law_decay_adds_up(current: u8, first: u8, second: u8)
    requires
        first + second <= 255,
    ensures
        decayed(decayed(current, first), second) == decayed(current, (first + second) as u8),
{
}

/// More time never means fewer intervals.
pub proof fn law_intervals_grow_with_time(earlier: u128, later: u128)
    requires
        earlier <= later,
    ensures
        spec_intervals_elapsed(earlier) <= spec_intervals_elapsed(later),
{
    assert(earlier * 60 / 1_000_000_000 <= later * 60 / 1_000_000_000) by (nonlinear_arith)
        requires
            earlier <= later,
    ;
}

/// One second is sixty intervals: a timer that holds 60 has run out after
/// one second.
pub proof fn law_sixty_run_out_in_a_second()
    ensures
        spec_intervals_elapsed(1_000_000_000) == 60,
        decayed(60, spec_intervals_elapsed(1_000_000_000)) == 0,
{
}

} // verus!
