use rusty_chip::cpu::Cpu;
use rusty_chip::machine::{FONT_START, ROM_START};
use rusty_chip::opcode::Opcode;
use rusty_chip::output::font::font_set;
use rusty_chip::output::graphics::{Display, SCREEN_HEIGHT, SCREEN_WIDTH};

#[test]
fn new_loads_font_to_memory() {
    let graphics = Display::new();
    let rom: Vec<u8> = Vec::new();
    let cpu = Cpu::new(&rom, graphics).unwrap();

    let font_set = font_set().to_vec();
    let mem = cpu.memory.read_range(FONT_START, font_set.len());
    assert_eq!(font_set, mem);
}

#[test]
fn new_loads_rom_to_memory() {
    let graphics = Display::new();
    let rom = vec![0x00, 0x01, 0x02, 0x03];
    let cpu = Cpu::new(&rom, graphics).unwrap();

    let mem = cpu.memory.read_range(ROM_START, rom.len());
    assert_eq!(rom, mem);
}

#[test]
fn fetch_opcode_fetches_two_current_bytes() {
    let graphics = Display::new();
    let rom = vec![0xAB, 0xCD, 0xEF, 0xFF];
    let cpu = Cpu::new(&rom, graphics).unwrap();

    assert_eq!(Opcode::new(0xABCD), cpu.fetch_opcode());
}

#[test]
fn operation_0000_no_op() {
    let graphics = Display::new();
    let rom: Vec<u8> = Vec::new();
    let mut cpu = Cpu::new(&rom, graphics).unwrap();

    let opcode = Opcode::new(0x0000);
    let op = cpu.operation(&opcode);
    let pc = cpu.pc.current;
    let memory = cpu.memory.clone();

    op.apply(&mut cpu, &opcode).unwrap();
    assert_eq!(memory, cpu.memory);
    assert_eq!(pc + 2, cpu.pc.current);
}

#[test]
fn operation_00e0_clear_display() {
    let graphics = Display::new();
    let rom: Vec<u8> = Vec::new();
    let mut cpu = Cpu::new(&rom, graphics).unwrap();

    let opcode = Opcode::new(0x00E0);
    let op = cpu.operation(&opcode);
    let pc = cpu.pc.current;

    op.apply(&mut cpu, &opcode).unwrap();
    for x in 0..SCREEN_WIDTH {
        for y in 0..SCREEN_HEIGHT {
            assert!(!cpu.graphics.read_pixel(x, y));
        }
    }
    assert_eq!(pc + 2, cpu.pc.current);
}

#[test]
fn operation_00ee_return_from_subroutine() {
    let graphics = Display::new();
    let rom: Vec<u8> = Vec::new();
    let mut cpu = Cpu::new(&rom, graphics).unwrap();

    let opcode = Opcode::new(0x00EE);
    let op = cpu.operation(&opcode);
    let pc = cpu.pc.current;

    cpu.stack_push().unwrap();
    cpu.advance_pc().unwrap();
    cpu.advance_pc().unwrap();
    cpu.advance_pc().unwrap();

    op.apply(&mut cpu, &opcode).unwrap();
    assert_eq!(pc, cpu.pc.current);
}

#[test]
fn operation_1nnn_jump_addr() {
    let graphics = Display::new();
    let rom: Vec<u8> = Vec::new();
    let mut cpu = Cpu::new(&rom, graphics).unwrap();

    let opcode = Opcode::new(0x1404);
    let op = cpu.operation(&opcode);

    op.apply(&mut cpu, &opcode).unwrap();
    assert_eq!(0x404, cpu.pc.current);
}

#[test]
fn operation_2nnn_call_subroutine() {
    let graphics = Display::new();
    let rom: Vec<u8> = Vec::new();
    let mut cpu = Cpu::new(&rom, graphics).unwrap();

    let opcode = Opcode::new(0x2404);
    let op = cpu.operation(&opcode);

    op.apply(&mut cpu, &opcode).unwrap();
    assert_eq!(0x404, cpu.pc.current);
    assert_eq!(0x02, cpu.memory.read(cpu.sp.current - 2));
    assert_eq!(0x00, cpu.memory.read(cpu.sp.current - 1));
}

#[test]
fn operation_3xkk_skip_equal_vx_byte() {
    let graphics = Display::new();
    let rom: Vec<u8> = Vec::new();
    let mut cpu = Cpu::new(&rom, graphics).unwrap();

    let opcode = Opcode::new(0x3123);
    let op = cpu.operation(&opcode);
    let pc = cpu.pc.current;

    cpu.v[0x1] = 0x23;

    op.apply(&mut cpu, &opcode).unwrap();
    assert_eq!(pc + 4, cpu.pc.current);
}

#[test]
fn operation_3xkk_skip_equal_vx_byte_no_skip() {
    let graphics = Display::new();
    let rom: Vec<u8> = Vec::new();
    let mut cpu = Cpu::new(&rom, graphics).unwrap();

    let opcode = Opcode::new(0x3122);
    let op = cpu.operation(&opcode);
    let pc = cpu.pc.current;

    cpu.v[0x1] = 0x23;

    op.apply(&mut cpu, &opcode).unwrap();
    assert_eq!(pc + 2, cpu.pc.current);
}

#[test]
fn operation_4xkk_skip_not_equal_vx_byte() {
    let graphics = Display::new();
    let rom: Vec<u8> = Vec::new();
    let mut cpu = Cpu::new(&rom, graphics).unwrap();

    let opcode = Opcode::new(0x4123);
    let op = cpu.operation(&opcode);
    let pc = cpu.pc.current;

    cpu.v[0x1] = 0x22;

    op.apply(&mut cpu, &opcode).unwrap();
    assert_eq!(pc + 4, cpu.pc.current);
}

#[test]
fn operation_4xkk_skip_not_equal_vx_byte_no_skip() {
    let graphics = Display::new();
    let rom: Vec<u8> = Vec::new();
    let mut cpu = Cpu::new(&rom, graphics).unwrap();

    let opcode = Opcode::new(0x4123);
    let op = cpu.operation(&opcode);
    let pc = cpu.pc.current;

    cpu.v[0x1] = 0x23;

    op.apply(&mut cpu, &opcode).unwrap();
    assert_eq!(pc + 2, cpu.pc.current);
}

#[test]
fn operation_5xy0_skip_equal_vx_vy() {
    let graphics = Display::new();
    let rom: Vec<u8> = Vec::new();
    let mut cpu = Cpu::new(&rom, graphics).unwrap();

    let opcode = Opcode::new(0x5010);
    let op = cpu.operation(&opcode);
    let pc = cpu.pc.current;

    cpu.v[0x0] = 0x23;
    cpu.v[0x1] = cpu.v[0x0];

    op.apply(&mut cpu, &opcode).unwrap();
    assert_eq!(pc + 4, cpu.pc.current);
}

#[test]
fn operation_5xy0_skip_equal_vx_vy_no_skip() {
    let graphics = Display::new();
    let rom: Vec<u8> = Vec::new();
    let mut cpu = Cpu::new(&rom, graphics).unwrap();

    let opcode = Opcode::new(0x5010);
    let op = cpu.operation(&opcode);
    let pc = cpu.pc.current;

    cpu.v[0x0] = 0x23;
    cpu.v[0x1] = 0x22;

    op.apply(&mut cpu, &opcode).unwrap();
    assert_eq!(pc + 2, cpu.pc.current);
}

#[test]
fn operation_6xkk_load_vx_byte() {
    let graphics = Display::new();
    let rom: Vec<u8> = Vec::new();
    let mut cpu = Cpu::new(&rom, graphics).unwrap();

    let opcode = Opcode::new(0x6123);
    let op = cpu.operation(&opcode);
    let pc = cpu.pc.current;

    op.apply(&mut cpu, &opcode).unwrap();
    assert_eq!(0x23, cpu.read_register(0x1));
    assert_eq!(pc + 2, cpu.pc.current);
}

#[test]
fn operation_7xkk_add_vx_byte() {
    let graphics = Display::new();
    let rom: Vec<u8> = Vec::new();
    let mut cpu = Cpu::new(&rom, graphics).unwrap();

    let opcode = Opcode::new(0x71FF);
    let op = cpu.operation(&opcode);
    let pc = cpu.pc.current;

    op.apply(&mut cpu, &opcode).unwrap();
    assert_eq!(0xFF, cpu.read_register(0x1));
    assert_eq!(pc + 2, cpu.pc.current);
}

#[test]
fn operation_7xkk_add_vx_byte_wrap() {
    let graphics = Display::new();
    let rom: Vec<u8> = Vec::new();
    let mut cpu = Cpu::new(&rom, graphics).unwrap();

    let opcode = Opcode::new(0x71FF);
    let op = cpu.operation(&opcode);
    let pc = cpu.pc.current;

    cpu.v[0x1] = 0x02;

    op.apply(&mut cpu, &opcode).unwrap();
    assert_eq!(0x01, cpu.read_register(0x1));
    assert_eq!(pc + 2, cpu.pc.current);
}

#[test]
fn operation_8xy0_load_vx_vy() {
    let graphics = Display::new();
    let rom: Vec<u8> = Vec::new();
    let mut cpu = Cpu::new(&rom, graphics).unwrap();

    let opcode = Opcode::new(0x8010);
    let op = cpu.operation(&opcode);
    let pc = cpu.pc.current;

    cpu.v[0x1] = 0x23;

    op.apply(&mut cpu, &opcode).unwrap();
    assert_eq!(0x23, cpu.read_register(0x0));
    assert_eq!(pc + 2, cpu.pc.current);
}

#[test]
fn operation_8xy1_or_vx_vy_00() {
    let graphics = Display::new();
    let rom: Vec<u8> = Vec::new();
    let mut cpu = Cpu::new(&rom, graphics).unwrap();

    let opcode = Opcode::new(0x8011);
    let op = cpu.operation(&opcode);
    let pc = cpu.pc.current;

    cpu.v[0x0] = 0x0;
    cpu.v[0x1] = 0x0;

    op.apply(&mut cpu, &opcode).unwrap();
    assert_eq!(0x0, cpu.read_register(0x0));
    assert_eq!(pc + 2, cpu.pc.current);
}

#[test]
fn operation_8xy1_or_vx_vy_01() {
    let graphics = Display::new();
    let rom: Vec<u8> = Vec::new();
    let mut cpu = Cpu::new(&rom, graphics).unwrap();

    let opcode = Opcode::new(0x8011);
    let op = cpu.operation(&opcode);
    let pc = cpu.pc.current;

    cpu.v[0x0] = 0x0;
    cpu.v[0x1] = 0x1;

    op.apply(&mut cpu, &opcode).unwrap();
    assert_eq!(0x1, cpu.read_register(0x0));
    assert_eq!(pc + 2, cpu.pc.current);
}

#[test]
fn operation_8xy1_or_vx_vy_10() {
    let graphics = Display::new();
    let rom: Vec<u8> = Vec::new();
    let mut cpu = Cpu::new(&rom, graphics).unwrap();

    let opcode = Opcode::new(0x8011);
    let op = cpu.operation(&opcode);
    let pc = cpu.pc.current;

    cpu.v[0x0] = 0x1;
    cpu.v[0x1] = 0x0;

    op.apply(&mut cpu, &opcode).unwrap();
    assert_eq!(0x1, cpu.read_register(0x0));
    assert_eq!(pc + 2, cpu.pc.current);
}

#[test]
fn operation_8xy1_or_vx_vy_11() {
    let graphics = Display::new();
    let rom: Vec<u8> = Vec::new();
    let mut cpu = Cpu::new(&rom, graphics).unwrap();

    let opcode = Opcode::new(0x8011);
    let op = cpu.operation(&opcode);
    let pc = cpu.pc.current;

    cpu.v[0x0] = 0x1;
    cpu.v[0x1] = 0x1;

    op.apply(&mut cpu, &opcode).unwrap();
    assert_eq!(0x1, cpu.read_register(0x0));
    assert_eq!(pc + 2, cpu.pc.current);
}

#[test]
fn operation_8xy2_and_vx_vy_00() {
    let graphics = Display::new();
    let rom: Vec<u8> = Vec::new();
    let mut cpu = Cpu::new(&rom, graphics).unwrap();

    let opcode = Opcode::new(0x8012);
    let op = cpu.operation(&opcode);
    let pc = cpu.pc.current;

    cpu.v[0x0] = 0x0;
    cpu.v[0x1] = 0x0;

    op.apply(&mut cpu, &opcode).unwrap();
    assert_eq!(0x0, cpu.read_register(0x0));
    assert_eq!(pc + 2, cpu.pc.current);
}

#[test]
fn operation_8xy2_and_vx_vy_01() {
    let graphics = Display::new();
    let rom: Vec<u8> = Vec::new();
    let mut cpu = Cpu::new(&rom, graphics).unwrap();

    let opcode = Opcode::new(0x8012);
    let op = cpu.operation(&opcode);
    let pc = cpu.pc.current;

    cpu.v[0x0] = 0x0;
    cpu.v[0x1] = 0x1;

    op.apply(&mut cpu, &opcode).unwrap();
    assert_eq!(0x0, cpu.read_register(0x0));
    assert_eq!(pc + 2, cpu.pc.current);
}

#[test]
fn operation_8xy2_and_vx_vy_10() {
    let graphics = Display::new();
    let rom: Vec<u8> = Vec::new();
    let mut cpu = Cpu::new(&rom, graphics).unwrap();

    let opcode = Opcode::new(0x8012);
    let op = cpu.operation(&opcode);
    let pc = cpu.pc.current;

    cpu.v[0x0] = 0x1;
    cpu.v[0x1] = 0x0;

    op.apply(&mut cpu, &opcode).unwrap();
    assert_eq!(0x0, cpu.read_register(0x0));
    assert_eq!(pc + 2, cpu.pc.current);
}

#[test]
fn operation_8xy2_and_vx_vy_11() {
    let graphics = Display::new();
    let rom: Vec<u8> = Vec::new();
    let mut cpu = Cpu::new(&rom, graphics).unwrap();

    let opcode = Opcode::new(0x8012);
    let op = cpu.operation(&opcode);
    let pc = cpu.pc.current;

    cpu.v[0x0] = 0x1;
    cpu.v[0x1] = 0x1;

    op.apply(&mut cpu, &opcode).unwrap();
    assert_eq!(0x1, cpu.read_register(0x0));
    assert_eq!(pc + 2, cpu.pc.current);
}

#[test]
fn operation_8xy3_xor_vx_vy_00() {
    let graphics = Display::new();
    let rom: Vec<u8> = Vec::new();
    let mut cpu = Cpu::new(&rom, graphics).unwrap();

    let opcode = Opcode::new(0x8013);
    let op = cpu.operation(&opcode);
    let pc = cpu.pc.current;

    cpu.v[0x0] = 0x0;
    cpu.v[0x1] = 0x0;

    op.apply(&mut cpu, &opcode).unwrap();
    assert_eq!(0x0, cpu.read_register(0x0));
    assert_eq!(pc + 2, cpu.pc.current);
}

#[test]
fn operation_8xy3_xor_vx_vy_01() {
    let graphics = Display::new();
    let rom: Vec<u8> = Vec::new();
    let mut cpu = Cpu::new(&rom, graphics).unwrap();

    let opcode = Opcode::new(0x8013);
    let op = cpu.operation(&opcode);
    let pc = cpu.pc.current;

    cpu.v[0x0] = 0x0;
    cpu.v[0x1] = 0x1;

    op.apply(&mut cpu, &opcode).unwrap();
    assert_eq!(0x1, cpu.read_register(0x0));
    assert_eq!(pc + 2, cpu.pc.current);
}

#[test]
fn operation_8xy3_xor_vx_vy_10() {
    let graphics = Display::new();
    let rom: Vec<u8> = Vec::new();
    let mut cpu = Cpu::new(&rom, graphics).unwrap();

    let opcode = Opcode::new(0x8013);
    let op = cpu.operation(&opcode);
    let pc = cpu.pc.current;

    cpu.v[0x0] = 0x1;
    cpu.v[0x1] = 0x0;

    op.apply(&mut cpu, &opcode).unwrap();
    assert_eq!(0x1, cpu.read_register(0x0));
    assert_eq!(pc + 2, cpu.pc.current);
}

#[test]
fn operation_8xy3_xor_vx_vy_11() {
    let graphics = Display::new();
    let rom: Vec<u8> = Vec::new();
    let mut cpu = Cpu::new(&rom, graphics).unwrap();

    let opcode = Opcode::new(0x8013);
    let op = cpu.operation(&opcode);
    let pc = cpu.pc.current;

    cpu.v[0x0] = 0x1;
    cpu.v[0x1] = 0x1;

    op.apply(&mut cpu, &opcode).unwrap();
    assert_eq!(0x0, cpu.read_register(0x0));
    assert_eq!(pc + 2, cpu.pc.current);
}

#[test]
fn operation_8xy4_add_vx_vy() {
    let graphics = Display::new();
    let rom: Vec<u8> = Vec::new();
    let mut cpu = Cpu::new(&rom, graphics).unwrap();

    let opcode = Opcode::new(0x8014);
    let op = cpu.operation(&opcode);
    let pc = cpu.pc.current;

    cpu.v[0x0] = 0x01;
    cpu.v[0x1] = 0x02;

    op.apply(&mut cpu, &opcode).unwrap();
    assert_eq!(0x03, cpu.read_register(0x0));
    assert_eq!(0b0, cpu.read_register(0xF));
    assert_eq!(pc + 2, cpu.pc.current);
}

#[test]
fn operation_8xy4_add_vx_vy_carry() {
    let graphics = Display::new();
    let rom: Vec<u8> = Vec::new();
    let mut cpu = Cpu::new(&rom, graphics).unwrap();

    let opcode = Opcode::new(0x8014);
    let op = cpu.operation(&opcode);
    let pc = cpu.pc.current;

    cpu.v[0x0] = 0xFF;
    cpu.v[0x1] = 0x02;

    op.apply(&mut cpu, &opcode).unwrap();
    assert_eq!(0x01, cpu.read_register(0x0));
    assert_eq!(0b1, cpu.read_register(0xF));
    assert_eq!(pc + 2, cpu.pc.current);
}

#[test]
fn operation_8xy5_sub_vx_vy() {
    let graphics = Display::new();
    let rom: Vec<u8> = Vec::new();
    let mut cpu = Cpu::new(&rom, graphics).unwrap();

    let opcode = Opcode::new(0x8015);
    let op = cpu.operation(&opcode);
    let pc = cpu.pc.current;

    cpu.v[0x0] = 0x02;
    cpu.v[0x1] = 0x01;

    op.apply(&mut cpu, &opcode).unwrap();
    assert_eq!(0x01, cpu.read_register(0x0));
    assert_eq!(0b1, cpu.read_register(0xF));
    assert_eq!(pc + 2, cpu.pc.current);
}

#[test]
fn operation_8xy5_sub_vx_vy_carry() {
    let graphics = Display::new();
    let rom: Vec<u8> = Vec::new();
    let mut cpu = Cpu::new(&rom, graphics).unwrap();

    let opcode = Opcode::new(0x8015);
    let op = cpu.operation(&opcode);
    let pc = cpu.pc.current;

    cpu.v[0x0] = 0x01;
    cpu.v[0x1] = 0x02;

    op.apply(&mut cpu, &opcode).unwrap();
    assert_eq!(0xFF, cpu.read_register(0x0));
    assert_eq!(0b0, cpu.read_register(0xF));
    assert_eq!(pc + 2, cpu.pc.current);
}

#[test]
fn operation_8xy6_shr_vx_vy() {
    let graphics = Display::new();
    let rom: Vec<u8> = Vec::new();
    let mut cpu = Cpu::new(&rom, graphics).unwrap();

    let opcode = Opcode::new(0x8016);
    let op = cpu.operation(&opcode);
    let pc = cpu.pc.current;

    cpu.v[0x1] = 0b11111110;

    op.apply(&mut cpu, &opcode).unwrap();
    assert_eq!(0b01111111, cpu.read_register(0x0));
    assert_eq!(0b0, cpu.read_register(0xF));
    assert_eq!(pc + 2, cpu.pc.current);
}

#[test]
fn operation_8xy6_shr_vx_vy_sig_bit() {
    let graphics = Display::new();
    let rom: Vec<u8> = Vec::new();
    let mut cpu = Cpu::new(&rom, graphics).unwrap();

    let opcode = Opcode::new(0x8016);
    let op = cpu.operation(&opcode);
    let pc = cpu.pc.current;

    cpu.v[0x1] = 0b11111111;

    op.apply(&mut cpu, &opcode).unwrap();
    assert_eq!(0b01111111, cpu.read_register(0x0));
    assert_eq!(0b1, cpu.read_register(0xF));
    assert_eq!(pc + 2, cpu.pc.current);
}

#[test]
fn operation_8xy7_subn_vx_vy() {
    let graphics = Display::new();
    let rom: Vec<u8> = Vec::new();
    let mut cpu = Cpu::new(&rom, graphics).unwrap();

    let opcode = Opcode::new(0x8017);
    let op = cpu.operation(&opcode);
    let pc = cpu.pc.current;

    cpu.v[0x0] = 0x01;
    cpu.v[0x1] = 0x02;

    op.apply(&mut cpu, &opcode).unwrap();
    assert_eq!(0x01, cpu.read_register(0x0));
    assert_eq!(0b1, cpu.read_register(0xF));
    assert_eq!(pc + 2, cpu.pc.current);
}

#[test]
fn operation_8xy7_subn_vx_vy_carry() {
    let graphics = Display::new();
    let rom: Vec<u8> = Vec::new();
    let mut cpu = Cpu::new(&rom, graphics).unwrap();

    let opcode = Opcode::new(0x8017);
    let op = cpu.operation(&opcode);
    let pc = cpu.pc.current;

    cpu.v[0x0] = 0x02;
    cpu.v[0x1] = 0x01;

    op.apply(&mut cpu, &opcode).unwrap();
    assert_eq!(0xFF, cpu.read_register(0x0));
    assert_eq!(0b0, cpu.read_register(0xF));
    assert_eq!(pc + 2, cpu.pc.current);
}

#[test]
fn operation_8xye_shl_vx_vy() {
    let graphics = Display::new();
    let rom: Vec<u8> = Vec::new();
    let mut cpu = Cpu::new(&rom, graphics).unwrap();

    let opcode = Opcode::new(0x801E);
    let op = cpu.operation(&opcode);
    let pc = cpu.pc.current;

    cpu.v[0x1] = 0b01111111;

    op.apply(&mut cpu, &opcode).unwrap();
    assert_eq!(0b11111110, cpu.read_register(0x0));
    assert_eq!(0b0, cpu.read_register(0xF));
    assert_eq!(pc + 2, cpu.pc.current);
}

#[test]
fn operation_8xye_shl_vx_vy_sig_bit() {
    let graphics = Display::new();
    let rom: Vec<u8> = Vec::new();
    let mut cpu = Cpu::new(&rom, graphics).unwrap();

    let opcode = Opcode::new(0x801E);
    let op = cpu.operation(&opcode);
    let pc = cpu.pc.current;

    cpu.v[0x1] = 0b11111111;

    op.apply(&mut cpu, &opcode).unwrap();
    assert_eq!(0b11111110, cpu.read_register(0x0));
    assert_eq!(0b1, cpu.read_register(0xF));
    assert_eq!(pc + 2, cpu.pc.current);
}

#[test]
fn operation_9xy0_skip_not_equal_vx_vy() {
    let graphics = Display::new();
    let rom: Vec<u8> = Vec::new();
    let mut cpu = Cpu::new(&rom, graphics).unwrap();

    let opcode = Opcode::new(0x9010);
    let op = cpu.operation(&opcode);
    let pc = cpu.pc.current;

    cpu.v[0x0] = 0x23;
    cpu.v[0x1] = 0x22;

    op.apply(&mut cpu, &opcode).unwrap();
    assert_eq!(pc + 4, cpu.pc.current);
}

#[test]
fn operation_9xy0_skip_not_equal_vx_vy_no_skip() {
    let graphics = Display::new();
    let rom: Vec<u8> = Vec::new();
    let mut cpu = Cpu::new(&rom, graphics).unwrap();

    let opcode = Opcode::new(0x9010);
    let op = cpu.operation(&opcode);
    let pc = cpu.pc.current;

    cpu.v[0x0] = 0x23;
    cpu.v[0x1] = cpu.v[0x0];

    op.apply(&mut cpu, &opcode).unwrap();
    assert_eq!(pc + 2, cpu.pc.current);
}

#[test]
fn operation_annn_load_i_addr() {
    let graphics = Display::new();
    let rom: Vec<u8> = Vec::new();
    let mut cpu = Cpu::new(&rom, graphics).unwrap();

    let opcode = Opcode::new(0xA456);
    let op = cpu.operation(&opcode);
    let pc = cpu.pc.current;

    op.apply(&mut cpu, &opcode).unwrap();
    assert_eq!(0x456, cpu.read_i());
    assert_eq!(pc + 2, cpu.pc.current);
}

#[test]
fn operation_bnnn_jump_v0_addr() {
    let graphics = Display::new();
    let rom: Vec<u8> = Vec::new();
    let mut cpu = Cpu::new(&rom, graphics).unwrap();

    let opcode = Opcode::new(0xB300);
    let op = cpu.operation(&opcode);

    cpu.v[0x0] = 0x08;

    op.apply(&mut cpu, &opcode).unwrap();
    assert_eq!(0x308, cpu.pc.current);
}

#[test]
fn operation_cxkk_rand_vx_byte() {
    let graphics = Display::new();
    let rom: Vec<u8> = Vec::new();
    let mut cpu = Cpu::new(&rom, graphics).unwrap();

    let opcode = Opcode::new(0xC00F);
    let op = cpu.operation(&opcode);

    for _ in 0..1000 {
        let pc = cpu.pc.current;

        op.apply(&mut cpu, &opcode).unwrap();
        assert!(cpu.read_register(0x0) <= 0xF);
        assert_eq!(pc + 2, cpu.pc.current);
    }
}

#[test]
fn operation_dxyn_draw_vx_vy_n() {
    let graphics = Display::new();
    let rom: Vec<u8> = Vec::new();
    let mut cpu = Cpu::new(&rom, graphics).unwrap();

    let opcode = Opcode::new(0xD012);
    let op = cpu.operation(&opcode);
    let pc = cpu.pc.current;

    cpu.load_i(ROM_START).unwrap();
    let i = cpu.read_i();
    cpu.v[0] = 8;
    cpu.v[1] = 5;
    cpu.memory.write(i + 0, 0b11110000);
    cpu.memory.write(i + 1, 0b00001111);

    op.apply(&mut cpu, &opcode).unwrap();
    assert!(cpu.graphics.read_pixel(8, 5));
    assert!(cpu.graphics.read_pixel(9, 5));
    assert!(cpu.graphics.read_pixel(10, 5));
    assert!(cpu.graphics.read_pixel(11, 5));
    assert!(!cpu.graphics.read_pixel(12, 5));
    assert!(!cpu.graphics.read_pixel(13, 5));
    assert!(!cpu.graphics.read_pixel(14, 5));
    assert!(!cpu.graphics.read_pixel(15, 5));

    assert!(!cpu.graphics.read_pixel(8, 6));
    assert!(!cpu.graphics.read_pixel(9, 6));
    assert!(!cpu.graphics.read_pixel(10, 6));
    assert!(!cpu.graphics.read_pixel(11, 6));
    assert!(cpu.graphics.read_pixel(12, 6));
    assert!(cpu.graphics.read_pixel(13, 6));
    assert!(cpu.graphics.read_pixel(14, 6));
    assert!(cpu.graphics.read_pixel(15, 6));

    assert_eq!(0b0, cpu.read_register(0xF));
    assert_eq!(pc + 2, cpu.pc.current);
}

#[test]
fn operation_dxyn_draw_vx_vy_n_collision() {
    let graphics = Display::new();
    let rom: Vec<u8> = Vec::new();
    let mut cpu = Cpu::new(&rom, graphics).unwrap();

    let opcode = Opcode::new(0xD012);
    let op = cpu.operation(&opcode);
    let pc = cpu.pc.current;

    cpu.load_i(ROM_START).unwrap();
    let i = cpu.read_i();
    cpu.v[0] = 8;
    cpu.v[1] = 5;
    cpu.memory.write(i + 0, 0b11110000);
    cpu.memory.write(i + 1, 0b00001111);

    cpu.graphics.update_pixel(12, 6, true);

    op.apply(&mut cpu, &opcode).unwrap();
    assert!(cpu.graphics.read_pixel(8, 5));
    assert!(cpu.graphics.read_pixel(9, 5));
    assert!(cpu.graphics.read_pixel(10, 5));
    assert!(cpu.graphics.read_pixel(11, 5));
    assert!(!cpu.graphics.read_pixel(12, 5));
    assert!(!cpu.graphics.read_pixel(13, 5));
    assert!(!cpu.graphics.read_pixel(14, 5));
    assert!(!cpu.graphics.read_pixel(15, 5));

    assert!(!cpu.graphics.read_pixel(8, 6));
    assert!(!cpu.graphics.read_pixel(9, 6));
    assert!(!cpu.graphics.read_pixel(10, 6));
    assert!(!cpu.graphics.read_pixel(11, 6));
    assert!(!cpu.graphics.read_pixel(12, 6));
    assert!(cpu.graphics.read_pixel(13, 6));
    assert!(cpu.graphics.read_pixel(14, 6));
    assert!(cpu.graphics.read_pixel(15, 6));

    assert_eq!(0b1, cpu.read_register(0xF));
    assert_eq!(pc + 2, cpu.pc.current);
}

#[test]
fn operation_dxyn_draw_vx_vy_n_with_vx_wrap() {
    let graphics = Display::new();
    let rom: Vec<u8> = Vec::new();
    let mut cpu = Cpu::new(&rom, graphics).unwrap();

    let opcode = Opcode::new(0xD012);
    let op = cpu.operation(&opcode);
    let pc = cpu.pc.current;

    cpu.load_i(ROM_START).unwrap();
    let i = cpu.read_i();
    cpu.v[0] = 60;
    cpu.v[1] = 5;
    cpu.memory.write(i + 0, 0b11110000);
    cpu.memory.write(i + 1, 0b00001111);

    op.apply(&mut cpu, &opcode).unwrap();
    assert!(cpu.graphics.read_pixel(60, 5));
    assert!(cpu.graphics.read_pixel(61, 5));
    assert!(cpu.graphics.read_pixel(62, 5));
    assert!(cpu.graphics.read_pixel(63, 5));
    assert!(!cpu.graphics.read_pixel(0, 5));
    assert!(!cpu.graphics.read_pixel(1, 5));
    assert!(!cpu.graphics.read_pixel(2, 5));
    assert!(!cpu.graphics.read_pixel(3, 5));

    assert!(!cpu.graphics.read_pixel(60, 6));
    assert!(!cpu.graphics.read_pixel(61, 6));
    assert!(!cpu.graphics.read_pixel(62, 6));
    assert!(!cpu.graphics.read_pixel(63, 6));
    assert!(cpu.graphics.read_pixel(0, 6));
    assert!(cpu.graphics.read_pixel(1, 6));
    assert!(cpu.graphics.read_pixel(2, 6));
    assert!(cpu.graphics.read_pixel(3, 6));

    assert_eq!(0b0, cpu.read_register(0xF));
    assert_eq!(pc + 2, cpu.pc.current);
}

#[test]
fn operation_dxyn_draw_vx_vy_n_with_vy_wrap() {
    let graphics = Display::new();
    let rom: Vec<u8> = Vec::new();
    let mut cpu = Cpu::new(&rom, graphics).unwrap();

    let opcode = Opcode::new(0xD012);
    let op = cpu.operation(&opcode);
    let pc = cpu.pc.current;

    cpu.load_i(ROM_START).unwrap();
    let i = cpu.read_i();
    cpu.v[0] = 8;
    cpu.v[1] = 31;
    cpu.memory.write(i + 0, 0b11110000);
    cpu.memory.write(i + 1, 0b00001111);

    op.apply(&mut cpu, &opcode).unwrap();
    assert!(cpu.graphics.read_pixel(8, 31));
    assert!(cpu.graphics.read_pixel(9, 31));
    assert!(cpu.graphics.read_pixel(10, 31));
    assert!(cpu.graphics.read_pixel(11, 31));
    assert!(!cpu.graphics.read_pixel(12, 31));
    assert!(!cpu.graphics.read_pixel(13, 31));
    assert!(!cpu.graphics.read_pixel(14, 31));
    assert!(!cpu.graphics.read_pixel(15, 31));

    assert!(!cpu.graphics.read_pixel(8, 0));
    assert!(!cpu.graphics.read_pixel(9, 0));
    assert!(!cpu.graphics.read_pixel(10, 0));
    assert!(!cpu.graphics.read_pixel(11, 0));
    assert!(cpu.graphics.read_pixel(12, 0));
    assert!(cpu.graphics.read_pixel(13, 0));
    assert!(cpu.graphics.read_pixel(14, 0));
    assert!(cpu.graphics.read_pixel(15, 0));

    assert_eq!(0b0, cpu.read_register(0xF));
    assert_eq!(pc + 2, cpu.pc.current);
}

#[test]
fn operation_fx07_load_vx_dt() {
    let graphics = Display::new();
    let rom: Vec<u8> = Vec::new();
    let mut cpu = Cpu::new(&rom, graphics).unwrap();

    let opcode = Opcode::new(0xF007);
    let op = cpu.operation(&opcode);
    let pc = cpu.pc.current;

    let time = 0x20;
    cpu.dt.set(time);

    op.apply(&mut cpu, &opcode).unwrap();
    assert_eq!(time, cpu.read_register(0x0));
    assert_eq!(pc + 2, cpu.pc.current);
}

#[test]
fn operation_fx15_load_dt_vx() {
    let graphics = Display::new();
    let rom: Vec<u8> = Vec::new();
    let mut cpu = Cpu::new(&rom, graphics).unwrap();

    let opcode = Opcode::new(0xF015);
    let op = cpu.operation(&opcode);
    let pc = cpu.pc.current;

    let time = 0x20;
    cpu.v[0x0] = time;

    op.apply(&mut cpu, &opcode).unwrap();
    assert_eq!(time, cpu.read_delay_timer());
    assert_eq!(pc + 2, cpu.pc.current);
}

#[test]
fn operation_fx18_load_st_vx() {
    let graphics = Display::new();
    let rom: Vec<u8> = Vec::new();
    let mut cpu = Cpu::new(&rom, graphics).unwrap();

    let opcode = Opcode::new(0xF018);
    let op = cpu.operation(&opcode);
    let pc = cpu.pc.current;

    let time = 0x20;
    cpu.v[0x0] = time;

    op.apply(&mut cpu, &opcode).unwrap();
    assert_eq!(time, cpu.read_sound_timer());
    assert_eq!(pc + 2, cpu.pc.current);
}

#[test]
fn operation_fx1e_add_i_vx() {
    let graphics = Display::new();
    let rom: Vec<u8> = Vec::new();
    let mut cpu = Cpu::new(&rom, graphics).unwrap();

    let opcode = Opcode::new(0xF01E);
    let op = cpu.operation(&opcode);
    let pc = cpu.pc.current;
    let i = cpu.read_i();

    cpu.v[0x0] = 0x08;

    op.apply(&mut cpu, &opcode).unwrap();
    assert_eq!(i + 0x08, cpu.read_i());
    assert_eq!(pc + 2, cpu.pc.current);
}

#[test]
fn operation_fx29_load_i_vx_font() {
    let graphics = Display::new();
    let rom: Vec<u8> = Vec::new();
    let mut cpu = Cpu::new(&rom, graphics).unwrap();

    let opcode = Opcode::new(0xF029);
    let op = cpu.operation(&opcode);
    let pc = cpu.pc.current;

    cpu.v[0x0] = 0x02;

    op.apply(&mut cpu, &opcode).unwrap();
    assert_eq!(FONT_START + 10, cpu.read_i());
    assert_eq!(pc + 2, cpu.pc.current);
}

#[test]
fn operation_fx33_load_bcd_vx() {
    let graphics = Display::new();
    let rom: Vec<u8> = Vec::new();
    let mut cpu = Cpu::new(&rom, graphics).unwrap();

    let opcode = Opcode::new(0xF033);
    let op = cpu.operation(&opcode);
    let pc = cpu.pc.current;
    let i = cpu.read_i();

    cpu.v[0x0] = 0xFE;

    op.apply(&mut cpu, &opcode).unwrap();
    assert_eq!(0x02, cpu.memory.read(i + 0));
    assert_eq!(0x05, cpu.memory.read(i + 1));
    assert_eq!(0x04, cpu.memory.read(i + 2));
    assert_eq!(pc + 2, cpu.pc.current);
}

#[test]
fn operation_fx55_load_through_vx() {
    let graphics = Display::new();
    let rom: Vec<u8> = Vec::new();
    let mut cpu = Cpu::new(&rom, graphics).unwrap();

    let opcode = Opcode::new(0xF555);
    let op = cpu.operation(&opcode);
    let pc = cpu.pc.current;

    cpu.load_i(ROM_START).unwrap();
    let i = cpu.read_i();
    cpu.v[0] = 0xFF;
    cpu.v[1] = 0xEE;
    cpu.v[2] = 0xDD;
    cpu.v[3] = 0xCC;
    cpu.v[4] = 0xBB;
    cpu.v[5] = 0xAA;

    op.apply(&mut cpu, &opcode).unwrap();
    assert_eq!(0xFF, cpu.memory.read(i + 0));
    assert_eq!(0xEE, cpu.memory.read(i + 1));
    assert_eq!(0xDD, cpu.memory.read(i + 2));
    assert_eq!(0xCC, cpu.memory.read(i + 3));
    assert_eq!(0xBB, cpu.memory.read(i + 4));
    assert_eq!(0xAA, cpu.memory.read(i + 5));
    assert_eq!(i + 6, cpu.read_i());
    assert_eq!(pc + 2, cpu.pc.current);
}

#[test]
fn operation_fx65_read_through_vx() {
    let graphics = Display::new();
    let rom: Vec<u8> = Vec::new();
    let mut cpu = Cpu::new(&rom, graphics).unwrap();

    let opcode = Opcode::new(0xF565);
    let op = cpu.operation(&opcode);
    let pc = cpu.pc.current;

    cpu.load_i(ROM_START).unwrap();
    let i = cpu.read_i();
    cpu.memory.write(i + 0, 0xFF);
    cpu.memory.write(i + 1, 0xEE);
    cpu.memory.write(i + 2, 0xDD);
    cpu.memory.write(i + 3, 0xCC);
    cpu.memory.write(i + 4, 0xBB);
    cpu.memory.write(i + 5, 0xAA);

    op.apply(&mut cpu, &opcode).unwrap();
    assert_eq!(0xFF, cpu.read_register(0x0));
    assert_eq!(0xEE, cpu.read_register(0x1));
    assert_eq!(0xDD, cpu.read_register(0x2));
    assert_eq!(0xCC, cpu.read_register(0x3));
    assert_eq!(0xBB, cpu.read_register(0x4));
    assert_eq!(0xAA, cpu.read_register(0x5));
    assert_eq!(i + 6, cpu.read_i());
    assert_eq!(pc + 2, cpu.pc.current);
}

#[test]
fn beep_while_sound_timer_active() {
    let graphics = Display::new();
    let rom: Vec<u8> = Vec::new();
    let mut cpu = Cpu::new(&rom, graphics).unwrap();

    cpu.update_timers();

    assert!(cpu.st.active());
    assert!(cpu.beep);

    cpu.st.set(0);
    cpu.update_timers();

    assert!(!cpu.st.active());
    assert!(!cpu.beep);
}
