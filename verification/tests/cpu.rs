use padme_core::bus::Bus;
use padme_core::cpu::Cpu;
use padme_core::Rom;

const FLAG_Z: u8 = 0x80;
const FLAG_N: u8 = 0x40;
const FLAG_H: u8 = 0x20;
const FLAG_C: u8 = 0x10;

/// A 32KB cartridge without controller holding `program` at the entry point 0x0100 and
/// `routine` at 0x0200.
fn machine(program: &[u8], routine: &[u8]) -> (Cpu, Bus) {
    let mut bin = vec![0u8; 0x8000];
    for (i, b) in program.iter().enumerate() {
        bin[0x100 + i] = *b;
    }
    for (i, b) in routine.iter().enumerate() {
        bin[0x200 + i] = *b;
    }
    let rom = Rom::load(bin).unwrap();
    (Cpu::new(), Bus::new(rom))
}

fn run(cpu: &mut Cpu, bus: &mut Bus, steps: usize) -> Vec<u8> {
    (0..steps).map(|_| cpu.step(bus)).collect()
}

#[test]
fn power_on_registers() {
    let cpu = Cpu::new();
    assert_eq!(cpu.af(), 0x01B0);
    assert_eq!(cpu.bc(), 0x0013);
    assert_eq!(cpu.de(), 0x00D8);
    assert_eq!(cpu.hl(), 0x014D);
    assert_eq!(cpu.sp, 0xFFFE);
    assert_eq!(cpu.pc, 0x0100);
}

#[test]
fn register_pairs_split_into_bytes() {
    let mut cpu = Cpu::new();
    cpu.set_bc(0x1234);
    assert_eq!((cpu.b, cpu.c), (0x12, 0x34));
    cpu.set_hl(0xFFFF);
    cpu.inc_hl();
    assert_eq!(cpu.hl(), 0x0000);
    cpu.dec_hl();
    assert_eq!(cpu.hl(), 0xFFFF);
}

#[test]
fn nop_takes_four_cycles() {
    let (mut cpu, mut bus) = machine(&[0x00], &[]);
    let t = cpu.step(&mut bus);
    assert_eq!(t, 4);
    assert_eq!(cpu.pc, 0x0101);
}

#[test]
fn add_sets_half_carry() {
    // LD A,0x0F ; ADD A,0x01
    let (mut cpu, mut bus) = machine(&[0x3E, 0x0F, 0xC6, 0x01], &[]);
    run(&mut cpu, &mut bus, 2);
    assert_eq!(cpu.a, 0x10);
    assert_eq!(cpu.f, FLAG_H);
}

#[test]
fn add_wraps_to_zero_with_carry() {
    // LD A,0xFF ; ADD A,0x01
    let (mut cpu, mut bus) = machine(&[0x3E, 0xFF, 0xC6, 0x01], &[]);
    run(&mut cpu, &mut bus, 2);
    assert_eq!(cpu.a, 0x00);
    assert_eq!(cpu.f, FLAG_Z | FLAG_H | FLAG_C);
}

#[test]
fn sub_borrows_from_high_nibble() {
    // LD A,0x10 ; SUB 0x01
    let (mut cpu, mut bus) = machine(&[0x3E, 0x10, 0xD6, 0x01], &[]);
    run(&mut cpu, &mut bus, 2);
    assert_eq!(cpu.a, 0x0F);
    assert_eq!(cpu.f, FLAG_N | FLAG_H);
}

#[test]
fn daa_corrects_a_bcd_addition() {
    // LD A,0x09 ; ADD A,0x08 ; DAA
    let (mut cpu, mut bus) = machine(&[0x3E, 0x09, 0xC6, 0x08, 0x27], &[]);
    run(&mut cpu, &mut bus, 3);
    assert_eq!(cpu.a, 0x17);
    assert_eq!(cpu.f, 0x00);
}

#[test]
fn swap_exchanges_nibbles() {
    // LD A,0xAB ; SWAP A
    let (mut cpu, mut bus) = machine(&[0x3E, 0xAB, 0xCB, 0x37], &[]);
    let t = run(&mut cpu, &mut bus, 2);
    assert_eq!(cpu.a, 0xBA);
    assert_eq!(cpu.f, 0x00);
    assert_eq!(t[1], 8);
}

#[test]
fn pop_gives_back_what_push_stored() {
    // LD BC,0x1234 ; PUSH BC ; POP DE
    let (mut cpu, mut bus) = machine(&[0x01, 0x34, 0x12, 0xC5, 0xD1], &[]);
    run(&mut cpu, &mut bus, 2);
    assert_eq!(cpu.sp, 0xFFFC);
    assert_eq!(bus.read(0xFFFD), 0x12);
    assert_eq!(bus.read(0xFFFC), 0x34);
    cpu.step(&mut bus);
    assert_eq!(cpu.de(), 0x1234);
    assert_eq!(cpu.sp, 0xFFFE);
}

#[test]
fn pop_af_keeps_low_nibble_of_flags_clear() {
    // LD BC,0x12FF ; PUSH BC ; POP AF
    let (mut cpu, mut bus) = machine(&[0x01, 0xFF, 0x12, 0xC5, 0xF1], &[]);
    run(&mut cpu, &mut bus, 3);
    assert_eq!(cpu.a, 0x12);
    assert_eq!(cpu.f, 0xF0);
}

#[test]
fn call_and_return() {
    // CALL 0x0200 ; LD B,0x55   /   0x0200: LD A,0x77 ; RET
    let (mut cpu, mut bus) = machine(&[0xCD, 0x00, 0x02, 0x06, 0x55], &[0x3E, 0x77, 0xC9]);
    let t = run(&mut cpu, &mut bus, 1);
    assert_eq!(t[0], 24);
    assert_eq!(cpu.pc, 0x0200);
    assert_eq!(cpu.sp, 0xFFFC);
    run(&mut cpu, &mut bus, 3);
    assert_eq!(cpu.a, 0x77);
    assert_eq!(cpu.b, 0x55);
    assert_eq!(cpu.sp, 0xFFFE);
    assert_eq!(cpu.pc, 0x0105);
}

#[test]
fn relative_jump_backwards() {
    // NOP ; JR -3
    let (mut cpu, mut bus) = machine(&[0x00, 0x18, 0xFD], &[]);
    run(&mut cpu, &mut bus, 2);
    assert_eq!(cpu.pc, 0x0100);
}

#[test]
fn store_and_load_through_work_ram() {
    // LD A,0x42 ; LD (0xC000),A ; LD A,0x00 ; LD A,(0xC000)
    let (mut cpu, mut bus) =
        machine(&[0x3E, 0x42, 0xEA, 0x00, 0xC0, 0x3E, 0x00, 0xFA, 0x00, 0xC0], &[]);
    run(&mut cpu, &mut bus, 2);
    assert_eq!(bus.read(0xC000), 0x42);
    assert_eq!(bus.read(0xE000), 0x42);
    run(&mut cpu, &mut bus, 2);
    assert_eq!(cpu.a, 0x42);
}

#[test]
fn pending_interrupt_is_serviced() {
    let (mut cpu, mut bus) = machine(&[0x00], &[]);
    bus.it.reg_ie = 0x04;
    bus.it.reg_if = 0x04;
    // the instruction runs first, then the timer interrupt is taken
    cpu.step(&mut bus);
    assert_eq!(cpu.pc, 0x0050);
    assert!(!cpu.master_ie);
    assert_eq!(bus.it.reg_if & 0x04, 0);
    assert_eq!(cpu.sp, 0xFFFC);
    assert_eq!(bus.read(0xFFFD), 0x01);
    assert_eq!(bus.read(0xFFFC), 0x01);
}

#[test]
fn halt_waits_for_an_interrupt() {
    // HALT ; NOP
    let (mut cpu, mut bus) = machine(&[0x76, 0x00], &[]);
    cpu.step(&mut bus);
    assert!(cpu.halted);
    let pc = cpu.pc;
    cpu.step(&mut bus);
    assert_eq!(cpu.pc, pc);
    bus.it.reg_ie = 0x01;
    bus.it.reg_if = 0x01;
    cpu.step(&mut bus);
    assert!(!cpu.halted);
    assert_eq!(cpu.pc, 0x0040);
}

#[test]
fn flag_low_nibble_stays_clear_over_a_program() {
    let program = [
        0x3E, 0x0F, 0xC6, 0x01, 0x27, 0xD6, 0x03, 0x2F, 0x37, 0x3F, 0xCB, 0x37, 0x17, 0x1F,
        0x07, 0x0F, 0xA7, 0xB7, 0xAF, 0xFE, 0x10,
    ];
    let (mut cpu, mut bus) = machine(&program, &[]);
    for _ in 0..18 {
        cpu.step(&mut bus);
        assert_eq!(cpu.f & 0x0F, 0);
    }
}

#[test]
fn daa_gives_the_decimal_sum_and_difference() {
    // LD A,0x15 ; ADD A,0x27 ; DAA
    let (mut cpu, mut bus) = machine(&[0x3E, 0x15, 0xC6, 0x27, 0x27], &[]);
    run(&mut cpu, &mut bus, 3);
    assert_eq!(cpu.a, 0x42);
    assert_eq!(cpu.f & FLAG_C, 0);
    // LD A,0x99 ; ADD A,0x01 ; DAA: 100 wraps to 00 with carry
    let (mut cpu, mut bus) = machine(&[0x3E, 0x99, 0xC6, 0x01, 0x27], &[]);
    run(&mut cpu, &mut bus, 3);
    assert_eq!(cpu.a, 0x00);
    assert_eq!(cpu.f, FLAG_Z | FLAG_C);
    // LD A,0x12 ; SUB 0x25 ; DAA: 12 - 25 = 87 with a borrow
    let (mut cpu, mut bus) = machine(&[0x3E, 0x12, 0xD6, 0x25, 0x27], &[]);
    run(&mut cpu, &mut bus, 3);
    assert_eq!(cpu.a, 0x87);
    assert_eq!(cpu.f & FLAG_C, FLAG_C);
    assert_eq!(cpu.f & FLAG_H, 0);
}

#[test]
fn current_instruction_reads_the_operands() {
    // LD BC,0x1234
    let (cpu, bus) = machine(&[0x01, 0x34, 0x12], &[]);
    assert_eq!(cpu.current_instruction(&bus).as_deref(), Some("LD BC, $1234"));
}
