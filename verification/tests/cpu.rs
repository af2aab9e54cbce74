use emulator::cpu::Cpu;
use emulator::machine::{MAX_STEPS, MEMSIZE};

/// A fresh machine with `program` at address 0 and the program counter on it.
fn machine_with(program: &[u16]) -> Cpu {
    let mut cpu = Cpu::new();
    cpu.load(program, 0);
    cpu
}

#[test]
fn new_machine_is_zeroed_and_running() {
    let cpu = Cpu::new();
    assert_eq!(cpu.pc, 0);
    assert_eq!(cpu.reg_in, [0, 0, 0]);
    assert_eq!(cpu.reg_out, 0);
    assert_eq!(cpu.memory.len(), MEMSIZE);
    assert!(cpu.memory.iter().all(|&w| w == 0));
    assert!(!cpu.halted);
    assert!(cpu.output.is_empty());
}

#[test]
fn memory_has_one_word_per_address() {
    assert_eq!(MEMSIZE, 65536);
    assert_eq!(MAX_STEPS, 100);
}

#[test]
fn load_overlays_the_image_and_sets_the_entry() {
    let mut cpu = Cpu::new();
    cpu.memory[2] = 0xaaaa;
    cpu.memory[3] = 0xbbbb;
    cpu.reg_out = 7;
    cpu.load(&[0x0011, 0x0022, 0x0033], 0x1234);
    assert_eq!(cpu.pc, 0x1234);
    assert_eq!(&cpu.memory[..5], &[0x0011, 0x0022, 0x0033, 0xbbbb, 0x0000]);
    assert_eq!(cpu.reg_out, 7);
    assert!(!cpu.halted);
}

#[test]
fn load_of_an_empty_image_changes_only_the_program_counter() {
    let mut cpu = Cpu::new();
    cpu.memory[0] = 0x4242;
    cpu.load(&[], 9);
    assert_eq!(cpu.pc, 9);
    assert_eq!(cpu.memory[0], 0x4242);
}

#[test]
fn load_of_a_full_image_fills_memory() {
    let image = vec![0x5a5au16; MEMSIZE];
    let mut cpu = Cpu::new();
    cpu.load(&image, 0);
    assert!(cpu.memory.iter().all(|&w| w == 0x5a5a));
}

#[test]
fn fetch_returns_the_word_and_advances_by_one() {
    let mut cpu = machine_with(&[0x1111, 0x2222]);
    assert_eq!(cpu.fetch(), 0x1111);
    assert_eq!(cpu.pc, 1);
    assert_eq!(cpu.fetch(), 0x2222);
    assert_eq!(cpu.pc, 2);
    assert_eq!(cpu.fetch(), 0);
    assert_eq!(cpu.pc, 3);
}

#[test]
fn fetch_wraps_at_the_end_of_memory() {
    let mut cpu = Cpu::new();
    cpu.memory[0xffff] = 0x7777;
    cpu.pc = 0xffff;
    assert_eq!(cpu.fetch(), 0x7777);
    assert_eq!(cpu.pc, 0);
}

#[test]
fn nop_changes_nothing_but_the_program_counter() {
    let mut cpu = machine_with(&[0x0000]);
    cpu.reg_in = [1, 2, 3];
    cpu.reg_out = 4;
    cpu.step();
    assert_eq!(cpu.pc, 1);
    assert_eq!(cpu.reg_in, [1, 2, 3]);
    assert_eq!(cpu.reg_out, 4);
    assert!(!cpu.halted);
    assert!(cpu.output.is_empty());
    assert!(cpu.memory.iter().all(|&w| w == 0));
}

#[test]
fn undefined_opcode_executes_as_nop() {
    let mut cpu = machine_with(&[0x10ff, 0x0009]);
    cpu.reg_out = 4;
    cpu.step();
    assert_eq!(cpu.pc, 2);
    assert_eq!(cpu.reg_in, [9, 0, 0]);
    assert_eq!(cpu.reg_out, 4);
    assert!(!cpu.halted);
}

#[test]
fn copy_moves_input_zero_to_the_output_register() {
    let mut cpu = machine_with(&[0x1001, 0xabcd]);
    cpu.step();
    assert_eq!(cpu.reg_out, 0xabcd);
    assert_eq!(cpu.reg_in, [0xabcd, 0, 0]);
    assert_eq!(cpu.pc, 2);
}

#[test]
fn add_sums_the_first_two_inputs() {
    let mut cpu = machine_with(&[0x2002, 0x0123, 0x0456]);
    cpu.step();
    assert_eq!(cpu.reg_out, 0x0579);
    assert_eq!(cpu.pc, 3);
}

#[test]
fn add_wraps_modulo_two_to_the_sixteen() {
    let mut cpu = machine_with(&[0x2002, 0xffff, 0x0001]);
    cpu.step();
    assert_eq!(cpu.reg_out, 0x0000);

    let mut cpu = machine_with(&[0x2002, 0xfff0, 0x0025]);
    cpu.step();
    assert_eq!(cpu.reg_out, 0x0015);
}

#[test]
fn add_is_commutative() {
    for (a, b) in [(0xffffu16, 0x0001u16), (0x1234, 0xfedc), (0, 0x8000), (0x8000, 0x8000)] {
        let mut left = machine_with(&[0x2002, a, b]);
        let mut right = machine_with(&[0x2002, b, a]);
        left.step();
        right.step();
        assert_eq!(left.reg_out, right.reg_out);
        assert_eq!(left.reg_out, a.wrapping_add(b));
    }
}

#[test]
fn jump_if_zero_jumps_when_input_one_is_zero() {
    let mut cpu = machine_with(&[0x2003, 0x0040, 0x0000]);
    cpu.step();
    assert_eq!(cpu.pc, 0x0040);
    assert_eq!(cpu.reg_out, 0);
    assert!(cpu.memory[3..].iter().all(|&w| w == 0));
}

#[test]
fn jump_if_zero_falls_through_when_input_one_is_not_zero() {
    let mut cpu = machine_with(&[0x2003, 0x0040, 0x0001]);
    cpu.step();
    assert_eq!(cpu.pc, 3);

    let mut cpu = machine_with(&[0x2403, 0x0090, 0x0040, 0xffff]);
    cpu.step();
    assert_eq!(cpu.pc, 4);
}

#[test]
fn jump_if_zero_tests_the_stale_register_when_it_has_one_operand() {
    let mut cpu = machine_with(&[0x1003, 0x0021]);
    cpu.reg_in = [0, 5, 0];
    cpu.step();
    assert_eq!(cpu.pc, 2);

    let mut cpu = machine_with(&[0x1003, 0x0021]);
    cpu.step();
    assert_eq!(cpu.pc, 0x0021);
}

#[test]
fn taken_jump_fetches_no_word_at_the_target() {
    let mut cpu = machine_with(&[0x2003, 0x0005, 0x0000, 0, 0, 0x0005]);
    cpu.step();
    assert_eq!(cpu.pc, 5);
    assert!(!cpu.halted);
    cpu.step();
    assert!(cpu.halted);
    assert_eq!(cpu.pc, 6);
}

#[test]
fn poke_emits_the_low_byte_of_input_one() {
    let mut cpu = machine_with(&[0x2004, 0x0000, 0x1241, 0x2004, 0x0000, 0x00e9]);
    cpu.step();
    assert_eq!(cpu.output, vec![0x41]);
    cpu.step();
    assert_eq!(cpu.output, vec![0x41, 0xe9]);
    assert_eq!(cpu.reg_out, 0);
}

#[test]
fn halt_sets_the_halted_flag() {
    let mut cpu = machine_with(&[0x0005]);
    cpu.step();
    assert!(cpu.halted);
    assert_eq!(cpu.pc, 1);
}

#[test]
fn operands_fill_the_registers_in_order() {
    let mut cpu = machine_with(&[0x3000, 0x000a, 0x000b, 0x000c]);
    cpu.step();
    assert_eq!(cpu.reg_in, [0x000a, 0x000b, 0x000c]);
    assert_eq!(cpu.pc, 4);
}

#[test]
fn registers_without_an_operand_keep_their_old_value() {
    let mut cpu = machine_with(&[0x3000, 0x000a, 0x000b, 0x000c, 0x1000, 0x0001, 0x0000]);
    cpu.step();
    cpu.step();
    assert_eq!(cpu.reg_in, [0x0001, 0x000b, 0x000c]);
    cpu.step();
    assert_eq!(cpu.reg_in, [0x0001, 0x000b, 0x000c]);
    assert_eq!(cpu.pc, 7);
}

#[test]
fn indirect_read_of_slot_zero_uses_the_word_at_the_address() {
    let mut cpu = machine_with(&[0x1201, 0x0050]);
    cpu.memory[0x50] = 0x1234;
    cpu.step();
    assert_eq!(cpu.reg_out, 0x1234);
    assert_eq!(cpu.reg_in[0], 0x1234);
}

#[test]
fn indirect_read_feeds_add() {
    let mut cpu = machine_with(&[0x2202, 0x0050, 0x0003]);
    cpu.memory[0x50] = 0x1000;
    cpu.step();
    assert_eq!(cpu.reg_out, 0x1003);

    let mut cpu = machine_with(&[0x2102, 0x0003, 0x0050]);
    cpu.memory[0x50] = 0x1000;
    cpu.step();
    assert_eq!(cpu.reg_out, 0x1003);

    let mut cpu = machine_with(&[0x2302, 0x0050, 0x0051]);
    cpu.memory[0x50] = 0x1000;
    cpu.memory[0x51] = 0x0200;
    cpu.step();
    assert_eq!(cpu.reg_out, 0x1200);
}

#[test]
fn bit_nine_is_slot_zero_and_bit_eight_is_slot_one() {
    let mut cpu = machine_with(&[0x2200, 0x0050, 0x0051]);
    cpu.memory[0x50] = 0xaaaa;
    cpu.memory[0x51] = 0xbbbb;
    cpu.step();
    assert_eq!(cpu.reg_in, [0xaaaa, 0x0051, 0]);

    let mut cpu = machine_with(&[0x2100, 0x0050, 0x0051]);
    cpu.memory[0x50] = 0xaaaa;
    cpu.memory[0x51] = 0xbbbb;
    cpu.step();
    assert_eq!(cpu.reg_in, [0x0050, 0xbbbb, 0]);
}

#[test]
fn slot_two_is_never_read_through() {
    let mut cpu = machine_with(&[0x3300, 0x0050, 0x0051, 0x0052]);
    cpu.memory[0x50] = 0xaaaa;
    cpu.memory[0x51] = 0xbbbb;
    cpu.memory[0x52] = 0xcccc;
    cpu.step();
    assert_eq!(cpu.reg_in, [0xaaaa, 0xbbbb, 0x0052]);
}

#[test]
fn indirect_read_is_a_single_dereference() {
    let mut cpu = machine_with(&[0x1201, 0x0050]);
    cpu.memory[0x50] = 0x0051;
    cpu.memory[0x51] = 0x9999;
    cpu.step();
    assert_eq!(cpu.reg_out, 0x0051);
}

#[test]
fn indirect_read_without_operand_reads_through_the_stale_register() {
    let mut cpu = machine_with(&[0x0201]);
    cpu.reg_in = [0x0050, 0, 0];
    cpu.memory[0x50] = 0x4321;
    cpu.step();
    assert_eq!(cpu.reg_out, 0x4321);
    assert_eq!(cpu.pc, 1);
}

#[test]
fn indirect_write_stores_the_output_and_nothing_else() {
    let mut cpu = machine_with(&[0x1401, 0x0060, 0xbeef]);
    cpu.memory[0x61] = 0x1111;
    let before = cpu.memory;
    cpu.step();
    assert_eq!(cpu.reg_out, 0xbeef);
    assert_eq!(cpu.memory[0x60], 0xbeef);
    assert_eq!(cpu.pc, 3);
    for addr in 0..MEMSIZE {
        if addr != 0x60 {
            assert_eq!(cpu.memory[addr], before[addr], "address {addr:#06x}");
        }
    }
}

#[test]
fn indirect_write_stores_the_sum_after_add() {
    let mut cpu = machine_with(&[0x2402, 0x0070, 0xffff, 0x0003]);
    cpu.step();
    assert_eq!(cpu.reg_out, 0x0002);
    assert_eq!(cpu.memory[0x70], 0x0002);
}

#[test]
fn indirect_write_of_an_operation_without_result_stores_the_old_output() {
    let mut cpu = machine_with(&[0x0400, 0x0070]);
    cpu.reg_out = 0x0abc;
    cpu.step();
    assert_eq!(cpu.memory[0x70], 0x0abc);
    assert_eq!(cpu.pc, 2);
}

#[test]
fn write_address_comes_before_the_operands() {
    let mut cpu = machine_with(&[0x2402, 0x0070, 0x0001, 0x0002]);
    cpu.step();
    assert_eq!(cpu.reg_in, [0x0001, 0x0002, 0]);
    assert_eq!(cpu.memory[0x70], 0x0003);
    assert_eq!(cpu.memory[0x01], 0x0070);
}

#[test]
fn without_the_write_flag_memory_is_untouched() {
    let mut cpu = machine_with(&[0x2002, 0x0001, 0x0002]);
    let before = cpu.memory;
    cpu.step();
    assert_eq!(cpu.reg_out, 3);
    assert!(cpu.memory == before);
}

#[test]
fn instruction_may_overwrite_itself() {
    let mut cpu = machine_with(&[0x1401, 0x0000, 0x0005]);
    cpu.step();
    assert_eq!(cpu.memory[0], 0x0005);
    assert_eq!(cpu.pc, 3);
}

#[test]
fn step_wraps_the_program_counter_across_the_end_of_memory() {
    let mut cpu = Cpu::new();
    cpu.memory[0xffff] = 0x2002;
    cpu.memory[0x0000] = 0x0007;
    cpu.memory[0x0001] = 0x0008;
    cpu.pc = 0xffff;
    cpu.step();
    assert_eq!(cpu.reg_out, 0x000f);
    assert_eq!(cpu.pc, 2);
}

#[test]
fn step_on_a_halted_machine_still_executes() {
    let mut cpu = machine_with(&[0x0005, 0x1001, 0x0009]);
    cpu.step();
    assert!(cpu.halted);
    cpu.step();
    assert!(cpu.halted);
    assert_eq!(cpu.reg_out, 9);
}

#[test]
fn run_stops_at_halt() {
    let mut cpu = machine_with(&[0x1001, 0x0009, 0x0005, 0x1001, 0x0001]);
    cpu.run();
    assert!(cpu.halted);
    assert_eq!(cpu.pc, 3);
    assert_eq!(cpu.reg_out, 9);
}

#[test]
fn run_on_a_halted_machine_does_nothing() {
    let mut cpu = machine_with(&[0x1001, 0x0009]);
    cpu.halted = true;
    cpu.run();
    assert!(cpu.halted);
    assert_eq!(cpu.pc, 0);
    assert_eq!(cpu.reg_out, 0);
}

#[test]
fn run_without_halt_takes_exactly_one_hundred_steps() {
    let mut cpu = Cpu::new();
    cpu.run();
    assert_eq!(cpu.pc, 100);
    assert!(!cpu.halted);

    let mut stepped = Cpu::new();
    for _ in 0..100 {
        stepped.step();
    }
    assert_eq!(stepped.pc, cpu.pc);
}

#[test]
fn run_counts_steps_not_words() {
    let mut program = Vec::new();
    for i in 0..120u16 {
        program.push(0x2402);
        program.push(0x1000);
        program.push(i);
        program.push(1);
    }
    let mut cpu = machine_with(&program);
    cpu.run();
    assert_eq!(cpu.pc, 400);
    assert_eq!(cpu.reg_out, 100);
    assert_eq!(cpu.memory[0x1000], 100);
    assert!(!cpu.halted);
}

#[test]
fn run_of_an_endless_loop_ends_at_the_cap() {
    let mut cpu = machine_with(&[0x2004, 0x0000, 0x002a, 0x2003, 0x0000, 0x0000]);
    cpu.run();
    assert!(!cpu.halted);
    assert_eq!(cpu.output, vec![0x2a; 50]);
    assert_eq!(cpu.pc, 0);
}

#[test]
fn run_halting_on_the_last_step_of_the_budget_is_halted() {
    let mut cpu = Cpu::new();
    cpu.memory[99] = 0x0005;
    cpu.run();
    assert!(cpu.halted);
    assert_eq!(cpu.pc, 100);

    let mut cpu = Cpu::new();
    cpu.memory[100] = 0x0005;
    cpu.run();
    assert!(!cpu.halted);
    assert_eq!(cpu.pc, 100);
}

#[test]
fn a_second_run_continues_where_the_first_stopped() {
    let mut cpu = Cpu::new();
    cpu.memory[150] = 0x0005;
    cpu.run();
    assert!(!cpu.halted);
    cpu.run();
    assert!(cpu.halted);
    assert_eq!(cpu.pc, 151);
}
