use emu_8080::emulator::{ConditionCodes, IOHandler, State8080};

const FLAG_Z: u8 = 0x01;
const FLAG_CY: u8 = 0x08;

fn booted(program: Vec<u8>) -> State8080 {
    State8080::new().loading_buffer_into_memory_at(program, 0)
}

#[test]
fn loading_a_buffer_places_bytes_at_the_offset() {
    let state = State8080::new().loading_buffer_into_memory_at(vec![0xAA, 0xBB, 0xCC], 0x0800);
    assert_eq!(state.memory_at(0x07FF), 0x00);
    assert_eq!(state.memory_at(0x0800), 0xAA);
    assert_eq!(state.memory_at(0x0801), 0xBB);
    assert_eq!(state.memory_at(0x0802), 0xCC);
    assert_eq!(state.memory_at(0x0803), 0x00);
}

#[test]
fn setting_memory_replaces_a_single_byte() {
    let state = State8080::new().setting_memory_at(0xC9, 0x0005);
    assert_eq!(state.memory_at(0x0004), 0x00);
    assert_eq!(state.memory_at(0x0005), 0xC9);
    assert_eq!(state.memory_at(0x0006), 0x00);
}

#[test]
fn loading_can_fill_the_whole_64k_image() {
    let state = State8080::new().loading_buffer_into_memory_at(vec![0x42; 0x10000], 0);
    assert_eq!(state.memory_at(0x0000), 0x42);
    assert_eq!(state.memory_at(0x8000), 0x42);
    assert_eq!(state.memory_at(0xFFFF), 0x42);
}

#[test]
fn stack_push_wraps_below_address_zero() {
    let mut state = booted(vec![0xC5]); // PUSH B
    state.b = 0x12;
    state.c = 0x34;
    state.sp = 0x0001;
    state = state.evaluating_next();
    assert_eq!(state.memory_at(0x0000), 0x12, "high byte lands one below the pointer");
    assert_eq!(state.memory_at(0xFFFF), 0x34, "low byte wraps around the top of memory");
    assert_eq!(state.sp, 0xFFFF);
}

#[test]
fn a_new_machine_is_blank() {
    let state = State8080::new();
    assert_eq!(state.a, 0);
    assert_eq!(state.bc(), 0);
    assert_eq!(state.de(), 0);
    assert_eq!(state.hl(), 0);
    assert_eq!(state.sp, 0);
    assert_eq!(state.pc, 0);
    assert_eq!(state.cc.bits, 0);
    assert!(!state.interrupt_enabled);
    assert!(!state.halted);
    assert_eq!(state.last_cycles(), 0);
}

#[test]
fn immediate_load_then_halt_scenario() {
    let mut state = booted(vec![0x3E, 0x05, 0x76]); // MVI A,5; HLT
    state = state.evaluating_next();
    assert_eq!(state.a, 0x05);
    assert_eq!(state.pc, 2);
    assert!(!state.halted);
    state = state.evaluating_next();
    assert!(state.halted, "the halt instruction must signal termination");
}

#[test]
fn immediate_loads_reach_every_register() {
    let mut state = booted(vec![
        0x06, 0x11, // MVI B
        0x0E, 0x22, // MVI C
        0x16, 0x33, // MVI D
        0x1E, 0x44, // MVI E
        0x26, 0x05, // MVI H
        0x2E, 0x66, // MVI L
        0x36, 0x77, // MVI M (memory at HL = 0x0566)
    ]);
    for _ in 0..7 {
        state = state.evaluating_next();
    }
    assert_eq!(state.b, 0x11);
    assert_eq!(state.c, 0x22);
    assert_eq!(state.d, 0x33);
    assert_eq!(state.e, 0x44);
    assert_eq!(state.h, 0x05);
    assert_eq!(state.l, 0x66);
    assert_eq!(state.memory_at(0x0566), 0x77);
    assert_eq!(state.pc, 14);
}

#[test]
fn sixteen_bit_immediate_loads_fill_the_pairs() {
    let mut state = booted(vec![
        0x01, 0x34, 0x12, // LXI B,0x1234
        0x11, 0x78, 0x56, // LXI D,0x5678
        0x21, 0xBC, 0x9A, // LXI H,0x9ABC
        0x31, 0x00, 0x24, // LXI SP,0x2400
    ]);
    for _ in 0..4 {
        state = state.evaluating_next();
    }
    assert_eq!(state.bc(), 0x1234);
    assert_eq!(state.de(), 0x5678);
    assert_eq!(state.hl(), 0x9ABC);
    assert_eq!(state.sp, 0x2400);
}

#[test]
fn moves_copy_between_registers_and_memory() {
    let mut state = booted(vec![0x47, 0x70, 0x4E]); // MOV B,A; MOV M,B; MOV C,M
    state.a = 0x3C;
    state.h = 0x20;
    state.l = 0x10;
    state = state.evaluating_next();
    assert_eq!(state.b, 0x3C);
    state = state.evaluating_next();
    assert_eq!(state.memory_at(0x2010), 0x3C);
    state = state.evaluating_next();
    assert_eq!(state.c, 0x3C);
}

#[test]
fn accumulator_stores_and_loads_through_pairs_and_addresses() {
    let mut state = booted(vec![
        0x02, // STAX B
        0x1A, // LDAX D
        0x32, 0x00, 0x30, // STA 0x3000
        0x3A, 0x01, 0x30, // LDA 0x3001
    ]);
    state.a = 0x99;
    state.b = 0x20;
    state.c = 0x00;
    state.d = 0x20;
    state.e = 0x00;
    state = state.evaluating_next();
    assert_eq!(state.memory_at(0x2000), 0x99);
    state.a = 0x00;
    state = state.evaluating_next();
    assert_eq!(state.a, 0x99, "LDAX D reads the byte STAX B stored");
    state = state.evaluating_next();
    assert_eq!(state.memory_at(0x3000), 0x99);
    state = state.setting_memory_at(0x42, 0x3001);
    state = state.evaluating_next();
    assert_eq!(state.a, 0x42);
}

#[test]
fn hl_stores_and_loads_little_endian() {
    let mut state = booted(vec![
        0x22, 0x00, 0x40, // SHLD 0x4000
        0x2A, 0x02, 0x40, // LHLD 0x4002
    ]);
    state.h = 0xAE;
    state.l = 0x29;
    state = state.evaluating_next();
    assert_eq!(state.memory_at(0x4000), 0x29, "L lands at the operand address");
    assert_eq!(state.memory_at(0x4001), 0xAE, "H lands one above");
    state = state.setting_memory_at(0xFF, 0x4002).setting_memory_at(0x03, 0x4003);
    state = state.evaluating_next();
    assert_eq!(state.l, 0xFF);
    assert_eq!(state.h, 0x03);
}

#[test]
fn exchange_swaps_hl_with_de() {
    let mut state = booted(vec![0xEB]); // XCHG
    state.h = 0x00;
    state.l = 0xFF;
    state.d = 0x33;
    state.e = 0x55;
    state = state.evaluating_next();
    assert_eq!(state.hl(), 0x3355);
    assert_eq!(state.de(), 0x00FF);
}

#[test]
fn register_pair_increment_wraps_to_zero() {
    let mut state = booted(vec![0x23]); // INX H
    state.h = 0xFF;
    state.l = 0xFF;
    state = state.evaluating_next();
    assert_eq!(state.hl(), 0x0000);
}

#[test]
fn register_pair_decrement_wraps_to_ffff() {
    let mut state = booted(vec![0x0B]); // DCX B
    state.b = 0x00;
    state.c = 0x00;
    state = state.evaluating_next();
    assert_eq!(state.bc(), 0xFFFF);
}

#[test]
fn stack_pointer_increment_and_decrement_wrap() {
    let mut state = booted(vec![0x33, 0x3B, 0x3B]); // INX SP; DCX SP; DCX SP
    state.sp = 0xFFFF;
    state = state.evaluating_next();
    assert_eq!(state.sp, 0x0000);
    state = state.evaluating_next();
    assert_eq!(state.sp, 0xFFFF);
    state = state.evaluating_next();
    assert_eq!(state.sp, 0xFFFE);
}

#[test]
fn conditional_jump_not_taken_still_advances_past_the_operands() {
    let mut state = booted(vec![0xC2, 0x34, 0x12]); // JNZ 0x1234
    state.cc = ConditionCodes { bits: FLAG_Z };
    state = state.evaluating_next();
    assert_eq!(state.pc, 3, "the two operand bytes are consumed even when not taken");
    assert_eq!(state.sp, 0);
    assert_eq!(state.cc.bits, FLAG_Z);
}

#[test]
fn conditional_jump_taken_moves_to_the_operand_address() {
    let mut state = booted(vec![0xC2, 0x34, 0x12]); // JNZ 0x1234
    state = state.evaluating_next();
    assert_eq!(state.pc, 0x1234);
}

#[test]
fn unconditional_jump_and_its_undocumented_alias() {
    let mut state = booted(vec![0xC3, 0x0A, 0x00]); // JMP 0x000A
    state = state.evaluating_next();
    assert_eq!(state.pc, 0x000A);

    let mut state = booted(vec![0xCB, 0x10, 0x00]); // the 0xCB alias of JMP
    state = state.evaluating_next();
    assert_eq!(state.pc, 0x0010);
}

#[test]
fn call_pushes_the_return_address_and_return_pops_it() {
    let mut state = booted(vec![0xCD, 0x10, 0x00]); // CALL 0x0010
    state = state.setting_memory_at(0xC9, 0x0010); // RET
    state.sp = 0x2400;
    state = state.evaluating_next();
    assert_eq!(state.pc, 0x0010);
    assert_eq!(state.sp, 0x23FE);
    assert_eq!(state.memory_at(0x23FE), 0x03, "low byte of the return address");
    assert_eq!(state.memory_at(0x23FF), 0x00, "high byte of the return address");
    state = state.evaluating_next();
    assert_eq!(state.pc, 0x0003, "return lands right after the call");
    assert_eq!(state.sp, 0x2400, "the stack pointer is back where it started");
}

#[test]
fn conditional_call_and_return_follow_the_flags() {
    let mut state = booted(vec![0xC4, 0x20, 0x00]); // CNZ 0x0020
    state.cc = ConditionCodes { bits: FLAG_Z };
    state.sp = 0x2400;
    state = state.evaluating_next();
    assert_eq!(state.pc, 3, "a call whose condition fails only skips its operands");
    assert_eq!(state.sp, 0x2400);

    let mut state = booted(vec![0xDC, 0x20, 0x00]); // CC 0x0020
    state = state.setting_memory_at(0xD8, 0x0020); // RC
    state.cc = ConditionCodes { bits: FLAG_CY };
    state.sp = 0x2400;
    state = state.evaluating_next();
    assert_eq!(state.pc, 0x0020);
    state.cc = ConditionCodes { bits: 0 };
    state = state.evaluating_next();
    assert_eq!(state.pc, 0x0021, "a return whose condition fails falls through");
    state = state.setting_memory_at(0xD8, 0x0021);
    state.cc = ConditionCodes { bits: FLAG_CY };
    state.pc = 0x0021;
    state = state.evaluating_next();
    assert_eq!(state.pc, 0x0003);
    assert_eq!(state.sp, 0x2400);
}

#[test]
fn undocumented_return_alias_behaves_as_return() {
    let mut state = booted(vec![0xCD, 0x10, 0x00]); // CALL 0x0010
    state = state.setting_memory_at(0xD9, 0x0010); // the 0xD9 alias of RET
    state.sp = 0x2400;
    state = state.evaluating_next();
    state = state.evaluating_next();
    assert_eq!(state.pc, 0x0003);
    assert_eq!(state.sp, 0x2400);
}

#[test]
fn restart_is_a_one_byte_call_to_a_fixed_vector() {
    let mut state = booted(vec![]);
    state.pc = 0x1234;
    state = state.setting_memory_at(0xDF, 0x1234); // RST 3
    state.sp = 0x2400;
    state = state.evaluating_next();
    assert_eq!(state.pc, 0x0018, "restart 3 jumps to 8 * 3");
    assert_eq!(state.memory_at(0x23FE), 0x35, "low byte of the pushed return address");
    assert_eq!(state.memory_at(0x23FF), 0x12, "high byte of the pushed return address");
    assert_eq!(state.sp, 0x23FE);
}

#[test]
fn indirect_jump_takes_hl() {
    let mut state = booted(vec![0xE9]); // PCHL
    state.h = 0x41;
    state.l = 0x3E;
    state = state.evaluating_next();
    assert_eq!(state.pc, 0x413E);
}

#[test]
fn push_and_pop_move_pairs_through_the_stack() {
    let mut state = booted(vec![0xC5, 0xD5, 0xD1, 0xC1]); // PUSH B; PUSH D; POP D; POP B
    state.b = 0x8F;
    state.c = 0x9D;
    state.d = 0x3A;
    state.e = 0x01;
    state.sp = 0x3A2C;
    state = state.evaluating_next();
    assert_eq!(state.memory_at(0x3A2B), 0x8F);
    assert_eq!(state.memory_at(0x3A2A), 0x9D);
    assert_eq!(state.sp, 0x3A2A);
    state = state.evaluating_next();
    state.d = 0;
    state.e = 0;
    state.b = 0;
    state.c = 0;
    state = state.evaluating_next();
    assert_eq!(state.de(), 0x3A01);
    state = state.evaluating_next();
    assert_eq!(state.bc(), 0x8F9D);
    assert_eq!(state.sp, 0x3A2C);
}

#[test]
fn flag_byte_round_trips_through_the_stack_for_all_values() {
    for bits in 0..=255u8 {
        let mut state = booted(vec![0xF5, 0xF1]); // PUSH PSW; POP PSW
        state.a = 0xAB;
        state.cc = ConditionCodes { bits };
        state.sp = 0x2400;
        state = state.evaluating_next();
        state.a = 0x00;
        state.cc = ConditionCodes { bits: !bits };
        state = state.evaluating_next();
        assert_eq!(state.cc.bits, bits, "flag byte {:#04x} must round-trip verbatim", bits);
        assert_eq!(state.a, 0xAB);
        assert_eq!(state.sp, 0x2400);
    }
}

#[test]
fn stack_depth_of_four_returns_the_pointer() {
    let mut state = booted(vec![0xC5, 0xD5, 0xE5, 0xF5, 0xF1, 0xE1, 0xD1, 0xC1]);
    state.sp = 0x2400;
    for _ in 0..8 {
        state = state.evaluating_next();
    }
    assert_eq!(state.sp, 0x2400);
}

#[test]
fn exchange_with_the_stack_top_swaps_both_ways() {
    let mut state = booted(vec![0xE3]); // XTHL
    state.h = 0x0B;
    state.l = 0x3C;
    state.sp = 0x10AD;
    state = state.setting_memory_at(0xF0, 0x10AD).setting_memory_at(0x0D, 0x10AE);
    state = state.evaluating_next();
    assert_eq!(state.hl(), 0x0DF0);
    assert_eq!(state.memory_at(0x10AD), 0x3C);
    assert_eq!(state.memory_at(0x10AE), 0x0B);
    assert_eq!(state.sp, 0x10AD, "the stack pointer itself does not move");
}

#[test]
fn sphl_copies_hl_into_the_stack_pointer() {
    let mut state = booted(vec![0xF9]); // SPHL
    state.h = 0x50;
    state.l = 0x6C;
    state = state.evaluating_next();
    assert_eq!(state.sp, 0x506C);
}

#[test]
fn interrupt_toggles_follow_ei_and_di() {
    let mut state = booted(vec![0xFB, 0xF3]); // EI; DI
    state = state.evaluating_next();
    assert!(state.interrupt_enabled);
    state = state.evaluating_next();
    assert!(!state.interrupt_enabled);
}

#[test]
fn interrupt_entry_pushes_pc_and_disables_interrupts() {
    let mut state = State8080::new();
    state.pc = 0x1234;
    state.sp = 0x2400;
    state.interrupt_enabled = true;
    state = state.generating_interrupt(2);
    assert_eq!(state.pc, 0x0010, "vector 2 enters at 8 * 2");
    assert_eq!(state.sp, 0x23FE);
    assert_eq!(state.memory_at(0x23FE), 0x34);
    assert_eq!(state.memory_at(0x23FF), 0x12);
    assert!(!state.interrupt_enabled);
}

#[test]
fn io_without_a_handler_only_consumes_the_port_byte() {
    let mut state = booted(vec![0xDB, 0x07, 0xD3, 0x09]); // IN 7; OUT 9
    state.a = 0x5F;
    state = state.evaluating_next();
    assert_eq!(state.a, 0x5F, "IN with no handler leaves the accumulator");
    assert_eq!(state.pc, 2);
    state = state.evaluating_next();
    assert_eq!(state.pc, 4);
}

struct PortProbe {
    supplied: u8,
    writes: Vec<(u8, u8)>,
}

impl IOHandler for PortProbe {
    fn inp(&mut self, _state: &State8080, _port: u8) -> u8 {
        self.supplied
    }

    fn out(&mut self, _state: &State8080, port: u8, value: u8) {
        self.writes.push((port, value));
    }
}

#[test]
fn io_with_a_handler_moves_bytes_through_the_ports() {
    let mut probe = PortProbe { supplied: 0x5A, writes: Vec::new() };
    let mut state = booted(vec![0xDB, 0x07, 0xD3, 0x09]); // IN 7; OUT 9
    state = state.evaluating_next_with_io(&mut probe);
    assert_eq!(state.a, 0x5A, "IN loads the byte the handler supplies");
    assert_eq!(state.pc, 2);
    state = state.evaluating_next_with_io(&mut probe);
    assert_eq!(state.pc, 4);
    assert_eq!(probe.writes, vec![(0x09, 0x5A)], "OUT hands the handler port and value");
}

#[test]
fn stepping_with_a_handler_leaves_other_instructions_alone() {
    let mut probe = PortProbe { supplied: 0xFF, writes: Vec::new() };
    let mut state = booted(vec![0x3E, 0x21]); // MVI A,0x21
    state = state.evaluating_next_with_io(&mut probe);
    assert_eq!(state.a, 0x21);
    assert_eq!(state.pc, 2);
    assert!(probe.writes.is_empty());
}

#[test]
fn last_cycles_records_each_instruction_cost() {
    let mut state = booted(vec![0x00, 0xCD, 0x10, 0x00]); // NOP; CALL 0x0010
    state.sp = 0x2400;
    state = state.evaluating_next();
    assert_eq!(state.last_cycles(), 4);
    state = state.evaluating_next();
    assert_eq!(state.last_cycles(), 17);
}

#[test]
fn program_counter_wraps_at_the_top_of_memory() {
    let mut state = State8080::new();
    state = state.setting_memory_at(0x3E, 0xFFFF); // MVI A,.. with the operand at 0x0000
    state = state.setting_memory_at(0x77, 0x0000);
    state.pc = 0xFFFF;
    state = state.evaluating_next();
    assert_eq!(state.a, 0x77);
    assert_eq!(state.pc, 0x0001);
}
