use synacor_challenge::{Event, Fault, Machine};

const R0: u16 = 32768;
const R1: u16 = 32769;
const R2: u16 = 32770;

fn image(words: &[u16]) -> Vec<u8> {
    let mut bytes = Vec::new();
    for w in words {
        bytes.push((w & 0xff) as u8);
        bytes.push((w >> 8) as u8);
    }
    bytes
}

fn machine_with(words: &[u16]) -> Machine {
    let mut m = Machine::new();
    let bytes = image(words);
    assert_eq!(m.load(&bytes), bytes.len());
    m
}

/// Runs to a halt or a fault, answering no input, and returns what was printed.
fn run_to_end(m: &mut Machine) -> (Vec<u8>, Result<Event, Fault>) {
    let mut out = Vec::new();
    loop {
        match m.exec(1_000_000) {
            Ok(Event::Output(b)) => out.push(b),
            other => return (out, other),
        }
    }
}

#[test]
fn new_machine_is_zeroed() {
    let m = Machine::new();
    assert_eq!(m.pc(), 0);
    assert_eq!(m.stack_len(), 0);
    for r in R0..R0 + 8 {
        assert_eq!(m.get_register(r), 0);
    }
    assert_eq!(m.read_memory(0), 0);
    assert_eq!(m.read_memory(32767), 0);
}

#[test]
fn default_matches_new() {
    let m = Machine::default();
    assert_eq!(m.pc(), 0);
    assert_eq!(m.stack_len(), 0);
    assert_eq!(m.get_register(32775), 0);
    assert_eq!(m.read_memory(32767), 0);
}

#[test]
fn load_is_little_endian_and_drops_odd_byte() {
    let mut m = Machine::new();
    assert_eq!(m.load(&vec![0x34, 0x12, 0xcd, 0xab, 0xff]), 5);
    assert_eq!(m.read_memory(0), 0x1234);
    assert_eq!(m.read_memory(1), 0xabcd);
    assert_eq!(m.read_memory(2), 0);
}

#[test]
fn load_empty_image() {
    let mut m = Machine::new();
    assert_eq!(m.load(&vec![]), 0);
    assert_eq!(m.read_memory(0), 0);
}

#[test]
fn set_then_read_every_register() {
    for r in R0..R0 + 8 {
        for v in [0u16, 1, 12345, 32767] {
            let mut m = machine_with(&[1, r, v, 0]);
            assert_eq!(m.tick(), Ok(Event::Continue));
            assert_eq!(m.get_register(r), v);
            assert_eq!(m.value(r), Ok(v));
        }
    }
}

#[test]
fn add_and_mult_wrap() {
    let m = Machine::new();
    assert_eq!(m.add(32767, 2), 1);
    assert_eq!(m.add(10, 20), 30);
    assert_eq!(m.mult(300, 300), 24464);
    assert_eq!(m.mult(32767, 32767), 1);
    let mut m = machine_with(&[9, R0, 32758, 15, 10, R1, 300, 300, 0]);
    assert_eq!(m.exec(10), Ok(Event::Halt));
    assert_eq!(m.get_register(R0), 5);
    assert_eq!(m.get_register(R1), 24464);
}

#[test]
fn not_twice_round_trips() {
    let mut m = machine_with(&[14, R0, 12345, 14, R1, R0, 0]);
    assert_eq!(m.exec(10), Ok(Event::Halt));
    assert_eq!(m.get_register(R0), 20422);
    assert_eq!(m.get_register(R1), 12345);
}

#[test]
fn eq_gt_and_or_mod() {
    let mut m = machine_with(&[
        4, R0, 7, 7, 5, R1, 3, 7, 12, R2, 12, 10, 13, 32771, 12, 3, 11, 32772, 17, 5, 0,
    ]);
    assert_eq!(m.exec(10), Ok(Event::Halt));
    assert_eq!(m.get_register(R0), 1);
    assert_eq!(m.get_register(R1), 0);
    assert_eq!(m.get_register(R2), 8);
    assert_eq!(m.get_register(32771), 15);
    assert_eq!(m.get_register(32772), 2);
}

#[test]
fn push_then_pop_restores_stack() {
    let mut m = machine_with(&[2, 7, 3, R0, 0]);
    assert_eq!(m.tick(), Ok(Event::Continue));
    assert_eq!(m.stack_len(), 1);
    assert_eq!(m.tick(), Ok(Event::Continue));
    assert_eq!(m.stack_len(), 0);
    assert_eq!(m.get_register(R0), 7);
}

#[test]
fn call_then_ret_returns_after_call() {
    let mut m = machine_with(&[17, 3, 0, 18]);
    assert_eq!(m.tick(), Ok(Event::Continue));
    assert_eq!(m.pc(), 3);
    assert_eq!(m.stack_len(), 1);
    assert_eq!(m.tick(), Ok(Event::Continue));
    assert_eq!(m.pc(), 2);
    assert_eq!(m.stack_len(), 0);
    assert_eq!(m.tick(), Ok(Event::Halt));
}

#[test]
fn jt_and_jf_branches() {
    let mut m = machine_with(&[7, 0, 10]);
    assert_eq!(m.tick(), Ok(Event::Continue));
    assert_eq!(m.pc(), 3);
    let mut m = machine_with(&[7, 1, 10]);
    assert_eq!(m.tick(), Ok(Event::Continue));
    assert_eq!(m.pc(), 10);
    let mut m = machine_with(&[8, 0, 10]);
    assert_eq!(m.tick(), Ok(Event::Continue));
    assert_eq!(m.pc(), 10);
    let mut m = machine_with(&[8, 1, 10]);
    assert_eq!(m.tick(), Ok(Event::Continue));
    assert_eq!(m.pc(), 3);
}

#[test]
fn branch_not_taken_ignores_invalid_target() {
    let mut m = machine_with(&[7, 0, 32776]);
    assert_eq!(m.tick(), Ok(Event::Continue));
    assert_eq!(m.pc(), 3);
    let mut m = machine_with(&[8, 1, 40000]);
    assert_eq!(m.tick(), Ok(Event::Continue));
    assert_eq!(m.pc(), 3);
}

#[test]
fn branch_taken_faults_on_invalid_target() {
    let mut m = machine_with(&[7, 1, 32776]);
    assert_eq!(m.tick(), Err(Fault::InvalidOperand(32776)));
    let mut m = machine_with(&[8, 0, 40000]);
    assert_eq!(m.tick(), Err(Fault::InvalidOperand(40000)));
}

#[test]
fn set_register_then_get_register() {
    let mut m = Machine::new();
    for r in R0..R0 + 8 {
        for v in [0u16, 1, 32767, 40000, 65535] {
            assert_eq!(m.set_register(r, v), Ok(()));
            assert_eq!(m.get_register(r), v);
        }
    }
    assert_eq!(m.set_register(32776, 1), Err(Fault::InvalidRegister(32776)));
    assert_eq!(m.set_register(7, 1), Err(Fault::InvalidRegister(7)));
}

#[test]
fn jmp_sets_pc() {
    let mut m = machine_with(&[6, 42]);
    assert_eq!(m.tick(), Ok(Event::Continue));
    assert_eq!(m.pc(), 42);
}

#[test]
fn pop_on_empty_stack_halts() {
    let mut m = machine_with(&[3, R0]);
    assert_eq!(m.tick(), Ok(Event::Halt));
}

#[test]
fn ret_on_empty_stack_halts() {
    let mut m = machine_with(&[18]);
    assert_eq!(m.tick(), Ok(Event::Halt));
}

#[test]
fn large_operand_is_a_fault() {
    let m = Machine::new();
    assert_eq!(m.value(32776), Err(Fault::InvalidOperand(32776)));
    assert_eq!(m.value(65535), Err(Fault::InvalidOperand(65535)));
    assert_eq!(m.value(32767), Ok(32767));
    let mut m = machine_with(&[1, R0, 32776]);
    assert_eq!(m.tick(), Err(Fault::InvalidOperand(32776)));
}

#[test]
fn add_of_pushed_values_prints_one_byte() {
    let mut m = machine_with(&[2, 5, 2, 6, 3, R0, 3, R1, 9, R2, R0, R1, 19, R2, 0]);
    let (out, end) = run_to_end(&mut m);
    assert_eq!(out, vec![11u8]);
    assert_eq!(end, Ok(Event::Halt));
}

#[test]
fn lone_halt_prints_nothing() {
    let mut m = machine_with(&[0]);
    let (out, end) = run_to_end(&mut m);
    assert!(out.is_empty());
    assert_eq!(end, Ok(Event::Halt));
    assert_eq!(m.pc(), 1);
}

#[test]
fn in_without_data_is_a_fault() {
    let mut m = machine_with(&[20, R0, 0]);
    assert_eq!(m.exec(10), Ok(Event::Input(R0)));
    assert_eq!(m.input(R0, None), Err(Fault::EndOfInput));
}

#[test]
fn in_with_data_fills_register() {
    let mut m = machine_with(&[20, R1, 19, R1, 0]);
    assert_eq!(m.exec(10), Ok(Event::Input(R1)));
    assert_eq!(m.input(R1, Some(b'x')), Ok(()));
    assert_eq!(m.get_register(R1), 120);
    assert_eq!(m.exec(10), Ok(Event::Output(b'x')));
    assert_eq!(m.exec(10), Ok(Event::Halt));
}

#[test]
fn input_to_non_register_is_a_fault() {
    let mut m = Machine::new();
    assert_eq!(m.input(5, Some(1)), Err(Fault::InvalidRegister(5)));
    let mut m = machine_with(&[20, 5]);
    assert_eq!(m.tick(), Err(Fault::InvalidRegister(5)));
}

#[test]
fn out_keeps_low_byte() {
    let mut m = machine_with(&[19, 300]);
    assert_eq!(m.tick(), Ok(Event::Output(44)));
}

#[test]
fn invalid_opcode_is_a_fault() {
    let mut m = machine_with(&[22]);
    assert_eq!(m.tick(), Err(Fault::InvalidOpcode(22)));
}

#[test]
fn mod_by_zero_is_a_fault() {
    let mut m = machine_with(&[11, R0, 5, 0]);
    assert_eq!(m.tick(), Err(Fault::DivisionByZero));
}

#[test]
fn set_into_literal_is_a_fault() {
    let mut m = machine_with(&[1, 5, 1]);
    assert_eq!(m.tick(), Err(Fault::InvalidRegister(5)));
}

#[test]
fn memory_read_and_write() {
    let mut m = machine_with(&[16, 100, 777, 15, R0, 100, 0]);
    assert_eq!(m.exec(10), Ok(Event::Halt));
    assert_eq!(m.read_memory(100), 777);
    assert_eq!(m.get_register(R0), 777);
}

#[test]
fn address_outside_memory_is_a_fault() {
    let mut words = vec![15, R0, 10, 15, R1, R0, 0, 0, 0, 0, 40000];
    let mut m = machine_with(&words);
    assert_eq!(m.tick(), Ok(Event::Continue));
    assert_eq!(m.tick(), Err(Fault::InvalidAddress(40000)));
    words[3] = 6;
    words[4] = R0;
    let mut m = machine_with(&words);
    assert_eq!(m.tick(), Ok(Event::Continue));
    assert_eq!(m.tick(), Ok(Event::Continue));
    assert_eq!(m.pc(), 40000);
    assert_eq!(m.tick(), Err(Fault::InvalidAddress(40000)));
}

#[test]
fn operands_past_end_of_memory_fault() {
    let mut words = vec![0u16; 32768];
    words[0] = 6;
    words[1] = 32767;
    words[32767] = 6;
    let mut m = machine_with(&words);
    assert_eq!(m.read_memory(32767), 6);
    assert_eq!(m.tick(), Ok(Event::Continue));
    assert_eq!(m.pc(), 32767);
    assert_eq!(m.tick(), Err(Fault::InvalidAddress(32768)));
}

#[test]
fn exec_stops_when_fuel_runs_out() {
    let mut m = machine_with(&[6, 0]);
    assert_eq!(m.exec(10), Ok(Event::Continue));
    assert_eq!(m.pc(), 0);
    assert_eq!(m.exec(0), Ok(Event::Continue));
}
