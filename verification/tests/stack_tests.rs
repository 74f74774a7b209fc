//! The page-$01 stack discipline and its recoverable faults: overflow on a
//! full stack, underflow on an empty one, each carrying the program counter
//! at which it occurred.

use mos6502::cpu::CPU;

#[test]
fn test_push_pop_round_trip() {
    let mut cpu = CPU::new();
    cpu.push(0x42).expect("stack has room");
    assert_eq!(cpu.stp, 0xfe);
    assert_eq!(cpu.mem_read(0x01fe), 0x42);
    let value = cpu.pop().expect("stack holds a byte");
    assert_eq!(value, 0x42);
    assert_eq!(cpu.stp, 0xff);
}

#[test]
fn test_push_pop_word_round_trip() {
    let mut cpu = CPU::new();
    cpu.push_u16(0x1234).expect("stack has room");
    assert_eq!(cpu.stp, 0xfd);
    assert_eq!(cpu.mem_read(0x01fd), 0x34);
    assert_eq!(cpu.mem_read(0x01fe), 0x12);
    let value = cpu.pop_u16().expect("stack holds a word");
    assert_eq!(value, 0x1234);
    assert_eq!(cpu.stp, 0xff);
}

#[test]
fn test_push_overflow_is_reported_and_harmless() {
    let mut cpu = CPU::new();
    cpu.stp = 0;
    cpu.program_counter = 0x1234;
    let err = cpu.push(0x42).expect_err("the stack is full");
    assert_eq!(err.counter, 0x1234);
    assert_eq!(err.err_msg, "Stack Overflow");
    assert_eq!(cpu.stp, 0);
}

#[test]
fn test_push_word_overflow_is_reported() {
    let mut cpu = CPU::new();
    cpu.stp = 1;
    cpu.program_counter = 0x2345;
    let err = cpu.push_u16(0xbeef).expect_err("no room for a word");
    assert_eq!(err.counter, 0x2345);
    assert_eq!(err.err_msg, "Stack Overflow on u16");
    assert_eq!(cpu.stp, 1);
}

#[test]
fn test_pop_underflow_is_reported() {
    let mut cpu = CPU::new();
    cpu.program_counter = 0x3456;
    let err = cpu.pop().expect_err("the stack is empty");
    assert_eq!(err.counter, 0x3456);
    assert_eq!(err.err_msg, "Stack Underflow");
    assert_eq!(cpu.stp, 0xff);
}

#[test]
fn test_pop_word_underflow_is_reported() {
    let mut cpu = CPU::new();
    cpu.stp = 0xfe;
    cpu.program_counter = 0x4567;
    let err = cpu.pop_u16().expect_err("only one byte on the stack");
    assert_eq!(err.counter, 0x4567);
    assert_eq!(err.err_msg, "Stack Underflow on u16");
    assert_eq!(cpu.stp, 0xfe);
}

#[test]
fn test_pla_on_empty_stack_leaves_a_unchanged() {
    // The failing pop is logged-and-ignored: PLA tolerates the no-op.
    let mut cpu = CPU::new();
    cpu.load(vec![0x68, 0x00]);
    cpu.reset();
    cpu.reg_a = 0x42;
    cpu.run();
    assert_eq!(cpu.reg_a, 0x42);
}

#[test]
fn test_brk_pushes_return_address_and_status() {
    // BRK at $8000: PC has moved to $8001, so $8002 and the status word
    // land on the stack, and the B flag is set.
    let mut cpu = CPU::new();
    cpu.load_and_run(vec![0x00]);
    assert_eq!(cpu.stp, 0xfc);
    assert_eq!(cpu.mem_read(0x01fd), 0x02);
    assert_eq!(cpu.mem_read(0x01fe), 0x80);
    assert_eq!(cpu.mem_read(0x01fc), 0x00);
    assert_eq!(cpu.status & 0x10, 0x10);
    assert_eq!(cpu.program_counter, 0x0000);
}

#[test]
fn test_mem_word_round_trip() {
    let mut cpu = CPU::new();
    cpu.mem_write(0x0300, 0xcd);
    cpu.mem_write(0x0301, 0xab);
    assert_eq!(cpu.mem_read_u16(0x0300), 0xabcd);
}
