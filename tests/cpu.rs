use cpu6502::cpu::{PROGRAM_CAPACITY, PROGRAM_ORIGIN, RESET_VECTOR};
use cpu6502::flags::update_flags;
use cpu6502::memory::{next_address, Memory};
use cpu6502::opcode::{decode, Opcode};
use cpu6502::{ExecError, CPU};

#[test]
fn test_0xa9_lda_immediate_load_data() {
    let mut cpu = CPU::new();
    cpu.load_and_run(vec![0xa9, 0x05, 0x00]).unwrap();
    assert_eq!(cpu.register_a, 0x05);
    assert!(cpu.status & 0b0000_0010 == 0b00);
    assert!(cpu.status & 0b1000_0000 == 0);
}

#[test]
fn test_0xa9_lda_zero_flag() {
    let mut cpu = CPU::new();
    cpu.load_and_run(vec![0xa9, 0x00, 0x00]).unwrap();
    assert!(cpu.status & 0b0000_0010 == 0b10);
}

#[test]
fn test_0xaa_tax_move_a_to_x() {
    let mut cpu = CPU::new();
    cpu.register_a = 10;
    cpu.load(vec![0xaa, 0x00]);
    cpu.program_counter = cpu.mem_read_u16(0xFFFC);
    cpu.run().unwrap();

    assert_eq!(cpu.register_x, 10)
}

#[test]
fn test_5_ops_working_together() {
    let mut cpu = CPU::new();
    cpu.load_and_run(vec![0xa9, 0xc0, 0xaa, 0xe8, 0x00]).unwrap();

    assert_eq!(cpu.register_x, 0xc1)
}

#[test]
fn test_inx_overflow() {
    let mut cpu = CPU::new();
    cpu.register_x = 0xff;
    cpu.load(vec![0xe8, 0xe8, 0x00]);
    cpu.program_counter = cpu.mem_read_u16(0xFFFC);
    cpu.run().unwrap();

    assert_eq!(cpu.register_x, 1)
}

#[test]
fn lda_nonzero_values_set_flags_by_bit_seven() {
    for v in 1..=255u8 {
        let mut cpu = CPU::new();
        assert_eq!(cpu.load_and_run(vec![0xa9, v, 0x00]), Ok(()));
        assert_eq!(cpu.register_a, v);
        assert_eq!(cpu.status & 0b0000_0010, 0);
        assert_eq!(cpu.status & 0b1000_0000 != 0, v & 0x80 != 0);
    }
}

#[test]
fn lda_zero_clears_negative_flag() {
    let mut cpu = CPU::new();
    cpu.load_and_run(vec![0xa9, 0x80, 0xa9, 0x00, 0x00]).unwrap();
    assert_eq!(cpu.register_a, 0);
    assert_eq!(cpu.status, 0b0000_0010);
}

#[test]
fn end_to_end_lda_five() {
    let mut cpu = CPU::new();
    assert_eq!(cpu.load_and_run(vec![0xa9, 0x05, 0x00]), Ok(()));
    assert_eq!(cpu.register_a, 0x05);
    assert_eq!(cpu.status, 0);
    assert_eq!(cpu.program_counter, 0x8003);
}

#[test]
fn tax_applies_flags_to_index_x() {
    let mut cpu = CPU::new();
    cpu.load_and_run(vec![0xa9, 0x80, 0xaa, 0x00]).unwrap();
    assert_eq!(cpu.register_x, 0x80);
    assert_eq!(cpu.register_a, 0x80);
    assert_eq!(cpu.status, 0b1000_0000);

    cpu.load_and_run(vec![0xa9, 0x00, 0xaa, 0x00]).unwrap();
    assert_eq!(cpu.register_x, 0);
    assert_eq!(cpu.status, 0b0000_0010);
}

#[test]
fn inx_wrap_sets_zero_then_clears_it() {
    let mut cpu = CPU::new();
    cpu.register_x = 0xff;
    cpu.load(vec![0xe8, 0x00]);
    cpu.program_counter = cpu.mem_read_u16(RESET_VECTOR);
    cpu.run().unwrap();
    assert_eq!(cpu.register_x, 0);
    assert_eq!(cpu.status & 0b0000_0010, 0b10);

    cpu.load(vec![0xe8, 0x00]);
    cpu.program_counter = cpu.mem_read_u16(RESET_VECTOR);
    cpu.run().unwrap();
    assert_eq!(cpu.register_x, 1);
    assert_eq!(cpu.status & 0b0000_0010, 0);
}

#[test]
fn reset_twice_gives_the_same_state() {
    let mut cpu = CPU::new();
    cpu.load_and_run(vec![0xa9, 0xc0, 0xaa, 0xe8, 0x00]).unwrap();
    cpu.reset();
    let first = (cpu.register_a, cpu.register_x, cpu.status, cpu.program_counter);
    cpu.reset();
    let second = (cpu.register_a, cpu.register_x, cpu.status, cpu.program_counter);
    assert_eq!(first, second);
    assert_eq!(first, (0, 0, 0, 0x8000));
}

#[test]
fn load_then_reset_starts_at_origin() {
    let mut cpu = CPU::new();
    cpu.program_counter = 0x1234;
    cpu.load(vec![0xa9, 0x01, 0x00]);
    assert_eq!(cpu.mem_read_u16(RESET_VECTOR), PROGRAM_ORIGIN);
    assert_eq!(cpu.mem_read(0xFFFC), 0x00);
    assert_eq!(cpu.mem_read(0xFFFD), 0x80);
    cpu.reset();
    assert_eq!(cpu.program_counter, 0x8000);
}

#[test]
fn load_of_largest_program_keeps_reset_vector() {
    let mut cpu = CPU::new();
    cpu.load(vec![0xe8; PROGRAM_CAPACITY]);
    assert_eq!(cpu.mem_read(0x8000), 0xe8);
    assert_eq!(cpu.mem_read(0xFFFB), 0xe8);
    assert_eq!(cpu.mem_read(0xFFFE), 0xe8);
    cpu.reset();
    assert_eq!(cpu.program_counter, 0x8000);
}

#[test]
fn unknown_opcode_is_an_error() {
    let mut cpu = CPU::new();
    assert_eq!(cpu.load_and_run(vec![0xa9, 0x07, 0x02, 0x00]), Err(ExecError::UnknownOpcode(0x02)));
    assert_eq!(cpu.register_a, 7);
    assert_eq!(cpu.program_counter, 0x8003);
}

#[test]
fn fetch_from_last_address_is_an_error() {
    let mut cpu = CPU::new();
    cpu.program_counter = 0xFFFF;
    assert_eq!(cpu.run(), Err(ExecError::AddressSpaceExhausted));

    let mut cpu = CPU::new();
    cpu.mem_write(0xFFFE, 0xa9);
    cpu.program_counter = 0xFFFE;
    assert_eq!(cpu.run(), Err(ExecError::AddressSpaceExhausted));
    assert_eq!(cpu.program_counter, 0xFFFF);
}

#[test]
fn new_cpu_is_zeroed() {
    let cpu = CPU::new();
    assert_eq!((cpu.register_a, cpu.register_x, cpu.status, cpu.program_counter), (0, 0, 0, 0));
    assert_eq!(cpu.mem_read(0x0000), 0);
    assert_eq!(cpu.mem_read(0xFFFF), 0);
}

#[test]
fn word_access_is_little_endian_and_wraps() {
    let mut cpu = CPU::new();
    cpu.mem_write_u16(0x0200, 0xBEEF);
    assert_eq!(cpu.mem_read(0x0200), 0xEF);
    assert_eq!(cpu.mem_read(0x0201), 0xBE);
    assert_eq!(cpu.mem_read_u16(0x0200), 0xBEEF);

    cpu.mem_write_u16(0xFFFF, 0x1234);
    assert_eq!(cpu.mem_read(0xFFFF), 0x34);
    assert_eq!(cpu.mem_read(0x0000), 0x12);
    assert_eq!(cpu.mem_read_u16(0xFFFF), 0x1234);
}

#[test]
fn memory_reads_what_was_written() {
    let mut mem = Memory::new();
    mem.write(0x1234, 0x56);
    assert_eq!(mem.read(0x1234), 0x56);
    assert_eq!(mem.read(0x1235), 0);
    mem.write16(0x4000, 0x0102);
    assert_eq!(mem.read16(0x4000), 0x0102);
    mem.write_bytes(0x10, &vec![1, 2, 3]);
    assert_eq!((mem.read(0x0F), mem.read(0x10), mem.read(0x12), mem.read(0x13)), (0, 1, 3, 0));
    assert_eq!(next_address(0xFFFF), 0);
    assert_eq!(next_address(0x00FF), 0x0100);
}

#[test]
fn flag_rule_keeps_other_bits() {
    assert_eq!(update_flags(0b0100_0001, 0), 0b0100_0011);
    assert_eq!(update_flags(0xFF, 0x01), 0b0111_1101);
    assert_eq!(update_flags(0x00, 0x90), 0b1000_0000);
    assert_eq!(update_flags(0b1000_0010, 0x7F), 0);
}

#[test]
fn instruction_table() {
    assert_eq!(decode(0xa9), Some(Opcode::LdaImmediate));
    assert_eq!(decode(0xaa), Some(Opcode::Tax));
    assert_eq!(decode(0xe8), Some(Opcode::Inx));
    assert_eq!(decode(0x00), Some(Opcode::Brk));
    assert_eq!(decode(0xff), None);
}
