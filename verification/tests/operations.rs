use emu6502::addressing::AddressingMode;
use emu6502::cpu::CPU;
use emu6502::flags::{get_flag, set_flag, Flag};
use emu6502::machine::{CpuError, RunState};
use emu6502::memory::{make_word, split_word, MEMORY_SIZE, PROGRAM_ORIGIN, RESET_VECTOR};
use emu6502::opcode::{decode, Instruction, Mnemonic};

const MODES_WITH_OPERAND: [AddressingMode; 9] = [
    AddressingMode::Immediate,
    AddressingMode::ZeroPage,
    AddressingMode::ZeroPage_X,
    AddressingMode::ZeroPage_Y,
    AddressingMode::Absolute,
    AddressingMode::Absolute_X,
    AddressingMode::Absolute_Y,
    AddressingMode::Indirect_X,
    AddressingMode::Indirect_Y,
];

#[test]
fn new_cpu_is_all_zero() {
    let cpu = CPU::new();
    assert_eq!((cpu.ra, cpu.rx, cpu.ry, cpu.status, cpu.pc), (0, 0, 0, 0, 0));
    assert_eq!(cpu.memory.len(), 65536);
    assert_eq!(MEMORY_SIZE, 65536);
    assert!(cpu.memory.iter().all(|b| *b == 0));
    assert_eq!(cpu.read(0x0000), 0);
    assert_eq!(cpu.read(0xffff), 0);
}

#[test]
fn write_then_read_gives_the_byte_back() {
    let mut cpu = CPU::new();
    cpu.write(0x0000, 0x01);
    cpu.write(0xffff, 0xfe);
    cpu.write(0x8000, 0x7f);
    assert_eq!(cpu.read(0x0000), 0x01);
    assert_eq!(cpu.read(0xffff), 0xfe);
    assert_eq!(cpu.read(0x8000), 0x7f);
    assert_eq!(cpu.read(0x8001), 0x00);
    assert_eq!((cpu.ra, cpu.rx, cpu.ry, cpu.status, cpu.pc), (0, 0, 0, 0, 0));
}

#[test]
fn words_are_little_endian() {
    let mut cpu = CPU::new();
    cpu.write_u16(0x0300, 0x1234);
    assert_eq!(cpu.read(0x0300), 0x34);
    assert_eq!(cpu.read(0x0301), 0x12);
    assert_eq!(cpu.read_u16(0x0300), 0x1234);
    cpu.write(0x0400, 0xcd);
    cpu.write(0x0401, 0xab);
    assert_eq!(cpu.read_u16(0x0400), 0xabcd);
}

#[test]
fn word_at_top_of_memory_wraps_to_address_zero() {
    let mut cpu = CPU::new();
    cpu.write_u16(0xffff, 0xbeef);
    assert_eq!(cpu.read(0xffff), 0xef);
    assert_eq!(cpu.read(0x0000), 0xbe);
    assert_eq!(cpu.read_u16(0xffff), 0xbeef);
}

#[test]
fn make_word_and_split_word_are_inverse() {
    assert_eq!(make_word(0x34, 0x12), 0x1234);
    assert_eq!(make_word(0xff, 0x00), 0x00ff);
    assert_eq!(make_word(0x00, 0xff), 0xff00);
    assert_eq!(split_word(0x1234), (0x34, 0x12));
    assert_eq!(split_word(0x8000), (0x00, 0x80));
    for w in [0u16, 1, 0x00ff, 0x0100, 0x7fff, 0x8000, 0xffff] {
        let (lo, hi) = split_word(w);
        assert_eq!(make_word(lo, hi), w);
    }
}

#[test]
fn load_places_the_image_and_sets_the_reset_vector() {
    let mut cpu = CPU::new();
    cpu.write(0x0010, 0x55);
    cpu.write(0x9000, 0x77);
    cpu.ra = 9;
    cpu.pc = 0x1234;
    cpu.load(vec![0xa9, 0xc0, 0xaa]);
    assert_eq!(PROGRAM_ORIGIN, 0x8000);
    assert_eq!(RESET_VECTOR, 0xfffc);
    assert_eq!(cpu.read(0x8000), 0xa9);
    assert_eq!(cpu.read(0x8001), 0xc0);
    assert_eq!(cpu.read(0x8002), 0xaa);
    assert_eq!(cpu.read(0x8003), 0x00);
    assert_eq!(cpu.read(0x7fff), 0x00);
    assert_eq!(cpu.read(0xfffc), 0x00);
    assert_eq!(cpu.read(0xfffd), 0x80);
    assert_eq!(cpu.read_u16(0xfffc), 0x8000);
    // A load neither clears memory nor touches the registers.
    assert_eq!(cpu.read(0x0010), 0x55);
    assert_eq!(cpu.read(0x9000), 0x77);
    assert_eq!(cpu.ra, 9);
    assert_eq!(cpu.pc, 0x1234);
}

#[test]
fn largest_image_fills_the_upper_half_and_yields_to_the_reset_vector() {
    let mut cpu = CPU::new();
    cpu.write(0x7fff, 0x11);
    cpu.load(vec![0xe8; 0x8000]);
    assert_eq!(cpu.read(0x7fff), 0x11);
    assert_eq!(cpu.read(0x8000), 0xe8);
    assert_eq!(cpu.read(0xfffb), 0xe8);
    assert_eq!(cpu.read(0xfffc), 0x00);
    assert_eq!(cpu.read(0xfffd), 0x80);
    assert_eq!(cpu.read(0xfffe), 0xe8);
    assert_eq!(cpu.read(0xffff), 0xe8);
}

#[test]
fn reset_clears_registers_and_takes_pc_from_the_vector() {
    let mut cpu = CPU::new();
    cpu.ra = 1;
    cpu.rx = 2;
    cpu.ry = 3;
    cpu.status = 0xff;
    cpu.pc = 0x4242;
    cpu.write(0x0010, 0x55);
    cpu.write_u16(0xfffc, 0xc123);
    cpu.reset();
    assert_eq!((cpu.ra, cpu.rx, cpu.ry, cpu.status), (0, 0, 0, 0));
    assert_eq!(cpu.pc, 0xc123);
    assert_eq!(cpu.read(0x0010), 0x55);
    assert_eq!(cpu.read_u16(0xfffc), 0xc123);
}

#[test]
fn reset_vector_round_trip() {
    for addr in [0x0000u16, 0x0001, 0x00ff, 0x0100, 0x8000, 0xfffc, 0xffff] {
        let mut cpu = CPU::new();
        cpu.write_u16(0xfffc, addr);
        cpu.reset();
        assert_eq!(cpu.pc, addr);
    }
}

#[test]
fn flag_masks_follow_the_status_layout() {
    assert_eq!(Flag::Carry.mask(), 0b0000_0001);
    assert_eq!(Flag::Zero.mask(), 0b0000_0010);
    assert_eq!(Flag::InterruptDisable.mask(), 0b0000_0100);
    assert_eq!(Flag::Decimal.mask(), 0b0000_1000);
    assert_eq!(Flag::Break.mask(), 0b0001_0000);
    assert_eq!(Flag::Overflow.mask(), 0b0100_0000);
    assert_eq!(Flag::Negative.mask(), 0b1000_0000);
}

#[test]
fn get_and_set_flag_work_on_single_bits() {
    assert_eq!(set_flag(0b0000_0000, Flag::Zero, true), 0b0000_0010);
    assert_eq!(set_flag(0b1111_1111, Flag::Zero, false), 0b1111_1101);
    assert_eq!(set_flag(0b0000_0010, Flag::Negative, true), 0b1000_0010);
    assert_eq!(set_flag(0b1000_0010, Flag::Negative, false), 0b0000_0010);
    assert_eq!(set_flag(0b0010_0000, Flag::Carry, true), 0b0010_0001);
    assert!(get_flag(0b0000_0010, Flag::Zero));
    assert!(!get_flag(0b1111_1101, Flag::Zero));
    assert!(get_flag(0b1000_0000, Flag::Negative));
    assert!(!get_flag(0b0111_1111, Flag::Negative));
    assert!(get_flag(0b0100_0000, Flag::Overflow));
}

#[test]
fn update_flags_sets_zero_and_negative_and_keeps_the_rest() {
    let mut cpu = CPU::new();
    cpu.status = 0b0111_1101;
    cpu.update_flags(0x00);
    assert_eq!(cpu.status, 0b0111_1111);
    cpu.update_flags(0x80);
    assert_eq!(cpu.status, 0b1111_1101);
    cpu.update_flags(0x7f);
    assert_eq!(cpu.status, 0b0111_1101);
    cpu.status = 0;
    cpu.update_flags(0x01);
    assert_eq!(cpu.status, 0);
    cpu.update_flags(0xff);
    assert_eq!(cpu.status, 0b1000_0000);
    assert_eq!((cpu.ra, cpu.rx, cpu.ry, cpu.pc), (0, 0, 0, 0));
}

#[test]
fn zero_flag_is_set_exactly_for_a_zero_load() {
    for v in 0..=255u8 {
        let mut cpu = CPU::new();
        cpu.write(0x0600, v);
        cpu.pc = 0x0600;
        assert_eq!(cpu.lda(&AddressingMode::Immediate), Ok(()));
        assert_eq!(cpu.ra, v);
        assert_eq!(cpu.status & 0b0000_0010 != 0, v == 0);
    }
}

#[test]
fn negative_flag_is_bit_seven_of_the_load() {
    for v in 0..=255u8 {
        let mut cpu = CPU::new();
        cpu.write(0x0600, v);
        cpu.pc = 0x0600;
        assert_eq!(cpu.lda(&AddressingMode::Immediate), Ok(()));
        assert_eq!(cpu.status & 0b1000_0000 != 0, v >> 7 == 1);
        assert_eq!(cpu.status & 0b0111_1101, 0);
    }
}

#[test]
fn inx_wraps_from_0xff_to_zero_and_sets_zero() {
    let mut cpu = CPU::new();
    cpu.rx = 0xff;
    cpu.status = 0b1000_0000;
    cpu.inx();
    assert_eq!(cpu.rx, 0x00);
    assert_eq!(cpu.status, 0b0000_0010);
}

#[test]
fn inx_adds_one_and_follows_bit_seven() {
    let mut cpu = CPU::new();
    cpu.ra = 0x33;
    cpu.rx = 0x10;
    cpu.inx();
    assert_eq!(cpu.rx, 0x11);
    assert_eq!(cpu.status, 0);
    cpu.rx = 0x7f;
    cpu.inx();
    assert_eq!(cpu.rx, 0x80);
    assert_eq!(cpu.status, 0b1000_0000);
    cpu.inx();
    assert_eq!(cpu.rx, 0x81);
    assert_eq!(cpu.status, 0b1000_0000);
    // With Negative set and bit 7 of the new value clear the flag goes.
    cpu.rx = 0x05;
    cpu.inx();
    assert_eq!(cpu.rx, 0x06);
    assert_eq!(cpu.status, 0);
    assert_eq!(cpu.ra, 0x33);
    for x in 0..=254u8 {
        let mut cpu = CPU::new();
        cpu.rx = x;
        cpu.inx();
        assert_eq!(cpu.rx, x + 1);
        assert_eq!(cpu.status & 0b0000_0010, 0);
    }
}

#[test]
fn tax_copies_the_accumulator_and_keeps_it() {
    for a in [0x00u8, 0x01, 0x7f, 0x80, 0xff] {
        let mut cpu = CPU::new();
        cpu.ra = a;
        cpu.rx = 0x5a;
        cpu.ry = 0x66;
        cpu.tax();
        assert_eq!(cpu.rx, a);
        assert_eq!(cpu.ra, a);
        assert_eq!(cpu.ry, 0x66);
        assert_eq!(cpu.status & 0b0000_0010 != 0, a == 0);
        assert_eq!(cpu.status & 0b1000_0000 != 0, a >= 0x80);
    }
}

fn cpu_for_addressing() -> CPU {
    let mut cpu = CPU::new();
    cpu.pc = 0x0200;
    cpu.rx = 0x04;
    cpu.ry = 0x10;
    cpu.write(0x0200, 0x20);
    cpu.write(0x0201, 0x30);
    cpu.write(0x0024, 0x74);
    cpu.write(0x0025, 0x20);
    cpu.write(0x0020, 0x28);
    cpu.write(0x0021, 0x40);
    cpu
}

#[test]
fn each_mode_resolves_to_its_effective_address() {
    let cpu = cpu_for_addressing();
    assert_eq!(cpu.get_op_addr(&AddressingMode::Immediate), Ok(0x0200));
    assert_eq!(cpu.get_op_addr(&AddressingMode::ZeroPage), Ok(0x0020));
    assert_eq!(cpu.get_op_addr(&AddressingMode::ZeroPage_X), Ok(0x0024));
    assert_eq!(cpu.get_op_addr(&AddressingMode::ZeroPage_Y), Ok(0x0030));
    assert_eq!(cpu.get_op_addr(&AddressingMode::Absolute), Ok(0x3020));
    assert_eq!(cpu.get_op_addr(&AddressingMode::Absolute_X), Ok(0x3024));
    assert_eq!(cpu.get_op_addr(&AddressingMode::Absolute_Y), Ok(0x3030));
    assert_eq!(cpu.get_op_addr(&AddressingMode::Indirect_X), Ok(0x2074));
    assert_eq!(cpu.get_op_addr(&AddressingMode::Indirect_Y), Ok(0x4038));
    assert_eq!(cpu.pc, 0x0200);
}

#[test]
fn mode_without_operand_is_refused() {
    let mut cpu = cpu_for_addressing();
    assert_eq!(
        cpu.get_op_addr(&AddressingMode::NoneAddressing),
        Err(CpuError::InvalidAddressingMode)
    );
    cpu.ra = 0x12;
    cpu.status = 0b0100_0001;
    assert_eq!(cpu.lda(&AddressingMode::NoneAddressing), Err(CpuError::InvalidAddressingMode));
    assert_eq!((cpu.ra, cpu.rx, cpu.ry, cpu.status, cpu.pc), (0x12, 0x04, 0x10, 0b0100_0001, 0x0200));
}

#[test]
fn zero_page_indexing_wraps_within_the_zero_page() {
    let mut cpu = CPU::new();
    cpu.pc = 0x0200;
    cpu.write(0x0200, 0xf0);
    cpu.rx = 0x20;
    cpu.ry = 0x10;
    assert_eq!(cpu.get_op_addr(&AddressingMode::ZeroPage_X), Ok(0x0010));
    assert_eq!(cpu.get_op_addr(&AddressingMode::ZeroPage_Y), Ok(0x0000));
}

#[test]
fn absolute_indexing_wraps_at_sixteen_bits() {
    let mut cpu = CPU::new();
    cpu.pc = 0x0200;
    cpu.write_u16(0x0200, 0xfff0);
    cpu.rx = 0x20;
    cpu.ry = 0x10;
    assert_eq!(cpu.get_op_addr(&AddressingMode::Absolute_X), Ok(0x0010));
    assert_eq!(cpu.get_op_addr(&AddressingMode::Absolute_Y), Ok(0x0000));
}

#[test]
fn indirect_x_pointer_and_its_high_byte_stay_in_the_zero_page() {
    let mut cpu = CPU::new();
    cpu.pc = 0x0200;
    cpu.write(0x0200, 0xfe);
    cpu.rx = 0x01;
    cpu.write(0x00ff, 0x34);
    cpu.write(0x0000, 0x12);
    cpu.write(0x0100, 0x99);
    assert_eq!(cpu.get_op_addr(&AddressingMode::Indirect_X), Ok(0x1234));
    // The pointer itself wraps too: 0xFE + 3 is zero-page address 0x01.
    cpu.rx = 0x03;
    cpu.write(0x0001, 0x78);
    cpu.write(0x0002, 0x56);
    assert_eq!(cpu.get_op_addr(&AddressingMode::Indirect_X), Ok(0x5678));
}

#[test]
fn indirect_y_wraps_the_high_byte_fetch_and_the_final_sum() {
    let mut cpu = CPU::new();
    cpu.pc = 0x0200;
    cpu.write(0x0200, 0xff);
    cpu.write(0x00ff, 0xf0);
    cpu.write(0x0000, 0xff);
    cpu.write(0x0100, 0x11);
    cpu.ry = 0x05;
    assert_eq!(cpu.get_op_addr(&AddressingMode::Indirect_Y), Ok(0xfff5));
    cpu.ry = 0x20;
    assert_eq!(cpu.get_op_addr(&AddressingMode::Indirect_Y), Ok(0x0010));
}

#[test]
fn operand_counts_of_the_modes() {
    assert_eq!(AddressingMode::Immediate.operand_len(), 1);
    assert_eq!(AddressingMode::ZeroPage.operand_len(), 1);
    assert_eq!(AddressingMode::ZeroPage_X.operand_len(), 1);
    assert_eq!(AddressingMode::ZeroPage_Y.operand_len(), 1);
    assert_eq!(AddressingMode::Absolute.operand_len(), 2);
    assert_eq!(AddressingMode::Absolute_X.operand_len(), 2);
    assert_eq!(AddressingMode::Absolute_Y.operand_len(), 2);
    assert_eq!(AddressingMode::Indirect_X.operand_len(), 1);
    assert_eq!(AddressingMode::Indirect_Y.operand_len(), 1);
    assert_eq!(AddressingMode::NoneAddressing.operand_len(), 0);
}

#[test]
fn lda_moves_the_program_counter_past_the_operand() {
    for mode in MODES_WITH_OPERAND {
        let mut cpu = cpu_for_addressing();
        assert_eq!(cpu.lda(&mode), Ok(()));
        assert_eq!(cpu.pc, 0x0200 + mode.operand_len());
        assert_eq!((cpu.rx, cpu.ry), (0x04, 0x10));
    }
    let mut cpu = CPU::new();
    cpu.pc = 0xffff;
    assert_eq!(cpu.lda(&AddressingMode::Absolute), Ok(()));
    assert_eq!(cpu.pc, 0x0001);
}

#[test]
fn every_mode_loads_like_an_immediate_load() {
    for value in [0x00u8, 0x01, 0x55, 0x7f, 0x80, 0xff] {
        for status in [0x00u8, 0b0100_0001, 0xff] {
            let mut immediate = CPU::new();
            immediate.pc = 0x0200;
            immediate.status = status;
            immediate.write(0x0200, value);
            assert_eq!(immediate.lda(&AddressingMode::Immediate), Ok(()));
            assert_eq!(immediate.ra, value);

            for mode in MODES_WITH_OPERAND {
                let mut cpu = cpu_for_addressing();
                cpu.status = status;
                let addr = cpu.get_op_addr(&mode).unwrap();
                if mode != AddressingMode::Immediate {
                    assert_ne!(addr, 0x0200);
                }
                cpu.write(addr, value);
                assert_eq!(cpu.get_op_addr(&mode), Ok(addr));
                assert_eq!(cpu.lda(&mode), Ok(()));
                assert_eq!(cpu.ra, immediate.ra);
                assert_eq!(cpu.status, immediate.status);
            }
        }
    }
}

#[test]
fn opcode_table_entries() {
    let entry = |mnemonic, mode| Some(Instruction { mnemonic, mode });
    assert_eq!(decode(0x00), entry(Mnemonic::BRK, AddressingMode::NoneAddressing));
    assert_eq!(decode(0xa9), entry(Mnemonic::LDA, AddressingMode::Immediate));
    assert_eq!(decode(0xa5), entry(Mnemonic::LDA, AddressingMode::ZeroPage));
    assert_eq!(decode(0xb5), entry(Mnemonic::LDA, AddressingMode::ZeroPage_X));
    assert_eq!(decode(0xad), entry(Mnemonic::LDA, AddressingMode::Absolute));
    assert_eq!(decode(0xbd), entry(Mnemonic::LDA, AddressingMode::Absolute_X));
    assert_eq!(decode(0xb9), entry(Mnemonic::LDA, AddressingMode::Absolute_Y));
    assert_eq!(decode(0xa1), entry(Mnemonic::LDA, AddressingMode::Indirect_X));
    assert_eq!(decode(0xb1), entry(Mnemonic::LDA, AddressingMode::Indirect_Y));
    assert_eq!(decode(0xaa), entry(Mnemonic::TAX, AddressingMode::NoneAddressing));
    assert_eq!(decode(0xe8), entry(Mnemonic::INX, AddressingMode::NoneAddressing));
    let implemented = (0..=255u8).filter(|op| decode(*op).is_some()).count();
    assert_eq!(implemented, 11);
    assert_eq!(decode(0xb6), None);
    assert_eq!(decode(0xff), None);
}

#[test]
fn step_runs_one_instruction_at_a_time() {
    let mut cpu = CPU::new();
    cpu.load(vec![0xa9, 0xc0, 0xaa, 0xe8, 0x00]);
    cpu.reset();
    assert_eq!(cpu.step(), Ok(RunState::Running));
    assert_eq!((cpu.ra, cpu.rx, cpu.status, cpu.pc), (0xc0, 0x00, 0b1000_0000, 0x8002));
    assert_eq!(cpu.step(), Ok(RunState::Running));
    assert_eq!((cpu.ra, cpu.rx, cpu.status, cpu.pc), (0xc0, 0xc0, 0b1000_0000, 0x8003));
    assert_eq!(cpu.step(), Ok(RunState::Running));
    assert_eq!((cpu.ra, cpu.rx, cpu.status, cpu.pc), (0xc0, 0xc1, 0b1000_0000, 0x8004));
    assert_eq!(cpu.step(), Ok(RunState::Halted));
    assert_eq!((cpu.ra, cpu.rx, cpu.status, cpu.pc), (0xc0, 0xc1, 0b1000_0000, 0x8005));
}

#[test]
fn step_on_an_unimplemented_opcode_only_moves_past_it() {
    let mut cpu = CPU::new();
    cpu.write(0x0300, 0xea);
    cpu.pc = 0x0300;
    cpu.ra = 1;
    cpu.rx = 2;
    cpu.ry = 3;
    cpu.status = 0b0100_0000;
    assert_eq!(cpu.step(), Err(CpuError::UnimplementedOpcode));
    assert_eq!((cpu.ra, cpu.rx, cpu.ry, cpu.status, cpu.pc), (1, 2, 3, 0b0100_0000, 0x0301));
}
