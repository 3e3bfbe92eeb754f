use emu6502::cpu::CPU;
use emu6502::fault::Fault;

#[test]
fn test_0xa9_lda_immediate_load_data() {
    let mut cpu = CPU::new();
    let result = cpu.interpret(vec![0xa9, 0x05, 0x00]);

    assert_eq!(result, Ok(()));
    assert_eq!(cpu.register_a, 0x05);
    assert!(cpu.status & 0b0000_0010 == 0b00);
    assert!(cpu.status & 0b1000_0000 == 0);
}

#[test]
fn test_0xa9_lda_zero_flag() {
    let mut cpu = CPU::new();
    let result = cpu.interpret(vec![0xa9, 0x00, 0x00]);

    assert_eq!(result, Ok(()));
    assert!(cpu.status & 0b0000_0010 == 0b10);
}

#[test]
fn test_0xaa_tax_move_a_to_x() {
    let mut cpu = CPU::new();
    cpu.register_a = 10;
    let result = cpu.interpret(vec![0xaa, 0x00]);

    assert_eq!(result, Ok(()));
    assert_eq!(cpu.register_x, 10)
}

#[test]
fn test_5_ops_working_together() {
    let mut cpu = CPU::new();
    let result = cpu.interpret(vec![0xa9, 0xc0, 0xaa, 0xe8, 0x00]);

    assert_eq!(result, Ok(()));
    assert_eq!(cpu.register_x, 0xc1)
}

#[test]
fn test_inx_overflow() {
    let mut cpu = CPU::new();
    cpu.register_x = 0xff;
    let result = cpu.interpret(vec![0xe8, 0xe8, 0x00]);

    assert_eq!(result, Ok(()));
    assert_eq!(cpu.register_x, 1)
}

#[test]
fn new_is_all_zero() {
    let cpu = CPU::new();
    assert_eq!(
        cpu,
        CPU { register_a: 0, register_x: 0, status: 0, program_counter: 0 }
    );
}

#[test]
fn five_ops_give_the_whole_state() {
    let mut cpu = CPU::new();
    let result = cpu.interpret(vec![0xa9, 0xc0, 0xaa, 0xe8, 0x00]);

    assert_eq!(result, Ok(()));
    assert_eq!(
        cpu,
        CPU { register_a: 0xc0, register_x: 0xc1, status: 0b1000_0000, program_counter: 5 }
    );
}

#[test]
fn load_five_gives_the_whole_state() {
    let mut cpu = CPU::new();
    let result = cpu.interpret(vec![0xa9, 0x05, 0x00]);

    assert_eq!(result, Ok(()));
    assert_eq!(cpu, CPU { register_a: 5, register_x: 0, status: 0, program_counter: 3 });
}

#[test]
fn load_zero_gives_the_whole_state() {
    let mut cpu = CPU::new();
    let result = cpu.interpret(vec![0xa9, 0x00, 0x00]);

    assert_eq!(result, Ok(()));
    assert_eq!(
        cpu,
        CPU { register_a: 0, register_x: 0, status: 0b0000_0010, program_counter: 3 }
    );
}

#[test]
fn load_sets_flags_for_every_value_and_every_status() {
    for status in 0..=255u8 {
        for value in 0..=255u8 {
            let mut cpu = CPU { register_a: 0x33, register_x: 0x44, status, program_counter: 9 };
            let result = cpu.interpret(vec![0xa9, value, 0x00]);

            assert_eq!(result, Ok(()));
            assert_eq!(cpu.register_a, value);
            assert_eq!(cpu.register_x, 0x44);
            assert_eq!(cpu.program_counter, 3);
            assert_eq!(cpu.status & 0b0000_0010 != 0, value == 0);
            assert_eq!(cpu.status & 0b1000_0000 != 0, value >= 0x80);
            assert_eq!(cpu.status & 0b0111_1101, status & 0b0111_1101);
        }
    }
}

#[test]
fn transfer_copies_every_value() {
    for value in 0..=255u8 {
        let mut cpu = CPU::new();
        cpu.register_a = value;
        cpu.register_x = !value;
        cpu.status = 0b0101_0101;
        let result = cpu.interpret(vec![0xaa, 0x00]);

        assert_eq!(result, Ok(()));
        assert_eq!(cpu.register_a, value);
        assert_eq!(cpu.register_x, value);
        assert_eq!(cpu.status & 0b0000_0010 != 0, value == 0);
        assert_eq!(cpu.status & 0b1000_0000 != 0, value >= 0x80);
        assert_eq!(cpu.status & 0b0111_1101, 0b0101_0101);
    }
}

#[test]
fn increment_wraps_from_ff_to_zero() {
    let mut cpu = CPU::new();
    cpu.register_x = 0xff;
    cpu.status = 0b1000_0000;
    let result = cpu.interpret(vec![0xe8, 0x00]);

    assert_eq!(result, Ok(()));
    assert_eq!(cpu.register_x, 0x00);
    assert_eq!(cpu.status, 0b0000_0010);
}

#[test]
fn increment_adds_one_below_ff() {
    for value in 0..0xffu8 {
        let mut cpu = CPU::new();
        cpu.register_x = value;
        let result = cpu.interpret(vec![0xe8, 0x00]);

        assert_eq!(result, Ok(()));
        assert_eq!(cpu.register_x, value + 1);
        assert_eq!(cpu.status & 0b0000_0010, 0);
        assert_eq!(cpu.status & 0b1000_0000 != 0, value + 1 >= 0x80);
    }
}

#[test]
fn increment_to_80_sets_negative() {
    let mut cpu = CPU::new();
    cpu.register_x = 0x7f;
    let result = cpu.interpret(vec![0xe8, 0x00]);

    assert_eq!(result, Ok(()));
    assert_eq!(cpu.register_x, 0x80);
    assert_eq!(cpu.status, 0b1000_0000);
}

#[test]
fn halt_ignores_what_follows() {
    let mut short = CPU::new();
    let mut long = CPU::new();
    assert_eq!(short.interpret(vec![0xa9, 0x07, 0x00]), Ok(()));
    assert_eq!(long.interpret(vec![0xa9, 0x07, 0x00, 0xe8, 0x42, 0xa9]), Ok(()));

    assert_eq!(short, long);
    assert_eq!(long, CPU { register_a: 7, register_x: 0, status: 0, program_counter: 3 });
}

#[test]
fn halt_alone_moves_only_the_counter() {
    let mut cpu = CPU { register_a: 0x12, register_x: 0x34, status: 0xff, program_counter: 77 };
    let result = cpu.interpret(vec![0x00, 0xa9, 0x01]);

    assert_eq!(result, Ok(()));
    assert_eq!(
        cpu,
        CPU { register_a: 0x12, register_x: 0x34, status: 0xff, program_counter: 1 }
    );
}

#[test]
fn interpret_restarts_the_counter() {
    let mut cpu = CPU::new();
    assert_eq!(cpu.interpret(vec![0xa9, 0x01, 0xaa, 0x00]), Ok(()));
    assert_eq!(cpu.program_counter, 4);
    assert_eq!(cpu.interpret(vec![0xe8, 0x00]), Ok(()));

    assert_eq!(cpu, CPU { register_a: 1, register_x: 2, status: 0, program_counter: 2 });
}

#[test]
fn reserved_bits_survive_a_run() {
    let mut cpu = CPU::new();
    cpu.status = 0b0111_1101;
    let result = cpu.interpret(vec![0xa9, 0x00, 0xaa, 0xe8, 0xa9, 0x90, 0x00]);

    assert_eq!(result, Ok(()));
    assert_eq!(cpu.status, 0b1111_1101);
    assert_eq!(cpu.register_a, 0x90);
    assert_eq!(cpu.register_x, 0x01);
}

#[test]
fn unknown_opcode_faults_at_once() {
    let mut cpu = CPU::new();
    let result = cpu.interpret(vec![0xa9, 0x05, 0x42, 0xaa, 0x00]);

    assert_eq!(result, Err(Fault::UnknownOpcode { opcode: 0x42, position: 2 }));
    assert_eq!(cpu, CPU { register_a: 5, register_x: 0, status: 0, program_counter: 3 });
}

#[test]
fn every_byte_outside_the_table_faults() {
    for opcode in 0..=255u8 {
        let mut cpu = CPU::new();
        let result = cpu.interpret(vec![opcode, 0x00, 0x00]);
        if opcode == 0x00 || opcode == 0xa9 || opcode == 0xaa || opcode == 0xe8 {
            assert_eq!(result, Ok(()));
        } else {
            assert_eq!(result, Err(Fault::UnknownOpcode { opcode, position: 0 }));
            assert_eq!(
                cpu,
                CPU { register_a: 0, register_x: 0, status: 0, program_counter: 1 }
            );
        }
    }
}

#[test]
fn empty_program_is_truncated() {
    let mut cpu = CPU { register_a: 1, register_x: 2, status: 3, program_counter: 4 };
    let result = cpu.interpret(vec![]);

    assert_eq!(result, Err(Fault::Truncated { position: 0 }));
    assert_eq!(cpu, CPU { register_a: 1, register_x: 2, status: 3, program_counter: 0 });
}

#[test]
fn program_without_halt_is_truncated() {
    let mut cpu = CPU::new();
    let result = cpu.interpret(vec![0xe8, 0xe8]);

    assert_eq!(result, Err(Fault::Truncated { position: 2 }));
    assert_eq!(cpu, CPU { register_a: 0, register_x: 2, status: 0, program_counter: 2 });
}

#[test]
fn load_without_operand_is_truncated() {
    let mut cpu = CPU::new();
    let result = cpu.interpret(vec![0xe8, 0xa9]);

    assert_eq!(result, Err(Fault::Truncated { position: 2 }));
    assert_eq!(cpu, CPU { register_a: 0, register_x: 1, status: 0, program_counter: 2 });
}

#[test]
fn longest_addressable_program_runs() {
    let mut program = vec![0xe8u8; 0xfffe];
    program.push(0x00);
    assert_eq!(program.len(), 0xffff);
    let mut cpu = CPU::new();
    let result = cpu.interpret(program);

    assert_eq!(result, Ok(()));
    assert_eq!(cpu.program_counter, 0xffff);
    assert_eq!(cpu.register_x, 0xfe);
}

#[test]
fn fetch_at_the_last_counter_value_overflows() {
    let mut program = vec![0xe8u8; 0xffff];
    program.push(0x00);
    assert_eq!(program.len(), 0x1_0000);
    let mut cpu = CPU::new();
    let result = cpu.interpret(program);

    assert_eq!(result, Err(Fault::CounterOverflow));
    assert_eq!(cpu.program_counter, 0xffff);
    assert_eq!(cpu.register_x, 0xff);
}

#[test]
fn program_that_ends_at_the_last_counter_value_is_truncated() {
    let mut cpu = CPU::new();
    let result = cpu.interpret(vec![0xe8u8; 0xffff]);

    assert_eq!(result, Err(Fault::Truncated { position: 0xffff }));
    assert_eq!(cpu.program_counter, 0xffff);
    assert_eq!(cpu.register_x, 0xff);
}
