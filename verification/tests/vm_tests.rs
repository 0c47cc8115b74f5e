use lc3_vm::{read_image_file, Flags, HardwareError, LC3VirtualMachine, Register, VMError};

#[test]
fn index_and_index_mut_with_registers() {
    let mut vm: LC3VirtualMachine = LC3VirtualMachine::new();
    assert_eq!(vm.read_register(Register::R0), 0);
    vm.write_register(Register::R0, 16);
    assert_eq!(vm.read_register(Register::R0), 16);
}

/// When initializing the vm all registers are initialized with zero, so when
/// executing a conditional branch PC should stay equal to zero.
#[test]
fn branch_instruction_no_branching() {
    let mut vm: LC3VirtualMachine = LC3VirtualMachine::new();
    vm.branch(Flags::Neg, 16);
    assert_eq!(vm.read_register(Register::PC), 0);
    vm.branch(Flags::Pos, 16);
    assert_eq!(vm.read_register(Register::PC), 0);
    vm.branch(Flags::Zro, 16);
    assert_eq!(vm.read_register(Register::PC), 0);
}

#[test]
fn branch_instruction_branching() {
    let mut vm: LC3VirtualMachine = LC3VirtualMachine::new();
    // Set only Pos flag in 1.
    vm.write_register(Register::COND, 1);
    vm.branch(Flags::Pos, 16);
    assert_eq!(vm.read_register(Register::PC), 16);
    // Set only Zro flag in 1.
    vm.write_register(Register::COND, 2);
    vm.branch(Flags::Zro, 16);
    assert_eq!(vm.read_register(Register::PC), 32);
    // Set only Neg flag in 1.
    vm.write_register(Register::COND, 4);
    vm.branch(Flags::Neg, 16);
    assert_eq!(vm.read_register(Register::PC), 48);
    vm.branch(Flags::Neg, 0xFFFF);
    assert_eq!(vm.read_register(Register::PC), 47);
}

#[test]
fn add_instruction_register_mode() {
    let mut vm: LC3VirtualMachine = LC3VirtualMachine::new();

    vm.write_register(Register::R0, 32);
    vm.write_register(Register::R5, 5);
    vm.add(Register::R4, Register::R5, 0, Register::R0 as u16);
    assert_eq!(vm.read_register(Register::R4), 37);
    assert_eq!(vm.read_register(Register::R0), 32);
    assert_eq!(vm.read_register(Register::R5), 5);
    // Check Pos flag.
    assert_eq!(vm.read_register(Register::COND), 1);

    vm.write_register(Register::R1, 1);
    vm.write_register(Register::R2, 65530);
    vm.add(Register::R2, Register::R2, 0, Register::R1 as u16);
    // 65531 in u16 is 0xFFFB which is equal to -5 in two's complement notation.
    assert_eq!(vm.read_register(Register::R2), 65531);
    // Check Neg flag.
    assert_eq!(vm.read_register(Register::COND), 4);

    vm.add(Register::R2, Register::R2, 0, Register::R5 as u16);
    assert_eq!(vm.read_register(Register::R2), 0);
    // Check Zro flag.
    assert_eq!(vm.read_register(Register::COND), 2);
}

#[test]
fn add_instruction_immediate_mode() {
    let mut vm: LC3VirtualMachine = LC3VirtualMachine::new();
    // Immediate mode add positive number.
    vm.add(Register::R5, Register::R0, 1, 5);
    assert_eq!(vm.read_register(Register::R5), 5);
    assert_eq!(vm.read_register(Register::R0), 0);
    // Check Pos flag.
    assert_eq!(vm.read_register(Register::COND), 1);
    // 65535 in u16 is 0xFFFF which is equal to -1 in two's complement notation.
    vm.write_register(Register::R4, 65535);
    // Immediate mode add negative number.
    vm.add(Register::R7, Register::R4, 1, 1);
    assert_eq!(vm.read_register(Register::R7), 0);
    // Check Zro flag.
    assert_eq!(vm.read_register(Register::COND), 2);

    vm.write_register(Register::R2, 65530);
    vm.add(Register::R2, Register::R2, 1, 1);
    // 65531 in u16 is 0xFFFB which is equal to -5 in two's complement notation.
    assert_eq!(vm.read_register(Register::R2), 65531);
    // Check Neg flag.
    assert_eq!(vm.read_register(Register::COND), 4);
}

#[test]
fn loading_register() {
    let mut vm: LC3VirtualMachine = LC3VirtualMachine::new();

    // Load with positive offset. (PC is equal to 0 for default)
    vm.mem_write(15, 52).unwrap();
    assert_eq!(Ok(()), vm.load(Register::R0, 15));
    assert_eq!(vm.read_register(Register::R0), 52);
    // Check Pos flag.
    assert_eq!(vm.read_register(Register::COND), 1);

    // Load with negative offset.
    vm.write_register(Register::PC, 2);
    vm.mem_write(65530, 50000).unwrap();
    // PC is equal to 2 so the negative jump should be equal to -8 in 9 bits = 0b111111000
    assert_eq!(Ok(()), vm.load(Register::R1, 0b111111000));
    assert_eq!(vm.read_register(Register::R1), 50000);
    // Check Neg flag.
    assert_eq!(vm.read_register(Register::COND), 4);

    // Load to check Zro flag.
    assert_eq!(Ok(()), vm.load(Register::R0, 0));
    assert_eq!(vm.read_register(Register::R0), 0);
    // Check Zro flag.
    assert_eq!(vm.read_register(Register::COND), 2);
}

#[test]
fn storing_from_register() {
    let mut vm: LC3VirtualMachine = LC3VirtualMachine::new();

    // Store with positive offset.
    vm.write_register(Register::R0, 52);
    assert_eq!(vm.read_memory(15), 0);
    assert_eq!(Ok(()), vm.store(Register::R0, 15));
    assert_eq!(vm.read_memory(15), 52);
    // Check flags.
    assert_eq!(vm.read_register(Register::COND), 0);

    // Store with negative offset.
    vm.write_register(Register::PC, 2);
    vm.write_register(Register::R1, 50000);
    // PC is equal to 2 so the negative jump should be equal to -8 in 9 bits = 0b111111000
    assert_eq!(vm.read_memory(65530), 0);
    assert_eq!(Ok(()), vm.store(Register::R1, 0b111111000));
    assert_eq!(vm.read_memory(65530), 50000);
    // Check flags.
    assert_eq!(vm.read_register(Register::COND), 0);
}

#[test]
fn jump_register() {
    let mut vm: LC3VirtualMachine = LC3VirtualMachine::new();
    // JSR with positive offset
    vm.write_register(Register::PC, 3);
    vm.jump_register(1, 4);
    assert_eq!(vm.read_register(Register::PC), 7);
    assert_eq!(vm.read_register(Register::R7), 3);
    // JSR with negative offset
    // PC is equal to 7 so the negative jump should be equal to -8 in 11 bits = 0b11111111000
    vm.jump_register(1, 0b11111111000);
    assert_eq!(vm.read_register(Register::PC), 65535);
    assert_eq!(vm.read_register(Register::R7), 7);
    // JSRR
    vm.write_register(Register::R6, 365);
    vm.jump_register(0, Register::R6 as u16);
    assert_eq!(vm.read_register(Register::PC), 365);
    assert_eq!(vm.read_register(Register::R7), 65535);
}

#[test]
fn bitwise_and_register_mode() {
    let mut vm: LC3VirtualMachine = LC3VirtualMachine::new();
    vm.write_register(Register::R0, 33);
    vm.write_register(Register::R5, 5);
    vm.and(Register::R4, Register::R5, 0, Register::R0 as u16);
    assert_eq!(vm.read_register(Register::R4), 1);
    assert_eq!(vm.read_register(Register::R0), 33);
    assert_eq!(vm.read_register(Register::R5), 5);
    // Check Pos flag.
    assert_eq!(vm.read_register(Register::COND), 1);

    vm.write_register(Register::R2, 65535);
    vm.write_register(Register::R3, 65520);
    vm.and(Register::R2, Register::R2, 0, Register::R3 as u16);
    assert_eq!(vm.read_register(Register::R2), 0xFFF0);
    // Check Neg flag.
    assert_eq!(vm.read_register(Register::COND), 4);

    vm.and(Register::R6, Register::R2, 0, Register::R1 as u16);
    assert_eq!(vm.read_register(Register::R6), 0);
    // Check Zro flag.
    assert_eq!(vm.read_register(Register::COND), 2);
}

#[test]
fn bitwise_and_immediate_mode() {
    let mut vm: LC3VirtualMachine = LC3VirtualMachine::new();
    vm.and(Register::R5, Register::R0, 1, 5);
    assert_eq!(vm.read_register(Register::R5), 0);
    assert_eq!(vm.read_register(Register::R0), 0);
    // Check Zro flag.
    assert_eq!(vm.read_register(Register::COND), 2);

    // 20 is 1 0100 in binary, which is equal to -12 in two's complement notation for 5 bits.
    vm.write_register(Register::R5, 5);
    vm.and(Register::R7, Register::R5, 1, 20);
    assert_eq!(vm.read_register(Register::R7), 4);
    assert_eq!(vm.read_register(Register::R5), 5);
    // Check Pos flag.
    assert_eq!(vm.read_register(Register::COND), 1);

    // Register mode to check neg flag.
    vm.write_register(Register::R2, 65535);
    vm.and(Register::R2, Register::R2, 1, 16);
    assert_eq!(vm.read_register(Register::R2), 0xFFF0);
    // Check Neg flag.
    assert_eq!(vm.read_register(Register::COND), 4);
}

#[test]
fn loading_register_from_address_in_register() {
    let mut vm: LC3VirtualMachine = LC3VirtualMachine::new();

    // Load with positive offset.
    vm.mem_write(15, 52).unwrap();
    vm.write_register(Register::R1, 7);
    assert_eq!(Ok(()), vm.load_register(Register::R0, Register::R1, 8));
    assert_eq!(vm.read_register(Register::R0), 52);
    // Check Pos flag.
    assert_eq!(vm.read_register(Register::COND), 1);

    // Load with negative offset.
    vm.write_register(Register::R2, 2);
    vm.mem_write(65530, 50000).unwrap();
    // R2 is equal to 2 so the negative jump should be equal to -8 in 6 bits = 0b111000
    assert_eq!(Ok(()), vm.load_register(Register::R1, Register::R2, 0b111000));
    assert_eq!(vm.read_register(Register::R1), 50000);
    // Check Neg flag.
    assert_eq!(vm.read_register(Register::COND), 4);

    // Load to check Zro flag. (R2 is equal to 2 from previous assertion set up)
    assert_eq!(Ok(()), vm.load_register(Register::R0, Register::R2, 0));
    assert_eq!(vm.read_register(Register::R0), 0);
    // Check Zro flag.
    assert_eq!(vm.read_register(Register::COND), 2);
}

#[test]
fn storing_from_register_from_address_in_register() {
    let mut vm: LC3VirtualMachine = LC3VirtualMachine::new();

    // Store with positive offset.
    vm.write_register(Register::R0, 52);
    vm.write_register(Register::R1, 7);
    assert_eq!(vm.read_memory(15), 0);
    assert_eq!(Ok(()), vm.store_register(Register::R0, Register::R1, 8));
    assert_eq!(vm.read_memory(15), 52);
    // Check flags.
    assert_eq!(vm.read_register(Register::COND), 0);

    // Store with negative offset.
    vm.write_register(Register::R2, 2);
    vm.write_register(Register::R1, 50000);
    // R2 is equal to 2 so the negative jump should be equal to -8 in 6 bits = 0b111000
    assert_eq!(vm.read_memory(65530), 0);
    assert_eq!(Ok(()), vm.store_register(Register::R1, Register::R2, 0b111000));
    assert_eq!(vm.read_memory(65530), 50000);
    // Check flags.
    assert_eq!(vm.read_register(Register::COND), 0);
}

#[test]
fn bitwise_not() {
    let mut vm: LC3VirtualMachine = LC3VirtualMachine::new();
    vm.write_register(Register::R5, 1);
    vm.not(Register::R4, Register::R5);
    // 0xFFFE is -2 in two's complement notation.
    assert_eq!(vm.read_register(Register::R4), 0xFFFE);
    assert_eq!(vm.read_register(Register::R5), 1);
    // Check Neg flag.
    assert_eq!(vm.read_register(Register::COND), 4);

    // 65520 is 0xFFF0
    vm.write_register(Register::R3, 65520);
    vm.not(Register::R2, Register::R3);
    // 0x000F
    assert_eq!(vm.read_register(Register::R2), 15);
    // Check Pos flag.
    assert_eq!(vm.read_register(Register::COND), 1);

    vm.write_register(Register::R2, 0xFFFF);
    vm.not(Register::R6, Register::R2);
    assert_eq!(vm.read_register(Register::R6), 0);
    // Check Zro flag.
    assert_eq!(vm.read_register(Register::COND), 2);
}

#[test]
fn load_indirect() {
    let mut vm: LC3VirtualMachine = LC3VirtualMachine::new();

    // Load with positive offset. (PC is equal to 0 for default)
    vm.mem_write(15, 52).unwrap();
    vm.mem_write(52, 10).unwrap();
    vm.write_register(Register::R1, 7);
    assert_eq!(Ok(()), vm.load_indirect(Register::R0, 15));
    assert_eq!(vm.read_register(Register::R0), 10);
    // Check Pos flag.
    assert_eq!(vm.read_register(Register::COND), 1);

    // Load with negative offset.
    vm.write_register(Register::PC, 2);
    vm.mem_write(65530, 50000).unwrap();
    vm.mem_write(50000, 55555).unwrap();
    // PC is equal to 2 so the negative jump should be equal to -8 in 9 bits = 0b111111000
    assert_eq!(Ok(()), vm.load_indirect(Register::R1, 0b111111000));
    assert_eq!(vm.read_register(Register::R1), 55555);
    // Check Neg flag.
    assert_eq!(vm.read_register(Register::COND), 4);

    // Load to check Zro flag. (PC is equal to 2 from previous assertion set up
    // and address 2 in memory stores 0 for default)
    assert_eq!(Ok(()), vm.load_indirect(Register::R0, 0));
    assert_eq!(vm.read_register(Register::R0), 0);
    // Check Zro flag.
    assert_eq!(vm.read_register(Register::COND), 2);
}

#[test]
fn store_indirect() {
    let mut vm: LC3VirtualMachine = LC3VirtualMachine::new();

    // Store with positive offset. (PC is equal to 0 for default)
    vm.mem_write(17, 7).unwrap();
    vm.write_register(Register::R0, 52);
    assert_eq!(vm.read_memory(15), 0);
    assert_eq!(Ok(()), vm.store_indirect(Register::R0, 17));
    assert_eq!(vm.read_memory(7), 52);
    // Check flags.
    assert_eq!(vm.read_register(Register::COND), 0);

    // Store with negative offset.
    vm.write_register(Register::PC, 2);
    vm.mem_write(65530, 50000).unwrap();
    vm.write_register(Register::R1, 65000);
    // PC is equal to 2 so the negative jump should be equal to -8 in 9 bits = 0b111111000
    assert_eq!(Ok(()), vm.store_indirect(Register::R1, 0b111111000));
    assert_eq!(vm.read_memory(50000), 65000);
    // Check flags.
    assert_eq!(vm.read_register(Register::COND), 0);
}

#[test]
fn load_effective_address() {
    let mut vm: LC3VirtualMachine = LC3VirtualMachine::new();

    // Load with positive offset. (PC is equal to 0 for default)
    vm.load_effective_address(Register::R0, 15);
    assert_eq!(vm.read_register(Register::R0), 15);
    // Check Pos flag.
    assert_eq!(vm.read_register(Register::COND), 1);

    // Load with negative offset.
    vm.write_register(Register::PC, 2);
    // PC is equal to 2 so the negative jump should be equal to -8 in 9 bits = 0b111111000
    vm.load_effective_address(Register::R1, 0b111111000);
    assert_eq!(vm.read_register(Register::R1), 65530);
    // Check Neg flag.
    assert_eq!(vm.read_register(Register::COND), 4);

    // Load to check Zro flag. (PC is equal to 2 from previous assertion,
    // pc_offset is equal to -2 in two's complement notation.)
    vm.load_effective_address(Register::R0, 0xFFFE);
    assert_eq!(vm.read_register(Register::R0), 0);
    // Check Zro flag.
    assert_eq!(vm.read_register(Register::COND), 2);
}

#[test]
fn executing_add_instruction_register_mode() {
    let mut vm: LC3VirtualMachine = LC3VirtualMachine::new();
    vm.write_register(Register::R1, 32);
    vm.write_register(Register::R2, 5);
    // ADD r0, r1, r2
    let instruction = 0b0001000001000010;
    let _ = vm.execute_instruction(instruction);
    assert_eq!(vm.read_register(Register::R0), 37);
    // Check Pos flag.
    assert_eq!(vm.read_register(Register::COND), 1);
}

#[test]
fn reading_image_file_with_trap_halt() {
    let mut vm: LC3VirtualMachine = LC3VirtualMachine::new();
    vm.set_origin(0x00);
    // vector has two first elements as address to load image, and two last
    // elements are instruction TRAP HALT
    let image_file = vec![0x00, 0x00, 0xF0, 0x25];
    assert_eq!(Ok(()), read_image_file(&mut vm, image_file));
    assert_eq!(Ok(()), vm.run());
    assert!(!vm.running());
}

#[test]
fn reding_image_file_with_add_and_trap() {
    let mut vm: LC3VirtualMachine = LC3VirtualMachine::new();
    vm.set_origin(0x00);
    // vector has two first elements as address to load image, then the two
    // following elements are instruction ADD r0, r1, r2 and two last elements
    // are instruction TRAP HALT
    let image_file = vec![0x00, 0x00, 0b00010000, 0b01000010, 0xF0, 0x25];
    vm.write_register(Register::R1, 32);
    vm.write_register(Register::R2, 5);

    assert_eq!(Ok(()), read_image_file(&mut vm, image_file));
    assert_eq!(Ok(()), vm.run());
    assert_eq!(vm.read_register(Register::R0), 37);
    // Check Pos flag.
    assert_eq!(vm.read_register(Register::COND), 1);
    assert!(!vm.running());
}

#[test]
fn reding_empty_image_file_throws_eror() {
    let mut vm: LC3VirtualMachine = LC3VirtualMachine::new();
    vm.set_origin(0x00);
    let image_file = vec![];

    assert_eq!(
        Err(VMError::FailedToLoadImage(String::from("Image size invalid"))),
        read_image_file(&mut vm, image_file)
    );
}

#[test]
fn reding_odd_size_image_file_throws_eror() {
    let mut vm: LC3VirtualMachine = LC3VirtualMachine::new();
    vm.set_origin(0x00);
    let image_file = vec![0x00, 0x00, 0b00010000];

    assert_eq!(
        Err(VMError::FailedToLoadImage(String::from("Image size invalid"))),
        read_image_file(&mut vm, image_file)
    );
}

#[test]
fn executin_invalid_trap_code_throws_error() {
    let mut vm: LC3VirtualMachine = LC3VirtualMachine::new();
    vm.set_origin(0x00);
    // vector has two first elements as address to load image, and two last
    // elements are instruction TRAP with invalid trap code
    let image_file = vec![0x00, 0x00, 0xF0, 0xFF];
    assert_eq!(Ok(()), read_image_file(&mut vm, image_file));
    assert_eq!(
        Err(VMError::InvalidTrapCode(HardwareError::InvalidTrapCode(0xFF))),
        vm.run()
    );
}
