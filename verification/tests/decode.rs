use word_vm::decode::FromPointer;
use word_vm::fault::{Access, Fault};
use word_vm::instruction::Instruction;
use word_vm::memory::Memory;
use word_vm::operand::Operand;

#[test]
fn operands() {
    assert_eq!(Operand::classify(0), Ok(Operand::Literal(0)));
    assert_eq!(Operand::classify(32767), Ok(Operand::Literal(32767)));
    assert_eq!(Operand::classify(32768), Ok(Operand::Register(0)));
    assert_eq!(Operand::classify(32775), Ok(Operand::Register(7)));
}

#[test]
fn operand_fetching() {
    let mem = Memory::from_words(&[0x1234_u16, 0x5678, 0x8005][..]).unwrap();
    let mut ptr = mem.pointer(0);
    assert_eq!(Operand::from_pointer(&mut ptr), Ok(Operand::Literal(0x1234)));
    assert_eq!(Operand::from_pointer(&mut ptr), Ok(Operand::Literal(0x5678)));
    assert_eq!(Operand::from_pointer(&mut ptr), Ok(Operand::Register(5)));
}

#[test]
fn instruction_fetching() {
    let mem = Memory::from_words(&[9_u16, 32768, 32769, 4, 19, 32768][..]).unwrap();
    let mut ptr = mem.pointer(0);
    assert_eq!(
        Instruction::from_pointer(&mut ptr),
        Ok(Instruction::Add(Operand::Register(0), Operand::Register(1), Operand::Literal(4)))
    );
    assert_eq!(Instruction::from_pointer(&mut ptr), Ok(Instruction::Out(Operand::Register(0))));
}

#[test]
fn every_literal_classifies_as_itself() {
    for raw in 0..=32767u16 {
        assert_eq!(Operand::classify(raw), Ok(Operand::Literal(raw)));
    }
}

#[test]
fn every_register_word_classifies_as_its_register() {
    for raw in 32768..=32775u16 {
        assert_eq!(Operand::classify(raw), Ok(Operand::Register((raw - 32768) as u8)));
    }
}

#[test]
fn every_other_word_is_an_invalid_operand() {
    for raw in 32776..=65535u16 {
        assert_eq!(Operand::classify(raw), Err(Fault::InvalidOperand(raw)));
    }
}

#[test]
fn invalid_operand_leaves_the_pointer() {
    let mem = Memory::from_words(&[32776]).unwrap();
    let mut ptr = mem.pointer(0);
    assert_eq!(Operand::from_pointer(&mut ptr), Err(Fault::InvalidOperand(32776)));
    assert_eq!(ptr.addr(), 0);
}

#[test]
fn operand_pairs_and_triples() {
    let mem = Memory::from_words(&[1, 32769, 3, 32775, 5]).unwrap();
    let mut ptr = mem.pointer(0);
    assert_eq!(
        <(Operand, Operand)>::from_pointer(&mut ptr),
        Ok((Operand::Literal(1), Operand::Register(1)))
    );
    assert_eq!(ptr.addr(), 2);
    assert_eq!(
        <(Operand, Operand, Operand)>::from_pointer(&mut ptr),
        Ok((Operand::Literal(3), Operand::Register(7), Operand::Literal(5)))
    );
    assert_eq!(ptr.addr(), 5);
}

#[test]
fn a_bad_operand_anywhere_rewinds_the_pointer() {
    let mem = Memory::from_words(&[1, 2, 40000, 1, 50000, 60000, 1, 1]).unwrap();
    let mut ptr = mem.pointer(1);
    assert_eq!(<(Operand, Operand)>::from_pointer(&mut ptr), Err(Fault::InvalidOperand(40000)));
    assert_eq!(ptr.addr(), 1);
    ptr.jump(0);
    assert_eq!(
        <(Operand, Operand, Operand)>::from_pointer(&mut ptr),
        Err(Fault::InvalidOperand(40000))
    );
    assert_eq!(ptr.addr(), 0);
    ptr.jump(3);
    assert_eq!(
        <(Operand, Operand, Operand)>::from_pointer(&mut ptr),
        Err(Fault::InvalidOperand(50000))
    );
    assert_eq!(ptr.addr(), 3);
    ptr.jump(5);
    assert_eq!(
        <(Operand, Operand, Operand)>::from_pointer(&mut ptr),
        Err(Fault::InvalidOperand(60000))
    );
    assert_eq!(ptr.addr(), 5);
}

#[test]
fn the_opcode_table() {
    let a = Operand::Register(0);
    let b = Operand::Literal(1);
    let c = Operand::Register(7);
    let table: Vec<(u16, usize, Instruction)> = vec![
        (0, 0, Instruction::Halt),
        (1, 2, Instruction::SetReg(a, b)),
        (2, 1, Instruction::Push(a)),
        (3, 1, Instruction::Pop(a)),
        (4, 3, Instruction::Eq(a, b, c)),
        (5, 3, Instruction::Gt(a, b, c)),
        (6, 1, Instruction::Jmp(a)),
        (7, 2, Instruction::Jt(a, b)),
        (8, 2, Instruction::Jf(a, b)),
        (9, 3, Instruction::Add(a, b, c)),
        (10, 3, Instruction::Mult(a, b, c)),
        (11, 3, Instruction::Mod(a, b, c)),
        (12, 3, Instruction::And(a, b, c)),
        (13, 3, Instruction::Or(a, b, c)),
        (14, 2, Instruction::Not(a, b)),
        (15, 2, Instruction::RMem(a, b)),
        (16, 2, Instruction::WMem(a, b)),
        (17, 1, Instruction::Call(a)),
        (18, 0, Instruction::Ret),
        (19, 1, Instruction::Out(a)),
        (20, 1, Instruction::In(a)),
        (21, 0, Instruction::Noop),
    ];
    assert_eq!(table.len(), 22);
    for (opcode, arity, expected) in table {
        let mem = Memory::from_words(&[opcode, 32768, 1, 32775]).unwrap();
        let mut ptr = mem.pointer(0);
        assert_eq!(Instruction::from_pointer(&mut ptr), Ok(expected));
        assert_eq!(ptr.addr(), 1 + arity);
    }
}

#[test]
fn unknown_opcodes_are_faults() {
    for opcode in [22u16, 23, 255, 256, 32767, 32768, 65535] {
        // The words behind the opcode are no operands: they are not looked at.
        let mem = Memory::from_words(&[opcode, 65535, 65535, 65535]).unwrap();
        let mut ptr = mem.pointer(0);
        assert_eq!(Instruction::from_pointer(&mut ptr), Err(Fault::InvalidOpcode(opcode)));
        assert_eq!(ptr.addr(), 0);
    }
}

#[test]
fn an_instruction_with_a_bad_operand_rewinds_the_pointer() {
    let mem = Memory::from_words(&[21, 9, 32768, 1, 32776]).unwrap();
    let mut ptr = mem.pointer(1);
    assert_eq!(Instruction::from_pointer(&mut ptr), Err(Fault::InvalidOperand(32776)));
    assert_eq!(ptr.addr(), 1);
}

#[test]
fn decoding_stops_at_the_end_of_memory() {
    let mut mem = Memory::new();
    mem.write(32766, 1).unwrap();
    mem.write(32767, 32768).unwrap();
    let fault = Fault::MemoryOutOfBounds { access: Access::Read, addr: 32768, limit: 32767 };
    let mut ptr = mem.pointer(32766);
    assert_eq!(Instruction::from_pointer(&mut ptr), Err(fault));
    assert_eq!(ptr.addr(), 32766);
    ptr.jump(32768);
    assert_eq!(Instruction::from_pointer(&mut ptr), Err(fault));
    assert_eq!(Operand::from_pointer(&mut ptr), Err(fault));
    assert_eq!(ptr.addr(), 32768);
    // A no-op in the last cell decodes, and ends right behind memory.
    mem.write(32767, 21).unwrap();
    let mut ptr = mem.pointer(32767);
    assert_eq!(Instruction::from_pointer(&mut ptr), Ok(Instruction::Noop));
    assert_eq!(ptr.addr(), 32768);
}
