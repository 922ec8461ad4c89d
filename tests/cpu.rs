use typestates::cpu::{
    parse_3digit, parse_instruction, parse_register, Cpu, Instruction, ParseError, Printed,
    Register,
};

#[test]
fn three_digit_numbers() {
    assert_eq!(parse_3digit("255"), Ok(255));
    assert_eq!(parse_3digit("0"), Ok(0));
    assert_eq!(parse_3digit("007"), Ok(7));
    assert_eq!(parse_3digit("42"), Ok(42));
    assert_eq!(parse_3digit("256"), Err(ParseError::BadNumber));
    assert_eq!(parse_3digit("999"), Err(ParseError::BadNumber));
    assert_eq!(parse_3digit(""), Err(ParseError::BadNumber));
    assert_eq!(parse_3digit("1000"), Err(ParseError::BadNumber));
    assert_eq!(parse_3digit("0012"), Err(ParseError::BadNumber));
    assert_eq!(parse_3digit("1a"), Err(ParseError::BadNumber));
    assert_eq!(parse_3digit("-1"), Err(ParseError::BadNumber));
}

#[test]
fn registers() {
    assert_eq!(parse_register("r0"), Ok(Register::R0));
    assert_eq!(parse_register("r1"), Ok(Register::R1));
    assert_eq!(parse_register("r2"), Ok(Register::R2));
    assert_eq!(parse_register("r3"), Ok(Register::R3));
    assert_eq!(parse_register("r4"), Err(ParseError::BadRegister));
    assert_eq!(parse_register("R1"), Err(ParseError::BadRegister));
    assert_eq!(parse_register("r"), Err(ParseError::BadRegister));
    assert_eq!(parse_register("r10"), Err(ParseError::BadRegister));
}

#[test]
fn instructions() {
    assert_eq!(
        parse_instruction(&["STORE", "255", "r1"]),
        Ok(Instruction::Store(255, Register::R1))
    );
    assert_eq!(parse_instruction(&["INCRM", "r1"]), Ok(Instruction::Increment(Register::R1)));
    assert_eq!(
        parse_instruction(&["PRNTR", "r2"]),
        Ok(Instruction::PrintRegister(Register::R2))
    );
    assert_eq!(
        parse_instruction(&["PRINT", "r1"]),
        Ok(Instruction::PrintRegister(Register::R1))
    );
    assert_eq!(
        parse_instruction(&["PRNTS", "hello"]),
        Ok(Instruction::PrintString("hello".to_string()))
    );
}

#[test]
fn instruction_errors() {
    assert_eq!(parse_instruction(&[]), Err(ParseError::UnknownInstruction));
    assert_eq!(parse_instruction(&["JUMP", "r1"]), Err(ParseError::UnknownInstruction));
    assert_eq!(parse_instruction(&["store", "1", "r1"]), Err(ParseError::UnknownInstruction));
    assert_eq!(parse_instruction(&["STORE", "1"]), Err(ParseError::WrongOperandCount));
    assert_eq!(parse_instruction(&["INCRM"]), Err(ParseError::WrongOperandCount));
    assert_eq!(parse_instruction(&["PRNTS", "a", "b"]), Err(ParseError::WrongOperandCount));
    assert_eq!(parse_instruction(&["STORE", "300", "r9"]), Err(ParseError::BadNumber));
    assert_eq!(parse_instruction(&["STORE", "3", "r9"]), Err(ParseError::BadRegister));
    assert_eq!(parse_instruction(&["PRNTR", "x"]), Err(ParseError::BadRegister));
}

#[test]
fn run_program() {
    let prog = vec![
        Instruction::Store(255, Register::R1),
        Instruction::PrintRegister(Register::R1),
        Instruction::Increment(Register::R1),
        Instruction::PrintRegister(Register::R1),
        Instruction::Store(9, Register::R3),
        Instruction::Increment(Register::R3),
        Instruction::PrintString("done".to_string()),
        Instruction::PrintRegister(Register::R3),
    ];
    let mut cpu = Cpu::default();
    let out = cpu.run(&prog);
    assert_eq!(
        out,
        vec![
            Printed::Value(255),
            Printed::Value(0),
            Printed::Text("done".to_string()),
            Printed::Value(10),
        ]
    );
    assert_eq!(cpu.get(Register::R0), 0);
    assert_eq!(cpu.get(Register::R1), 0);
    assert_eq!(cpu.get(Register::R2), 0);
    assert_eq!(cpu.get(Register::R3), 10);
}

#[test]
fn run_nothing() {
    let mut cpu = Cpu::default();
    assert!(cpu.run(&[]).is_empty());
    assert_eq!(cpu.get(Register::R2), 0);
}
