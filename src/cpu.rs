//! A toy CPU with four eight-bit registers and a textual instruction set:
//!
//! - `STORE <value> <register>` stores a decimal value of at most three digits,
//! - `INCRM <register>` increments a register, wrapping at 256,
//! - `PRNTR <register>` (or `PRINT <register>`) prints a register's value,
//! - `PRNTS <text>` prints a piece of text.
//!
//! Registers are named `r0` to `r3`. Running a program does not print: it
//! returns what the program printed, in order.

use vstd::prelude::*;
use vstd::string::StrSliceExecFns;

verus! {

pub type Value = u8;

#[derive(Clone, Copy, Debug, PartialEq, Eq, Structural)]
pub enum Register {
    R0,
    R1,
    R2,
    R3,
}

/// Why a piece of program text is not an instruction.
#[derive(Clone, Copy, Debug, PartialEq, Eq, Structural)]
pub enum ParseError {
    /// Not one to three decimal digits with a value below 256.
    BadNumber,
    /// Not one of `r0` to `r3`.
    BadRegister,
    /// The first word is no instruction, or there is none.
    UnknownInstruction,
    /// The instruction has too many or too few operands.
    WrongOperandCount,
}

#[derive(Clone, Debug, PartialEq, Eq)]
pub enum Instruction {
    Store(Value, Register),
    Increment(Register),
    PrintRegister(Register),
    PrintString(String),
}

pub enum InstructionView {
    Store(Value, Register),
    Increment(Register),
    PrintRegister(Register),
    PrintString(Seq<char>),
}

impl View for Instruction {
    type V = InstructionView;

    open spec fn view(&self) -> InstructionView {
        match self {
            Instruction::Store(v, r) => InstructionView::Store(*v, *r),
            Instruction::Increment(r) => InstructionView::Increment(*r),
            Instruction::PrintRegister(r) => InstructionView::PrintRegister(*r),
            Instruction::PrintString(s) => InstructionView::PrintString(s@),
        }
    }
}

/// One thing a program printed.
#[derive(Clone, Debug, PartialEq, Eq)]
pub enum Printed {
    Value(Value),
    Text(String),
}

pub enum PrintedView {
    Value(Value),
    Text(Seq<char>),
}

impl View for Printed {
    type V = PrintedView;

    open spec fn view(&self) -> PrintedView {
        match self {
            Printed::Value(v) => PrintedView::Value(*v),
            Printed::Text(s) => PrintedView::Text(s@),
        }
    }
}

pub open spec fn is_digit(c: char) -> bool {
    '0' <= c <= '9'
}

/// The number that the decimal digits `s` spell.
pub open spec fn digits_value(s: Seq<char>) -> int
    decreases s.len(),
{
    if s.len() == 0 {
        0
    } else {
        digits_value(s.drop_last()) * 10 + (s.last() as int - '0' as int)
    }
}

/// The value that `s` spells as a number of one to three digits, if it is
/// one and fits in a byte.
pub open spec fn number_of(s: Seq<char>) -> Option<Value> {
    if 1 <= s.len() <= 3 && (forall|i: int| 0 <= i < s.len() ==> is_digit(#[trigger] s[i]))
        && digits_value(s) < 256 {
        Some(digits_value(s) as u8)
    } else {
        None
    }
}

/// The register that `s` names, if any.
pub open spec fn register_of(s: Seq<char>) -> Option<Register> {
    if s.len() == 2 && s[0] == 'r' {
        if s[1] == '0' {
            Some(Register::R0)
        } else if s[1] == '1' {
            Some(Register::R1)
        } else if s[1] == '2' {
            Some(Register::R2)
        } else if s[1] == '3' {
            Some(Register::R3)
        } else {
            None
        }
    } else {
        None
    }
}

/// The register named by `s`, or the error for a bad name.
pub open spec fn register_or_error(s: Seq<char>) -> Result<Register, ParseError> {
    match register_of(s) {
        Some(r) => Ok(r),
        None => Err(ParseError::BadRegister),
    }
}

/// The instruction that the words `w` spell, or why they spell none.
pub open spec fn instruction_of(w: Seq<Seq<char>>) -> Result<InstructionView, ParseError> {
    if w.len() == 0 {
        Err(ParseError::UnknownInstruction)
    } else if w[0] == "STORE"@ {
        if w.len() != 3 {
            Err(ParseError::WrongOperandCount)
        } else {
            match number_of(w[1]) {
                None => Err(ParseError::BadNumber),
                Some(v) => match register_of(w[2]) {
                    None => Err(ParseError::BadRegister),
                    Some(r) => Ok(InstructionView::Store(v, r)),
                },
            }
        }
    } else if w[0] == "INCRM"@ {
        if w.len() != 2 {
            Err(ParseError::WrongOperandCount)
        } else {
            match register_of(w[1]) {
                None => Err(ParseError::BadRegister),
                Some(r) => Ok(InstructionView::Increment(r)),
            }
        }
    } else if w[0] == "PRNTR"@ || w[0] == "PRINT"@ {
        if w.len() != 2 {
            Err(ParseError::WrongOperandCount)
        } else {
            match register_of(w[1]) {
                None => Err(ParseError::BadRegister),
                Some(r) => Ok(InstructionView::PrintRegister(r)),
            }
        }
    } else if w[0] == "PRNTS"@ {
        if w.len() != 2 {
            Err(ParseError::WrongOperandCount)
        } else {
            Ok(InstructionView::PrintString(w[1]))
        }
    } else {
        Err(ParseError::UnknownInstruction)
    }
}

/// Whether `s` and `w` hold the same characters.
fn same_text(s: &str, w: &str) -> (r: bool)
    ensures
        r == (s@ == w@),
{
    let n: usize = s.unicode_len();
    if n != w.unicode_len() {
        return false;
    }
    let mut i: usize = 0;
    while i < n
        invariant
            n == s@.len() == w@.len(),
            i <= n,
            forall|j: int| 0 <= j < i ==> s@[j] == w@[j],
        decreases n - i,
    {
        if s.get_char(i) != w.get_char(i) {
            return false;
        }
        i = i + 1;
    }
    assert(s@ =~= w@);
    true
}

/// Parses a number of one to three decimal digits that fits in a byte.
pub fn parse_3digit(str_num: &str) -> (r: Result<Value, ParseError>)
    ensures
        match number_of(str_num@) {
            Some(v) => r == Ok::<Value, ParseError>(v),
            None => r == Err::<Value, ParseError>(ParseError::BadNumber),
        },
{
    let n: usize = str_num.unicode_len();
    if n == 0 || n > 3 {
        return Err(ParseError::BadNumber);
    }
    let ghost s = str_num@;
    let mut acc: u32 = 0;
    let mut i: usize = 0;
    while i < n
        invariant
            n == s.len(),
            1 <= n <= 3,
            s == str_num@,
            i <= n,
            forall|j: int| 0 <= j < i ==> is_digit(#[trigger] s[j]),
            acc == digits_value(s.subrange(0, i as int)),
            acc < 1000,
            i < 3 ==> acc < 100,
            i < 2 ==> acc < 10,
            i < 1 ==> acc == 0,
        decreases n - i,
    {
        let c = str_num.get_char(i);
        if !('0' <= c && c <= '9') {
            assert(!number_of(s).is_some());
            return Err(ParseError::BadNumber);
        }
        assert(s.subrange(0, i + 1).drop_last() =~= s.subrange(0, i as int));
        acc = acc * 10 + (c as u32 - '0' as u32);
        i = i + 1;
    }
    assert(s.subrange(0, n as int) =~= s);
    if acc > 255 {
        return Err(ParseError::BadNumber);
    }
    Ok(acc as u8)
}

/// Parses a register name, `r0` to `r3`.
pub fn parse_register(reg_str: &str) -> (r: Result<Register, ParseError>)
    ensures
        r == register_or_error(reg_str@),
{
    if reg_str.unicode_len() != 2 || reg_str.get_char(0) != 'r' {
        return Err(ParseError::BadRegister);
    }
    match reg_str.get_char(1) {
        '0' => Ok(Register::R0),
        '1' => Ok(Register::R1),
        '2' => Ok(Register::R2),
        '3' => Ok(Register::R3),
        _ => Err(ParseError::BadRegister),
    }
}

/// Parses one instruction given as its words: the mnemonic, then the
/// operands.
pub fn parse_instruction(instruction: &[&str]) -> (r: Result<Instruction, ParseError>)
    ensures
        match r {
            Ok(i) => instruction_of(instruction@.map_values(|w: &str| w@)) == Ok::<
                InstructionView,
                ParseError,
            >(i@),
            Err(e) => instruction_of(instruction@.map_values(|w: &str| w@)) == Err::<
                InstructionView,
                ParseError,
            >(e),
        },
{
    let ghost w = instruction@.map_values(|w: &str| w@);
    let n: usize = instruction.len();
    if n == 0 {
        return Err(ParseError::UnknownInstruction);
    }
    let op = instruction[0];
    assert(w[0] == op@);
    if same_text(op, "STORE") {
        if n != 3 {
            return Err(ParseError::WrongOperandCount);
        }
        assert(w[1] == instruction[1]@ && w[2] == instruction[2]@);
        let v: Value = match parse_3digit(instruction[1]) {
            Ok(v) => v,
            Err(e) => {
                return Err(e);
            },
        };
        let r = match parse_register(instruction[2]) {
            Ok(r) => r,
            Err(e) => {
                return Err(e);
            },
        };
        Ok(Instruction::Store(v, r))
    } else if same_text(op, "INCRM") {
        if n != 2 {
            return Err(ParseError::WrongOperandCount);
        }
        assert(w[1] == instruction[1]@);
        match parse_register(instruction[1]) {
            Ok(r) => Ok(Instruction::Increment(r)),
            Err(e) => Err(e),
        }
    } else if same_text(op, "PRNTR") || same_text(op, "PRINT") {
        if n != 2 {
            return Err(ParseError::WrongOperandCount);
        }
        assert(w[1] == instruction[1]@);
        match parse_register(instruction[1]) {
            Ok(r) => Ok(Instruction::PrintRegister(r)),
            Err(e) => Err(e),
        }
    } else if same_text(op, "PRNTS") {
        if n != 2 {
            return Err(ParseError::WrongOperandCount);
        }
        assert(w[1] == instruction[1]@);
        Ok(Instruction::PrintString(instruction[1].to_owned()))
    } else {
        Err(ParseError::UnknownInstruction)
    }
}

/// The place of a register in the register file.
pub open spec fn index_of(r: Register) -> int {
    match r {
        Register::R0 => 0,
        Register::R1 => 1,
        Register::R2 => 2,
        Register::R3 => 3,
    }
}

/// The register file `regs` after the instruction `i`.
pub open spec fn step(regs: Seq<Value>, i: InstructionView) -> Seq<Value> {
    match i {
        InstructionView::Store(v, r) => regs.update(index_of(r), v),
        InstructionView::Increment(r) => regs.update(
            index_of(r),
            ((regs[index_of(r)] + 1) % 256) as u8,
        ),
        _ => regs,
    }
}

/// What the instruction `i` prints when run on `regs`.
pub open spec fn printed_by(regs: Seq<Value>, i: InstructionView) -> Seq<PrintedView> {
    match i {
        InstructionView::PrintRegister(r) => seq![PrintedView::Value(regs[index_of(r)])],
        InstructionView::PrintString(t) => seq![PrintedView::Text(t)],
        _ => Seq::empty(),
    }
}

/// The register file after running `prog` from `regs`.
pub open spec fn run_registers(regs: Seq<Value>, prog: Seq<InstructionView>) -> Seq<Value>
    decreases prog.len(),
{
    if prog.len() == 0 {
        regs
    } else {
        step(run_registers(regs, prog.drop_last()), prog.last())
    }
}

/// Everything that running `prog` from `regs` prints, in order.
pub open spec fn run_output(regs: Seq<Value>, prog: Seq<InstructionView>) -> Seq<PrintedView>
    decreases prog.len(),
{
    if prog.len() == 0 {
        Seq::empty()
    } else {
        run_output(regs, prog.drop_last()) + printed_by(
            run_registers(regs, prog.drop_last()),
            prog.last(),
        )
    }
}

/// The four registers `r0` to `r3`.
#[derive(Clone, Copy, Debug)]
pub struct Cpu {
    r0: Value,
    r1: Value,
    r2: Value,
    r3: Value,
}

impl View for Cpu {
    type V = Seq<Value>;

    closed spec fn view(&self) -> Seq<Value> {
        seq![self.r0, self.r1, self.r2, self.r3]
    }
}

impl Default for Cpu {
    /// All registers hold zero.
    fn default() -> (r: Cpu)
        ensures
            r@ == seq![0u8, 0u8, 0u8, 0u8],
    {
        Cpu { r0: 0, r1: 0, r2: 0, r3: 0 }
    }
}

impl Cpu {
    pub fn get(&self, r: Register) -> (v: Value)
        ensures
            self@.len() == 4,
            v == self@[index_of(r)],
    {
        match r {
            Register::R0 => self.r0,
            Register::R1 => self.r1,
            Register::R2 => self.r2,
            Register::R3 => self.r3,
        }
    }

    fn set(&mut self, r: Register, v: Value)
        ensures
            final(self)@ == old(self)@.update(index_of(r), v),
    {
        match r {
            Register::R0 => self.r0 = v,
            Register::R1 => self.r1 = v,
            Register::R2 => self.r2 = v,
            Register::R3 => self.r3 = v,
        }
        assert(self@ =~= old(self)@.update(index_of(r), v));
    }

    /// Runs `instrs` in order and returns what they printed.
    pub fn run(&mut self, instrs: &[Instruction]) -> (out: Vec<Printed>)
        ensures
            final(self)@ == run_registers(old(self)@, instrs@.map_values(|i: Instruction| i@)),
            out@.map_values(|p: Printed| p@) == run_output(
                old(self)@,
                instrs@.map_values(|i: Instruction| i@),
            ),
    {
        let ghost start = self@;
        let ghost prog = instrs@.map_values(|i: Instruction| i@);
        let mut out: Vec<Printed> = Vec::new();
        let mut k: usize = 0;
        while k < instrs.len()
            invariant
                k <= instrs.len(),
                prog == instrs@.map_values(|i: Instruction| i@),
                self@ == run_registers(start, prog.take(k as int)),
                out@.map_values(|p: Printed| p@) == run_output(start, prog.take(k as int)),
            decreases instrs.len() - k,
        {
            assert(prog.take(k + 1).drop_last() =~= prog.take(k as int));
            assert(prog.take(k + 1).last() == instrs[k as int]@);
            let ghost before = out@.map_values(|p: Printed| p@);
            match &instrs[k] {
                Instruction::Store(v, r) => {
                    self.set(*r, *v);
                },
                Instruction::Increment(r) => {
                    let v: Value = self.get(*r);
                    self.set(*r, v.wrapping_add(1));
                },
                Instruction::PrintRegister(r) => {
                    let v: Value = self.get(*r);
                    out.push(Printed::Value(v));
                    assert(out@.map_values(|p: Printed| p@) =~= before + seq![PrintedView::Value(v)]);
                },
                Instruction::PrintString(t) => {
                    out.push(Printed::Text(t.clone()));
                    assert(out@.map_values(|p: Printed| p@) =~= before + seq![PrintedView::Text(t@)]);
                },
            }
            k = k + 1;
        }
        assert(prog.take(instrs.len() as int) =~= prog);
        out
    }
}

} // verus!
