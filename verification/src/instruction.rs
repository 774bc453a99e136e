//! The instruction set.

use crate::arith::{BinaryOp, UnaryOp};
use vstd::prelude::*;

verus! {

/// One instruction of a program.
#[derive(Clone, Debug, PartialEq, Eq)]
pub enum Instruction {
    // Stack manipulation
    Push(i32),
    Pop,
    Dup,
    Swap,
    Rot,
    Clear,
    // Arithmetic
    Add,
    Sub,
    Mul,
    Div,
    Rem,
    Neg,
    Inc,
    Dec,
    // Comparison
    Eq,
    Ne,
    Le,
    Ge,
    Lt,
    Gt,
    // Control flow
    Call(String),
    Ret,
    Retv(i32),
    Jump(String),
    Brt(String),
    Brz(String),
    Label(String),
    Halt,
    // Memory
    Load(i32),
    Store(i32),
    Alloc(i32),
    Free(i32),
    // Input and output
    Print,
    Read,
    Write(String),
    Scan,
    // Bitwise and logical
    And,
    Or,
    Xor,
    Not,
    Shl,
    Shr,
    Bool,
    // Debugging
    Dump,
    Trace(bool),
}

/// An instruction as the semantics sees it: text payloads are sequences of
/// characters.
pub enum Op {
    Push(i32),
    Pop,
    Dup,
    Swap,
    Rot,
    Clear,
    Add,
    Sub,
    Mul,
    Div,
    Rem,
    Neg,
    Inc,
    Dec,
    Eq,
    Ne,
    Le,
    Ge,
    Lt,
    Gt,
    Call(Seq<char>),
    Ret,
    Retv(i32),
    Jump(Seq<char>),
    Brt(Seq<char>),
    Brz(Seq<char>),
    Label(Seq<char>),
    Halt,
    Load(i32),
    Store(i32),
    Alloc(i32),
    Free(i32),
    Print,
    Read,
    Write(Seq<char>),
    Scan,
    And,
    Or,
    Xor,
    Not,
    Shl,
    Shr,
    Bool,
    Dump,
    Trace(bool),
}

impl View for Instruction {
    type V = Op;

    open spec fn view(&self) -> Op {
        match *self {
            Instruction::Push(value) => Op::Push(value),
            Instruction::Pop => Op::Pop,
            Instruction::Dup => Op::Dup,
            Instruction::Swap => Op::Swap,
            Instruction::Rot => Op::Rot,
            Instruction::Clear => Op::Clear,
            Instruction::Add => Op::Add,
            Instruction::Sub => Op::Sub,
            Instruction::Mul => Op::Mul,
            Instruction::Div => Op::Div,
            Instruction::Rem => Op::Rem,
            Instruction::Neg => Op::Neg,
            Instruction::Inc => Op::Inc,
            Instruction::Dec => Op::Dec,
            Instruction::Eq => Op::Eq,
            Instruction::Ne => Op::Ne,
            Instruction::Le => Op::Le,
            Instruction::Ge => Op::Ge,
            Instruction::Lt => Op::Lt,
            Instruction::Gt => Op::Gt,
            Instruction::Call(name) => Op::Call(name@),
            Instruction::Ret => Op::Ret,
            Instruction::Retv(value) => Op::Retv(value),
            Instruction::Jump(name) => Op::Jump(name@),
            Instruction::Brt(name) => Op::Brt(name@),
            Instruction::Brz(name) => Op::Brz(name@),
            Instruction::Label(name) => Op::Label(name@),
            Instruction::Halt => Op::Halt,
            Instruction::Load(address) => Op::Load(address),
            Instruction::Store(address) => Op::Store(address),
            Instruction::Alloc(size) => Op::Alloc(size),
            Instruction::Free(address) => Op::Free(address),
            Instruction::Print => Op::Print,
            Instruction::Read => Op::Read,
            Instruction::Write(message) => Op::Write(message@),
            Instruction::Scan => Op::Scan,
            Instruction::And => Op::And,
            Instruction::Or => Op::Or,
            Instruction::Xor => Op::Xor,
            Instruction::Not => Op::Not,
            Instruction::Shl => Op::Shl,
            Instruction::Shr => Op::Shr,
            Instruction::Bool => Op::Bool,
            Instruction::Dump => Op::Dump,
            Instruction::Trace(on) => Op::Trace(on),
        }
    }
}

impl Op {
    /// The two-operand operation that the instruction stands for, if it is one.
    pub open spec fn binary(self) -> Option<BinaryOp> {
        match self {
            Op::Add => Some(BinaryOp::Add),
            Op::Sub => Some(BinaryOp::Sub),
            Op::Mul => Some(BinaryOp::Mul),
            Op::Div => Some(BinaryOp::Div),
            Op::Rem => Some(BinaryOp::Rem),
            Op::Eq => Some(BinaryOp::Eq),
            Op::Ne => Some(BinaryOp::Ne),
            Op::Le => Some(BinaryOp::Le),
            Op::Ge => Some(BinaryOp::Ge),
            Op::Lt => Some(BinaryOp::Lt),
            Op::Gt => Some(BinaryOp::Gt),
            Op::And => Some(BinaryOp::And),
            Op::Or => Some(BinaryOp::Or),
            Op::Xor => Some(BinaryOp::Xor),
            Op::Shl => Some(BinaryOp::Shl),
            Op::Shr => Some(BinaryOp::Shr),
            _ => None,
        }
    }

    /// The one-operand operation that the instruction stands for, if it is one.
    pub open spec fn unary(self) -> Option<UnaryOp> {
        match self {
            Op::Neg => Some(UnaryOp::Neg),
            Op::Inc => Some(UnaryOp::Inc),
            Op::Dec => Some(UnaryOp::Dec),
            Op::Not => Some(UnaryOp::Not),
            Op::Bool => Some(UnaryOp::Bool),
            _ => None,
        }
    }
}

impl Instruction {
    /// The two-operand operation that the instruction stands for, if it is one.
    pub fn binary(&self) -> (r: Option<BinaryOp>)
        ensures
            r == self@.binary(),
    {
        match self {
            Instruction::Add => Some(BinaryOp::Add),
            Instruction::Sub => Some(BinaryOp::Sub),
            Instruction::Mul => Some(BinaryOp::Mul),
            Instruction::Div => Some(BinaryOp::Div),
            Instruction::Rem => Some(BinaryOp::Rem),
            Instruction::Eq => Some(BinaryOp::Eq),
            Instruction::Ne => Some(BinaryOp::Ne),
            Instruction::Le => Some(BinaryOp::Le),
            Instruction::Ge => Some(BinaryOp::Ge),
            Instruction::Lt => Some(BinaryOp::Lt),
            Instruction::Gt => Some(BinaryOp::Gt),
            Instruction::And => Some(BinaryOp::And),
            Instruction::Or => Some(BinaryOp::Or),
            Instruction::Xor => Some(BinaryOp::Xor),
            Instruction::Shl => Some(BinaryOp::Shl),
            Instruction::Shr => Some(BinaryOp::Shr),
            _ => None,
        }
    }

    /// The one-operand operation that the instruction stands for, if it is one.
    pub fn unary(&self) -> (r: Option<UnaryOp>)
        ensures
            r == self@.unary(),
    {
        match self {
            Instruction::Neg => Some(UnaryOp::Neg),
            Instruction::Inc => Some(UnaryOp::Inc),
            Instruction::Dec => Some(UnaryOp::Dec),
            Instruction::Not => Some(UnaryOp::Not),
            Instruction::Bool => Some(UnaryOp::Bool),
            _ => None,
        }
    }
}

/// A program as the semantics sees it.
pub open spec fn ops(code: Seq<Instruction>) -> Seq<Op> {
    code.map_values(|i: Instruction| i@)
}

} // verus!
