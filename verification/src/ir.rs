use vstd::prelude::*;

verus! {

/// One low-level operation of the compiled output.
///
/// This is the instruction subset that compiled assertion checks need. Numeric
/// constants carry raw bit patterns (`u32` / `u64`); in particular an `i32.const`
/// carries the two's-complement bits of its value, and a float constant carries
/// the IEEE 754 bits, so that expected-value comparisons are bit-exact and no
/// floating-point arithmetic appears anywhere in the compiler.
#[derive(Debug, PartialEq, Eq)]
pub enum Instruction {
    /// Push a 32-bit integer constant (given as its bit pattern).
    I32Const(u32),
    /// Push a 64-bit integer constant (given as its bit pattern).
    I64Const(u64),
    /// Push a 32-bit float constant (given as its IEEE 754 bits).
    F32Const(u32),
    /// Push a 64-bit float constant (given as its IEEE 754 bits).
    F64Const(u64),
    /// Call the exported function of the given name.
    Call(String),
    /// Read the exported global of the given name.
    GlobalGet(String),
    /// Pop two 32-bit integers, push 1 if they are equal, else 0.
    I32Eq,
    /// Pop two 64-bit integers, push 1 (as a 32-bit integer) if equal, else 0.
    I64Eq,
    /// Pop two 32-bit integers, push their bitwise and.
    I32And,
    /// Pop two 64-bit integers, push their bitwise and.
    I64And,
    /// Pop two 32-bit integers, push 1 if the lower is greater (unsigned), else 0.
    I32GtU,
    /// Pop two 64-bit integers, push 1 (as a 32-bit integer) if the lower is
    /// greater (unsigned), else 0.
    I64GtU,
    /// Pop a 32-bit float, push its bits as a 32-bit integer.
    I32ReinterpretF32,
    /// Pop a 64-bit float, push its bits as a 64-bit integer.
    I64ReinterpretF64,
    /// Begin a conditional block: pop a 32-bit integer, run the block up to
    /// `Else` if it is nonzero, else the block between `Else` and `End`.
    If,
    /// Separate the two arms of a conditional block.
    Else,
    /// End a conditional block.
    End,
    /// Trap unconditionally.
    Unreachable,
}

/// The instruction tail appended after every compiled assertion check: the
/// check leaves a single 32-bit boolean on the stack, and this conditional
/// traps exactly when that boolean is 0.
pub open spec fn trap_on_zero_code() -> Seq<Instruction> {
    seq![Instruction::If, Instruction::Else, Instruction::Unreachable, Instruction::End]
}

/// Executable counterpart of [`trap_on_zero_code`].
pub fn trap_on_zero() -> (r: Vec<Instruction>)
    ensures
        r@ == trap_on_zero_code(),
{
    let r: Vec<Instruction> = vec![
        Instruction::If,
        Instruction::Else,
        Instruction::Unreachable,
        Instruction::End,
    ];
    proof {
        assert(r@ =~= trap_on_zero_code());
    }
    r
}

} // verus!
