use vstd::prelude::*;

use crate::error::ErrorKind;
use crate::ir::Instruction;

verus! {

/// A concrete value handed to an invocation as an argument. Numeric payloads
/// are raw bit patterns (see [`Instruction`]). Vector and reference arguments
/// are distinct variants from day one, but the encoder does not model their
/// domains yet and reports them as unsupported.
#[derive(Debug, Clone, Copy, PartialEq, Eq)]
pub enum ArgValue {
    /// A 32-bit integer, as its two's-complement bit pattern.
    I32(u32),
    /// A 64-bit integer, as its two's-complement bit pattern.
    I64(u64),
    /// A 32-bit float, as its IEEE 754 bits.
    F32(u32),
    /// A 64-bit float, as its IEEE 754 bits.
    F64(u64),
    /// A 128-bit vector argument (not modeled yet).
    V128,
    /// A null reference argument (not modeled yet).
    RefNull,
    /// A non-null external reference argument (not modeled yet).
    RefExtern,
    /// A host reference argument (not modeled yet).
    RefHost,
    /// An argument from a domain outside the core value model.
    Other,
}

/// An expected 32-bit float result: one exact bit pattern, or a class of
/// not-a-number bit patterns.
#[derive(Debug, Clone, Copy, PartialEq, Eq)]
pub enum F32Pattern {
    /// Exactly these IEEE 754 bits.
    Value(u32),
    /// Exactly the canonical NaN bit pattern.
    CanonicalNan,
    /// Any bit pattern whose exponent field is all ones and whose mantissa is
    /// nonzero, regardless of the sign bit.
    ArithmeticNan,
}

/// An expected 64-bit float result; see [`F32Pattern`].
#[derive(Debug, Clone, Copy, PartialEq, Eq)]
pub enum F64Pattern {
    Value(u64),
    CanonicalNan,
    ArithmeticNan,
}

/// An expected result of an assertion. Unlike an argument this may be a
/// pattern denoting a set of acceptable values, so the two domains are kept
/// as separate types. Vector, reference and alternative ("either of these
/// values") patterns are distinct variants, reported as unsupported by the
/// encoder until their domains are modeled.
#[derive(Debug, Clone, Copy, PartialEq, Eq)]
pub enum ExpectedValue {
    /// A 32-bit integer, as its two's-complement bit pattern.
    I32(u32),
    /// A 64-bit integer, as its two's-complement bit pattern.
    I64(u64),
    /// A 32-bit float pattern.
    F32(F32Pattern),
    /// A 64-bit float pattern.
    F64(F64Pattern),
    /// A 128-bit vector pattern (not modeled yet).
    V128,
    /// A null reference (not modeled yet).
    RefNull,
    /// A non-null external reference (not modeled yet).
    RefExtern,
    /// A host reference (not modeled yet).
    RefHost,
    /// A non-null function reference (not modeled yet).
    RefFunc,
    /// An abstract reference-type pattern, e.g. "any non-null eqref"
    /// (not modeled yet).
    RefAbstract,
    /// One of several alternative values would be accepted. Deliberately left
    /// unsupported rather than given a guessed semantics: a future extension
    /// must choose one (e.g. a logical or over per-alternative checks).
    Either,
    /// A pattern from a domain outside the core value model.
    Other,
}

/// The canonical NaN bit pattern for 32-bit floats: sign 0, exponent all ones,
/// mantissa with only its most significant bit set.
pub const F32_CANONICAL_NAN: u32 = 0x7fc0_0000;

/// The canonical NaN bit pattern for 64-bit floats.
pub const F64_CANONICAL_NAN: u64 = 0x7ff8_0000_0000_0000;

/// Mask clearing the sign bit of a 32-bit float.
pub const F32_ABS_MASK: u32 = 0x7fff_ffff;

/// Mask clearing the sign bit of a 64-bit float.
pub const F64_ABS_MASK: u64 = 0x7fff_ffff_ffff_ffff;

/// The bit pattern of positive infinity for 32-bit floats: a pattern is a NaN
/// exactly when its sign-cleared bits exceed this.
pub const F32_INF: u32 = 0x7f80_0000;

/// The bit pattern of positive infinity for 64-bit floats.
pub const F64_INF: u64 = 0x7ff0_0000_0000_0000;

/// What [`encode_arg`] returns: the single constant-push instruction for a
/// scalar numeric argument, and `UnsupportedValueKind` for every argument
/// domain the encoder does not model yet.
pub open spec fn arg_code_spec(a: ArgValue) -> Result<Instruction, ErrorKind> {
    match a {
        ArgValue::I32(bits) => Ok(Instruction::I32Const(bits)),
        ArgValue::I64(bits) => Ok(Instruction::I64Const(bits)),
        ArgValue::F32(bits) => Ok(Instruction::F32Const(bits)),
        ArgValue::F64(bits) => Ok(Instruction::F64Const(bits)),
        _ => Err(ErrorKind::UnsupportedValueKind),
    }
}

/// True when the argument is a scalar numeric value, the domain the encoder
/// models.
pub open spec fn arg_scalar(a: ArgValue) -> bool {
    arg_code_spec(a) is Ok
}

/// What [`encode_expected_single`] returns: `Ok(Some(c))` when the pattern
/// denotes exactly the one value pushed by the constant `c`, `Ok(None)` when
/// it denotes a set of values so that the assertion compiler must emit
/// pattern-matching instructions instead, and `UnsupportedValueKind` for
/// domains not modeled yet.
pub open spec fn expected_single_spec(e: ExpectedValue) -> Result<
    Option<Instruction>,
    ErrorKind,
> {
    match e {
        ExpectedValue::I32(bits) => Ok(Some(Instruction::I32Const(bits))),
        ExpectedValue::I64(bits) => Ok(Some(Instruction::I64Const(bits))),
        ExpectedValue::F32(p) => match p {
            F32Pattern::Value(bits) => Ok(Some(Instruction::F32Const(bits))),
            _ => Ok(None),
        },
        ExpectedValue::F64(p) => match p {
            F64Pattern::Value(bits) => Ok(Some(Instruction::F64Const(bits))),
            _ => Ok(None),
        },
        _ => Err(ErrorKind::UnsupportedValueKind),
    }
}

/// What [`compile_expected_check`] returns: the instruction sequence that,
/// run with the invocation's actual result on top of the stack, replaces it
/// with a 32-bit boolean saying whether the result satisfies the expected
/// pattern. Exact numeric patterns compare bit for bit (floats through a
/// reinterpret); a canonical NaN accepts only the canonical bit pattern; an
/// arithmetic NaN accepts any pattern whose sign-cleared bits exceed those of
/// infinity, i.e. exponent all ones and mantissa nonzero, whatever the sign.
pub open spec fn check_code_spec(e: ExpectedValue) -> Result<Seq<Instruction>, ErrorKind> {
    match e {
        ExpectedValue::I32(bits) => Ok(
            seq![Instruction::I32Const(bits), Instruction::I32Eq],
        ),
        ExpectedValue::I64(bits) => Ok(
            seq![Instruction::I64Const(bits), Instruction::I64Eq],
        ),
        ExpectedValue::F32(p) => {
            let reinterpreted = seq![Instruction::I32ReinterpretF32];
            match p {
                F32Pattern::Value(bits) => Ok(
                    reinterpreted + seq![Instruction::I32Const(bits), Instruction::I32Eq],
                ),
                F32Pattern::CanonicalNan => Ok(
                    reinterpreted + seq![
                        Instruction::I32Const(F32_CANONICAL_NAN),
                        Instruction::I32Eq,
                    ],
                ),
                F32Pattern::ArithmeticNan => Ok(
                    reinterpreted + seq![
                        Instruction::I32Const(F32_ABS_MASK),
                        Instruction::I32And,
                        Instruction::I32Const(F32_INF),
                        Instruction::I32GtU,
                    ],
                ),
            }
        },
        ExpectedValue::F64(p) => {
            let reinterpreted = seq![Instruction::I64ReinterpretF64];
            match p {
                F64Pattern::Value(bits) => Ok(
                    reinterpreted + seq![Instruction::I64Const(bits), Instruction::I64Eq],
                ),
                F64Pattern::CanonicalNan => Ok(
                    reinterpreted + seq![
                        Instruction::I64Const(F64_CANONICAL_NAN),
                        Instruction::I64Eq,
                    ],
                ),
                F64Pattern::ArithmeticNan => Ok(
                    reinterpreted + seq![
                        Instruction::I64Const(F64_ABS_MASK),
                        Instruction::I64And,
                        Instruction::I64Const(F64_INF),
                        Instruction::I64GtU,
                    ],
                ),
            }
        },
        _ => Err(ErrorKind::UnsupportedValueKind),
    }
}

/// True when the expected pattern lies in a domain the check compiler models.
pub open spec fn expected_supported(e: ExpectedValue) -> bool {
    check_code_spec(e) is Ok
}

/// Encodes an argument value as the one instruction that pushes it.
pub fn encode_arg(a: &ArgValue) -> (r: Result<Instruction, ErrorKind>)
    ensures
        r == arg_code_spec(*a),
{
    match a {
        ArgValue::I32(bits) => Ok(Instruction::I32Const(*bits)),
        ArgValue::I64(bits) => Ok(Instruction::I64Const(*bits)),
        ArgValue::F32(bits) => Ok(Instruction::F32Const(*bits)),
        ArgValue::F64(bits) => Ok(Instruction::F64Const(*bits)),
        _ => Err(ErrorKind::UnsupportedValueKind),
    }
}

/// Encodes an expected pattern as a single constant push when the pattern
/// denotes exactly one value; answers `Ok(None)` when it denotes a set, so
/// that the caller emits pattern-matching instructions instead of silently
/// picking a representative.
pub fn encode_expected_single(e: &ExpectedValue) -> (r: Result<Option<Instruction>, ErrorKind>)
    ensures
        r == expected_single_spec(*e),
{
    match e {
        ExpectedValue::I32(bits) => Ok(Some(Instruction::I32Const(*bits))),
        ExpectedValue::I64(bits) => Ok(Some(Instruction::I64Const(*bits))),
        ExpectedValue::F32(p) => match p {
            F32Pattern::Value(bits) => Ok(Some(Instruction::F32Const(*bits))),
            _ => Ok(None),
        },
        ExpectedValue::F64(p) => match p {
            F64Pattern::Value(bits) => Ok(Some(Instruction::F64Const(*bits))),
            _ => Ok(None),
        },
        _ => Err(ErrorKind::UnsupportedValueKind),
    }
}

/// Compiles an expected pattern into the check sequence described by
/// [`check_code_spec`].
pub fn compile_expected_check(e: &ExpectedValue) -> (r: Result<Vec<Instruction>, ErrorKind>)
    ensures
        match r {
            Ok(code) => check_code_spec(*e) == Ok::<Seq<Instruction>, ErrorKind>(code@),
            Err(k) => check_code_spec(*e) == Err::<Seq<Instruction>, ErrorKind>(k),
        },
{
    match e {
        ExpectedValue::I32(bits) => {
            let code: Vec<Instruction> = vec![Instruction::I32Const(*bits), Instruction::I32Eq];
            proof {
                assert(code@ =~= check_code_spec(*e)->Ok_0);
            }
            Ok(code)
        },
        ExpectedValue::I64(bits) => {
            let code: Vec<Instruction> = vec![Instruction::I64Const(*bits), Instruction::I64Eq];
            proof {
                assert(code@ =~= check_code_spec(*e)->Ok_0);
            }
            Ok(code)
        },
        ExpectedValue::F32(p) => {
            let code: Vec<Instruction> = match p {
                F32Pattern::Value(bits) => vec![
                    Instruction::I32ReinterpretF32,
                    Instruction::I32Const(*bits),
                    Instruction::I32Eq,
                ],
                F32Pattern::CanonicalNan => vec![
                    Instruction::I32ReinterpretF32,
                    Instruction::I32Const(F32_CANONICAL_NAN),
                    Instruction::I32Eq,
                ],
                F32Pattern::ArithmeticNan => vec![
                    Instruction::I32ReinterpretF32,
                    Instruction::I32Const(F32_ABS_MASK),
                    Instruction::I32And,
                    Instruction::I32Const(F32_INF),
                    Instruction::I32GtU,
                ],
            };
            proof {
                assert(code@ =~= check_code_spec(*e)->Ok_0);
            }
            Ok(code)
        },
        ExpectedValue::F64(p) => {
            let code: Vec<Instruction> = match p {
                F64Pattern::Value(bits) => vec![
                    Instruction::I64ReinterpretF64,
                    Instruction::I64Const(*bits),
                    Instruction::I64Eq,
                ],
                F64Pattern::CanonicalNan => vec![
                    Instruction::I64ReinterpretF64,
                    Instruction::I64Const(F64_CANONICAL_NAN),
                    Instruction::I64Eq,
                ],
                F64Pattern::ArithmeticNan => vec![
                    Instruction::I64ReinterpretF64,
                    Instruction::I64Const(F64_ABS_MASK),
                    Instruction::I64And,
                    Instruction::I64Const(F64_INF),
                    Instruction::I64GtU,
                ],
            };
            proof {
                assert(code@ =~= check_code_spec(*e)->Ok_0);
            }
            Ok(code)
        },
        _ => Err(ErrorKind::UnsupportedValueKind),
    }
}

} // verus!
