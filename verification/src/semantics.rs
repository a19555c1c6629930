use vstd::prelude::*;

use crate::ir::Instruction;
use crate::value::{
    ExpectedValue, F32Pattern, F64Pattern, F32_ABS_MASK, F32_CANONICAL_NAN, F32_INF, F64_ABS_MASK,
    F64_CANONICAL_NAN, F64_INF,
};

verus! {

/// A runtime value on the evaluation stack, as raw bits: the reference
/// semantics against which the compiled checks are proved.
#[derive(Debug, Clone, Copy, PartialEq, Eq, Structural)]
pub enum RtVal {
    I32(u32),
    I64(u64),
    F32(u32),
    F64(u64),
}

/// The host a compiled script would run against, for the purposes of the
/// semantics: which exported functions exist (with their arities and what
/// they return on given arguments) and what the exported globals hold.
pub struct RunEnv {
    pub arities: Map<Seq<char>, nat>,
    pub funcs: Map<(Seq<char>, Seq<RtVal>), RtVal>,
    pub globals: Map<Seq<char>, RtVal>,
}

/// How running an instruction sequence ends: a final stack, a trap, or a
/// stuck state (an ill-typed stack, an unknown name, or control flow outside
/// the single shape the compiler emits).
pub enum Outcome {
    Done(Seq<RtVal>),
    Trap,
    Stuck,
}

/// 1 for true, 0 for false: the bit a comparison pushes.
pub open spec fn bool_bit(b: bool) -> u32 {
    if b {
        1
    } else {
        0
    }
}

/// Runs an instruction sequence on a stack. Straight-line instructions have
/// their WebAssembly meaning on bit patterns. Control flow is recognized in
/// exactly the shape the assertion compiler emits — `If Else Unreachable End`,
/// the conditional that traps on 0 — so any other use of control flow is
/// `Stuck`, never misread.
pub open spec fn eval(code: Seq<Instruction>, stack: Seq<RtVal>, env: RunEnv) -> Outcome
    decreases code.len(),
{
    if code.len() == 0 {
        Outcome::Done(stack)
    } else {
        match code[0] {
            Instruction::I32Const(bits) => eval(code.skip(1), stack.push(RtVal::I32(bits)), env),
            Instruction::I64Const(bits) => eval(code.skip(1), stack.push(RtVal::I64(bits)), env),
            Instruction::F32Const(bits) => eval(code.skip(1), stack.push(RtVal::F32(bits)), env),
            Instruction::F64Const(bits) => eval(code.skip(1), stack.push(RtVal::F64(bits)), env),
            Instruction::Call(name) => {
                if !env.arities.dom().contains(name@) {
                    Outcome::Stuck
                } else {
                    let k = env.arities[name@] as int;
                    if stack.len() < k {
                        Outcome::Stuck
                    } else {
                        let callargs = stack.subrange(stack.len() - k, stack.len() as int);
                        let rest = stack.subrange(0, stack.len() - k);
                        if !env.funcs.dom().contains((name@, callargs)) {
                            Outcome::Stuck
                        } else {
                            eval(code.skip(1), rest.push(env.funcs[(name@, callargs)]), env)
                        }
                    }
                }
            },
            Instruction::GlobalGet(name) => {
                if env.globals.dom().contains(name@) {
                    eval(code.skip(1), stack.push(env.globals[name@]), env)
                } else {
                    Outcome::Stuck
                }
            },
            Instruction::I32Eq => match pop2(stack) {
                Some((rest, RtVal::I32(a), RtVal::I32(b))) => eval(
                    code.skip(1),
                    rest.push(RtVal::I32(bool_bit(a == b))),
                    env,
                ),
                _ => Outcome::Stuck,
            },
            Instruction::I64Eq => match pop2(stack) {
                Some((rest, RtVal::I64(a), RtVal::I64(b))) => eval(
                    code.skip(1),
                    rest.push(RtVal::I32(bool_bit(a == b))),
                    env,
                ),
                _ => Outcome::Stuck,
            },
            Instruction::I32And => match pop2(stack) {
                Some((rest, RtVal::I32(a), RtVal::I32(b))) => eval(
                    code.skip(1),
                    rest.push(RtVal::I32(a & b)),
                    env,
                ),
                _ => Outcome::Stuck,
            },
            Instruction::I64And => match pop2(stack) {
                Some((rest, RtVal::I64(a), RtVal::I64(b))) => eval(
                    code.skip(1),
                    rest.push(RtVal::I64(a & b)),
                    env,
                ),
                _ => Outcome::Stuck,
            },
            Instruction::I32GtU => match pop2(stack) {
                Some((rest, RtVal::I32(a), RtVal::I32(b))) => eval(
                    code.skip(1),
                    rest.push(RtVal::I32(bool_bit(a > b))),
                    env,
                ),
                _ => Outcome::Stuck,
            },
            Instruction::I64GtU => match pop2(stack) {
                Some((rest, RtVal::I64(a), RtVal::I64(b))) => eval(
                    code.skip(1),
                    rest.push(RtVal::I32(bool_bit(a > b))),
                    env,
                ),
                _ => Outcome::Stuck,
            },
            Instruction::I32ReinterpretF32 => {
                if stack.len() >= 1 {
                    match stack.last() {
                        RtVal::F32(bits) => eval(
                            code.skip(1),
                            stack.drop_last().push(RtVal::I32(bits)),
                            env,
                        ),
                        _ => Outcome::Stuck,
                    }
                } else {
                    Outcome::Stuck
                }
            },
            Instruction::I64ReinterpretF64 => {
                if stack.len() >= 1 {
                    match stack.last() {
                        RtVal::F64(bits) => eval(
                            code.skip(1),
                            stack.drop_last().push(RtVal::I64(bits)),
                            env,
                        ),
                        _ => Outcome::Stuck,
                    }
                } else {
                    Outcome::Stuck
                }
            },
            Instruction::If => {
                if code.len() >= 4 && code[1] == Instruction::Else && code[2]
                    == Instruction::Unreachable && code[3] == Instruction::End {
                    if stack.len() >= 1 {
                        match stack.last() {
                            RtVal::I32(c) => {
                                if c == 0 {
                                    Outcome::Trap
                                } else {
                                    eval(code.skip(4), stack.drop_last(), env)
                                }
                            },
                            _ => Outcome::Stuck,
                        }
                    } else {
                        Outcome::Stuck
                    }
                } else {
                    Outcome::Stuck
                }
            },
            Instruction::Unreachable => Outcome::Trap,
            Instruction::Else => Outcome::Stuck,
            Instruction::End => Outcome::Stuck,
        }
    }
}

/// The top two stack values (the deeper one first) and the stack below them.
pub open spec fn pop2(stack: Seq<RtVal>) -> Option<(Seq<RtVal>, RtVal, RtVal)> {
    if stack.len() >= 2 {
        Some(
            (
                stack.subrange(0, stack.len() - 2),
                stack[stack.len() - 2],
                stack[stack.len() - 1],
            ),
        )
    } else {
        None
    }
}

/// Whether a runtime value lies in the one WebAssembly value type an expected
/// pattern speaks about.
pub open spec fn ty_agrees(e: ExpectedValue, v: RtVal) -> bool {
    match e {
        ExpectedValue::I32(_) => v is I32,
        ExpectedValue::I64(_) => v is I64,
        ExpectedValue::F32(_) => v is F32,
        ExpectedValue::F64(_) => v is F64,
        _ => false,
    }
}

/// Whether a 32-bit float result satisfies an expected pattern: exact values
/// and the canonical NaN bit for bit; an arithmetic NaN whenever the
/// sign-cleared bits exceed infinity's, i.e. the exponent field is all ones
/// and the mantissa is nonzero, regardless of the sign bit.
pub open spec fn f32_pattern_holds(p: F32Pattern, bits: u32) -> bool {
    match p {
        F32Pattern::Value(want) => bits == want,
        F32Pattern::CanonicalNan => bits == F32_CANONICAL_NAN,
        F32Pattern::ArithmeticNan => (bits & F32_ABS_MASK) > F32_INF,
    }
}

/// See [`f32_pattern_holds`].
pub open spec fn f64_pattern_holds(p: F64Pattern, bits: u64) -> bool {
    match p {
        F64Pattern::Value(want) => bits == want,
        F64Pattern::CanonicalNan => bits == F64_CANONICAL_NAN,
        F64Pattern::ArithmeticNan => (bits & F64_ABS_MASK) > F64_INF,
    }
}

/// Whether a runtime value satisfies an expected pattern: the ground truth
/// that the compiled checks are proved to decide.
pub open spec fn pattern_holds(e: ExpectedValue, v: RtVal) -> bool {
    match (e, v) {
        (ExpectedValue::I32(want), RtVal::I32(got)) => got == want,
        (ExpectedValue::I64(want), RtVal::I64(got)) => got == want,
        (ExpectedValue::F32(p), RtVal::F32(got)) => f32_pattern_holds(p, got),
        (ExpectedValue::F64(p), RtVal::F64(got)) => f64_pattern_holds(p, got),
        _ => false,
    }
}

/// The runtime value a scalar argument pushes. Meaningful when the argument
/// is scalar (see [`crate::value::arg_scalar`]).
pub open spec fn arg_rt(a: crate::value::ArgValue) -> RtVal {
    match a {
        crate::value::ArgValue::I32(bits) => RtVal::I32(bits),
        crate::value::ArgValue::I64(bits) => RtVal::I64(bits),
        crate::value::ArgValue::F32(bits) => RtVal::F32(bits),
        crate::value::ArgValue::F64(bits) => RtVal::F64(bits),
        _ => RtVal::I32(0),
    }
}

/// The runtime values of the first `n` arguments, in source order.
pub open spec fn args_rt_upto(args: Seq<crate::value::ArgValue>, n: int) -> Seq<RtVal>
    decreases n,
{
    if n <= 0 {
        Seq::empty()
    } else {
        args_rt_upto(args, n - 1).push(arg_rt(args[n - 1]))
    }
}

/// The runtime values of all arguments, in source order.
pub open spec fn args_rt(args: Seq<crate::value::ArgValue>) -> Seq<RtVal> {
    args_rt_upto(args, args.len() as int)
}

/// Whether the host answers the given execution descriptor with the value
/// `v`: the function exists with the right arity and returns `v` on exactly
/// the descriptor's arguments, or the global exists and holds `v`.
pub open spec fn env_answers(env: RunEnv, x: crate::invoke::ExecuteDescriptor, v: RtVal) -> bool {
    match x {
        crate::invoke::ExecuteDescriptor::Invoke { module, name, args } => {
            &&& env.arities.dom().contains(name@)
            &&& env.arities[name@] == args@.len()
            &&& env.funcs.dom().contains((name@, args_rt(args@)))
            &&& env.funcs[(name@, args_rt(args@))] == v
        },
        crate::invoke::ExecuteDescriptor::GetGlobal { module, name } => {
            &&& env.globals.dom().contains(name@)
            &&& env.globals[name@] == v
        },
        crate::invoke::ExecuteDescriptor::Other => false,
    }
}

/// Running a concatenation runs the parts in order: if the first part
/// finishes with some stack, the whole continues as the second part from that
/// stack, and if the first part traps, the whole traps.
pub proof fn lemma_eval_append(a: Seq<Instruction>, b: Seq<Instruction>, stack: Seq<RtVal>, env: RunEnv)
    ensures
        (eval(a, stack, env) matches Outcome::Done(s) ==> eval(a + b, stack, env) == eval(
            b,
            s,
            env,
        )),
        eval(a, stack, env) is Trap ==> eval(a + b, stack, env) is Trap,
    decreases a.len(),
{
    if a.len() == 0 {
        assert(a + b =~= b);
    } else {
        let rest = a.skip(1);
        assert((a + b).skip(1) =~= rest + b);
        assert((a + b)[0] == a[0]);
        match a[0] {
            Instruction::I32Const(bits) => {
                lemma_eval_append(rest, b, stack.push(RtVal::I32(bits)), env);
            },
            Instruction::I64Const(bits) => {
                lemma_eval_append(rest, b, stack.push(RtVal::I64(bits)), env);
            },
            Instruction::F32Const(bits) => {
                lemma_eval_append(rest, b, stack.push(RtVal::F32(bits)), env);
            },
            Instruction::F64Const(bits) => {
                lemma_eval_append(rest, b, stack.push(RtVal::F64(bits)), env);
            },
            Instruction::Call(name) => {
                if env.arities.dom().contains(name@) {
                    let k = env.arities[name@] as int;
                    if stack.len() >= k {
                        let callargs = stack.subrange(stack.len() - k, stack.len() as int);
                        let below = stack.subrange(0, stack.len() - k);
                        if env.funcs.dom().contains((name@, callargs)) {
                            lemma_eval_append(
                                rest,
                                b,
                                below.push(env.funcs[(name@, callargs)]),
                                env,
                            );
                        }
                    }
                }
            },
            Instruction::GlobalGet(name) => {
                if env.globals.dom().contains(name@) {
                    lemma_eval_append(rest, b, stack.push(env.globals[name@]), env);
                }
            },
            Instruction::I32Eq => {
                if let Some((below, RtVal::I32(x), RtVal::I32(y))) = pop2(stack) {
                    lemma_eval_append(rest, b, below.push(RtVal::I32(bool_bit(x == y))), env);
                }
            },
            Instruction::I64Eq => {
                if let Some((below, RtVal::I64(x), RtVal::I64(y))) = pop2(stack) {
                    lemma_eval_append(rest, b, below.push(RtVal::I32(bool_bit(x == y))), env);
                }
            },
            Instruction::I32And => {
                if let Some((below, RtVal::I32(x), RtVal::I32(y))) = pop2(stack) {
                    lemma_eval_append(rest, b, below.push(RtVal::I32(x & y)), env);
                }
            },
            Instruction::I64And => {
                if let Some((below, RtVal::I64(x), RtVal::I64(y))) = pop2(stack) {
                    lemma_eval_append(rest, b, below.push(RtVal::I64(x & y)), env);
                }
            },
            Instruction::I32GtU => {
                if let Some((below, RtVal::I32(x), RtVal::I32(y))) = pop2(stack) {
                    lemma_eval_append(rest, b, below.push(RtVal::I32(bool_bit(x > y))), env);
                }
            },
            Instruction::I64GtU => {
                if let Some((below, RtVal::I64(x), RtVal::I64(y))) = pop2(stack) {
                    lemma_eval_append(rest, b, below.push(RtVal::I32(bool_bit(x > y))), env);
                }
            },
            Instruction::I32ReinterpretF32 => {
                if stack.len() >= 1 {
                    if let RtVal::F32(bits) = stack.last() {
                        lemma_eval_append(
                            rest,
                            b,
                            stack.drop_last().push(RtVal::I32(bits)),
                            env,
                        );
                    }
                }
            },
            Instruction::I64ReinterpretF64 => {
                if stack.len() >= 1 {
                    if let RtVal::F64(bits) = stack.last() {
                        lemma_eval_append(
                            rest,
                            b,
                            stack.drop_last().push(RtVal::I64(bits)),
                            env,
                        );
                    }
                }
            },
            Instruction::If => {
                if a.len() >= 4 && a[1] == Instruction::Else && a[2] == Instruction::Unreachable
                    && a[3] == Instruction::End {
                    assert((a + b)[1] == a[1]);
                    assert((a + b)[2] == a[2]);
                    assert((a + b)[3] == a[3]);
                    assert((a + b).skip(4) =~= a.skip(4) + b);
                    if stack.len() >= 1 {
                        if let RtVal::I32(c) = stack.last() {
                            if c != 0 {
                                lemma_eval_append(a.skip(4), b, stack.drop_last(), env);
                            }
                        }
                    }
                }
            },
            Instruction::Unreachable => {},
            Instruction::Else => {},
            Instruction::End => {},
        }
    }
}

} // verus!
