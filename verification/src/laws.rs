use vstd::prelude::*;

use crate::directive::{assertion_code_spec, Directive};
use crate::error::SourcePos;
use crate::invoke::{args_code, args_code_upto, invoke_code_spec, ExecuteDescriptor};
use crate::ir::{trap_on_zero_code, Instruction};
use crate::module::ModuleInfo;
use crate::semantics::{
    arg_rt, args_rt, args_rt_upto, bool_bit, env_answers, eval, lemma_eval_append, pattern_holds,
    ty_agrees, Outcome, RtVal, RunEnv,
};
use crate::value::{
    arg_code_spec, arg_scalar, check_code_spec, expected_supported, ArgValue, ExpectedValue,
    F32Pattern, F64Pattern,
};

verus! {

/// Running nothing changes nothing.
proof fn lemma_eval_empty(stack: Seq<RtVal>, env: RunEnv)
    ensures
        eval(Seq::<Instruction>::empty(), stack, env) == Outcome::Done(stack),
{
}

/// Running the constant pushes of `n` scalar arguments leaves exactly their
/// runtime values on the stack, in source order.
proof fn lemma_eval_consts(args: Seq<ArgValue>, n: int, stack: Seq<RtVal>, env: RunEnv)
    requires
        0 <= n <= args.len(),
        forall|i: int| 0 <= i < n ==> arg_scalar(#[trigger] args[i]),
    ensures
        eval(args_code_upto(args, n), stack, env) == Outcome::Done(stack + args_rt_upto(args, n)),
    decreases n,
{
    if n == 0 {
        assert(args_code_upto(args, 0) =~= Seq::<Instruction>::empty());
        assert(stack + args_rt_upto(args, 0) =~= stack);
    } else {
        lemma_eval_consts(args, n - 1, stack, env);
        let code1 = args_code_upto(args, n - 1);
        let c = arg_code_spec(args[n - 1])->Ok_0;
        let s1 = stack + args_rt_upto(args, n - 1);
        lemma_eval_append(code1, seq![c], stack, env);
        assert(seq![c].skip(1) =~= Seq::<Instruction>::empty());
        let s2 = s1.push(arg_rt(args[n - 1]));
        match args[n - 1] {
            ArgValue::I32(bits) => {
                assert(c == Instruction::I32Const(bits));
                assert(eval(seq![c], s1, env) == eval(
                    seq![c].skip(1),
                    s1.push(RtVal::I32(bits)),
                    env,
                ));
                lemma_eval_empty(s2, env);
                assert(eval(seq![c], s1, env) == Outcome::Done(s2));
            },
            ArgValue::I64(bits) => {
                assert(c == Instruction::I64Const(bits));
                assert(eval(seq![c], s1, env) == eval(
                    seq![c].skip(1),
                    s1.push(RtVal::I64(bits)),
                    env,
                ));
                lemma_eval_empty(s2, env);
                assert(eval(seq![c], s1, env) == Outcome::Done(s2));
            },
            ArgValue::F32(bits) => {
                assert(c == Instruction::F32Const(bits));
                assert(eval(seq![c], s1, env) == eval(
                    seq![c].skip(1),
                    s1.push(RtVal::F32(bits)),
                    env,
                ));
                lemma_eval_empty(s2, env);
                assert(eval(seq![c], s1, env) == Outcome::Done(s2));
            },
            ArgValue::F64(bits) => {
                assert(c == Instruction::F64Const(bits));
                assert(eval(seq![c], s1, env) == eval(
                    seq![c].skip(1),
                    s1.push(RtVal::F64(bits)),
                    env,
                ));
                lemma_eval_empty(s2, env);
                assert(eval(seq![c], s1, env) == Outcome::Done(s2));
            },
            _ => {
                assert(false);
            },
        }
        assert(args_code_upto(args, n) =~= code1 + seq![c]);
        assert(s2 =~= stack + args_rt_upto(args, n));
    }
}

/// Running `I32Const want; I32Eq` on a stack topped by the 32-bit value `got`
/// pushes the comparison bit in its place.
proof fn lemma_eval_eq32_tail(got: u32, want: u32, stack: Seq<RtVal>, env: RunEnv)
    ensures
        eval(
            seq![Instruction::I32Const(want), Instruction::I32Eq],
            stack.push(RtVal::I32(got)),
            env,
        ) == Outcome::Done(stack.push(RtVal::I32(bool_bit(got == want)))),
{
    let code = seq![Instruction::I32Const(want), Instruction::I32Eq];
    let s0 = stack.push(RtVal::I32(got));
    let s1 = s0.push(RtVal::I32(want));
    assert(code.skip(1) =~= seq![Instruction::I32Eq]);
    assert(eval(code, s0, env) == eval(seq![Instruction::I32Eq], s1, env));
    assert(s1.subrange(0, s1.len() - 2) =~= stack);
    assert(s1[s1.len() - 2] == RtVal::I32(got));
    assert(s1[s1.len() - 1] == RtVal::I32(want));
    assert(seq![Instruction::I32Eq].skip(1) =~= Seq::<Instruction>::empty());
    assert(eval(seq![Instruction::I32Eq], s1, env) == eval(
        seq![Instruction::I32Eq].skip(1),
        stack.push(RtVal::I32(bool_bit(got == want))),
        env,
    ));
    lemma_eval_empty(stack.push(RtVal::I32(bool_bit(got == want))), env);
    assert(eval(seq![Instruction::I32Eq], s1, env) == Outcome::Done(
        stack.push(RtVal::I32(bool_bit(got == want))),
    ));
}

/// See [`lemma_eval_eq32_tail`]; the 64-bit form.
proof fn lemma_eval_eq64_tail(got: u64, want: u64, stack: Seq<RtVal>, env: RunEnv)
    ensures
        eval(
            seq![Instruction::I64Const(want), Instruction::I64Eq],
            stack.push(RtVal::I64(got)),
            env,
        ) == Outcome::Done(stack.push(RtVal::I32(bool_bit(got == want)))),
{
    let code = seq![Instruction::I64Const(want), Instruction::I64Eq];
    let s0 = stack.push(RtVal::I64(got));
    let s1 = s0.push(RtVal::I64(want));
    assert(code.skip(1) =~= seq![Instruction::I64Eq]);
    assert(eval(code, s0, env) == eval(seq![Instruction::I64Eq], s1, env));
    assert(s1.subrange(0, s1.len() - 2) =~= stack);
    assert(s1[s1.len() - 2] == RtVal::I64(got));
    assert(s1[s1.len() - 1] == RtVal::I64(want));
    assert(seq![Instruction::I64Eq].skip(1) =~= Seq::<Instruction>::empty());
    assert(eval(seq![Instruction::I64Eq], s1, env) == eval(
        seq![Instruction::I64Eq].skip(1),
        stack.push(RtVal::I32(bool_bit(got == want))),
        env,
    ));
    lemma_eval_empty(stack.push(RtVal::I32(bool_bit(got == want))), env);
    assert(eval(seq![Instruction::I64Eq], s1, env) == Outcome::Done(
        stack.push(RtVal::I32(bool_bit(got == want))),
    ));
}

/// Running a compiled expected-value check on a stack holding the invocation
/// result replaces the result with one bit: whether the result satisfies the
/// pattern.
proof fn lemma_eval_check(e: ExpectedValue, v: RtVal, stack: Seq<RtVal>, env: RunEnv)
    requires
        expected_supported(e),
        ty_agrees(e, v),
    ensures
        eval(check_code_spec(e)->Ok_0, stack.push(v), env) == Outcome::Done(
            stack.push(RtVal::I32(bool_bit(pattern_holds(e, v)))),
        ),
{
    let code = check_code_spec(e)->Ok_0;
    let s0 = stack.push(v);
    match e {
        ExpectedValue::I32(want) => {
            let got = v->I32_0;
            assert(code =~= seq![Instruction::I32Const(want), Instruction::I32Eq]);
            lemma_eval_eq32_tail(got, want, stack, env);
        },
        ExpectedValue::I64(want) => {
            let got = v->I64_0;
            assert(code =~= seq![Instruction::I64Const(want), Instruction::I64Eq]);
            lemma_eval_eq64_tail(got, want, stack, env);
        },
        ExpectedValue::F32(p) => {
            let got = v->F32_0;
            let reinterpreted = stack.push(RtVal::I32(got));
            assert(s0.drop_last() =~= stack);
            match p {
                F32Pattern::Value(want) => {
                    let tail = seq![Instruction::I32Const(want), Instruction::I32Eq];
                    assert(code =~= seq![Instruction::I32ReinterpretF32] + tail);
                    assert(code.skip(1) =~= tail);
                    assert(eval(code, s0, env) == eval(tail, reinterpreted, env));
                    lemma_eval_eq32_tail(got, want, stack, env);
                },
                F32Pattern::CanonicalNan => {
                    let want = crate::value::F32_CANONICAL_NAN;
                    let tail = seq![Instruction::I32Const(want), Instruction::I32Eq];
                    assert(code =~= seq![Instruction::I32ReinterpretF32] + tail);
                    assert(code.skip(1) =~= tail);
                    assert(eval(code, s0, env) == eval(tail, reinterpreted, env));
                    lemma_eval_eq32_tail(got, want, stack, env);
                },
                F32Pattern::ArithmeticNan => {
                    let mask = crate::value::F32_ABS_MASK;
                    let inf = crate::value::F32_INF;
                    let c1 = seq![
                        Instruction::I32Const(mask),
                        Instruction::I32And,
                        Instruction::I32Const(inf),
                        Instruction::I32GtU,
                    ];
                    assert(code =~= seq![Instruction::I32ReinterpretF32] + c1);
                    assert(code.skip(1) =~= c1);
                    assert(eval(code, s0, env) == eval(c1, reinterpreted, env));
                    let c2 = seq![
                        Instruction::I32And,
                        Instruction::I32Const(inf),
                        Instruction::I32GtU,
                    ];
                    assert(c1.skip(1) =~= c2);
                    let s2 = reinterpreted.push(RtVal::I32(mask));
                    assert(eval(c1, reinterpreted, env) == eval(c2, s2, env));
                    let c3 = seq![Instruction::I32Const(inf), Instruction::I32GtU];
                    assert(c2.skip(1) =~= c3);
                    assert(s2.subrange(0, s2.len() - 2) =~= stack);
                    assert(s2[s2.len() - 2] == RtVal::I32(got));
                    assert(s2[s2.len() - 1] == RtVal::I32(mask));
                    let masked = got & mask;
                    let s3 = stack.push(RtVal::I32(masked));
                    assert(eval(c2, s2, env) == eval(c3, s3, env));
                    let c4 = seq![Instruction::I32GtU];
                    assert(c3.skip(1) =~= c4);
                    let s4 = s3.push(RtVal::I32(inf));
                    assert(eval(c3, s3, env) == eval(c4, s4, env));
                    assert(s4.subrange(0, s4.len() - 2) =~= stack);
                    assert(s4[s4.len() - 2] == RtVal::I32(masked));
                    assert(s4[s4.len() - 1] == RtVal::I32(inf));
                    assert(c4.skip(1) =~= Seq::<Instruction>::empty());
                    assert(eval(c4, s4, env) == eval(
                        c4.skip(1),
                        stack.push(RtVal::I32(bool_bit(masked > inf))),
                        env,
                    ));
                    lemma_eval_empty(stack.push(RtVal::I32(bool_bit(masked > inf))), env);
                    assert(eval(c4, s4, env) == Outcome::Done(
                        stack.push(RtVal::I32(bool_bit(masked > inf))),
                    ));
                },
            }
        },
        ExpectedValue::F64(p) => {
            let got = v->F64_0;
            let reinterpreted = stack.push(RtVal::I64(got));
            assert(s0.drop_last() =~= stack);
            match p {
                F64Pattern::Value(want) => {
                    let tail = seq![Instruction::I64Const(want), Instruction::I64Eq];
                    assert(code =~= seq![Instruction::I64ReinterpretF64] + tail);
                    assert(code.skip(1) =~= tail);
                    assert(eval(code, s0, env) == eval(tail, reinterpreted, env));
                    lemma_eval_eq64_tail(got, want, stack, env);
                },
                F64Pattern::CanonicalNan => {
                    let want = crate::value::F64_CANONICAL_NAN;
                    let tail = seq![Instruction::I64Const(want), Instruction::I64Eq];
                    assert(code =~= seq![Instruction::I64ReinterpretF64] + tail);
                    assert(code.skip(1) =~= tail);
                    assert(eval(code, s0, env) == eval(tail, reinterpreted, env));
                    lemma_eval_eq64_tail(got, want, stack, env);
                },
                F64Pattern::ArithmeticNan => {
                    let mask = crate::value::F64_ABS_MASK;
                    let inf = crate::value::F64_INF;
                    let c1 = seq![
                        Instruction::I64Const(mask),
                        Instruction::I64And,
                        Instruction::I64Const(inf),
                        Instruction::I64GtU,
                    ];
                    assert(code =~= seq![Instruction::I64ReinterpretF64] + c1);
                    assert(code.skip(1) =~= c1);
                    assert(eval(code, s0, env) == eval(c1, reinterpreted, env));
                    let c2 = seq![
                        Instruction::I64And,
                        Instruction::I64Const(inf),
                        Instruction::I64GtU,
                    ];
                    assert(c1.skip(1) =~= c2);
                    let s2 = reinterpreted.push(RtVal::I64(mask));
                    assert(eval(c1, reinterpreted, env) == eval(c2, s2, env));
                    let c3 = seq![Instruction::I64Const(inf), Instruction::I64GtU];
                    assert(c2.skip(1) =~= c3);
                    assert(s2.subrange(0, s2.len() - 2) =~= stack);
                    assert(s2[s2.len() - 2] == RtVal::I64(got));
                    assert(s2[s2.len() - 1] == RtVal::I64(mask));
                    let masked = got & mask;
                    let s3 = stack.push(RtVal::I64(masked));
                    assert(eval(c2, s2, env) == eval(c3, s3, env));
                    let c4 = seq![Instruction::I64GtU];
                    assert(c3.skip(1) =~= c4);
                    let s4 = s3.push(RtVal::I64(inf));
                    assert(eval(c3, s3, env) == eval(c4, s4, env));
                    assert(s4.subrange(0, s4.len() - 2) =~= stack);
                    assert(s4[s4.len() - 2] == RtVal::I64(masked));
                    assert(s4[s4.len() - 1] == RtVal::I64(inf));
                    assert(c4.skip(1) =~= Seq::<Instruction>::empty());
                    assert(eval(c4, s4, env) == eval(
                        c4.skip(1),
                        stack.push(RtVal::I32(bool_bit(masked > inf))),
                        env,
                    ));
                    lemma_eval_empty(stack.push(RtVal::I32(bool_bit(masked > inf))), env);
                    assert(eval(c4, s4, env) == Outcome::Done(
                        stack.push(RtVal::I32(bool_bit(masked > inf))),
                    ));
                },
            }
        },
        _ => {
            assert(false);
        },
    }
}

/// The first `n` argument values are `n` values.
proof fn lemma_args_rt_len(args: Seq<ArgValue>, n: int)
    requires
        0 <= n <= args.len(),
    ensures
        args_rt_upto(args, n).len() == n,
    decreases n,
{
    if n > 0 {
        lemma_args_rt_len(args, n - 1);
    }
}

/// Running a compiled invocation on the empty stack, against a host that
/// answers the descriptor with `v`, leaves exactly `v` on the stack.
proof fn lemma_eval_invocation(x: ExecuteDescriptor, m: ModuleInfo, env: RunEnv, v: RtVal)
    requires
        invoke_code_spec(x, m) is Ok,
        env_answers(env, x, v),
    ensures
        eval(invoke_code_spec(x, m)->Ok_0, Seq::empty(), env) == Outcome::Done(
            Seq::empty().push(v),
        ),
{
    match x {
        ExecuteDescriptor::Invoke { module, name, args } => {
            let consts = args_code(args@);
            let vals = args_rt(args@);
            lemma_eval_consts(args@, args@.len() as int, Seq::empty(), env);
            assert(Seq::empty() + vals =~= vals);
            lemma_eval_append(consts, seq![Instruction::Call(name)], Seq::empty(), env);
            assert(invoke_code_spec(x, m)->Ok_0 =~= consts + seq![Instruction::Call(name)]);
            lemma_args_rt_len(args@, args@.len() as int);
            // The call pops exactly the argument values and pushes the answer.
            let k = env.arities[name@] as int;
            assert(k == vals.len());
            let callargs = vals.subrange(vals.len() - k, vals.len() as int);
            assert(callargs =~= vals);
            assert(vals.subrange(0, vals.len() - k) =~= Seq::<RtVal>::empty());
            assert(env.funcs.dom().contains((name@, callargs)));
            assert(env.funcs[(name@, callargs)] == v);
            assert(seq![Instruction::Call(name)].skip(1) =~= Seq::<Instruction>::empty());
            assert(eval(seq![Instruction::Call(name)], vals, env) == eval(
                Seq::<Instruction>::empty(),
                Seq::<RtVal>::empty().push(v),
                env,
            ));
            assert(eval(consts + seq![Instruction::Call(name)], Seq::empty(), env)
                == Outcome::Done(Seq::<RtVal>::empty().push(v)));
        },
        ExecuteDescriptor::GetGlobal { module, name } => {
            assert(invoke_code_spec(x, m)->Ok_0 =~= seq![Instruction::GlobalGet(name)]);
            assert(seq![Instruction::GlobalGet(name)].skip(1) =~= Seq::<Instruction>::empty());
            assert(eval(seq![Instruction::GlobalGet(name)], Seq::empty(), env) == eval(
                Seq::<Instruction>::empty(),
                Seq::<RtVal>::empty().push(v),
                env,
            ));
        },
        ExecuteDescriptor::Other => {
            assert(false);
        },
    }
}

/// The round-trip law behind every compiled `assert_return`: take a
/// single-result assertion whose invocation and expected pattern the compiler
/// supports, and a host for which the invocation evaluates to `v` (of the
/// pattern's value type). Running the compiled block on the empty stack
/// finishes with an empty stack when `v` satisfies the expected pattern, and
/// traps when it does not — so an assertion fails exactly by trapping.
pub proof fn lemma_assert_return_roundtrip(
    pos: SourcePos,
    x: ExecuteDescriptor,
    results: Vec<ExpectedValue>,
    m: ModuleInfo,
    env: RunEnv,
    v: RtVal,
)
    requires
        results@.len() == 1,
        expected_supported(results@[0]),
        ty_agrees(results@[0], v),
        invoke_code_spec(x, m) is Ok,
        env_answers(env, x, v),
    ensures
        assertion_code_spec(Directive::AssertReturn { pos, exec_desc: x, results }, m) is Ok,
        eval(
            assertion_code_spec(Directive::AssertReturn { pos, exec_desc: x, results }, m)->Ok_0,
            Seq::empty(),
            env,
        ) == if pattern_holds(results@[0], v) {
            Outcome::Done(Seq::empty())
        } else {
            Outcome::Trap
        },
{
    let d = Directive::AssertReturn { pos, exec_desc: x, results };
    let call_code = invoke_code_spec(x, m)->Ok_0;
    let check_code = check_code_spec(results@[0])->Ok_0;
    let block = assertion_code_spec(d, m)->Ok_0;
    assert(block == call_code + check_code + trap_on_zero_code());

    lemma_eval_invocation(x, m, env, v);
    lemma_eval_check(results@[0], v, Seq::empty(), env);
    let bit = bool_bit(pattern_holds(results@[0], v));
    let s_checked = Seq::<RtVal>::empty().push(RtVal::I32(bit));

    lemma_eval_append(call_code, check_code, Seq::empty(), env);
    assert(eval(call_code + check_code, Seq::empty(), env) == Outcome::Done(s_checked));
    lemma_eval_append(call_code + check_code, trap_on_zero_code(), Seq::empty(), env);

    // The trailing conditional: drop the bit and go on, or trap on 0.
    let tail = trap_on_zero_code();
    assert(tail[0] == Instruction::If);
    assert(tail[1] == Instruction::Else);
    assert(tail[2] == Instruction::Unreachable);
    assert(tail[3] == Instruction::End);
    assert(tail.skip(4) =~= Seq::<Instruction>::empty());
    assert(s_checked.last() == RtVal::I32(bit));
    assert(s_checked.drop_last() =~= Seq::<RtVal>::empty());
    if bit == 0 {
        assert(eval(tail, s_checked, env) == Outcome::Trap);
    } else {
        assert(eval(tail, s_checked, env) == eval(
            Seq::<Instruction>::empty(),
            Seq::<RtVal>::empty(),
            env,
        ));
    }
}

/// The exact-value round trip: an `assert_return` expecting the exact 32-bit
/// integer `want`, run against a host whose invocation answer is `got`, does
/// not trap when `got` equals `want` bit for bit, and traps on any other
/// answer.
pub proof fn lemma_exact_i32_roundtrip(
    pos: SourcePos,
    x: ExecuteDescriptor,
    results: Vec<ExpectedValue>,
    m: ModuleInfo,
    env: RunEnv,
    want: u32,
    got: u32,
)
    requires
        results@ =~= seq![ExpectedValue::I32(want)],
        invoke_code_spec(x, m) is Ok,
        env_answers(env, x, RtVal::I32(got)),
    ensures
        assertion_code_spec(Directive::AssertReturn { pos, exec_desc: x, results }, m) is Ok,
        eval(
            assertion_code_spec(Directive::AssertReturn { pos, exec_desc: x, results }, m)->Ok_0,
            Seq::empty(),
            env,
        ) == if got == want {
            Outcome::Done(Seq::empty())
        } else {
            Outcome::Trap
        },
{
    lemma_assert_return_roundtrip(pos, x, results, m, env, RtVal::I32(got));
}

/// Canonical NaN matching: a canonical-NaN pattern accepts exactly the one
/// canonical bit pattern, in both float widths.
pub proof fn lemma_canonical_nan_exact(bits32: u32, bits64: u64)
    ensures
        pattern_holds(
            ExpectedValue::F32(F32Pattern::CanonicalNan),
            RtVal::F32(bits32),
        ) <==> bits32 == crate::value::F32_CANONICAL_NAN,
        pattern_holds(
            ExpectedValue::F64(F64Pattern::CanonicalNan),
            RtVal::F64(bits64),
        ) <==> bits64 == crate::value::F64_CANONICAL_NAN,
{
}

/// Arithmetic NaN matching: an arithmetic-NaN pattern accepts exactly the bit
/// patterns whose exponent field is all ones and whose mantissa is nonzero,
/// regardless of the sign bit.
pub proof fn lemma_arithmetic_nan_bits32(bits: u32)
    ensures
        pattern_holds(ExpectedValue::F32(F32Pattern::ArithmeticNan), RtVal::F32(bits)) <==> (
        (bits >> 23) & 0xff == 0xff && (bits & 0x007f_ffff) != 0),
        pattern_holds(ExpectedValue::F32(F32Pattern::ArithmeticNan), RtVal::F32(bits))
            == pattern_holds(
            ExpectedValue::F32(F32Pattern::ArithmeticNan),
            RtVal::F32(bits ^ 0x8000_0000),
        ),
{
    assert(((bits & 0x7fff_ffff) > 0x7f80_0000) <==> ((bits >> 23) & 0xff == 0xff && (bits
        & 0x007f_ffff) != 0)) by (bit_vector);
    assert((bits & 0x7fff_ffff) == ((bits ^ 0x8000_0000) & 0x7fff_ffff)) by (bit_vector);
}

/// See [`lemma_arithmetic_nan_bits32`]; the 64-bit form.
pub proof fn lemma_arithmetic_nan_bits64(bits: u64)
    ensures
        pattern_holds(ExpectedValue::F64(F64Pattern::ArithmeticNan), RtVal::F64(bits)) <==> (
        (bits >> 52) & 0x7ff == 0x7ff && (bits & 0x000f_ffff_ffff_ffff) != 0),
        pattern_holds(ExpectedValue::F64(F64Pattern::ArithmeticNan), RtVal::F64(bits))
            == pattern_holds(
            ExpectedValue::F64(F64Pattern::ArithmeticNan),
            RtVal::F64(bits ^ 0x8000_0000_0000_0000),
        ),
{
    assert(((bits & 0x7fff_ffff_ffff_ffff) > 0x7ff0_0000_0000_0000) <==> ((bits >> 52) & 0x7ff
        == 0x7ff && (bits & 0x000f_ffff_ffff_ffff) != 0)) by (bit_vector);
    assert((bits & 0x7fff_ffff_ffff_ffff) == ((bits ^ 0x8000_0000_0000_0000)
        & 0x7fff_ffff_ffff_ffff)) by (bit_vector);
}

/// Order preservation: the synthesized entry body is the compiled blocks'
/// concatenation (the script driver's contract), and in that concatenation
/// the block of the i-th compiled assertion occupies its own contiguous
/// segment, after exactly the blocks of the earlier assertions and before
/// those of the later ones — source order is execution order.
pub proof fn lemma_order_preservation(ds: Seq<Directive>, m: ModuleInfo, i: int)
    requires
        0 <= i < crate::driver::compiled_blocks(ds, m).len(),
    ensures
        ({
            let blocks = crate::driver::compiled_blocks(ds, m);
            blocks.flatten() == blocks.subrange(0, i).flatten() + blocks[i] + blocks.subrange(
                i + 1,
                blocks.len() as int,
            ).flatten()
        }),
{
    let blocks = crate::driver::compiled_blocks(ds, m);
    let front = blocks.subrange(0, i);
    let mid = seq![blocks[i]];
    let back = blocks.subrange(i + 1, blocks.len() as int);
    assert(blocks =~= (front + mid) + back);
    vstd::seq_lib::lemma_flatten_concat(front + mid, back);
    vstd::seq_lib::lemma_flatten_concat(front, mid);
    mid.lemma_flatten_one_element();
    assert(blocks.flatten() =~= front.flatten() + blocks[i] + back.flatten());
}


/// Unsupported value domains are recoverable, directive-scoped errors: a
/// single-result `assert_return` whose expected value lies in a domain the
/// value encoder does not model (a vector, a reference, an alternative
/// pattern), and whose invocation itself compiles, compiles to exactly
/// `UnsupportedValueKind` at the directive's own source position.
pub proof fn lemma_unsupported_value_is_directive_scoped(d: Directive, m: ModuleInfo)
    requires
        d matches Directive::AssertReturn { pos, exec_desc, results } && results@.len() == 1
            && !expected_supported(results@[0]) && invoke_code_spec(exec_desc, m) is Ok,
    ensures
        assertion_code_spec(d, m) == Err::<Seq<Instruction>, crate::error::CompileError>(
            crate::error::CompileError {
                pos: d.position(),
                kind: crate::error::ErrorKind::UnsupportedValueKind,
            },
        ),
{
    if let Directive::AssertReturn { pos, exec_desc, results } = d {
        // The only error the expected-value check reports is the unsupported
        // value kind.
        assert(check_code_spec(results@[0]) == Err::<Seq<Instruction>, crate::error::ErrorKind>(
            crate::error::ErrorKind::UnsupportedValueKind,
        ));
    }
}

/// In abort mode, a script whose one module is found but whose directives do
/// not all compile halts with exactly the first per-directive error, and (by
/// [`crate::driver::compile_directives`]'s contract) with no output produced.
pub proof fn lemma_abort_halts_on_first_error(ds: Seq<Directive>, cfg: crate::error::OnUnsupported)
    requires
        crate::driver::module_count(ds) == 1,
        cfg is Abort,
        crate::driver::compile_errors(ds, crate::driver::script_module(ds).unwrap()).len() > 0,
    ensures
        crate::driver::fatal_error_spec(ds, cfg) == Some(
            crate::driver::compile_errors(ds, crate::driver::script_module(ds).unwrap())[0],
        ),
{
}

/// In skip-and-report mode a directive that fails to compile contributes its
/// error and nothing else: the compiled blocks of the script are exactly the
/// compiled blocks of the script with that directive removed, so the rest of
/// the script's assertions stay compiled, in their order.
pub proof fn lemma_skip_keeps_the_rest(ds: Seq<Directive>, m: ModuleInfo, i: int)
    requires
        0 <= i < ds.len(),
        !(ds[i] is Module),
        assertion_code_spec(ds[i], m) is Err,
    ensures
        crate::driver::compiled_blocks(ds, m) == crate::driver::compiled_blocks(ds.remove(i), m),
{
    lemma_blocks_upto_remove(ds, m, i, ds.len() as int);
}

/// Removing a directive that compiles to an error leaves every prefix of the
/// compiled blocks unchanged (with indices past the removal shifted by one).
proof fn lemma_blocks_upto_remove(ds: Seq<Directive>, m: ModuleInfo, i: int, n: int)
    requires
        0 <= i < ds.len(),
        !(ds[i] is Module),
        assertion_code_spec(ds[i], m) is Err,
        0 <= n <= ds.len(),
    ensures
        n <= i ==> crate::driver::blocks_upto(ds.remove(i), m, n) == crate::driver::blocks_upto(
            ds,
            m,
            n,
        ),
        n > i ==> crate::driver::blocks_upto(ds.remove(i), m, n - 1)
            == crate::driver::blocks_upto(ds, m, n),
    decreases n,
{
    let rem = ds.remove(i);
    assert(rem =~= ds.subrange(0, i) + ds.subrange(i + 1, ds.len() as int));
    if n > 0 {
        lemma_blocks_upto_remove(ds, m, i, n - 1);
        if n <= i {
            assert(rem[n - 1] == ds[n - 1]);
        } else if n - 1 > i {
            assert(rem[n - 2] == ds[n - 1]);
        }
    }
}

} // verus!
