use wast_assert_compile::error::{ErrorKind, OnUnsupported, SourcePos};
use wast_assert_compile::invoke::{compile_invocation, ExecuteDescriptor};
use wast_assert_compile::ir::Instruction;
use wast_assert_compile::module::{assemble_script, entry_point_name, ModuleInfo};
use wast_assert_compile::directive::Directive;
use wast_assert_compile::script::{collect_exports, compile_script, lower_directive, ExportTarget, FieldInfo, PreDirective};
use wast_assert_compile::value::{
    compile_expected_check, encode_arg, encode_expected_single, ArgValue, ExpectedValue,
    F32Pattern, F64Pattern, F32_ABS_MASK, F32_CANONICAL_NAN, F32_INF, F64_ABS_MASK,
    F64_CANONICAL_NAN, F64_INF,
};

fn plain_module(funcs: &[&str], globals: &[&str]) -> ModuleInfo {
    ModuleInfo {
        pos: SourcePos { offset: 0 },
        func_exports: funcs.iter().map(|s| s.to_string()).collect(),
        global_exports: globals.iter().map(|s| s.to_string()).collect(),
    }
}

#[test]
fn scalar_arguments_encode_to_their_constants() {
    assert_eq!(encode_arg(&ArgValue::I32(13)), Ok(Instruction::I32Const(13)));
    assert_eq!(encode_arg(&ArgValue::I64(1 << 40)), Ok(Instruction::I64Const(1 << 40)));
    assert_eq!(
        encode_arg(&ArgValue::F32(1.5f32.to_bits())),
        Ok(Instruction::F32Const(0x3fc0_0000)),
    );
    assert_eq!(
        encode_arg(&ArgValue::F64(2.0f64.to_bits())),
        Ok(Instruction::F64Const(0x4000_0000_0000_0000)),
    );
}

#[test]
fn non_scalar_arguments_are_unsupported() {
    for arg in [ArgValue::V128, ArgValue::RefNull, ArgValue::RefExtern, ArgValue::RefHost] {
        assert_eq!(encode_arg(&arg), Err(ErrorKind::UnsupportedValueKind));
    }
}

#[test]
fn single_valued_patterns_give_one_constant() {
    assert_eq!(
        encode_expected_single(&ExpectedValue::I32(5)),
        Ok(Some(Instruction::I32Const(5))),
    );
    assert_eq!(
        encode_expected_single(&ExpectedValue::F64(F64Pattern::Value(1.0f64.to_bits()))),
        Ok(Some(Instruction::F64Const(0x3ff0_0000_0000_0000))),
    );
}

#[test]
fn set_valued_patterns_are_not_a_single_value() {
    assert_eq!(encode_expected_single(&ExpectedValue::F32(F32Pattern::CanonicalNan)), Ok(None));
    assert_eq!(encode_expected_single(&ExpectedValue::F64(F64Pattern::ArithmeticNan)), Ok(None));
    assert_eq!(
        encode_expected_single(&ExpectedValue::V128),
        Err(ErrorKind::UnsupportedValueKind),
    );
    assert_eq!(
        encode_expected_single(&ExpectedValue::Either),
        Err(ErrorKind::UnsupportedValueKind),
    );
}

#[test]
fn exact_float_checks_compare_bit_for_bit() {
    let nan_bits = f32::NAN.to_bits();
    assert_eq!(
        compile_expected_check(&ExpectedValue::F32(F32Pattern::Value(nan_bits))).unwrap(),
        vec![
            Instruction::I32ReinterpretF32,
            Instruction::I32Const(nan_bits),
            Instruction::I32Eq,
        ],
    );
}

#[test]
fn canonical_nan_check_compares_against_the_one_pattern() {
    assert_eq!(F32_CANONICAL_NAN, 0x7fc0_0000);
    assert_eq!(F64_CANONICAL_NAN, 0x7ff8_0000_0000_0000);
    assert_eq!(
        compile_expected_check(&ExpectedValue::F32(F32Pattern::CanonicalNan)).unwrap(),
        vec![
            Instruction::I32ReinterpretF32,
            Instruction::I32Const(F32_CANONICAL_NAN),
            Instruction::I32Eq,
        ],
    );
    assert_eq!(
        compile_expected_check(&ExpectedValue::F64(F64Pattern::CanonicalNan)).unwrap(),
        vec![
            Instruction::I64ReinterpretF64,
            Instruction::I64Const(F64_CANONICAL_NAN),
            Instruction::I64Eq,
        ],
    );
}

#[test]
fn arithmetic_nan_check_ignores_the_sign_bit() {
    // The emitted test is (bits & !sign) > infinity-bits: exactly "exponent
    // all ones and mantissa nonzero", whatever the sign.
    assert_eq!(
        compile_expected_check(&ExpectedValue::F32(F32Pattern::ArithmeticNan)).unwrap(),
        vec![
            Instruction::I32ReinterpretF32,
            Instruction::I32Const(F32_ABS_MASK),
            Instruction::I32And,
            Instruction::I32Const(F32_INF),
            Instruction::I32GtU,
        ],
    );
    assert_eq!(
        compile_expected_check(&ExpectedValue::F64(F64Pattern::ArithmeticNan)).unwrap(),
        vec![
            Instruction::I64ReinterpretF64,
            Instruction::I64Const(F64_ABS_MASK),
            Instruction::I64And,
            Instruction::I64Const(F64_INF),
            Instruction::I64GtU,
        ],
    );
    // Spot checks of the mask arithmetic the check performs at runtime.
    let canonical = F32_CANONICAL_NAN;
    let negative_nan = canonical | 0x8000_0000;
    assert!(negative_nan & F32_ABS_MASK > F32_INF);
    assert!(canonical & F32_ABS_MASK > F32_INF);
    assert!(1.0f32.to_bits() & F32_ABS_MASK <= F32_INF);
    assert!(f32::INFINITY.to_bits() & F32_ABS_MASK <= F32_INF);
}

#[test]
fn reference_patterns_are_unsupported_for_now() {
    for e in [
        ExpectedValue::RefNull,
        ExpectedValue::RefExtern,
        ExpectedValue::RefHost,
        ExpectedValue::RefFunc,
        ExpectedValue::RefAbstract,
        ExpectedValue::Other,
    ] {
        assert_eq!(compile_expected_check(&e), Err(ErrorKind::UnsupportedValueKind));
    }
}

#[test]
fn invocation_arguments_keep_source_order() {
    let m = plain_module(&["f"], &[]);
    let x = ExecuteDescriptor::Invoke {
        module: None,
        name: "f".to_string(),
        args: vec![ArgValue::I32(1), ArgValue::I64(2), ArgValue::F32(3)],
    };
    assert_eq!(
        compile_invocation(&x, &m).unwrap(),
        vec![
            Instruction::I32Const(1),
            Instruction::I64Const(2),
            Instruction::F32Const(3),
            Instruction::Call("f".to_string()),
        ],
    );
}

#[test]
fn invocation_error_order_cross_module_first() {
    let m = plain_module(&[], &[]);
    let x = ExecuteDescriptor::Invoke {
        module: Some("other".to_string()),
        name: "f".to_string(),
        args: vec![ArgValue::V128],
    };
    // Cross-module outranks both the unknown name and the bad argument.
    assert_eq!(compile_invocation(&x, &m), Err(ErrorKind::UnsupportedCrossModuleInvoke));

    let y = ExecuteDescriptor::Invoke {
        module: None,
        name: "f".to_string(),
        args: vec![ArgValue::V128],
    };
    assert_eq!(compile_invocation(&y, &m), Err(ErrorKind::UnknownTarget));

    let m2 = plain_module(&["f"], &[]);
    assert_eq!(compile_invocation(&y, &m2), Err(ErrorKind::UnsupportedValueKind));
}

#[test]
fn global_access_resolves_against_global_exports() {
    let m = plain_module(&["g"], &[]);
    let x = ExecuteDescriptor::GetGlobal { module: None, name: "g".to_string() };
    // "g" is exported as a function, not a global.
    assert_eq!(compile_invocation(&x, &m), Err(ErrorKind::UnknownTarget));
    let m2 = plain_module(&[], &["g"]);
    assert_eq!(
        compile_invocation(&x, &m2).unwrap(),
        vec![Instruction::GlobalGet("g".to_string())],
    );
}

#[test]
fn assembler_concatenates_blocks_in_order() {
    let m = plain_module(&["f"], &[]);
    let blocks = vec![
        vec![Instruction::I32Const(1)],
        vec![],
        vec![Instruction::I32Const(2), Instruction::I32Const(3)],
    ];
    let script = assemble_script(m, blocks);
    assert_eq!(script.entry_name, entry_point_name());
    assert_eq!(script.entry_name, "run_assertions");
    assert_eq!(
        script.entry_body,
        vec![Instruction::I32Const(1), Instruction::I32Const(2), Instruction::I32Const(3)],
    );
}

#[test]
fn float_nan_expectations_parse_and_compile() {
    let text = r#"
(module (func $f (export "f") (result f32) (f32.const nan)))
(assert_return (invoke "f") (f32.const nan:canonical))
(assert_return (invoke "f") (f32.const nan:arithmetic))
"#;
    let out = compile_script(text, OnUnsupported::Abort).unwrap();
    let mut want = vec![
        Instruction::Call("f".to_string()),
        Instruction::I32ReinterpretF32,
        Instruction::I32Const(F32_CANONICAL_NAN),
        Instruction::I32Eq,
        Instruction::If,
        Instruction::Else,
        Instruction::Unreachable,
        Instruction::End,
    ];
    want.extend(vec![
        Instruction::Call("f".to_string()),
        Instruction::I32ReinterpretF32,
        Instruction::I32Const(F32_ABS_MASK),
        Instruction::I32And,
        Instruction::I32Const(F32_INF),
        Instruction::I32GtU,
        Instruction::If,
        Instruction::Else,
        Instruction::Unreachable,
        Instruction::End,
    ]);
    assert_eq!(out.script.entry_body, want);
}

#[test]
fn float_arguments_carry_ieee_bits() {
    let text = r#"
(module (func $f (export "f") (param f64) (result f64) (local.get 0)))
(assert_return (invoke "f" (f64.const -0.5)) (f64.const -0.5))
"#;
    let out = compile_script(text, OnUnsupported::Abort).unwrap();
    assert_eq!(out.script.entry_body[0], Instruction::F64Const((-0.5f64).to_bits()));
    assert_eq!(out.script.entry_body[1], Instruction::Call("f".to_string()));
    assert_eq!(out.script.entry_body[2], Instruction::I64ReinterpretF64);
    assert_eq!(out.script.entry_body[3], Instruction::I64Const((-0.5f64).to_bits()));
    assert_eq!(out.script.entry_body[4], Instruction::I64Eq);
}

#[test]
fn arithmetic_nan_mask_spot_checks_f64() {
    let canonical = F64_CANONICAL_NAN;
    let negative_nan = canonical | 0x8000_0000_0000_0000;
    assert!(canonical & F64_ABS_MASK > F64_INF);
    assert!(negative_nan & F64_ABS_MASK > F64_INF);
    assert!(1.0f64.to_bits() & F64_ABS_MASK <= F64_INF);
    assert!(f64::NEG_INFINITY.to_bits() & F64_ABS_MASK <= F64_INF);
}

#[test]
fn export_collection_keeps_field_order_and_kinds() {
    let fields = vec![
        FieldInfo::Func(vec!["a".to_string(), "b".to_string()]),
        FieldInfo::Other,
        FieldInfo::Export("c".to_string(), ExportTarget::Func),
        FieldInfo::Global(vec!["g1".to_string()]),
        FieldInfo::Export("g2".to_string(), ExportTarget::Global),
        FieldInfo::Export("t".to_string(), ExportTarget::Other),
    ];
    let info = collect_exports(7, &fields);
    assert_eq!(info.pos.offset, 7);
    assert_eq!(info.func_exports, vec!["a".to_string(), "b".to_string(), "c".to_string()]);
    assert_eq!(info.global_exports, vec!["g1".to_string(), "g2".to_string()]);
}

#[test]
fn lowering_carries_assertion_payloads_unchanged() {
    let pd = PreDirective::AssertReturn(
        42,
        ExecuteDescriptor::Invoke {
            module: None,
            name: "f".to_string(),
            args: vec![ArgValue::I32(1)],
        },
        vec![ExpectedValue::I32(2)],
    );
    match lower_directive(pd) {
        Directive::AssertReturn { pos, exec_desc, results } => {
            assert_eq!(pos.offset, 42);
            assert!(matches!(
                exec_desc,
                ExecuteDescriptor::Invoke { module: None, ref name, ref args }
                    if name == "f" && args == &vec![ArgValue::I32(1)]
            ));
            assert_eq!(results, vec![ExpectedValue::I32(2)]);
        }
        other => panic!("expected an assert_return directive, got {:?}", other),
    }
}
