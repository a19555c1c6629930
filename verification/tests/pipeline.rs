use wast_assert_compile::directive::Directive;
use wast_assert_compile::driver::{compile_directives, AssertTransformer};
use wast_assert_compile::error::{ErrorKind, OnUnsupported, ScriptError, SourcePos};
use wast_assert_compile::invoke::ExecuteDescriptor;
use wast_assert_compile::ir::Instruction;
use wast_assert_compile::module::ModuleInfo;
use wast_assert_compile::script::{compile_script, parse_script};
use wast_assert_compile::value::{ArgValue, ExpectedValue};

const FORWARD_WAST: &str = r#"
(module
  (func $even (export "even") (param $n i32) (result i32)
    (if (result i32) (i32.eq (local.get $n) (i32.const 0))
      (then (i32.const 1))
      (else (call $odd (i32.sub (local.get $n) (i32.const 1))))))

  (func $odd (export "odd") (param $n i32) (result i32)
    (if (result i32) (i32.eq (local.get $n) (i32.const 0))
      (then (i32.const 0))
      (else (call $even (i32.sub (local.get $n) (i32.const 1)))))))
(assert_return (invoke "even" (i32.const 13)) (i32.const 0))
(assert_return (invoke "even" (i32.const 20)) (i32.const 1))
(assert_return (invoke "odd" (i32.const 13)) (i32.const 1))
(assert_return (invoke "odd" (i32.const 20)) (i32.const 0))
"#;

/// One compiled assert_return block over a unary i32 function.
fn expected_block(arg: u32, func: &str, want: u32) -> Vec<Instruction> {
    vec![
        Instruction::I32Const(arg),
        Instruction::Call(func.to_string()),
        Instruction::I32Const(want),
        Instruction::I32Eq,
        Instruction::If,
        Instruction::Else,
        Instruction::Unreachable,
        Instruction::End,
    ]
}

#[test]
fn example() {
    let directives = parse_script(FORWARD_WAST).unwrap();
    assert_eq!(directives.len(), 5);
    match &directives[0] {
        Directive::Module { info, .. } => {
            assert_eq!(info.func_exports, vec!["even".to_string(), "odd".to_string()]);
            assert!(info.global_exports.is_empty());
        }
        other => panic!("expected a module directive, got {:?}", other),
    }
    for d in &directives[1..] {
        assert!(matches!(d, Directive::AssertReturn { .. }));
    }
}

#[test]
fn even_odd_script_compiles_in_order() {
    let out = compile_script(FORWARD_WAST, OnUnsupported::Abort).unwrap();
    assert!(out.errors.is_empty());
    assert_eq!(out.script.entry_name, "run_assertions");
    assert_eq!(out.script.module.func_exports, vec!["even".to_string(), "odd".to_string()]);

    let mut want = Vec::new();
    want.extend(expected_block(13, "even", 0));
    want.extend(expected_block(20, "even", 1));
    want.extend(expected_block(13, "odd", 1));
    want.extend(expected_block(20, "odd", 0));
    assert_eq!(out.script.entry_body, want);
}

#[test]
fn transformer_from_str_matches_compile_script() {
    let transformer = AssertTransformer::from_str(FORWARD_WAST).unwrap();
    assert_eq!(transformer.directives.len(), 5);
    let out = transformer.transform(OnUnsupported::Abort).unwrap();
    let direct = compile_script(FORWARD_WAST, OnUnsupported::Abort).unwrap();
    assert_eq!(out.script.entry_body, direct.script.entry_body);
}

#[test]
fn no_module_is_rejected() {
    let text = r#"(assert_return (invoke "f") (i32.const 0))"#;
    match compile_script(text, OnUnsupported::Abort) {
        Err(ScriptError::Compile(e)) => {
            assert_eq!(e.kind, ErrorKind::NoModule);
        }
        other => panic!("expected a NoModule error, got {:?}", other.map(|o| o.script.entry_name)),
    }
}

#[test]
fn two_modules_are_rejected() {
    let text = "(module)\n(module)";
    match compile_script(text, OnUnsupported::Abort) {
        Err(ScriptError::Compile(e)) => {
            assert_eq!(e.kind, ErrorKind::MultipleModules);
            // The error points at the second module definition.
            assert_eq!(e.pos.offset, 10);
        }
        other => panic!("expected a MultipleModules error, got {:?}", other.map(|o| o.script.entry_name)),
    }
}

#[test]
fn two_modules_rejected_in_skip_mode_too() {
    let text = "(module)\n(module)";
    assert!(matches!(
        compile_script(text, OnUnsupported::SkipAndReport),
        Err(ScriptError::Compile(e)) if e.kind == ErrorKind::MultipleModules
    ));
}

#[test]
fn unknown_target_is_reported() {
    let text = r#"
(module (func $f (export "f") (result i32) (i32.const 7)))
(assert_return (invoke "nosuch") (i32.const 7))
"#;
    match compile_script(text, OnUnsupported::Abort) {
        Err(ScriptError::Compile(e)) => assert_eq!(e.kind, ErrorKind::UnknownTarget),
        other => panic!("expected UnknownTarget, got {:?}", other.map(|o| o.script.entry_name)),
    }
}

#[test]
fn cross_module_invoke_is_reported() {
    let text = r#"
(module (func $f (export "f") (result i32) (i32.const 7)))
(assert_return (invoke $other "f") (i32.const 7))
"#;
    match compile_script(text, OnUnsupported::Abort) {
        Err(ScriptError::Compile(e)) => {
            assert_eq!(e.kind, ErrorKind::UnsupportedCrossModuleInvoke)
        }
        other => panic!("expected a cross-module error, got {:?}", other.map(|o| o.script.entry_name)),
    }
}

#[test]
fn unsupported_arity_zero_and_two() {
    let text = r#"
(module (func $f (export "f") (result i32) (i32.const 7)))
(assert_return (invoke "f"))
"#;
    match compile_script(text, OnUnsupported::Abort) {
        Err(ScriptError::Compile(e)) => assert_eq!(e.kind, ErrorKind::UnsupportedArity),
        other => panic!("expected UnsupportedArity, got {:?}", other.map(|o| o.script.entry_name)),
    }

    let text2 = r#"
(module (func $g (export "g") (result i32 i32) (i32.const 1) (i32.const 2)))
(assert_return (invoke "g") (i32.const 1) (i32.const 2))
"#;
    match compile_script(text2, OnUnsupported::Abort) {
        Err(ScriptError::Compile(e)) => assert_eq!(e.kind, ErrorKind::UnsupportedArity),
        other => panic!("expected UnsupportedArity, got {:?}", other.map(|o| o.script.entry_name)),
    }
}

#[test]
fn vector_expectation_skip_and_report_compiles_the_rest() {
    let text = r#"
(module
  (func $v (export "v") (result v128) (v128.const i32x4 0 0 0 0))
  (func $k (export "k") (result i32) (i32.const 3)))
(assert_return (invoke "v") (v128.const i32x4 0 0 0 0))
(assert_return (invoke "k") (i32.const 3))
"#;
    let out = compile_script(text, OnUnsupported::SkipAndReport).unwrap();
    assert_eq!(out.errors.len(), 1);
    assert_eq!(out.errors[0].kind, ErrorKind::UnsupportedValueKind);
    // The supported assertion after the unsupported one is still compiled.
    let want = vec![
        Instruction::Call("k".to_string()),
        Instruction::I32Const(3),
        Instruction::I32Eq,
        Instruction::If,
        Instruction::Else,
        Instruction::Unreachable,
        Instruction::End,
    ];
    assert_eq!(out.script.entry_body, want);
}

#[test]
fn vector_expectation_aborts_in_abort_mode() {
    let text = r#"
(module
  (func $v (export "v") (result v128) (v128.const i32x4 0 0 0 0))
  (func $k (export "k") (result i32) (i32.const 3)))
(assert_return (invoke "v") (v128.const i32x4 0 0 0 0))
(assert_return (invoke "k") (i32.const 3))
"#;
    match compile_script(text, OnUnsupported::Abort) {
        Err(ScriptError::Compile(e)) => assert_eq!(e.kind, ErrorKind::UnsupportedValueKind),
        other => panic!("expected UnsupportedValueKind, got {:?}", other.map(|o| o.script.entry_name)),
    }
}

#[test]
fn other_directive_kinds_are_reported_not_compiled() {
    let text = r#"
(module (func $f (export "f") (result i32) (i32.const 7)))
(assert_trap (invoke "f") "nope")
(register "m")
(assert_return (invoke "f") (i32.const 7))
"#;
    let out = compile_script(text, OnUnsupported::SkipAndReport).unwrap();
    assert_eq!(out.errors.len(), 2);
    assert_eq!(out.errors[0].kind, ErrorKind::UnsupportedDirectiveKind);
    assert_eq!(out.errors[1].kind, ErrorKind::UnsupportedDirectiveKind);
    let want = vec![
        Instruction::Call("f".to_string()),
        Instruction::I32Const(7),
        Instruction::I32Eq,
        Instruction::If,
        Instruction::Else,
        Instruction::Unreachable,
        Instruction::End,
    ];
    assert_eq!(out.script.entry_body, want);
}

#[test]
fn global_get_compiles() {
    let text = r#"
(module (global $g (export "g") i32 (i32.const 41)))
(assert_return (get "g") (i32.const 41))
"#;
    let out = compile_script(text, OnUnsupported::Abort).unwrap();
    assert_eq!(
        out.script.entry_body,
        vec![
            Instruction::GlobalGet("g".to_string()),
            Instruction::I32Const(41),
            Instruction::I32Eq,
            Instruction::If,
            Instruction::Else,
            Instruction::Unreachable,
            Instruction::End,
        ]
    );
}

#[test]
fn parse_error_is_reported_with_position() {
    match compile_script("(module", OnUnsupported::Abort) {
        Err(ScriptError::Parse(e)) => {
            assert!(!e.message.is_empty());
        }
        other => panic!("expected a parse error, got {:?}", other.map(|o| o.script.entry_name)),
    }
}

#[test]
fn directives_built_by_hand_compile_the_same() {
    let module = Directive::Module {
        pos: SourcePos { offset: 0 },
        info: ModuleInfo {
            pos: SourcePos { offset: 0 },
            func_exports: vec!["even".to_string()],
            global_exports: vec![],
        },
    };
    let assertion = Directive::AssertReturn {
        pos: SourcePos { offset: 10 },
        exec_desc: ExecuteDescriptor::Invoke {
            module: None,
            name: "even".to_string(),
            args: vec![ArgValue::I32(13)],
        },
        results: vec![ExpectedValue::I32(0)],
    };
    let out = compile_directives(&vec![module, assertion], OnUnsupported::Abort).unwrap();
    assert_eq!(out.script.entry_body, expected_block(13, "even", 0));
}

#[test]
fn negative_i32_constants_carry_their_bits() {
    let text = r#"
(module (func $f (export "f") (param i32) (result i32) (local.get 0)))
(assert_return (invoke "f" (i32.const -1)) (i32.const -2))
"#;
    let out = compile_script(text, OnUnsupported::Abort).unwrap();
    assert_eq!(
        out.script.entry_body[0],
        Instruction::I32Const(0xffff_ffff),
    );
    assert_eq!(
        out.script.entry_body[2],
        Instruction::I32Const(0xffff_fffe),
    );
}

#[test]
fn quoted_module_is_not_a_supported_module_form() {
    // A quoted module is not brought into the model, so the script has no
    // usable module definition.
    let text = r#"
(module quote "(func)")
(assert_return (invoke "f") (i32.const 0))
"#;
    match compile_script(text, OnUnsupported::Abort) {
        Err(ScriptError::Compile(e)) => assert_eq!(e.kind, ErrorKind::NoModule),
        other => panic!("expected NoModule, got {:?}", other.map(|o| o.script.entry_name)),
    }
}

#[test]
fn validation_assertions_are_distinct_reported_paths() {
    let text = r#"
(module (func $f (export "f") (result i32) (i32.const 7)))
(assert_invalid (module (func (result i32))) "type mismatch")
(assert_malformed (module quote "(func") "unexpected end")
(assert_unlinkable (module (import "m" "f" (func))) "unknown import")
(assert_exhaustion (invoke "f") "call stack exhausted")
"#;
    let out = compile_script(text, OnUnsupported::SkipAndReport).unwrap();
    assert_eq!(out.errors.len(), 4);
    for e in &out.errors {
        assert_eq!(e.kind, ErrorKind::UnsupportedDirectiveKind);
    }
    // None of them produced instructions.
    assert!(out.script.entry_body.is_empty());
}

#[test]
fn parsing_is_deterministic_in_the_text() {
    // Two parses of the same text give the same directive sequence.
    let first = parse_script(FORWARD_WAST).unwrap();
    let second = parse_script(FORWARD_WAST).unwrap();
    assert_eq!(format!("{:?}", first), format!("{:?}", second));
}

#[test]
fn standalone_export_fields_resolve_targets() {
    // The function is exported through a separate export field, not inline.
    let text = r#"
(module
  (func $f (result i32) (i32.const 9))
  (export "f" (func $f)))
(assert_return (invoke "f") (i32.const 9))
"#;
    let out = compile_script(text, OnUnsupported::Abort).unwrap();
    assert!(out.errors.is_empty());
    assert_eq!(
        out.script.entry_body,
        vec![
            Instruction::Call("f".to_string()),
            Instruction::I32Const(9),
            Instruction::I32Eq,
            Instruction::If,
            Instruction::Else,
            Instruction::Unreachable,
            Instruction::End,
        ]
    );
}
