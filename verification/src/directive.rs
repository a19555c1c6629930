use vstd::prelude::*;

use crate::error::{CompileError, ErrorKind, SourcePos};
use crate::invoke::{code_result_matches, compile_invocation, invoke_code_spec, ExecuteDescriptor};
use crate::ir::{trap_on_zero, trap_on_zero_code, Instruction};
use crate::module::ModuleInfo;
use crate::value::{check_code_spec, compile_expected_check, ExpectedValue};

verus! {

/// One top-level statement of a WAST script, as a closed tagged variant with
/// one arm per directive kind: a module definition, or one of the assertion
/// and administrative directives. Each carries its source position; every
/// transformation produces new instruction sequences rather than editing a
/// directive in place.
#[derive(Debug)]
pub enum Directive {
    /// A module definition; at most one is accepted per script.
    Module { pos: SourcePos, info: ModuleInfo },
    /// The invocation must succeed and return the expected results.
    AssertReturn { pos: SourcePos, exec_desc: ExecuteDescriptor, results: Vec<ExpectedValue> },
    /// The invocation must trap with the given message. The message comparison
    /// policy is unresolved upstream, so it is carried as opaque metadata.
    AssertTrap { pos: SourcePos, exec_desc: ExecuteDescriptor, message: String },
    /// A separate module text must fail validation.
    AssertInvalid { pos: SourcePos },
    /// A separate module text must fail parsing.
    AssertMalformed { pos: SourcePos },
    /// A separate module must fail to link.
    AssertUnlinkable { pos: SourcePos },
    /// The invocation must exhaust resources.
    AssertExhaustion { pos: SourcePos },
    /// Register a module instance under a name.
    Register { pos: SourcePos },
    /// A directive kind outside the model.
    Other { pos: SourcePos },
}

impl Directive {
    /// The source position the directive was defined at.
    pub open spec fn position(self) -> SourcePos {
        match self {
            Directive::Module { pos, .. } => pos,
            Directive::AssertReturn { pos, .. } => pos,
            Directive::AssertTrap { pos, .. } => pos,
            Directive::AssertInvalid { pos } => pos,
            Directive::AssertMalformed { pos } => pos,
            Directive::AssertUnlinkable { pos } => pos,
            Directive::AssertExhaustion { pos } => pos,
            Directive::Register { pos } => pos,
            Directive::Other { pos } => pos,
        }
    }
}

/// What [`compile_assertion`] returns for each directive. An `assert_return`
/// with exactly one expected result compiles to the invocation's code, then
/// the expected pattern's check, then a conditional that traps exactly when
/// the check left 0; with zero or several results it is `UnsupportedArity`.
/// Every other directive kind is a deliberate, reported `UnsupportedDirectiveKind`:
/// trap, validation and linking assertions are distinct code paths that do
/// not produce executable instructions here, and a module definition is not
/// an assertion at all. Errors carry the directive's source position.
pub open spec fn assertion_code_spec(d: Directive, m: ModuleInfo) -> Result<
    Seq<Instruction>,
    CompileError,
> {
    match d {
        Directive::AssertReturn { pos, exec_desc, results } => {
            if results@.len() != 1 {
                Err(CompileError { pos, kind: ErrorKind::UnsupportedArity })
            } else {
                match invoke_code_spec(exec_desc, m) {
                    Err(k) => Err(CompileError { pos, kind: k }),
                    Ok(call_code) => match check_code_spec(results@[0]) {
                        Err(k) => Err(CompileError { pos, kind: k }),
                        Ok(check_code) => Ok(call_code + check_code + trap_on_zero_code()),
                    },
                }
            }
        },
        _ => Err(
            CompileError { pos: d.position(), kind: ErrorKind::UnsupportedDirectiveKind },
        ),
    }
}

/// Compiles one directive into the instruction block described by
/// [`assertion_code_spec`].
pub fn compile_assertion(d: &Directive, m: &ModuleInfo) -> (r: Result<
    Vec<Instruction>,
    CompileError,
>)
    ensures
        code_result_matches(r, assertion_code_spec(*d, *m)),
{
    match d {
        Directive::AssertReturn { pos, exec_desc, results } => {
            if results.len() != 1 {
                return Err(CompileError { pos: *pos, kind: ErrorKind::UnsupportedArity });
            }
            let mut code = match compile_invocation(exec_desc, m) {
                Ok(call_code) => call_code,
                Err(k) => {
                    return Err(CompileError { pos: *pos, kind: k });
                },
            };
            let mut check = match compile_expected_check(&results[0]) {
                Ok(check_code) => check_code,
                Err(k) => {
                    return Err(CompileError { pos: *pos, kind: k });
                },
            };
            let ghost call_view = code@;
            let ghost check_view = check@;
            code.append(&mut check);
            let mut tail = trap_on_zero();
            code.append(&mut tail);
            proof {
                assert(code@ =~= call_view + check_view + trap_on_zero_code());
            }
            Ok(code)
        },
        Directive::Module { pos, .. } => Err(
            CompileError { pos: *pos, kind: ErrorKind::UnsupportedDirectiveKind },
        ),
        Directive::AssertTrap { pos, .. } => Err(
            CompileError { pos: *pos, kind: ErrorKind::UnsupportedDirectiveKind },
        ),
        Directive::AssertInvalid { pos } => Err(
            CompileError { pos: *pos, kind: ErrorKind::UnsupportedDirectiveKind },
        ),
        Directive::AssertMalformed { pos } => Err(
            CompileError { pos: *pos, kind: ErrorKind::UnsupportedDirectiveKind },
        ),
        Directive::AssertUnlinkable { pos } => Err(
            CompileError { pos: *pos, kind: ErrorKind::UnsupportedDirectiveKind },
        ),
        Directive::AssertExhaustion { pos } => Err(
            CompileError { pos: *pos, kind: ErrorKind::UnsupportedDirectiveKind },
        ),
        Directive::Register { pos } => Err(
            CompileError { pos: *pos, kind: ErrorKind::UnsupportedDirectiveKind },
        ),
        Directive::Other { pos } => Err(
            CompileError { pos: *pos, kind: ErrorKind::UnsupportedDirectiveKind },
        ),
    }
}

} // verus!
