use vstd::prelude::*;

use crate::error::ErrorKind;
use crate::ir::Instruction;
use crate::module::ModuleInfo;
use crate::value::{arg_code_spec, arg_scalar, encode_arg, ArgValue};

verus! {

/// What an assertion runs: a call of an exported function with concrete
/// argument values, or a read of an exported global. A descriptor may name a
/// separately registered module; compiling such a descriptor is out of scope
/// and reported, never silently misread as the default module.
#[derive(Debug)]
pub enum ExecuteDescriptor {
    /// Call the exported function `name` with `args`, in order.
    Invoke { module: Option<String>, name: String, args: Vec<ArgValue> },
    /// Read the exported global `name`.
    GetGlobal { module: Option<String>, name: String },
    /// An execution form outside the model (e.g. an inline module).
    Other,
}

/// True when some name in the list reads as `target`.
pub open spec fn contains_name(names: Seq<String>, target: Seq<char>) -> bool {
    exists|i: int| 0 <= i < names.len() && names[i]@ == target
}

/// The constant-push instructions for the first `n` arguments, in source
/// order. Meaningful when those arguments are scalar.
pub open spec fn args_code_upto(args: Seq<ArgValue>, n: int) -> Seq<Instruction>
    decreases n,
{
    if n <= 0 {
        Seq::empty()
    } else {
        args_code_upto(args, n - 1).push(arg_code_spec(args[n - 1])->Ok_0)
    }
}

/// The constant-push instructions for all arguments, in source order.
pub open spec fn args_code(args: Seq<ArgValue>) -> Seq<Instruction> {
    args_code_upto(args, args.len() as int)
}

/// True when every argument lies in the scalar numeric domain the encoder
/// models.
pub open spec fn all_args_scalar(args: Seq<ArgValue>) -> bool {
    forall|i: int| 0 <= i < args.len() ==> arg_scalar(#[trigger] args[i])
}

/// What [`compile_invocation`] returns. An invocation compiles to its
/// arguments' constant pushes, in left-to-right source order, followed by the
/// call; a global read compiles to the one access instruction. Errors, in the
/// order they are checked: a descriptor naming another module is
/// `UnsupportedCrossModuleInvoke`; a target name the module does not export
/// is `UnknownTarget`; an argument outside the scalar domain is
/// `UnsupportedValueKind`.
pub open spec fn invoke_code_spec(x: ExecuteDescriptor, m: ModuleInfo) -> Result<
    Seq<Instruction>,
    ErrorKind,
> {
    match x {
        ExecuteDescriptor::Invoke { module, name, args } => {
            if module is Some {
                Err(ErrorKind::UnsupportedCrossModuleInvoke)
            } else if !contains_name(m.func_exports@, name@) {
                Err(ErrorKind::UnknownTarget)
            } else if !all_args_scalar(args@) {
                Err(ErrorKind::UnsupportedValueKind)
            } else {
                Ok(args_code(args@).push(Instruction::Call(name)))
            }
        },
        ExecuteDescriptor::GetGlobal { module, name } => {
            if module is Some {
                Err(ErrorKind::UnsupportedCrossModuleInvoke)
            } else if !contains_name(m.global_exports@, name@) {
                Err(ErrorKind::UnknownTarget)
            } else {
                Ok(seq![Instruction::GlobalGet(name)])
            }
        },
        ExecuteDescriptor::Other => Err(ErrorKind::UnsupportedDirectiveKind),
    }
}

/// Relates an executable compilation result to its specification-level value.
pub open spec fn code_result_matches<E>(
    r: Result<Vec<Instruction>, E>,
    s: Result<Seq<Instruction>, E>,
) -> bool {
    match r {
        Ok(code) => s == Ok::<Seq<Instruction>, E>(code@),
        Err(k) => s == Err::<Seq<Instruction>, E>(k),
    }
}

/// Looks a target name up in a module's export list.
#[verifier::loop_isolation(false)]
pub fn resolve_name(names: &Vec<String>, target: &String) -> (r: bool)
    ensures
        r == contains_name(names@, target@),
{
    let mut i: usize = 0;
    while i < names.len()
        invariant
            i <= names.len(),
            forall|j: int| 0 <= j < i ==> names@[j]@ != target@,
        decreases names.len() - i,
    {
        if names[i] == *target {
            return true;
        }
        i = i + 1;
    }
    false
}

/// Compiles an execution descriptor into the instruction sequence described
/// by [`invoke_code_spec`]: encode each argument in source order, then
/// perform the call or the global access.
#[verifier::loop_isolation(false)]
pub fn compile_invocation(x: &ExecuteDescriptor, m: &ModuleInfo) -> (r: Result<
    Vec<Instruction>,
    ErrorKind,
>)
    ensures
        code_result_matches(r, invoke_code_spec(*x, *m)),
{
    match x {
        ExecuteDescriptor::Invoke { module, name, args } => {
            if module.is_some() {
                return Err(ErrorKind::UnsupportedCrossModuleInvoke);
            }
            if !resolve_name(&m.func_exports, name) {
                return Err(ErrorKind::UnknownTarget);
            }
            let mut code: Vec<Instruction> = Vec::new();
            let mut i: usize = 0;
            while i < args.len()
                invariant
                    i <= args.len(),
                    forall|j: int| 0 <= j < i ==> arg_scalar(#[trigger] args@[j]),
                    code@ == args_code_upto(args@, i as int),
                decreases args.len() - i,
            {
                match encode_arg(&args[i]) {
                    Ok(instr) => code.push(instr),
                    Err(k) => {
                        return Err(k);
                    },
                }
                i = i + 1;
            }
            code.push(Instruction::Call(name.clone()));
            proof {
                assert(code@ =~= args_code(args@).push(Instruction::Call(*name)));
            }
            Ok(code)
        },
        ExecuteDescriptor::GetGlobal { module, name } => {
            if module.is_some() {
                return Err(ErrorKind::UnsupportedCrossModuleInvoke);
            }
            if !resolve_name(&m.global_exports, name) {
                return Err(ErrorKind::UnknownTarget);
            }
            let code: Vec<Instruction> = vec![Instruction::GlobalGet(name.clone())];
            proof {
                assert(code@ =~= seq![Instruction::GlobalGet(*name)]);
            }
            Ok(code)
        },
        ExecuteDescriptor::Other => Err(ErrorKind::UnsupportedDirectiveKind),
    }
}

} // verus!
