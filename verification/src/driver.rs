use vstd::prelude::*;
use vstd::pervasive::unreached;

use crate::directive::{assertion_code_spec, compile_assertion, Directive};
use crate::error::{CompileError, ErrorKind, OnUnsupported, SourcePos};
use crate::ir::Instruction;
use crate::module::{
    assemble_script, duplicate_module_info, module_info_like, CompiledScript, ModuleInfo,
};

verus! {

/// What a successful compilation hands back: the compiled script, and the
/// per-directive errors that were recorded and skipped (empty unless the
/// configuration says to skip and report).
pub struct CompileOutput {
    pub script: CompiledScript,
    pub errors: Vec<CompileError>,
}

/// How many of the first `n` directives are module definitions.
pub open spec fn module_count_upto(ds: Seq<Directive>, n: int) -> nat
    decreases n,
{
    if n <= 0 {
        0
    } else {
        module_count_upto(ds, n - 1) + if ds[n - 1] is Module {
            1nat
        } else {
            0nat
        }
    }
}

/// How many directives are module definitions.
pub open spec fn module_count(ds: Seq<Directive>) -> nat {
    module_count_upto(ds, ds.len() as int)
}

/// The first module definition among the first `n` directives, if any.
pub open spec fn first_module_upto(ds: Seq<Directive>, n: int) -> Option<ModuleInfo>
    decreases n,
{
    if n <= 0 {
        None
    } else {
        match first_module_upto(ds, n - 1) {
            Some(mi) => Some(mi),
            None => match ds[n - 1] {
                Directive::Module { info, .. } => Some(info),
                _ => None,
            },
        }
    }
}

/// The summary of the script's one module. Meaningful when the script holds
/// at least one module definition.
pub open spec fn script_module(ds: Seq<Directive>) -> Option<ModuleInfo> {
    first_module_upto(ds, ds.len() as int)
}

/// The position of the second module definition among the first `n`
/// directives, if any: the position reported for a multiple-modules error.
pub open spec fn second_module_pos_upto(ds: Seq<Directive>, n: int) -> Option<SourcePos>
    decreases n,
{
    if n <= 0 {
        None
    } else {
        match second_module_pos_upto(ds, n - 1) {
            Some(p) => Some(p),
            None => if ds[n - 1] is Module && module_count_upto(ds, n - 1) >= 1 {
                Some(ds[n - 1].position())
            } else {
                None
            },
        }
    }
}

/// The position of the second module definition, if any.
pub open spec fn second_module_pos(ds: Seq<Directive>) -> Option<SourcePos> {
    second_module_pos_upto(ds, ds.len() as int)
}

/// The compiled blocks of the non-module directives among the first `n`,
/// in source order, keeping only the ones that compile.
pub open spec fn blocks_upto(ds: Seq<Directive>, m: ModuleInfo, n: int) -> Seq<Seq<Instruction>>
    decreases n,
{
    if n <= 0 {
        Seq::empty()
    } else {
        let rest = blocks_upto(ds, m, n - 1);
        if ds[n - 1] is Module {
            rest
        } else {
            match assertion_code_spec(ds[n - 1], m) {
                Ok(code) => rest.push(code),
                Err(_) => rest,
            }
        }
    }
}

/// The compiled blocks of the whole script, in source order.
pub open spec fn compiled_blocks(ds: Seq<Directive>, m: ModuleInfo) -> Seq<Seq<Instruction>> {
    blocks_upto(ds, m, ds.len() as int)
}

/// The per-directive errors of the non-module directives among the first `n`,
/// in source order.
pub open spec fn errors_upto(ds: Seq<Directive>, m: ModuleInfo, n: int) -> Seq<CompileError>
    decreases n,
{
    if n <= 0 {
        Seq::empty()
    } else {
        let rest = errors_upto(ds, m, n - 1);
        if ds[n - 1] is Module {
            rest
        } else {
            match assertion_code_spec(ds[n - 1], m) {
                Ok(_) => rest,
                Err(e) => rest.push(e),
            }
        }
    }
}

/// All per-directive errors of the script, in source order.
pub open spec fn compile_errors(ds: Seq<Directive>, m: ModuleInfo) -> Seq<CompileError> {
    errors_upto(ds, m, ds.len() as int)
}

/// The first per-directive error of the script, if any.
pub open spec fn first_error(ds: Seq<Directive>, m: ModuleInfo) -> Option<CompileError> {
    if compile_errors(ds, m).len() == 0 {
        None
    } else {
        Some(compile_errors(ds, m)[0])
    }
}

/// The error on which compiling the whole script stops, if any: a script
/// without a module fails with `NoModule` (reported at the script's start),
/// one with several modules fails with `MultipleModules` at the second
/// module's position, and in abort mode the first per-directive error is
/// fatal. In skip-and-report mode per-directive errors are not fatal.
pub open spec fn fatal_error_spec(ds: Seq<Directive>, cfg: OnUnsupported) -> Option<CompileError> {
    if module_count(ds) == 0 {
        Some(CompileError { pos: SourcePos { offset: 0 }, kind: ErrorKind::NoModule })
    } else if module_count(ds) >= 2 {
        Some(
            CompileError { pos: second_module_pos(ds).unwrap(), kind: ErrorKind::MultipleModules },
        )
    } else if cfg is Abort {
        first_error(ds, script_module(ds).unwrap())
    } else {
        None
    }
}

/// What a successful compilation looks like: the output module is the
/// script's one module, unchanged; the entry function is exported as
/// `run_assertions`; its body is the concatenation, in source order, of the
/// compiled assertion blocks; and the reported errors are exactly the
/// per-directive errors, in source order (none in abort mode, where any error
/// would have been fatal instead).
pub open spec fn output_matches(out: CompileOutput, ds: Seq<Directive>, cfg: OnUnsupported) -> bool {
    let m = script_module(ds).unwrap();
    &&& module_info_like(out.script.module, m)
    &&& out.script.entry_name@ == "run_assertions"@
    &&& out.script.entry_body@ == compiled_blocks(ds, m).flatten()
    &&& out.errors@ == if cfg is Abort {
        Seq::<CompileError>::empty()
    } else {
        compile_errors(ds, m)
    }
}

/// Earlier error prefixes persist: the errors seen among the first `i`
/// directives open the error list of any longer prefix.
proof fn lemma_errors_upto_prefix(ds: Seq<Directive>, m: ModuleInfo, i: int, n: int)
    requires
        0 <= i <= n,
    ensures
        errors_upto(ds, m, i).is_prefix_of(errors_upto(ds, m, n)),
    decreases n - i,
{
    if i < n {
        lemma_errors_upto_prefix(ds, m, i, n - 1);
        let early = errors_upto(ds, m, i);
        let shorter = errors_upto(ds, m, n - 1);
        let longer = errors_upto(ds, m, n);
        assert(shorter.is_prefix_of(longer)) by {
            if shorter != longer {
                assert(shorter =~= longer.subrange(0, shorter.len() as int));
            }
        }
        assert(early =~= longer.subrange(0, early.len() as int));
    }
}

/// Compiles a parsed directive sequence into one module with a synthesized
/// entry function. Fails fast when the script does not hold exactly one
/// module definition; otherwise compiles each non-module directive in source
/// order, and, per the configuration, either stops at the first
/// per-directive error or records it and goes on. Returns exactly what
/// [`fatal_error_spec`] and [`output_matches`] describe.
#[verifier::loop_isolation(false)]
pub fn compile_directives(ds: &Vec<Directive>, cfg: OnUnsupported) -> (r: Result<
    CompileOutput,
    CompileError,
>)
    ensures
        match r {
            Ok(out) => fatal_error_spec(ds@, cfg) is None && output_matches(out, ds@, cfg),
            Err(e) => fatal_error_spec(ds@, cfg) == Some(e),
        },
{
    let n = ds.len();
    // First pass: find the script's one module, or reject the script.
    let mut count: usize = 0;
    let mut first_idx: usize = 0;
    let mut second_pos: SourcePos = SourcePos { offset: 0 };
    let mut i: usize = 0;
    while i < n
        invariant
            i <= n,
            count as nat == module_count_upto(ds@, i as int),
            count <= i,
            match first_module_upto(ds@, i as int) {
                Some(mi) => {
                    &&& count >= 1
                    &&& first_idx < i
                    &&& ds@[first_idx as int] matches Directive::Module { info, .. } && info == mi
                },
                None => count == 0,
            },
            match second_module_pos_upto(ds@, i as int) {
                Some(p) => count >= 2 && second_pos == p,
                None => count <= 1,
            },
        decreases n - i,
    {
        match &ds[i] {
            Directive::Module { pos, .. } => {
                if count == 0 {
                    first_idx = i;
                } else if count == 1 {
                    second_pos = *pos;
                }
                count = count + 1;
            },
            _ => {},
        }
        i = i + 1;
    }
    if count == 0 {
        return Err(CompileError { pos: SourcePos { offset: 0 }, kind: ErrorKind::NoModule });
    }
    if count >= 2 {
        return Err(CompileError { pos: second_pos, kind: ErrorKind::MultipleModules });
    }
    let module_ref: &ModuleInfo = match &ds[first_idx] {
        Directive::Module { info, .. } => info,
        _ => unreached(),
    };
    let ghost m = *module_ref;
    proof {
        assert(script_module(ds@) == Some(m));
    }
    // Second pass: compile every non-module directive, in source order.
    let mut blocks: Vec<Vec<Instruction>> = Vec::new();
    let mut errs: Vec<CompileError> = Vec::new();
    let mut j: usize = 0;
    while j < n
        invariant
            j <= n,
            blocks@.map_values(|b: Vec<Instruction>| b@) == blocks_upto(ds@, m, j as int),
            errs@ == errors_upto(ds@, m, j as int),
            cfg is Abort ==> errs@.len() == 0,
        decreases n - j,
    {
        let is_module = match &ds[j] {
            Directive::Module { .. } => true,
            _ => false,
        };
        if !is_module {
            match compile_assertion(&ds[j], module_ref) {
                Ok(block) => {
                    let ghost old_views = blocks@.map_values(|b: Vec<Instruction>| b@);
                    let ghost block_view = block@;
                    blocks.push(block);
                    proof {
                        assert(blocks@.map_values(|b: Vec<Instruction>| b@) =~= old_views.push(
                            block_view,
                        ));
                    }
                },
                Err(e) => {
                    match cfg {
                        OnUnsupported::Abort => {
                            proof {
                                lemma_errors_upto_prefix(ds@, m, j as int + 1, ds@.len() as int);
                                let full = compile_errors(ds@, m);
                                let pre = errors_upto(ds@, m, j as int + 1);
                                assert(pre =~= seq![e]);
                                assert(pre.is_prefix_of(full));
                                assert(pre.len() == 1);
                                assert(full.len() >= 1);
                                assert(pre =~= full.subrange(0, pre.len() as int));
                                assert(pre[0] == e);
                                assert(full.subrange(0, 1)[0] == full[0]);
                                assert(full[0] == e);
                                assert(first_error(ds@, m) == Some(e));
                            }
                            return Err(e);
                        },
                        OnUnsupported::SkipAndReport => {
                            errs.push(e);
                        },
                    }
                },
            }
        }
        j = j + 1;
    }
    let module_copy = duplicate_module_info(module_ref);
    let script = assemble_script(module_copy, blocks);
    let out = CompileOutput { script, errors: errs };
    proof {
        assert(module_count(ds@) == 1);
        assert(out.errors@ == errors_upto(ds@, m, ds@.len() as int));
        assert(cfg is Abort ==> first_error(ds@, m) is None);
        assert(fatal_error_spec(ds@, cfg) is None);
        assert(module_info_like(out.script.module, m));
        assert(out.script.entry_body@ == compiled_blocks(ds@, m).flatten());
        if cfg is Abort {
            assert(out.errors@ =~= Seq::<CompileError>::empty());
        }
        assert(output_matches(out, ds@, cfg));
    }
    Ok(out)
}

/// Compiles a whole script held as a parsed directive sequence: the
/// transformation engine behind [`AssertTransformer::transform`].
pub struct AssertTransformer {
    pub directives: Vec<Directive>,
}

impl AssertTransformer {
    /// Wraps an already-parsed directive sequence.
    pub fn new(directives: Vec<Directive>) -> (r: AssertTransformer)
        ensures
            r.directives == directives,
    {
        AssertTransformer { directives }
    }

    /// Transforms a single directive into its compiled instruction block,
    /// resolving invocation targets against the given module.
    pub fn transform_assert(&self, d: &Directive, m: &ModuleInfo) -> (r: Result<
        Vec<Instruction>,
        CompileError,
    >)
        ensures
            crate::invoke::code_result_matches(r, assertion_code_spec(*d, *m)),
    {
        compile_assertion(d, m)
    }

    /// Transforms the whole directive sequence into the compiled script, as
    /// [`compile_directives`] describes.
    pub fn transform(&self, on_unsupported: OnUnsupported) -> (r: Result<
        CompileOutput,
        CompileError,
    >)
        ensures
            match r {
                Ok(out) => fatal_error_spec(self.directives@, on_unsupported) is None
                    && output_matches(out, self.directives@, on_unsupported),
                Err(e) => fatal_error_spec(self.directives@, on_unsupported) == Some(e),
            },
    {
        compile_directives(&self.directives, on_unsupported)
    }
}

} // verus!
