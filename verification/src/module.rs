use vstd::prelude::*;

use crate::error::SourcePos;
use crate::ir::Instruction;

verus! {

/// What the compiler reads of the script's one module: where it was defined
/// and which function and global names it exports. Invocations resolve their
/// target names against these lists; the module's own definitions pass through
/// the compilation untouched.
#[derive(Debug)]
pub struct ModuleInfo {
    pub pos: SourcePos,
    pub func_exports: Vec<String>,
    pub global_exports: Vec<String>,
}

/// The compiled artifact: the script's module, augmented with one synthesized
/// entry function whose body is the concatenation, in source order, of every
/// compiled assertion block, and which is exported under `entry_name`.
/// Executing the entry function traps exactly when some assertion's check
/// failed.
#[derive(Debug)]
pub struct CompiledScript {
    pub module: ModuleInfo,
    pub entry_name: String,
    pub entry_body: Vec<Instruction>,
}

/// Equality of module summaries up to the abstract contents of their name
/// lists.
pub open spec fn module_info_like(a: ModuleInfo, b: ModuleInfo) -> bool {
    &&& a.pos == b.pos
    &&& a.func_exports@ == b.func_exports@
    &&& a.global_exports@ == b.global_exports@
}

/// Duplicates a module summary; the copy carries the same position and the
/// same names.
pub fn duplicate_module_info(m: &ModuleInfo) -> (r: ModuleInfo)
    ensures
        module_info_like(r, *m),
{
    let funcs = clone_names(&m.func_exports);
    let globals = clone_names(&m.global_exports);
    ModuleInfo { pos: m.pos, func_exports: funcs, global_exports: globals }
}

/// Copies a list of names element by element.
pub(crate) fn clone_names(names: &Vec<String>) -> (r: Vec<String>)
    ensures
        r@ == names@,
{
    let mut out: Vec<String> = Vec::new();
    let mut i: usize = 0;
    while i < names.len()
        invariant
            i <= names.len(),
            out@ =~= names@.subrange(0, i as int),
        decreases names.len() - i,
    {
        out.push(names[i].clone());
        i = i + 1;
    }
    proof {
        assert(out@ =~= names@);
    }
    out
}

/// Merges the script's single module and the compiled assertion blocks, in
/// the order given, into the final artifact: a module summary unchanged from
/// the input, plus one entry function exported as `run_assertions` whose body
/// is the blocks' concatenation. Consumes the blocks.
pub fn assemble_script(module: ModuleInfo, blocks: Vec<Vec<Instruction>>) -> (r: CompiledScript)
    ensures
        module_info_like(r.module, module),
        r.entry_name@ == "run_assertions"@,
        r.entry_body@ == blocks@.map_values(|b: Vec<Instruction>| b@).flatten(),
{
    let body = concat_blocks(blocks);
    CompiledScript {
        module,
        entry_name: entry_point_name(),
        entry_body: body,
    }
}

/// The fixed, documented name under which the synthesized entry function is
/// exported.
pub fn entry_point_name() -> (r: String)
    ensures
        r@ == "run_assertions"@,
{
    let s: &str = "run_assertions";
    s.to_owned()
}

/// Concatenates instruction blocks in order.
#[verifier::loop_isolation(false)]
fn concat_blocks(blocks: Vec<Vec<Instruction>>) -> (r: Vec<Instruction>)
    ensures
        r@ == blocks@.map_values(|b: Vec<Instruction>| b@).flatten(),
{
    let ghost views = blocks@.map_values(|b: Vec<Instruction>| b@);
    let ghost n: int = views.len() as int;
    let mut out: Vec<Instruction> = Vec::new();
    let mut rest = blocks;
    proof {
        assert(views.subrange(0, 0).flatten() =~= Seq::<Instruction>::empty());
        assert(rest@.map_values(|b: Vec<Instruction>| b@) =~= views.subrange(n - rest@.len(), n));
    }
    while rest.len() > 0
        invariant
            rest@.len() <= n,
            rest@.map_values(|b: Vec<Instruction>| b@) == views.subrange(
                n - rest@.len(),
                n,
            ),
            out@ == views.subrange(0, n - rest@.len()).flatten(),
        decreases rest@.len(),
    {
        let ghost k = n - rest@.len();
        let ghost prefix = views.subrange(0, k);
        let ghost before = rest@;
        let mut block = rest.remove(0);
        proof {
            assert(before.map_values(|b: Vec<Instruction>| b@)[0] == views.subrange(k, n)[0]);
            assert(block@ == views[k]);
            assert forall|j: int| 0 <= j < rest@.len() implies rest@.map_values(
                |b: Vec<Instruction>| b@,
            )[j] == #[trigger] views.subrange(k + 1, n)[j] by {
                assert(rest@ =~= before.subrange(1, before.len() as int));
                assert(rest@[j] == before[j + 1]);
                assert(before.map_values(|b: Vec<Instruction>| b@)[j + 1] == views.subrange(
                    k,
                    n,
                )[j + 1]);
                assert(views.subrange(k, n)[j + 1] == views[k + 1 + j]);
                assert(views.subrange(k + 1, n)[j] == views[k + 1 + j]);
            }
            assert(rest@.map_values(|b: Vec<Instruction>| b@) =~= views.subrange(k + 1, n));
            prefix.lemma_flatten_push(views[k]);
            assert(prefix.push(views[k]) =~= views.subrange(0, k + 1));
        }
        out.append(&mut block);
    }
    proof {
        assert(views.subrange(0, n) =~= views);
    }
    out
}

} // verus!
