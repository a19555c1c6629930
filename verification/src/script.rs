use vstd::prelude::*;


use crate::directive::Directive;
use crate::driver::{fatal_error_spec, output_matches, AssertTransformer, CompileOutput};
use crate::error::{OnUnsupported, ParseError, ScriptError, SourcePos};
use crate::invoke::ExecuteDescriptor;
use crate::module::ModuleInfo;
use crate::value::{ArgValue, ExpectedValue, F32Pattern, F64Pattern};

verus! {

#[verifier::external_type_specification]
#[verifier::external_body]
pub struct ExWastDirective<'a>(wast::WastDirective<'a>);

#[verifier::external_type_specification]
#[verifier::external_body]
pub struct ExQuoteWat<'a>(wast::QuoteWat<'a>);

#[verifier::external_type_specification]
#[verifier::external_body]
pub struct ExWastExecute<'a>(wast::WastExecute<'a>);

#[verifier::external_type_specification]
#[verifier::external_body]
pub struct ExWastArg<'a>(wast::WastArg<'a>);

#[verifier::external_type_specification]
#[verifier::external_body]
pub struct ExWastRet<'a>(wast::WastRet<'a>);

#[verifier::external_type_specification]
#[verifier::external_body]
pub struct ExWastRetCore<'a>(wast::core::WastRetCore<'a>);

#[verifier::external_type_specification]
#[verifier::external_body]
pub struct ExWastArgCore<'a>(wast::core::WastArgCore<'a>);

#[verifier::external_type_specification]
#[verifier::external_body]
pub struct ExModuleField<'a>(wast::core::ModuleField<'a>);

#[verifier::external_type_specification]
#[verifier::external_body]
#[verifier::reject_recursive_types(T)]
pub struct ExNanPattern<T>(wast::core::NanPattern<T>);

#[verifier::external_type_specification]
#[verifier::external_body]
pub struct ExTokenF32(wast::token::F32);

#[verifier::external_type_specification]
#[verifier::external_body]
pub struct ExTokenF64(wast::token::F64);

/// A directive as it leaves the external parser: the variant told apart and
/// the span reduced to its byte offset, the payloads still in the parser's
/// own representation.
enum RawDirective<'a> {
    Module(wast::QuoteWat<'a>),
    AssertReturn(usize, wast::WastExecute<'a>, Vec<wast::WastRet<'a>>),
    AssertTrap(usize, wast::WastExecute<'a>, String),
    AssertInvalid(usize),
    AssertMalformed(usize),
    AssertUnlinkable(usize),
    AssertExhaustion(usize),
    Register(usize),
    Other(usize),
}

/// An execution descriptor as it leaves the external parser: names copied
/// out, arguments still in the parser's representation.
enum RawExecute<'a> {
    Invoke(Option<String>, String, Vec<wast::WastArg<'a>>),
    Get(Option<String>, String),
    Other,
}

/// A module definition as it leaves the external parser: its byte offset and,
/// for a textual module, its fields.
enum RawModule<'a> {
    Text(usize, Vec<wast::core::ModuleField<'a>>),
    Other(usize),
}

/// What one module field contributes to the export lists: a function or
/// global definition with its inline export names, a standalone export field
/// with its name and target kind, or nothing.
#[derive(Debug)]
pub enum FieldInfo {
    Func(Vec<String>),
    Global(Vec<String>),
    Export(String, ExportTarget),
    Other,
}

/// Which kind of item a standalone export field names.
#[derive(Debug)]
pub enum ExportTarget {
    Func,
    Global,
    Other,
}

/// A directive as the external parser reports it, already over plain model
/// values: byte offsets, names, argument values, expected patterns, and per
/// module field its contribution to the export lists. This is what
/// [`parse_of`] names; the verified [`lower_directive`] brings it into the
/// [`Directive`] model, collecting the export lists under a contract.
#[derive(Debug)]
pub enum PreDirective {
    Module(usize, Vec<FieldInfo>),
    AssertReturn(usize, ExecuteDescriptor, Vec<ExpectedValue>),
    AssertTrap(usize, ExecuteDescriptor, String),
    AssertInvalid(usize),
    AssertMalformed(usize),
    AssertUnlinkable(usize),
    AssertExhaustion(usize),
    Register(usize),
    Other(usize),
}

/// What the external parser makes of a script text, as plain values: the
/// pre-model directive sequence, or nothing when the text does not parse.
/// Parsing is a function of the text alone (wast's parser reads no ambient
/// input; its symbol generator only runs during resolution, which this crate
/// never invokes), so its outcome can be named.
pub uninterp spec fn parse_of(text: Seq<char>) -> Option<Seq<PreDirective>>;

/// Relies on wast::parser::ParseBuffer::new and wast::parser::parse::<wast::Wast>:
/// lexes and parses the script text and converts each directive, through the
/// converters below only, into the pre-model, in source order; a fault is
/// reported with its span's byte offset and message. The outcome, success or
/// failure, is what [`parse_of`] names.
#[verifier::external_body]
fn parse_text(text: &str) -> (r: Result<Vec<PreDirective>, ParseError>)
    ensures
        match r {
            Ok(pds) => parse_of(text@) == Some(pds@),
            Err(_) => parse_of(text@) is None,
        },
{
    let buf = match wast::parser::ParseBuffer::new(text) {
        Ok(b) => b,
        Err(e) => return Err(ParseError { pos: SourcePos { offset: e.span().offset() }, message: e.message() }),
    };
    let parsed = match wast::parser::parse::<wast::Wast>(&buf) {
        Ok(w) => w,
        Err(e) => return Err(ParseError { pos: SourcePos { offset: e.span().offset() }, message: e.message() }),
    };
    let mut out = Vec::new();
    for d in parsed.directives {
        out.push(pre_directive(convert_directive(d)));
    }
    Ok(out)
}

/// Relies on wast::WastDirective and Span::offset: tells the module,
/// assert_return and assert_trap variants apart and moves their payloads out;
/// each span becomes its byte offset.
#[verifier::external_body]
fn convert_directive<'a>(d: wast::WastDirective<'a>) -> RawDirective<'a> {
    match d {
        wast::WastDirective::Module(q) => RawDirective::Module(q),
        wast::WastDirective::AssertReturn { span, exec, results } =>
            RawDirective::AssertReturn(span.offset(), exec, results),
        wast::WastDirective::AssertTrap { span, exec, message } =>
            RawDirective::AssertTrap(span.offset(), exec, message.to_string()),
        other => convert_directive_rest(other),
    }
}

/// Relies on wast::WastDirective and Span::offset: the validation-oriented and
/// administrative directive kinds, reduced to kind and byte offset.
#[verifier::external_body]
fn convert_directive_rest<'a>(d: wast::WastDirective<'a>) -> RawDirective<'a> {
    match d {
        wast::WastDirective::AssertInvalid { span, .. } => RawDirective::AssertInvalid(span.offset()),
        wast::WastDirective::AssertInvalidCustom { span, .. } => RawDirective::AssertInvalid(span.offset()),
        wast::WastDirective::AssertMalformed { span, .. } => RawDirective::AssertMalformed(span.offset()),
        wast::WastDirective::AssertMalformedCustom { span, .. } => RawDirective::AssertMalformed(span.offset()),
        wast::WastDirective::AssertUnlinkable { span, .. } => RawDirective::AssertUnlinkable(span.offset()),
        wast::WastDirective::AssertExhaustion { span, .. } => RawDirective::AssertExhaustion(span.offset()),
        wast::WastDirective::Register { span, .. } => RawDirective::Register(span.offset()),
        other => RawDirective::Other(other.span().offset()),
    }
}

/// Relies on wast::QuoteWat, wast::Wat and core::Module: a textual module's byte
/// offset and field list; quoted, binary and component forms are out of the
/// model and keep only their offset.
#[verifier::external_body]
fn convert_module<'a>(q: wast::QuoteWat<'a>) -> RawModule<'a> {
    match q {
        wast::QuoteWat::Wat(wast::Wat::Module(m)) => match m.kind {
            wast::core::ModuleKind::Text(fields) => RawModule::Text(m.span.offset(), fields),
            wast::core::ModuleKind::Binary(_) => RawModule::Other(m.span.offset()),
        },
        other => RawModule::Other(other.span().offset()),
    }
}

/// Relies on wast::core::ModuleField, Func, Global and Export: which fields
/// export names and under what kind; inline export names are copied out.
#[verifier::external_body]
fn classify_field<'a>(f: &wast::core::ModuleField<'a>) -> FieldInfo {
    match f {
        wast::core::ModuleField::Func(func) =>
            FieldInfo::Func(func.exports.names.iter().map(|n| n.to_string()).collect()),
        wast::core::ModuleField::Global(g) =>
            FieldInfo::Global(g.exports.names.iter().map(|n| n.to_string()).collect()),
        wast::core::ModuleField::Export(e) => FieldInfo::Export(e.name.to_string(), match e.kind {
            wast::core::ExportKind::Func => ExportTarget::Func,
            wast::core::ExportKind::Global => ExportTarget::Global,
            _ => ExportTarget::Other,
        }),
        _ => FieldInfo::Other,
    }
}

/// Relies on wast::WastExecute, wast::WastInvoke and Id::name: the target name, the
/// registered module name if any, and the argument list, moved out.
#[verifier::external_body]
fn convert_execute<'a>(e: wast::WastExecute<'a>) -> RawExecute<'a> {
    match e {
        wast::WastExecute::Invoke(wast::WastInvoke { span: _, module, name, args }) =>
            RawExecute::Invoke(module.map(|id| id.name().to_string()), name.to_string(), args),
        wast::WastExecute::Get { span: _, module, global } =>
            RawExecute::Get(module.map(|id| id.name().to_string()), global.to_string()),
        wast::WastExecute::Wat(_) => RawExecute::Other,
    }
}

/// Relies on wast::WastArg: tells core arguments apart from component-model
/// ones, which are outside the value model.
#[verifier::external_body]
fn convert_arg<'a>(a: &wast::WastArg<'a>) -> ArgValue {
    match a {
        wast::WastArg::Core(c) => convert_arg_core(c),
        _ => ArgValue::Other,
    }
}

/// Relies on wast::WastArgCore and token::F32/F64 (whose `bits` field holds
/// the IEEE 754 bits): scalar constants become their raw bit patterns; the
/// other argument domains are recorded by kind alone.
#[verifier::external_body]
fn convert_arg_core<'a>(c: &wast::core::WastArgCore<'a>) -> ArgValue {
    match c {
        wast::core::WastArgCore::I32(v) => ArgValue::I32(*v as u32),
        wast::core::WastArgCore::I64(v) => ArgValue::I64(*v as u64),
        wast::core::WastArgCore::F32(v) => ArgValue::F32(v.bits),
        wast::core::WastArgCore::F64(v) => ArgValue::F64(v.bits),
        wast::core::WastArgCore::V128(_) => ArgValue::V128,
        wast::core::WastArgCore::RefNull(_) => ArgValue::RefNull,
        wast::core::WastArgCore::RefExtern(_) => ArgValue::RefExtern,
        wast::core::WastArgCore::RefHost(_) => ArgValue::RefHost,
    }
}

/// Relies on wast::WastRet: tells core results apart from component-model
/// ones, which are outside the value model.
#[verifier::external_body]
fn convert_ret<'a>(r: &wast::WastRet<'a>) -> ExpectedValue {
    match r {
        wast::WastRet::Core(c) => convert_ret_core(c),
        _ => ExpectedValue::Other,
    }
}

/// Relies on wast::WastRetCore: expected scalar results become their bit
/// patterns; everything else is handed on by kind.
#[verifier::external_body]
fn convert_ret_core<'a>(c: &wast::core::WastRetCore<'a>) -> ExpectedValue {
    match c {
        wast::core::WastRetCore::I32(v) => ExpectedValue::I32(*v as u32),
        wast::core::WastRetCore::I64(v) => ExpectedValue::I64(*v as u64),
        wast::core::WastRetCore::F32(p) => ExpectedValue::F32(convert_nan32(p)),
        wast::core::WastRetCore::F64(p) => ExpectedValue::F64(convert_nan64(p)),
        other => convert_ret_rest(other),
    }
}

/// Relies on wast::core::NanPattern and token::F32, whose `bits` field holds
/// the IEEE 754 bits of the parsed constant.
#[verifier::external_body]
fn convert_nan32(p: &wast::core::NanPattern<wast::token::F32>) -> F32Pattern {
    match p {
        wast::core::NanPattern::Value(v) => F32Pattern::Value(v.bits),
        wast::core::NanPattern::CanonicalNan => F32Pattern::CanonicalNan,
        wast::core::NanPattern::ArithmeticNan => F32Pattern::ArithmeticNan,
    }
}

/// Relies on wast::core::NanPattern and token::F64, whose `bits` field holds
/// the IEEE 754 bits of the parsed constant.
#[verifier::external_body]
fn convert_nan64(p: &wast::core::NanPattern<wast::token::F64>) -> F64Pattern {
    match p {
        wast::core::NanPattern::Value(v) => F64Pattern::Value(v.bits),
        wast::core::NanPattern::CanonicalNan => F64Pattern::CanonicalNan,
        wast::core::NanPattern::ArithmeticNan => F64Pattern::ArithmeticNan,
    }
}

/// Relies on wast::WastRetCore: the non-scalar expected-result kinds, told
/// apart so that the encoder can report each as unsupported.
#[verifier::external_body]
fn convert_ret_rest<'a>(c: &wast::core::WastRetCore<'a>) -> ExpectedValue {
    match c {
        wast::core::WastRetCore::V128(_) => ExpectedValue::V128,
        wast::core::WastRetCore::RefNull(_) => ExpectedValue::RefNull,
        wast::core::WastRetCore::RefExtern(_) => ExpectedValue::RefExtern,
        wast::core::WastRetCore::RefHost(_) => ExpectedValue::RefHost,
        wast::core::WastRetCore::RefFunc(_) => ExpectedValue::RefFunc,
        wast::core::WastRetCore::Either(_) => ExpectedValue::Either,
        other => convert_ret_abstract(other),
    }
}

/// Relies on wast::WastRetCore: the abstract reference-type patterns.
#[verifier::external_body]
fn convert_ret_abstract<'a>(c: &wast::core::WastRetCore<'a>) -> ExpectedValue {
    match c {
        wast::core::WastRetCore::RefAny => ExpectedValue::RefAbstract,
        wast::core::WastRetCore::RefEq => ExpectedValue::RefAbstract,
        wast::core::WastRetCore::RefArray => ExpectedValue::RefAbstract,
        wast::core::WastRetCore::RefStruct => ExpectedValue::RefAbstract,
        wast::core::WastRetCore::RefI31 => ExpectedValue::RefAbstract,
        wast::core::WastRetCore::RefI31Shared => ExpectedValue::RefAbstract,
        _ => ExpectedValue::Other,
    }
}

/// Relies on wast::QuoteWat and core::Module (through [`convert_module`]) and
/// wast::core::ModuleField (through [`classify_field`]): a textual module
/// becomes its offset and per-field export contributions, in field order.
#[verifier::external_body]
fn pre_module<'a>(q: wast::QuoteWat<'a>) -> PreDirective {
    match convert_module(q) {
        RawModule::Text(offset, fields) => PreDirective::Module(
            offset,
            fields.iter().map(classify_field).collect(),
        ),
        RawModule::Other(offset) => PreDirective::Other(offset),
    }
}

/// Relies on wast::WastExecute (through [`convert_execute`]) and
/// wast::WastArgCore (through [`convert_arg`]): the descriptor with each
/// argument converted to its model value, in source order.
#[verifier::external_body]
fn pre_execute<'a>(e: wast::WastExecute<'a>) -> ExecuteDescriptor {
    match convert_execute(e) {
        RawExecute::Invoke(module, name, args) => ExecuteDescriptor::Invoke {
            module,
            name,
            args: args.iter().map(convert_arg).collect(),
        },
        RawExecute::Get(module, name) => ExecuteDescriptor::GetGlobal { module, name },
        RawExecute::Other => ExecuteDescriptor::Other,
    }
}

/// Relies on the converters above: one parsed directive becomes its pre-model
/// form, with expected results converted in source order.
#[verifier::external_body]
fn pre_directive<'a>(rd: RawDirective<'a>) -> PreDirective {
    match rd {
        RawDirective::Module(q) => pre_module(q),
        RawDirective::AssertReturn(o, ex, rets) => PreDirective::AssertReturn(o, pre_execute(ex), rets.iter().map(convert_ret).collect()),
        RawDirective::AssertTrap(o, ex, message) => PreDirective::AssertTrap(o, pre_execute(ex), message),
        RawDirective::AssertInvalid(o) => PreDirective::AssertInvalid(o),
        RawDirective::AssertMalformed(o) => PreDirective::AssertMalformed(o),
        RawDirective::AssertUnlinkable(o) => PreDirective::AssertUnlinkable(o),
        RawDirective::AssertExhaustion(o) => PreDirective::AssertExhaustion(o),
        RawDirective::Register(o) => PreDirective::Register(o),
        RawDirective::Other(o) => PreDirective::Other(o),
    }
}

/// The function export names that the first `n` module fields declare, in
/// field order: a function definition contributes its inline export names, a
/// standalone export field naming a function contributes its name.
pub open spec fn func_exports_upto(fields: Seq<FieldInfo>, n: int) -> Seq<String>
    decreases n,
{
    if n <= 0 {
        Seq::empty()
    } else {
        let rest = func_exports_upto(fields, n - 1);
        match fields[n - 1] {
            FieldInfo::Func(names) => rest + names@,
            FieldInfo::Export(name, target) => if target is Func {
                rest.push(name)
            } else {
                rest
            },
            _ => rest,
        }
    }
}

/// The function export names that a module's fields declare.
pub open spec fn func_exports_of(fields: Seq<FieldInfo>) -> Seq<String> {
    func_exports_upto(fields, fields.len() as int)
}

/// The global export names that the first `n` module fields declare; see
/// [`func_exports_upto`].
pub open spec fn global_exports_upto(fields: Seq<FieldInfo>, n: int) -> Seq<String>
    decreases n,
{
    if n <= 0 {
        Seq::empty()
    } else {
        let rest = global_exports_upto(fields, n - 1);
        match fields[n - 1] {
            FieldInfo::Global(names) => rest + names@,
            FieldInfo::Export(name, target) => if target is Global {
                rest.push(name)
            } else {
                rest
            },
            _ => rest,
        }
    }
}

/// The global export names that a module's fields declare.
pub open spec fn global_exports_of(fields: Seq<FieldInfo>) -> Seq<String> {
    global_exports_upto(fields, fields.len() as int)
}

/// Builds the export lists a module's fields declare, in field order: inline
/// exports on functions and globals, and standalone export fields by their
/// target kind.
#[verifier::loop_isolation(false)]
pub fn collect_exports(offset: usize, fields: &Vec<FieldInfo>) -> (r: ModuleInfo)
    ensures
        r.pos == (SourcePos { offset }),
        r.func_exports@ == func_exports_of(fields@),
        r.global_exports@ == global_exports_of(fields@),
{
    let mut funcs: Vec<String> = Vec::new();
    let mut globals: Vec<String> = Vec::new();
    let mut i: usize = 0;
    while i < fields.len()
        invariant
            i <= fields.len(),
            funcs@ == func_exports_upto(fields@, i as int),
            globals@ == global_exports_upto(fields@, i as int),
        decreases fields.len() - i,
    {
        match &fields[i] {
            FieldInfo::Func(names) => {
                let mut copied = crate::module::clone_names(names);
                funcs.append(&mut copied);
            },
            FieldInfo::Global(names) => {
                let mut copied = crate::module::clone_names(names);
                globals.append(&mut copied);
            },
            FieldInfo::Export(name, ExportTarget::Func) => {
                funcs.push(name.clone());
            },
            FieldInfo::Export(name, ExportTarget::Global) => {
                globals.push(name.clone());
            },
            _ => {},
        }
        i = i + 1;
    }
    ModuleInfo { pos: SourcePos { offset }, func_exports: funcs, global_exports: globals }
}

/// How one pre-model directive reads in the directive model: every payload is
/// carried over unchanged at the directive's byte offset, and a module's
/// export lists are exactly what its fields declare, in field order.
pub open spec fn lowered_matches(pd: PreDirective, d: Directive) -> bool {
    match pd {
        PreDirective::Module(offset, fields) => {
            &&& d matches Directive::Module { pos, info }
            &&& pos == (SourcePos { offset })
            &&& info.pos == (SourcePos { offset })
            &&& info.func_exports@ == func_exports_of(fields@)
            &&& info.global_exports@ == global_exports_of(fields@)
        },
        PreDirective::AssertReturn(offset, exec_desc, results) => d == (Directive::AssertReturn {
            pos: SourcePos { offset },
            exec_desc,
            results,
        }),
        PreDirective::AssertTrap(offset, exec_desc, message) => d == (Directive::AssertTrap {
            pos: SourcePos { offset },
            exec_desc,
            message,
        }),
        PreDirective::AssertInvalid(offset) => d == (Directive::AssertInvalid {
            pos: SourcePos { offset },
        }),
        PreDirective::AssertMalformed(offset) => d == (Directive::AssertMalformed {
            pos: SourcePos { offset },
        }),
        PreDirective::AssertUnlinkable(offset) => d == (Directive::AssertUnlinkable {
            pos: SourcePos { offset },
        }),
        PreDirective::AssertExhaustion(offset) => d == (Directive::AssertExhaustion {
            pos: SourcePos { offset },
        }),
        PreDirective::Register(offset) => d == (Directive::Register {
            pos: SourcePos { offset },
        }),
        PreDirective::Other(offset) => d == (Directive::Other { pos: SourcePos { offset } }),
    }
}

/// How a whole pre-model sequence reads in the directive model, element for
/// element in source order.
pub open spec fn lowered_all(pds: Seq<PreDirective>, ds: Seq<Directive>) -> bool {
    &&& ds.len() == pds.len()
    &&& forall|i: int| 0 <= i < pds.len() ==> lowered_matches(pds[i], #[trigger] ds[i])
}

/// Brings one pre-model directive into the directive model, collecting a
/// module's export lists.
pub fn lower_directive(pd: PreDirective) -> (r: Directive)
    ensures
        lowered_matches(pd, r),
{
    match pd {
        PreDirective::Module(offset, fields) => {
            let info = collect_exports(offset, &fields);
            Directive::Module { pos: SourcePos { offset }, info }
        },
        PreDirective::AssertReturn(offset, exec_desc, results) => Directive::AssertReturn {
            pos: SourcePos { offset },
            exec_desc,
            results,
        },
        PreDirective::AssertTrap(offset, exec_desc, message) => Directive::AssertTrap {
            pos: SourcePos { offset },
            exec_desc,
            message,
        },
        PreDirective::AssertInvalid(offset) => Directive::AssertInvalid {
            pos: SourcePos { offset },
        },
        PreDirective::AssertMalformed(offset) => Directive::AssertMalformed {
            pos: SourcePos { offset },
        },
        PreDirective::AssertUnlinkable(offset) => Directive::AssertUnlinkable {
            pos: SourcePos { offset },
        },
        PreDirective::AssertExhaustion(offset) => Directive::AssertExhaustion {
            pos: SourcePos { offset },
        },
        PreDirective::Register(offset) => Directive::Register { pos: SourcePos { offset } },
        PreDirective::Other(offset) => Directive::Other { pos: SourcePos { offset } },
    }
}

/// Obtains the parsed directive sequence of a script text from the external
/// parser and brings it into the model, in source order: the lowering, under
/// [`lowered_all`], of exactly the pre-model sequence that [`parse_of`]
/// names, with a [`ParseError`] exactly when the text does not parse. The
/// compiler's guarantees then continue at
/// [`crate::driver::compile_directives`], which pins the output for that
/// sequence.
#[verifier::loop_isolation(false)]
pub fn parse_script(text: &str) -> (r: Result<Vec<Directive>, ParseError>)
    ensures
        r matches Ok(ds) ==> parse_of(text@) matches Some(pds) && lowered_all(pds, ds@),
        r is Err <==> parse_of(text@) is None,
{
    let pre = match parse_text(text) {
        Ok(p) => p,
        Err(e) => {
            return Err(e);
        },
    };
    let ghost pds = pre@;
    let mut rest = pre;
    let mut out: Vec<Directive> = Vec::new();
    proof {
        assert(rest@ =~= pds.skip(0));
    }
    while rest.len() > 0
        invariant
            out@.len() + rest@.len() == pds.len(),
            rest@ == pds.skip(out@.len() as int),
            forall|i: int| 0 <= i < out@.len() ==> lowered_matches(pds[i], #[trigger] out@[i]),
        decreases rest@.len(),
    {
        let ghost k = out@.len() as int;
        let ghost before = rest@;
        let pd = rest.remove(0);
        proof {
            assert(pd == pds[k]);
            assert(rest@ =~= before.subrange(1, before.len() as int));
            assert(rest@ =~= pds.skip(k + 1));
        }
        let d = lower_directive(pd);
        out.push(d);
    }
    proof {
        assert(lowered_all(pds, out@));
    }
    Ok(out)
}

/// Compiles raw WAST script text: parse through the external capability, then
/// transform. The result is a parse error exactly when the text does not
/// parse; otherwise it is the compilation that
/// [`crate::driver::compile_directives`] gives for the lowering of the
/// pre-model sequence named by [`parse_of`].
pub fn compile_script(text: &str, on_unsupported: OnUnsupported) -> (r: Result<
    CompileOutput,
    ScriptError,
>)
    ensures
        match r {
            Ok(out) => parse_of(text@) matches Some(pds) && (exists|ds: Seq<Directive>|
                #[trigger] lowered_all(pds, ds) && fatal_error_spec(ds, on_unsupported) is None
                    && output_matches(out, ds, on_unsupported)),
            Err(ScriptError::Compile(e)) => parse_of(text@) matches Some(pds) && (exists|
                ds: Seq<Directive>,
            |
                #[trigger] lowered_all(pds, ds) && fatal_error_spec(ds, on_unsupported) == Some(
                    e,
                )),
            Err(ScriptError::Parse(_)) => parse_of(text@) is None,
        },
{
    let directives = match parse_script(text) {
        Ok(ds) => ds,
        Err(e) => {
            return Err(ScriptError::Parse(e));
        },
    };
    let ghost pds = parse_of(text@).unwrap();
    proof {
        assert(lowered_all(pds, directives@));
    }
    match crate::driver::compile_directives(&directives, on_unsupported) {
        Ok(out) => {
            proof {
                assert(exists|ds: Seq<Directive>|
                    #[trigger] lowered_all(pds, ds) && fatal_error_spec(ds, on_unsupported)
                        is None && output_matches(out, ds, on_unsupported));
            }
            Ok(out)
        },
        Err(e) => {
            proof {
                assert(exists|ds: Seq<Directive>|
                    #[trigger] lowered_all(pds, ds) && fatal_error_spec(ds, on_unsupported)
                        == Some(e));
            }
            Err(ScriptError::Compile(e))
        },
    }
}

impl AssertTransformer {
    /// Parses script text through the external parser into the owned
    /// directive model, ready for [`AssertTransformer::transform`]: the
    /// directives are the lowering, under [`lowered_all`], of the pre-model
    /// sequence that [`parse_of`] names, with a [`ParseError`] exactly when
    /// the text does not parse.
    pub fn from_str(contents: &str) -> (r: Result<AssertTransformer, ParseError>)
        ensures
            r matches Ok(t) ==> parse_of(contents@) matches Some(pds) && lowered_all(
                pds,
                t.directives@,
            ),
            r is Err <==> parse_of(contents@) is None,
    {
        match parse_script(contents) {
            Ok(directives) => Ok(AssertTransformer { directives }),
            Err(e) => Err(e),
        }
    }
}

} // verus!
