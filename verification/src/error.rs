use vstd::prelude::*;

verus! {

/// A byte offset into the script source, attached to every directive and
/// to every diagnostic so that errors can be reported per directive.
#[derive(Debug, Clone, Copy, PartialEq, Eq, Structural)]
pub struct SourcePos {
    pub offset: usize,
}

/// The kinds of failure that compiling a script or a single directive can
/// produce. Every error is a value; nothing in this crate aborts the process.
#[derive(Debug, Clone, Copy, PartialEq, Eq, Structural)]
pub enum ErrorKind {
    /// The script holds no module definition.
    NoModule,
    /// The script holds more than one module definition.
    MultipleModules,
    /// An invocation names a function or global that the module does not export.
    UnknownTarget,
    /// An invocation names a registered module other than the one being compiled.
    UnsupportedCrossModuleInvoke,
    /// A value literal lies in a domain the encoder does not model yet
    /// (vectors, references, alternative patterns).
    UnsupportedValueKind,
    /// An assertion expects a number of results other than exactly one.
    UnsupportedArity,
    /// A directive kind that the assertion compiler does not handle yet.
    UnsupportedDirectiveKind,
}

/// A directive-scoped compilation error: what went wrong, and where.
#[derive(Debug, Clone, Copy, PartialEq, Eq, Structural)]
pub struct CompileError {
    pub pos: SourcePos,
    pub kind: ErrorKind,
}

/// An error reported by the external parser, carried through unchanged.
#[derive(Debug)]
pub struct ParseError {
    pub pos: SourcePos,
    pub message: String,
}

/// An error from compiling raw script text: either the text failed to parse,
/// or the parsed directives failed to compile.
#[derive(Debug)]
pub enum ScriptError {
    Parse(ParseError),
    Compile(CompileError),
}

/// Governs what happens when a directive cannot be compiled: halt with that
/// error, or record it and go on with the remaining directives.
#[derive(Debug, Clone, Copy, PartialEq, Eq, Structural)]
pub enum OnUnsupported {
    Abort,
    SkipAndReport,
}

} // verus!
