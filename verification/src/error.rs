//! The error type a compile call can surface.

use vstd::prelude::*;

verus! {

/// Spec-level form of a compilation error: string payloads as character
/// sequences, so that the generation model can build error values in ghost
/// code.
pub enum ErrorSpec {
    /// The graph holds no node of the entry type the requested stage needs.
    EntryPointNotFound,
    /// Stage auto-detection found neither a fragment nor a vertex entry node.
    NoEntryPoint,
    /// A traversed node names a type that the descriptor catalog lacks.
    NodeTypeNotFound(Seq<char>),
    /// A node that needs a result variable was not assigned one.
    MissingResultVariable(Seq<char>),
    /// An input pin has no connection, constant or default source.
    UnboundInput(Seq<char>, Seq<char>),
    /// Inlining pure expressions exceeded the depth any acyclic graph allows.
    CyclicPureExpression(Seq<char>),
    /// Any other failure, with a message.
    Other(Seq<char>),
}

/// An error from one compile call. Detection is terminal: the call aborts at
/// the first error and returns no partial text.
#[derive(Debug, Clone, PartialEq, Eq)]
pub enum CompileError {
    /// The graph holds no node of the entry type the requested stage needs.
    EntryPointNotFound,
    /// Stage auto-detection found neither a fragment nor a vertex entry node.
    NoEntryPoint,
    /// The named node type is absent from the descriptor catalog.
    NodeTypeNotFound(String),
    /// The node with the given id was assigned no result variable.
    MissingResultVariable(String),
    /// The input pin (node id, pin name) resolved to no source at all.
    UnboundInput(String, String),
    /// Pure-expression inlining at the given node exceeded the depth bound.
    CyclicPureExpression(String),
    /// Any other failure, with a message.
    Other(String),
}

impl View for CompileError {
    type V = ErrorSpec;

    open spec fn view(&self) -> ErrorSpec {
        match self {
            CompileError::EntryPointNotFound => ErrorSpec::EntryPointNotFound,
            CompileError::NoEntryPoint => ErrorSpec::NoEntryPoint,
            CompileError::NodeTypeNotFound(t) => ErrorSpec::NodeTypeNotFound(t@),
            CompileError::MissingResultVariable(n) => ErrorSpec::MissingResultVariable(n@),
            CompileError::UnboundInput(n, p) => ErrorSpec::UnboundInput(n@, p@),
            CompileError::CyclicPureExpression(n) => ErrorSpec::CyclicPureExpression(n@),
            CompileError::Other(m) => ErrorSpec::Other(m@),
        }
    }
}

/// What `CompileError::message` returns for each error value.
pub open spec fn err_message(e: ErrorSpec) -> Seq<char> {
    match e {
        ErrorSpec::EntryPointNotFound => "no entry point of the requested stage in graph"@,
        ErrorSpec::NoEntryPoint => "no shader entry point found (vertex_main or fragment_main)"@,
        ErrorSpec::NodeTypeNotFound(t) => "node type not found: "@ + t,
        ErrorSpec::MissingResultVariable(n) => "no result variable for node: "@ + n,
        ErrorSpec::UnboundInput(n, p) => "no data source for input: "@ + n + "."@ + p,
        ErrorSpec::CyclicPureExpression(n) => "cyclic pure expression at node: "@ + n,
        ErrorSpec::Other(m) => m,
    }
}

impl CompileError {
    /// A human-readable description of the error.
    pub fn message(&self) -> (r: String)
        ensures
            r@ == err_message(self@),
    {
        match self {
            CompileError::EntryPointNotFound => String::from_str(
                "no entry point of the requested stage in graph",
            ),
            CompileError::NoEntryPoint => String::from_str(
                "no shader entry point found (vertex_main or fragment_main)",
            ),
            CompileError::NodeTypeNotFound(t) => String::from_str("node type not found: ").concat(
                t.as_str(),
            ),
            CompileError::MissingResultVariable(n) => String::from_str(
                "no result variable for node: ",
            ).concat(n.as_str()),
            CompileError::UnboundInput(n, p) => String::from_str("no data source for input: ")
                .concat(n.as_str())
                .concat(".")
                .concat(p.as_str()),
            CompileError::CyclicPureExpression(n) => String::from_str(
                "cyclic pure expression at node: ",
            ).concat(n.as_str()),
            CompileError::Other(m) => m.clone(),
        }
    }
}

} // verus!
