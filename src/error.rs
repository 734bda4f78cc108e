use vstd::prelude::*;

use crate::parse_tree::NodeKind;

verus! {

/// Why a parse tree could not be turned into a command.
#[derive(Debug, Clone, PartialEq, Eq, Structural)]
pub enum AstError {
    /// An `if` without its condition or its `then` branch.
    IncompleteConditional,
    /// A `while` without its condition or its body.
    IncompleteLoop,
    /// A heredoc clause met while no source of input lines was given.
    MissingHeredocSource,
    /// The input lines ran out before the heredoc's delimiter line came.
    UnterminatedHeredoc,
    /// A node of a kind that has no meaning where it stands.
    Unsupported(NodeKind),
}

/// A builtin's name with an explanation of what went wrong.
#[derive(Debug, Clone)]
pub struct Expl {
    pub name: String,
    pub expl: String,
}

impl Expl {
    /// The diagnostic `<name>: <expl>`.
    pub fn text(&self) -> (r: String)
        ensures
            r@ == self.name@ + ": "@ + self.expl@,
    {
        self.name.clone().concat(": ").concat(self.expl.as_str())
    }
}

/// Why a command could not be carried out.
#[derive(Debug, Clone)]
pub enum ExecError {
    Failed,
    /// The command name names no executable file.
    UnknownCmd,
    /// A builtin failed, with its explanation.
    General(Box<Expl>),
    /// An operation on a file or a process failed, with the system's message.
    IO(Box<String>),
    /// A feature that has no executable meaning yet, with its name.
    NotImplemented(String),
    /// Alias expansions nested deeper than the executor allows.
    AliasDepthExceeded,
}

impl ExecError {
    /// The error of builtin `name`, explained by `expl`.
    pub fn new(name: &str, expl: &str) -> (r: Self)
        ensures
            r matches ExecError::General(e) && e.name@ == name@ && e.expl@ == expl@,
    {
        ExecError::General(Box::new(Expl { name: name.to_owned(), expl: expl.to_owned() }))
    }
}

/// Any error that ends the handling of one input line.
#[derive(Debug, Clone)]
pub enum TrshError {
    Ast(AstError),
    Exec(ExecError),
    /// The parser rejected the text, with its message.
    Parse(String),
}

impl TrshError {
    /// The execution error of builtin `name`, explained by `expl`.
    pub fn gen_exec(name: &str, expl: &str) -> (r: Self)
        ensures
            r matches TrshError::Exec(ExecError::General(e)) && e.name@ == name@ && e.expl@
                == expl@,
    {
        TrshError::Exec(ExecError::new(name, expl))
    }
}

impl From<ExecError> for TrshError {
    fn from(value: ExecError) -> Self {
        TrshError::Exec(value)
    }
}

impl vstd::std_specs::convert::FromSpecImpl<ExecError> for TrshError {
    open spec fn obeys_from_spec() -> bool {
        true
    }

    open spec fn from_spec(v: ExecError) -> TrshError {
        TrshError::Exec(v)
    }
}

impl From<AstError> for TrshError {
    fn from(value: AstError) -> Self {
        TrshError::Ast(value)
    }
}

impl vstd::std_specs::convert::FromSpecImpl<AstError> for TrshError {
    open spec fn obeys_from_spec() -> bool {
        true
    }

    open spec fn from_spec(v: AstError) -> TrshError {
        TrshError::Ast(v)
    }
}

} // verus!
