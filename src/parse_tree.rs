use vstd::prelude::*;

use crate::text::same_text;

verus! {

/// The kinds of node that the grammar produces and the tree builder reads.
#[derive(Debug, Clone, Copy, PartialEq, Eq, Structural)]
pub enum NodeKind {
    /// A whole input: its first child is the command.
    Program,
    /// Commands run one after the other.
    CommandList,
    SimpleCommand,
    /// A `[ ... ]` test, laid out as a simple command.
    TestCond,
    /// `if`: condition, `then` branch, optional `else` branch.
    IfClause,
    /// `while`: condition and body.
    WhileLoop,
    /// Commands joined by `|`.
    Pipeline,
    /// Commands joined by `&&` and `||`, with an operator node between each pair.
    AndOr,
    /// The `&&` or `||` between two commands of an `AndOr`.
    Operator,
    /// The command word of a simple command.
    CommandName,
    /// An argument: its first child is the token.
    Arg,
    Word,
    /// A double-quoted string, quotes included in its text.
    Quote,
    Eq,
    Neq,
    /// `$name`, the dollar included in its text.
    VariableExpansion,
    /// `>> file`: its first child holds the file.
    AppendRight,
    /// `< file`
    Input,
    /// `> file`
    TruncRight,
    /// `<< delimiter`
    HereDoc,
    /// Any production the builder does not handle.
    Other,
}

/// One node of a parse tree: its kind, the text it covers, and its children in
/// source order.
#[derive(Debug)]
pub struct ParseNode {
    pub kind: NodeKind,
    pub text: String,
    pub children: Vec<ParseNode>,
}

/// The node kind of each rule name of the grammar; unknown names are `Other`.
pub open spec fn kind_named(name: Seq<char>) -> NodeKind {
    if name == "program"@ {
        NodeKind::Program
    } else if name == "command_list"@ {
        NodeKind::CommandList
    } else if name == "simple_command"@ {
        NodeKind::SimpleCommand
    } else if name == "test_cond"@ {
        NodeKind::TestCond
    } else if name == "if_clause"@ {
        NodeKind::IfClause
    } else if name == "while_loop"@ {
        NodeKind::WhileLoop
    } else if name == "pipeline"@ {
        NodeKind::Pipeline
    } else if name == "and_or"@ {
        NodeKind::AndOr
    } else if name == "and_or_op"@ {
        NodeKind::Operator
    } else if name == "command_name"@ {
        NodeKind::CommandName
    } else if name == "arg"@ {
        NodeKind::Arg
    } else if name == "WORD"@ {
        NodeKind::Word
    } else if name == "QUOTE"@ {
        NodeKind::Quote
    } else if name == "EQ"@ {
        NodeKind::Eq
    } else if name == "NEQ"@ {
        NodeKind::Neq
    } else if name == "VARIABLE_EXPANSION"@ {
        NodeKind::VariableExpansion
    } else if name == "APPEN_R"@ {
        NodeKind::AppendRight
    } else if name == "INPUT"@ {
        NodeKind::Input
    } else if name == "TRUNC_R"@ {
        NodeKind::TruncRight
    } else if name == "HEREDOC"@ {
        NodeKind::HereDoc
    } else {
        NodeKind::Other
    }
}

impl NodeKind {
    /// The node kind that the grammar's rule `name` produces.
    pub fn from_rule_name(name: &str) -> (r: NodeKind)
        ensures
            r == kind_named(name@),
    {
        if same_text(name, "program") {
            NodeKind::Program
        } else if same_text(name, "command_list") {
            NodeKind::CommandList
        } else if same_text(name, "simple_command") {
            NodeKind::SimpleCommand
        } else if same_text(name, "test_cond") {
            NodeKind::TestCond
        } else if same_text(name, "if_clause") {
            NodeKind::IfClause
        } else if same_text(name, "while_loop") {
            NodeKind::WhileLoop
        } else if same_text(name, "pipeline") {
            NodeKind::Pipeline
        } else if same_text(name, "and_or") {
            NodeKind::AndOr
        } else if same_text(name, "and_or_op") {
            NodeKind::Operator
        } else if same_text(name, "command_name") {
            NodeKind::CommandName
        } else if same_text(name, "arg") {
            NodeKind::Arg
        } else if same_text(name, "WORD") {
            NodeKind::Word
        } else if same_text(name, "QUOTE") {
            NodeKind::Quote
        } else if same_text(name, "EQ") {
            NodeKind::Eq
        } else if same_text(name, "NEQ") {
            NodeKind::Neq
        } else if same_text(name, "VARIABLE_EXPANSION") {
            NodeKind::VariableExpansion
        } else if same_text(name, "APPEN_R") {
            NodeKind::AppendRight
        } else if same_text(name, "INPUT") {
            NodeKind::Input
        } else if same_text(name, "TRUNC_R") {
            NodeKind::TruncRight
        } else if same_text(name, "HEREDOC") {
            NodeKind::HereDoc
        } else {
            NodeKind::Other
        }
    }
}

/// The delimiters of the heredoc clauses in a tree, in source order.
pub open spec fn delimiters_of(n: ParseNode) -> Seq<Seq<char>>
    decreases n, n.children.len() + 1,
{
    if n.kind == NodeKind::HereDoc {
        if n.children.len() > 0 {
            seq![n.children[0].text@]
        } else {
            Seq::empty()
        }
    } else {
        delimiters_in(n, n.children.len() as int)
    }
}

/// The heredoc delimiters in the first `k` children of a node.
pub open spec fn delimiters_in(n: ParseNode, k: int) -> Seq<Seq<char>>
    decreases n, k,
{
    if k <= 0 || k > n.children.len() {
        Seq::empty()
    } else {
        delimiters_in(n, k - 1) + delimiters_of(n.children[k - 1])
    }
}

/// The delimiters of the heredoc clauses in a tree, in source order: the
/// lines a heredoc source has to hold, up to each of them in turn.
pub fn heredoc_delimiters(n: &ParseNode) -> (r: Vec<String>)
    ensures
        r@.map_values(|s: String| s@) == delimiters_of(*n),
    decreases n,
{
    let mut r: Vec<String> = Vec::new();
    if n.kind == NodeKind::HereDoc {
        if n.children.len() > 0 {
            r.push(n.children[0].text.clone());
            assert(r@.map_values(|s: String| s@) =~= seq![n.children[0].text@]);
        }
        return r;
    }
    let mut i: usize = 0;
    assert(r@.map_values(|s: String| s@) =~= Seq::<Seq<char>>::empty());
    while i < n.children.len()
        invariant
            n.kind != NodeKind::HereDoc,
            i <= n.children.len(),
            r@.map_values(|s: String| s@) == delimiters_in(*n, i as int),
        decreases n.children.len() - i,
    {
        proof {
            vstd::std_specs::vec::axiom_vec_index_decreases(n.children, i as int);
        }
        let mut sub = heredoc_delimiters(&n.children[i]);
        let ghost before = r@.map_values(|s: String| s@);
        let ghost got = sub@.map_values(|s: String| s@);
        r.append(&mut sub);
        assert(r@.map_values(|s: String| s@) =~= before + got);
        i = i + 1;
    }
    r
}

} // verus!
