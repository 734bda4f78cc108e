use vstd::prelude::*;

use crate::builtins::CmdName;

verus! {

/// A token as plain values.
pub enum TokenView {
    Word(Seq<char>),
    Quote(Seq<char>),
    VarExp(Seq<char>),
    Eq,
    Neq,
}

/// An argument as plain values.
pub enum ArgView {
    Arg(Seq<char>),
    Assignment(Seq<char>, Seq<char>),
    Quoted(Seq<char>),
    OpEq,
    OpNeq,
    Variable(Seq<char>),
    CommandSub(Seq<char>),
}

/// A redirection as plain values.
pub enum RedirView {
    AppendRight(Seq<char>),
    Input(Seq<char>),
    TruncRight(Seq<char>),
    HereDoc(Seq<char>),
}

/// One lexical token of a command's argument list.
#[derive(Debug, Clone, PartialEq, Eq)]
pub enum Token {
    Word(String),
    /// A quoted string, without its quotes.
    Quote(String),
    /// A variable name, without its `$`.
    VarExp(String),
    Eq,
    Neq,
}

impl Token {
    pub open spec fn view(self) -> TokenView {
        match self {
            Token::Word(s) => TokenView::Word(s@),
            Token::Quote(s) => TokenView::Quote(s@),
            Token::VarExp(s) => TokenView::VarExp(s@),
            Token::Eq => TokenView::Eq,
            Token::Neq => TokenView::Neq,
        }
    }

    /// The text a token stands for.
    pub open spec fn text(self) -> Seq<char> {
        match self {
            Token::Word(s) => s@,
            Token::Quote(s) => s@,
            Token::VarExp(s) => s@,
            Token::Eq => "="@,
            Token::Neq => "!="@,
        }
    }

    pub fn as_str(&self) -> (r: &str)
        ensures
            r@ == self.text(),
    {
        match self {
            Token::Word(s) => s.as_str(),
            Token::VarExp(s) => s.as_str(),
            Token::Quote(s) => s.as_str(),
            Token::Eq => "=",
            Token::Neq => "!=",
        }
    }
}

/// One redirection clause of a simple command.
#[derive(Debug, Clone, PartialEq, Eq)]
pub enum Redirection {
    /// `>> file`
    AppendRight(String),
    /// `< file`
    Input(String),
    /// `> file`
    TruncRight(String),
    /// A heredoc, with the captured body.
    HereDoc(String),
}

impl Redirection {
    /// How the clause is written: `>> file`, `< file`, `> file`, or `<<` with
    /// the heredoc's body.
    pub open spec fn written(self) -> Seq<char> {
        match self {
            Redirection::AppendRight(s) => ">> "@ + s@,
            Redirection::Input(s) => "< "@ + s@,
            Redirection::TruncRight(s) => "> "@ + s@,
            Redirection::HereDoc(s) => "<<"@ + s@,
        }
    }

    pub fn text(&self) -> (r: String)
        ensures
            r@ == self.written(),
    {
        match self {
            Redirection::AppendRight(s) => ">> ".to_owned().concat(s.as_str()),
            Redirection::Input(s) => "< ".to_owned().concat(s.as_str()),
            Redirection::TruncRight(s) => "> ".to_owned().concat(s.as_str()),
            Redirection::HereDoc(s) => "<<".to_owned().concat(s.as_str()),
        }
    }

    pub open spec fn view(self) -> RedirView {
        match self {
            Redirection::AppendRight(s) => RedirView::AppendRight(s@),
            Redirection::Input(s) => RedirView::Input(s@),
            Redirection::TruncRight(s) => RedirView::TruncRight(s@),
            Redirection::HereDoc(s) => RedirView::HereDoc(s@),
        }
    }
}

/// One argument of a simple command.
#[derive(Debug, Clone, PartialEq, Eq)]
pub enum CmdArg {
    /// Regular positional argument like `ls`, `-l`, or `file.txt`
    Arg(String),
    /// A variable assignment like `FOO=bar`
    Assignment(String, String),
    /// A quoted argument like `"foo bar"`, kept without its quotes
    Quoted(String),
    /// The operators of `test` expressions
    OpEq,
    OpNeq,
    /// Variable expansion like `$FOO`, not expanded yet
    Variable(String),
    /// Command substitution like `$(ls)`, not run yet
    CommandSub(String),
}

impl CmdArg {
    pub open spec fn view(self) -> ArgView {
        match self {
            CmdArg::Arg(s) => ArgView::Arg(s@),
            CmdArg::Assignment(k, v) => ArgView::Assignment(k@, v@),
            CmdArg::Quoted(s) => ArgView::Quoted(s@),
            CmdArg::OpEq => ArgView::OpEq,
            CmdArg::OpNeq => ArgView::OpNeq,
            CmdArg::Variable(s) => ArgView::Variable(s@),
            CmdArg::CommandSub(s) => ArgView::CommandSub(s@),
        }
    }

    /// The word an argument stands for: its text, the key of an assignment,
    /// or the operator's symbol.
    pub open spec fn word(self) -> Seq<char> {
        match self {
            CmdArg::Arg(s) => s@,
            CmdArg::Assignment(k, _) => k@,
            CmdArg::Quoted(s) => s@,
            CmdArg::OpEq => "="@,
            CmdArg::OpNeq => "!="@,
            CmdArg::Variable(s) => s@,
            CmdArg::CommandSub(s) => s@,
        }
    }

    /// How an argument is written out: an assignment as `key="value"`, a
    /// quoted argument between double quotes.
    pub open spec fn written(self) -> Seq<char> {
        match self {
            CmdArg::Assignment(k, v) => k@ + "=\""@ + v@ + "\""@,
            CmdArg::Quoted(s) => "\""@ + s@ + "\""@,
            _ => self.word(),
        }
    }

    pub fn as_str(&self) -> (r: &str)
        ensures
            r@ == self.word(),
    {
        match self {
            CmdArg::Arg(s) => s.as_str(),
            CmdArg::Assignment(k, _) => k.as_str(),
            CmdArg::Quoted(s) => s.as_str(),
            CmdArg::OpEq => "=",
            CmdArg::OpNeq => "!=",
            CmdArg::Variable(s) => s.as_str(),
            CmdArg::CommandSub(s) => s.as_str(),
        }
    }

    /// The argument as it is handed to a program.
    pub fn as_os_string(&self) -> (r: String)
        ensures
            r@ == self.written(),
    {
        match self {
            CmdArg::Assignment(k, v) => k.clone().concat("=\"").concat(v.as_str()).concat("\""),
            CmdArg::Quoted(s) => "\"".to_owned().concat(s.as_str()).concat("\""),
            _ => self.as_str().to_owned(),
        }
    }
}

/// One process or builtin invocation.
#[derive(Debug, Clone)]
pub struct SimpleCommand {
    pub name: CmdName,
    pub args: Vec<CmdArg>,
    pub redirections: Vec<Redirection>,
}

/// `if condition then then_branch [else else_branch]`
#[derive(Debug)]
pub struct Conditional {
    pub condition: Box<Command>,
    pub then_branch: Box<Command>,
    pub else_branch: Option<Box<Command>>,
}

/// `while condition do body`
#[derive(Debug)]
pub struct WhileLoop {
    pub condition: Box<Command>,
    pub body: Box<Command>,
}

/// A command tree.
#[derive(Debug)]
pub enum Command {
    Simple(SimpleCommand),
    Conditional(Conditional),
    Sequence(Vec<Command>),
    Pipeline(Box<Command>, Box<Command>),
    And(Box<Command>, Box<Command>),
    Or(Box<Command>, Box<Command>),
    WhileLoop(WhileLoop),
}

fn copy_args(v: &Vec<CmdArg>) -> (r: Vec<CmdArg>)
    ensures
        r@ == v@,
{
    let mut r: Vec<CmdArg> = Vec::new();
    let mut i: usize = 0;
    while i < v.len()
        invariant
            i <= v.len(),
            r@ == v@.subrange(0, i as int),
        decreases v.len() - i,
    {
        r.push(copy_arg(&v[i]));
        i = i + 1;
        assert(r@ =~= v@.subrange(0, i as int));
    }
    assert(v@.subrange(0, i as int) =~= v@);
    r
}

fn copy_arg(a: &CmdArg) -> (r: CmdArg)
    ensures
        r == *a,
{
    match a {
        CmdArg::Arg(s) => CmdArg::Arg(s.clone()),
        CmdArg::Assignment(k, v) => CmdArg::Assignment(k.clone(), v.clone()),
        CmdArg::Quoted(s) => CmdArg::Quoted(s.clone()),
        CmdArg::OpEq => CmdArg::OpEq,
        CmdArg::OpNeq => CmdArg::OpNeq,
        CmdArg::Variable(s) => CmdArg::Variable(s.clone()),
        CmdArg::CommandSub(s) => CmdArg::CommandSub(s.clone()),
    }
}

fn copy_redirections(v: &Vec<Redirection>) -> (r: Vec<Redirection>)
    ensures
        r@ == v@,
{
    let mut r: Vec<Redirection> = Vec::new();
    let mut i: usize = 0;
    while i < v.len()
        invariant
            i <= v.len(),
            r@ == v@.subrange(0, i as int),
        decreases v.len() - i,
    {
        let d = match &v[i] {
            Redirection::AppendRight(s) => Redirection::AppendRight(s.clone()),
            Redirection::Input(s) => Redirection::Input(s.clone()),
            Redirection::TruncRight(s) => Redirection::TruncRight(s.clone()),
            Redirection::HereDoc(s) => Redirection::HereDoc(s.clone()),
        };
        r.push(d);
        i = i + 1;
        assert(r@ =~= v@.subrange(0, i as int));
    }
    assert(v@.subrange(0, i as int) =~= v@);
    r
}

impl SimpleCommand {
    /// Whether two commands hold the same name, arguments and redirections.
    pub open spec fn same_as(self, o: SimpleCommand) -> bool {
        self.name == o.name && self.args@ == o.args@ && self.redirections@ == o.redirections@
    }

    /// A copy of the command.
    pub fn duplicate(&self) -> (r: Self)
        ensures
            r.same_as(*self),
    {
        let name = match &self.name {
            CmdName::Builtin(b) => CmdName::Builtin(*b),
            CmdName::Path(s) => CmdName::Path(s.clone()),
            CmdName::Alias(s) => CmdName::Alias(s.clone()),
            CmdName::Function(s) => CmdName::Function(s.clone()),
            CmdName::Unknown(s) => CmdName::Unknown(s.clone()),
        };
        SimpleCommand {
            name,
            args: copy_args(&self.args),
            redirections: copy_redirections(&self.redirections),
        }
    }
}

impl Command {
    /// Whether two trees have the same shape and the same simple commands.
    pub open spec fn same_as(self, o: Command) -> bool
        decreases self,
    {
        match (self, o) {
            (Command::Simple(a), Command::Simple(b)) => a.same_as(b),
            (Command::Conditional(a), Command::Conditional(b)) => {
                &&& a.condition.same_as(*b.condition)
                &&& a.then_branch.same_as(*b.then_branch)
                &&& match (a.else_branch, b.else_branch) {
                    (Some(x), Some(y)) => x.same_as(*y),
                    (None, None) => true,
                    _ => false,
                }
            },
            (Command::Sequence(v), Command::Sequence(w)) => {
                &&& v.len() == w.len()
                &&& forall|i: int| 0 <= i < v.len() ==> (#[trigger] v[i]).same_as(w[i])
            },
            (Command::Pipeline(l1, r1), Command::Pipeline(l2, r2)) => l1.same_as(*l2) && r1.same_as(
                *r2,
            ),
            (Command::And(l1, r1), Command::And(l2, r2)) => l1.same_as(*l2) && r1.same_as(*r2),
            (Command::Or(l1, r1), Command::Or(l2, r2)) => l1.same_as(*l2) && r1.same_as(*r2),
            (Command::WhileLoop(a), Command::WhileLoop(b)) => a.condition.same_as(*b.condition)
                && a.body.same_as(*b.body),
            _ => false,
        }
    }

    /// A copy of the tree, for constructs that run a subtree more than once.
    pub fn duplicate(&self) -> (r: Self)
        ensures
            r.same_as(*self),
        decreases self,
    {
        match self {
            Command::Simple(s) => Command::Simple(s.duplicate()),
            Command::Conditional(c) => {
                let else_branch = match &c.else_branch {
                    Some(e) => Some(Box::new((**e).duplicate())),
                    None => None,
                };
                Command::Conditional(
                    Conditional {
                        condition: Box::new(c.condition.duplicate()),
                        then_branch: Box::new(c.then_branch.duplicate()),
                        else_branch,
                    },
                )
            },
            Command::Sequence(v) => {
                let mut r: Vec<Command> = Vec::new();
                let mut i: usize = 0;
                while i < v.len()
                    invariant
                        *self == Command::Sequence(*v),
                        i <= v.len(),
                        r.len() == i,
                        forall|j: int| 0 <= j < i ==> (#[trigger] r[j]).same_as(v[j]),
                    decreases v.len() - i,
                {
                    proof {
                        vstd::std_specs::vec::axiom_vec_index_decreases(*v, i as int);
                        assert(decreases_to!(*self => self->Sequence_0));
                    }
                    r.push(v[i].duplicate());
                    i = i + 1;
                }
                Command::Sequence(r)
            },
            Command::Pipeline(l, r) => Command::Pipeline(
                Box::new(l.duplicate()),
                Box::new(r.duplicate()),
            ),
            Command::And(l, r) => Command::And(Box::new(l.duplicate()), Box::new(r.duplicate())),
            Command::Or(l, r) => Command::Or(Box::new(l.duplicate()), Box::new(r.duplicate())),
            Command::WhileLoop(w) => Command::WhileLoop(
                WhileLoop {
                    condition: Box::new(w.condition.duplicate()),
                    body: Box::new(w.body.duplicate()),
                },
            ),
        }
    }
}

} // verus!
