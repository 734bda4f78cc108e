use vstd::prelude::*;

use crate::ast::{
    ArgView, CmdArg, Command, Conditional, RedirView, Redirection, SimpleCommand, Token, TokenView,
    WhileLoop,
};
use crate::builtins::{builtin_named, Builtin, CmdName};
use crate::error::{AstError, TrshError};
use crate::parse_tree::{NodeKind, ParseNode};
use crate::text::{
    has_char, same_text, strip_dollar, strip_quotes, trim_text, trimmed, unquoted, without_dollar,
};
use crate::vars::VarTable;

verus! {

/// Lines of input handed out one at a time, for heredoc bodies.
pub struct LineSource {
    pub lines: Vec<String>,
    /// Position of the next line to hand out.
    pub next: usize,
}

impl LineSource {
    pub open spec fn lines_view(&self) -> Seq<Seq<char>> {
        self.lines@.map_values(|l: String| l@)
    }

    pub open spec fn wf(&self) -> bool {
        self.next <= self.lines.len()
    }

    /// A source that hands out `lines` from the first.
    pub fn new(lines: Vec<String>) -> (r: Self)
        ensures
            r.wf(),
            r.lines@ == lines@,
            r.next == 0,
    {
        LineSource { lines, next: 0 }
    }

    /// The next line, if any is left.
    pub fn next_line(&mut self) -> (r: Option<String>)
        requires
            old(self).wf(),
        ensures
            final(self).wf(),
            final(self).lines@ == old(self).lines@,
            old(self).next < old(self).lines.len() ==> (r matches Some(l) && l@
                == old(self).lines_view()[old(self).next as int] && final(self).next == old(self).next
                + 1),
            old(self).next >= old(self).lines.len() ==> r is None && final(self).next == old(self).next,
    {
        if self.next < self.lines.len() {
            let l = self.lines[self.next].clone();
            self.next = self.next + 1;
            Some(l)
        } else {
            None
        }
    }
}

/// Lines joined into one text, each followed by a newline.
pub open spec fn joined(ls: Seq<Seq<char>>) -> Seq<char>
    decreases ls.len(),
{
    if ls.len() == 0 {
        Seq::empty()
    } else {
        joined(ls.drop_last()) + ls.last() + "\n"@
    }
}

/// Position of the first line at or after `from` that equals `delim`.
pub open spec fn delimiter_at(ls: Seq<Seq<char>>, from: int, delim: Seq<char>) -> Option<int>
    decreases ls.len() - from,
{
    if from < 0 || from >= ls.len() {
        None
    } else if ls[from] == delim {
        Some(from)
    } else {
        delimiter_at(ls, from + 1, delim)
    }
}

impl Redirection {
    /// Reads a heredoc body from `rl`: the lines up to the delimiter line, each
    /// ended by a newline. The delimiter line is consumed too.
    pub fn load_heredoc(delim: String, rl: &mut Option<LineSource>) -> (r: Result<Self, AstError>)
        requires
            *old(rl) matches Some(src) ==> src.wf(),
        ensures
            *old(rl) is None ==> r == Err::<Self, AstError>(AstError::MissingHeredocSource)
                && *final(rl) is None,
            *old(rl) matches Some(src) ==> {
                &&& *final(rl) matches Some(src2)
                &&& src2.wf()
                &&& src2.lines@ == src.lines@
                &&& match delimiter_at(src.lines_view(), src.next as int, delim@) {
                    Some(e) => {
                        &&& r matches Ok(Redirection::HereDoc(b))
                        &&& b@ == joined(src.lines_view().subrange(src.next as int, e))
                        &&& src2.next == e + 1
                    },
                    None => r == Err::<Self, AstError>(AstError::UnterminatedHeredoc) && src2.next
                        == src.lines.len(),
                }
            },
    {
        match rl {
            None => Err(AstError::MissingHeredocSource),
            Some(src) => match read_until(src, &delim) {
                Ok(body) => Ok(Redirection::HereDoc(body)),
                Err(e) => Err(e),
            },
        }
    }
}

/// Reads lines from `src` up to the one equal to `delim`.
fn read_until(src: &mut LineSource, delim: &String) -> (r: Result<String, AstError>)
    requires
        old(src).wf(),
    ensures
        final(src).wf(),
        final(src).lines@ == old(src).lines@,
        match delimiter_at(old(src).lines_view(), old(src).next as int, delim@) {
            Some(e) => {
                &&& r matches Ok(b)
                &&& b@ == joined(old(src).lines_view().subrange(old(src).next as int, e))
                &&& final(src).next == e + 1
            },
            None => r == Err::<String, AstError>(AstError::UnterminatedHeredoc) && final(src).next
                == old(src).lines.len(),
        },
{
    let ghost start = src.next as int;
    let ghost ls = src.lines_view();
    let ghost lines0 = src.lines@;
    let mut body = String::new();
    assert(ls.subrange(start, start) =~= Seq::<Seq<char>>::empty());
    loop
        invariant
            src.wf(),
            start == old(src).next,
            lines0 == old(src).lines@,
            ls == old(src).lines_view(),
            src.lines@ == lines0,
            src.lines_view() == ls,
            start <= src.next <= ls.len(),
            delimiter_at(ls, start, delim@) == delimiter_at(ls, src.next as int, delim@),
            body@ == joined(ls.subrange(start, src.next as int)),
        decreases ls.len() - src.next,
    {
        let ghost before = src.next as int;
        match src.next_line() {
            None => {
                return Err(AstError::UnterminatedHeredoc);
            },
            Some(line) => {
                if line == *delim {
                    return Ok(body);
                }
                assert(ls.subrange(start, before + 1).drop_last() =~= ls.subrange(start, before));
                body.append(line.as_str());
                body.append("\n");
            },
        }
    }
}

/// The token that a parse node stands for.
pub open spec fn token_of(node: ParseNode) -> Result<TokenView, AstError>
    decreases node,
{
    match node.kind {
        NodeKind::Word => Ok(TokenView::Word(node.text@)),
        NodeKind::Quote => Ok(TokenView::Quote(unquoted(node.text@))),
        NodeKind::Eq => Ok(TokenView::Eq),
        NodeKind::Neq => Ok(TokenView::Neq),
        NodeKind::VariableExpansion => Ok(TokenView::VarExp(without_dollar(node.text@))),
        NodeKind::Arg => if node.children.len() > 0 {
            token_of(node.children[0])
        } else {
            Err(AstError::Unsupported(NodeKind::Arg))
        },
        k => Err(AstError::Unsupported(k)),
    }
}

impl Token {
    /// The token that parse node `node` stands for.
    pub fn new(node: &ParseNode) -> (r: Result<Self, AstError>)
        ensures
            match r {
                Ok(t) => token_of(*node) == Ok::<TokenView, AstError>(t.view()),
                Err(e) => token_of(*node) == Err::<TokenView, AstError>(e),
            },
        decreases node,
    {
        match node.kind {
            NodeKind::Word => Ok(Token::Word(node.text.clone())),
            NodeKind::Quote => Ok(Token::Quote(strip_quotes(node.text.as_str()))),
            NodeKind::Eq => Ok(Token::Eq),
            NodeKind::Neq => Ok(Token::Neq),
            NodeKind::VariableExpansion => Ok(Token::VarExp(strip_dollar(node.text.as_str()))),
            NodeKind::Arg => {
                if node.children.len() > 0 {
                    proof {
                        vstd::std_specs::vec::axiom_vec_index_decreases(node.children, 0);
                    }
                    Token::new(&node.children[0])
                } else {
                    Err(AstError::Unsupported(NodeKind::Arg))
                }
            },
            k => Err(AstError::Unsupported(k)),
        }
    }
}

/// The arguments that a token list stands for: `word = word` and
/// `word = "quoted"` become one assignment, every other token one argument.
pub open spec fn collapse(ts: Seq<TokenView>) -> Seq<ArgView>
    decreases ts.len(),
{
    if ts.len() == 0 {
        Seq::empty()
    } else if ts.len() >= 3 && ts[0] is Word && ts[1] is Eq && (ts[2] is Word || ts[2] is Quote) {
        let v = match ts[2] {
            TokenView::Word(s) => s,
            TokenView::Quote(s) => s,
            _ => Seq::empty(),
        };
        seq![ArgView::Assignment(ts[0]->Word_0, v)] + collapse(ts.subrange(3, ts.len() as int))
    } else {
        seq![single_arg(ts[0])] + collapse(ts.subrange(1, ts.len() as int))
    }
}

/// The argument that one token stands for.
pub open spec fn single_arg(t: TokenView) -> ArgView {
    match t {
        TokenView::Word(s) => ArgView::Arg(s),
        TokenView::Quote(s) => ArgView::Quoted(s),
        TokenView::Eq => ArgView::OpEq,
        TokenView::Neq => ArgView::OpNeq,
        TokenView::VarExp(s) => ArgView::Variable(s),
    }
}

/// A command name as plain values.
pub enum NameView {
    Builtin(Builtin),
    Path(Seq<char>),
    Alias(Seq<char>),
    Function(Seq<char>),
    Unknown(Seq<char>),
}

impl CmdName {
    pub open spec fn view(self) -> NameView {
        match self {
            CmdName::Builtin(b) => NameView::Builtin(b),
            CmdName::Path(s) => NameView::Path(s@),
            CmdName::Alias(s) => NameView::Alias(s@),
            CmdName::Function(s) => NameView::Function(s@),
            CmdName::Unknown(s) => NameView::Unknown(s@),
        }
    }
}

/// What a command word names: a path if it holds `/`, else an alias, a
/// function, a builtin, in that order, else a program to look up.
pub open spec fn classify(
    name: Seq<char>,
    aliases: Map<Seq<char>, Seq<char>>,
    functions: Map<Seq<char>, Seq<char>>,
) -> NameView {
    if name.contains('/') {
        NameView::Path(name)
    } else if aliases.contains_key(name) {
        NameView::Alias(aliases[name])
    } else if functions.contains_key(name) {
        NameView::Function(functions[name])
    } else if builtin_named(name) is Some {
        NameView::Builtin(builtin_named(name)->0)
    } else {
        NameView::Unknown(name)
    }
}

/// Whether a node kind is an argument of a simple command.
pub open spec fn is_arg_kind(k: NodeKind) -> bool {
    k == NodeKind::Arg || k == NodeKind::VariableExpansion
}

/// Whether a node kind is a redirection clause.
pub open spec fn is_redir_kind(k: NodeKind) -> bool {
    k == NodeKind::AppendRight || k == NodeKind::Input || k == NodeKind::TruncRight || k
        == NodeKind::HereDoc
}

/// Whether a part of a simple command after its name can be read: an argument
/// with a token, or a redirection with its target.
pub open spec fn part_ok(n: ParseNode) -> bool {
    ||| is_arg_kind(n.kind) && token_of(n) is Ok
    ||| is_redir_kind(n.kind) && n.children.len() > 0
}

/// The tokens of the argument parts.
pub open spec fn part_tokens(ps: Seq<ParseNode>) -> Seq<TokenView>
    decreases ps.len(),
{
    if ps.len() == 0 {
        Seq::empty()
    } else if is_arg_kind(ps.last().kind) {
        part_tokens(ps.drop_last()).push(token_of(ps.last())->Ok_0)
    } else {
        part_tokens(ps.drop_last())
    }
}

/// The redirection parts.
pub open spec fn redir_parts(ps: Seq<ParseNode>) -> Seq<ParseNode>
    decreases ps.len(),
{
    if ps.len() == 0 {
        Seq::empty()
    } else if is_redir_kind(ps.last().kind) {
        redir_parts(ps.drop_last()).push(ps.last())
    } else {
        redir_parts(ps.drop_last())
    }
}

/// Whether `r` is what redirection part `n` describes: the clause's kind
/// with its target, or a heredoc.
pub open spec fn redir_fits(r: Redirection, n: ParseNode) -> bool {
    match n.kind {
        NodeKind::AppendRight => r.view() == RedirView::AppendRight(n.children[0].text@),
        NodeKind::Input => r.view() == RedirView::Input(n.children[0].text@),
        NodeKind::TruncRight => r.view() == RedirView::TruncRight(n.children[0].text@),
        _ => r is HereDoc,
    }
}

/// Whether `c` is the simple command that node `node` describes, its name
/// classified against the given alias and function tables.
pub open spec fn simple_built(
    node: ParseNode,
    c: SimpleCommand,
    aliases: Map<Seq<char>, Seq<char>>,
    functions: Map<Seq<char>, Seq<char>>,
) -> bool {
    let parts = node.children@.subrange(1, node.children.len() as int);
    &&& node.children.len() > 0
    &&& c.name.view() == classify(trimmed(node.children[0].text@), aliases, functions)
    &&& forall|i: int| 0 <= i < parts.len() ==> part_ok(#[trigger] parts[i])
    &&& c.args@.map_values(|a: CmdArg| a.view()) == collapse(part_tokens(parts))
    &&& c.redirections.len() == redir_parts(parts).len()
    &&& forall|j: int|
        0 <= j < c.redirections.len() ==> redir_fits(#[trigger] c.redirections[j], redir_parts(parts)[j])
}

fn classify_name(
    text: &str,
    env: (&VarTable, &VarTable),
) -> (r: CmdName)
    requires
        env.0.wf(),
        env.1.wf(),
    ensures
        r.view() == classify(trimmed(text@), env.0@, env.1@),
{
    let name = trim_text(text);
    if has_char(name.as_str(), '/') {
        CmdName::Path(name)
    } else {
        match env.0.get(name.as_str()) {
            Some(cmd) => CmdName::Alias(cmd.clone()),
            None => match env.1.get(name.as_str()) {
                Some(func) => CmdName::Function(func.clone()),
                None => match Builtin::new(name.as_str()) {
                    Some(b) => CmdName::Builtin(b),
                    None => CmdName::Unknown(name),
                },
            },
        }
    }
}

/// The arguments that a token list stands for, as `collapse` describes.
pub fn collapse_tokens(tokens: Vec<Token>) -> (r: Vec<CmdArg>)
    ensures
        r@.map_values(|a: CmdArg| a.view()) == collapse(tokens@.map_values(|t: Token| t.view())),
{
    let ghost tv = tokens@.map_values(|t: Token| t.view());
    let mut args: Vec<CmdArg> = Vec::new();
    let mut i: usize = 0;
    let n = tokens.len();
    assert(tv.subrange(0, n as int) =~= tv);
    while i < n
        invariant
            n == tokens.len(),
            i <= n,
            tv == tokens@.map_values(|t: Token| t.view()),
            args@.map_values(|a: CmdArg| a.view()) + collapse(tv.subrange(i as int, n as int))
                == collapse(tv),
        decreases n - i,
    {
        let ghost rest = tv.subrange(i as int, n as int);
        let ghost before = args@.map_values(|a: CmdArg| a.view());
        let mut step: usize = 1;
        let mut done = false;
        if n - i > 2 {
            match (&tokens[i], &tokens[i + 1], &tokens[i + 2]) {
                (Token::Word(k), Token::Eq, Token::Word(v)) | (Token::Word(k), Token::Eq, Token::Quote(v)) => {
                    args.push(CmdArg::Assignment(k.clone(), v.clone()));
                    step = 3;
                    done = true;
                },
                _ => {},
            }
        }
        if !done {
            let a = match &tokens[i] {
                Token::Word(s) => CmdArg::Arg(s.clone()),
                Token::Quote(s) => CmdArg::Quoted(s.clone()),
                Token::Eq => CmdArg::OpEq,
                Token::Neq => CmdArg::OpNeq,
                Token::VarExp(s) => CmdArg::Variable(s.clone()),
            };
            args.push(a);
        }
        proof {
            assert(rest[0] == tv[i as int]);
            if i + 2 < n {
                assert(rest[1] == tv[i + 1]);
                assert(rest[2] == tv[i + 2]);
            }
            assert(rest.subrange(step as int, rest.len() as int) =~= tv.subrange(i + step, n as int));
            assert(args@.map_values(|a: CmdArg| a.view()) =~= before.push(
                args@.last().view(),
            ));
            assert(collapse(rest) == seq![args@.last().view()] + collapse(
                rest.subrange(step as int, rest.len() as int),
            ));
            assert(args@.map_values(|a: CmdArg| a.view()) + collapse(
                tv.subrange(i + step, n as int),
            ) =~= before + collapse(rest));
        }
        i = i + step;
    }
    proof {
        assert(args@.map_values(|a: CmdArg| a.view()) + collapse(tv.subrange(n as int, n as int))
            =~= args@.map_values(|a: CmdArg| a.view()));
    }
    args
}

/// The position in the lines `ls` reached once the heredoc redirections of
/// `rs` have taken their bodies, from `start` on: each body is the lines up to
/// its part's delimiter line, which is passed over. `None` when a body is not
/// what the lines give, or the redirections do not pair with the parts `ps`.
pub open spec fn heredoc_cursor(
    rs: Seq<Redirection>,
    ps: Seq<ParseNode>,
    ls: Seq<Seq<char>>,
    start: int,
) -> Option<int>
    decreases rs.len(),
{
    if rs.len() == 0 {
        if ps.len() == 0 {
            Some(start)
        } else {
            None
        }
    } else if ps.len() != rs.len() {
        None
    } else {
        match heredoc_cursor(rs.drop_last(), ps.drop_last(), ls, start) {
            None => None,
            Some(cur) => if ps.last().kind == NodeKind::HereDoc {
                match delimiter_at(ls, cur, ps.last().children[0].text@) {
                    Some(e) => if rs.last() matches Redirection::HereDoc(b) && b@ == joined(
                        ls.subrange(cur, e),
                    ) {
                        Some(e + 1)
                    } else {
                        None
                    },
                    None => None,
                }
            } else {
                Some(cur)
            },
        }
    }
}

/// Whether a parse node has a child that is a heredoc clause.
pub open spec fn has_heredoc_part(node: ParseNode) -> bool {
    exists|i: int| 1 <= i < node.children.len() && (#[trigger] node.children[i]).kind == NodeKind::HereDoc
}

impl SimpleCommand {
    /// Builds the simple command that `node` describes: its first child is the
    /// command word, classified against the alias and function tables `env`;
    /// argument children become the arguments, redirection children the
    /// redirections, in order. Heredoc bodies are read from `rl`.
    pub fn new(
        node: &ParseNode,
        env: (&VarTable, &VarTable),
        rl: &mut Option<LineSource>,
    ) -> (r: Result<Self, TrshError>)
        requires
            env.0.wf(),
            env.1.wf(),
            *old(rl) matches Some(src) ==> src.wf(),
        ensures
            *final(rl) matches Some(src) ==> src.wf(),
            *old(rl) is None ==> *final(rl) is None,
            r matches Ok(c) ==> simple_built(*node, c, env.0@, env.1@),
            node.children.len() == 0 ==> (r matches Err(TrshError::Ast(AstError::Unsupported(k)))
                && k == node.kind),
            node.children.len() > 0 && !has_heredoc_part(*node) && (forall|i: int|
                1 <= i < node.children.len() ==> part_ok(#[trigger] node.children[i])) ==> r is Ok,
            *old(rl) is None && has_heredoc_part(*node) ==> r is Err,
            *old(rl) matches Some(src) ==> (r matches Ok(c) ==> (*final(rl) matches Some(src2)
                && src2.lines@ == src.lines@ && heredoc_cursor(
                c.redirections@,
                redir_parts(node.children@.subrange(1, node.children.len() as int)),
                src.lines_view(),
                src.next as int,
            ) == Some(src2.next as int))),
    {
        if node.children.len() == 0 {
            return Err(TrshError::Ast(AstError::Unsupported(node.kind)));
        }
        let name = classify_name(node.children[0].text.as_str(), env);
        let mut tokens: Vec<Token> = Vec::new();
        let mut redirections: Vec<Redirection> = Vec::new();
        let n = node.children.len();
        let ghost all = node.children@;
        let mut j: usize = 1;
        assert(all.subrange(1, 1) =~= Seq::<ParseNode>::empty());
        assert(redir_parts(all.subrange(1, 1)) =~= Seq::<ParseNode>::empty());
        while j < n
            invariant
                n == node.children.len(),
                all == node.children@,
                1 <= j <= n,
                *old(rl) is None ==> *rl is None,
                *rl matches Some(src) ==> src.wf(),
                forall|i: int| 1 <= i < j ==> part_ok(#[trigger] all[i]),
                *old(rl) is None ==> forall|i: int| 1 <= i < j ==> (#[trigger] all[i]).kind
                    != NodeKind::HereDoc,
                *old(rl) matches Some(src0) ==> (*rl matches Some(src) && src.lines@ == src0.lines@
                    && heredoc_cursor(
                    redirections@,
                    redir_parts(all.subrange(1, j as int)),
                    src0.lines_view(),
                    src0.next as int,
                ) == Some(src.next as int)),
                tokens@.map_values(|t: Token| t.view()) == part_tokens(all.subrange(1, j as int)),
                redirections.len() == redir_parts(all.subrange(1, j as int)).len(),
                forall|k: int|
                    0 <= k < redirections.len() ==> redir_fits(
                        #[trigger] redirections[k],
                        redir_parts(all.subrange(1, j as int))[k],
                    ),
            decreases n - j,
        {
            let p = &node.children[j];
            let ghost prev = all.subrange(1, j as int);
            let ghost cur = all.subrange(1, j + 1);
            assert(cur.drop_last() =~= prev);
            assert(cur.last() == all[j as int]);
            match p.kind {
                NodeKind::Arg | NodeKind::VariableExpansion => {
                    match Token::new(p) {
                        Ok(t) => {
                            tokens.push(t);
                            assert(tokens@.map_values(|t: Token| t.view()) =~= part_tokens(cur));
                        },
                        Err(e) => {
                            return Err(TrshError::Ast(e));
                        },
                    }
                },
                NodeKind::AppendRight | NodeKind::Input | NodeKind::TruncRight | NodeKind::HereDoc => {
                    if p.children.len() == 0 {
                        return Err(TrshError::Ast(AstError::Unsupported(p.kind)));
                    }
                    let target = p.children[0].text.clone();
                    let d = match p.kind {
                        NodeKind::AppendRight => Redirection::AppendRight(target),
                        NodeKind::Input => Redirection::Input(target),
                        NodeKind::TruncRight => Redirection::TruncRight(target),
                        _ => match Redirection::load_heredoc(target, rl) {
                            Ok(h) => h,
                            Err(e) => {
                                return Err(TrshError::Ast(e));
                            },
                        },
                    };
                    let ghost rs0 = redirections@;
                    redirections.push(d);
                    assert(redir_parts(cur) == redir_parts(prev).push(all[j as int]));
                    assert(redirections@.drop_last() =~= rs0);
                    assert(redir_parts(cur).drop_last() =~= redir_parts(prev));
                    assert forall|k: int| 0 <= k < redirections.len() implies redir_fits(
                        #[trigger] redirections[k],
                        redir_parts(cur)[k],
                    ) by {
                        if k < redirections.len() - 1 {
                            assert(redir_parts(cur)[k] == redir_parts(prev)[k]);
                        }
                    }
                },
                k => {
                    return Err(TrshError::Ast(AstError::Unsupported(k)));
                },
            }
            j = j + 1;
        }
        assert(all.subrange(1, n as int) =~= node.children@.subrange(1, node.children.len() as int));
        let args = collapse_tokens(tokens);
        Ok(SimpleCommand { name, args, redirections })
    }
}

/// Whether `c` is the command tree that parse node `node` describes, its
/// command words classified against the given alias and function tables.
pub open spec fn built_as(
    node: ParseNode,
    c: Command,
    al: Map<Seq<char>, Seq<char>>,
    fs: Map<Seq<char>, Seq<char>>,
) -> bool
    decreases node, node.children.len() + 1,
{
    let ch = node.children;
    match node.kind {
        NodeKind::CommandList => match c {
            Command::Sequence(v) => v.len() == ch.len() && forall|i: int|
                0 <= i < ch.len() ==> built_as(#[trigger] ch[i], v[i], al, fs),
            _ => false,
        },
        NodeKind::IfClause => match c {
            Command::Conditional(k) => {
                &&& ch.len() >= 2
                &&& built_as(ch[0], *k.condition, al, fs)
                &&& built_as(ch[1], *k.then_branch, al, fs)
                &&& match k.else_branch {
                    Some(e) => ch.len() >= 3 && built_as(ch[2], *e, al, fs),
                    None => ch.len() < 3,
                }
            },
            _ => false,
        },
        NodeKind::SimpleCommand | NodeKind::TestCond => match c {
            Command::Simple(sc) => simple_built(node, sc, al, fs),
            _ => false,
        },
        NodeKind::Pipeline => ch.len() > 0 && pipeline_built(node, ch.len() as int, c, al, fs),
        NodeKind::AndOr => ch.len() % 2 == 1 && and_or_built(node, ch.len() as int, c, al, fs),
        NodeKind::WhileLoop => match c {
            Command::WhileLoop(w) => ch.len() >= 2 && built_as(ch[0], *w.condition, al, fs)
                && built_as(ch[1], *w.body, al, fs),
            _ => false,
        },
        _ => false,
    }
}

/// Whether `c` is the first `k` children of a pipeline node folded from the
/// left: `(a | b) | c`.
pub open spec fn pipeline_built(
    node: ParseNode,
    k: int,
    c: Command,
    al: Map<Seq<char>, Seq<char>>,
    fs: Map<Seq<char>, Seq<char>>,
) -> bool
    decreases node, k,
{
    if k <= 1 || k > node.children.len() {
        k == 1 && node.children.len() > 0 && built_as(node.children[0], c, al, fs)
    } else {
        match c {
            Command::Pipeline(l, r) => pipeline_built(node, k - 1, *l, al, fs) && built_as(
                node.children[k - 1],
                *r,
                al,
                fs,
            ),
            _ => false,
        }
    }
}

/// Whether `c` is the first `k` children of an and-or node (commands with an
/// operator between each pair) folded from the left.
pub open spec fn and_or_built(
    node: ParseNode,
    k: int,
    c: Command,
    al: Map<Seq<char>, Seq<char>>,
    fs: Map<Seq<char>, Seq<char>>,
) -> bool
    decreases node, k,
{
    if k <= 1 || k > node.children.len() {
        k == 1 && node.children.len() > 0 && built_as(node.children[0], c, al, fs)
    } else {
        let op = node.children[k - 2].text@;
        match c {
            Command::And(l, r) => op == "&&"@ && and_or_built(node, k - 2, *l, al, fs) && built_as(
                node.children[k - 1],
                *r,
                al,
                fs,
            ),
            Command::Or(l, r) => op == "||"@ && and_or_built(node, k - 2, *l, al, fs) && built_as(
                node.children[k - 1],
                *r,
                al,
                fs,
            ),
            _ => false,
        }
    }
}

/// Whether a tree can be built without reading heredoc bodies: every node
/// has the parts its kind needs, every operator is `&&` or `||`, and no
/// simple command has a part that is neither an argument nor a redirection.
pub open spec fn buildable(node: ParseNode) -> bool
    decreases node, node.children.len() + 1,
{
    let ch = node.children;
    match node.kind {
        NodeKind::CommandList => buildable_upto(node, ch.len() as int, 1),
        NodeKind::IfClause => ch.len() >= 2 && buildable_upto(node, if ch.len() >= 3 { 3 } else { 2 }, 1),
        NodeKind::SimpleCommand | NodeKind::TestCond => {
            &&& ch.len() > 0
            &&& !has_heredoc_part(node)
            &&& forall|i: int| 1 <= i < ch.len() ==> part_ok(#[trigger] ch[i])
        },
        NodeKind::Pipeline => ch.len() > 0 && buildable_upto(node, ch.len() as int, 1),
        NodeKind::AndOr => ch.len() % 2 == 1 && buildable_upto(node, ch.len() as int, 2) && forall|
            i: int,
        |
            0 <= i < ch.len() && i % 2 == 1 ==> ((#[trigger] ch[i]).text@ == "&&"@ || ch[i].text@
                == "||"@),
        NodeKind::WhileLoop => ch.len() >= 2 && buildable_upto(node, 2, 1),
        _ => false,
    }
}

/// Whether every `step`-th child of the first `k`, from the first on, can be
/// built.
pub open spec fn buildable_upto(node: ParseNode, k: int, step: int) -> bool
    decreases node, k,
{
    if k <= 0 || k > node.children.len() {
        k <= 0
    } else {
        buildable_upto(node, k - 1, step) && ((k - 1) % step == 0 ==> buildable(node.children[k - 1]))
    }
}

proof fn lemma_buildable_upto(node: ParseNode, k: int, step: int, i: int)
    requires
        buildable_upto(node, k, step),
        0 <= i < k,
        i % step == 0,
    ensures
        buildable(node.children[i]),
    decreases k,
{
    if i < k - 1 {
        lemma_buildable_upto(node, k - 1, step, i);
    }
}

/// The node kinds that describe a command.
pub open spec fn is_command_kind(k: NodeKind) -> bool {
    ||| k == NodeKind::CommandList
    ||| k == NodeKind::IfClause
    ||| k == NodeKind::SimpleCommand
    ||| k == NodeKind::TestCond
    ||| k == NodeKind::Pipeline
    ||| k == NodeKind::AndOr
    ||| k == NodeKind::WhileLoop
}

impl Conditional {
    /// Builds an `if` from its condition, `then` branch and optional `else`
    /// branch.
    fn new(
        node: &ParseNode,
        env: (&VarTable, &VarTable),
        rl: &mut Option<LineSource>,
    ) -> (r: Result<Self, TrshError>)
        requires
            env.0.wf(),
            env.1.wf(),
            *old(rl) matches Some(src) ==> src.wf(),
        ensures
            *final(rl) matches Some(src) ==> src.wf(),
            *old(rl) is None ==> *final(rl) is None,
            r matches Ok(k) ==> built_as(*node, Command::Conditional(k), env.0@, env.1@)
                || node.kind != NodeKind::IfClause,
            node.children.len() < 2 ==> r == Err::<Self, TrshError>(
                TrshError::Ast(AstError::IncompleteConditional),
            ),
            node.kind == NodeKind::IfClause && buildable(*node) ==> r is Ok,
        decreases node, 0nat,
    {
        if node.children.len() < 2 {
            return Err(TrshError::Ast(AstError::IncompleteConditional));
        }
        proof {
            vstd::std_specs::vec::axiom_vec_index_decreases(node.children, 0);
            vstd::std_specs::vec::axiom_vec_index_decreases(node.children, 1);
            if node.kind == NodeKind::IfClause && buildable(*node) {
                let k = if node.children.len() >= 3 { 3int } else { 2int };
                lemma_buildable_upto(*node, k, 1, 0);
                lemma_buildable_upto(*node, k, 1, 1);
                if node.children.len() >= 3 {
                    lemma_buildable_upto(*node, k, 1, 2);
                }
            }
        }
        let condition = match Command::new(&node.children[0], env, rl) {
            Ok(c) => Box::new(c),
            Err(e) => {
                return Err(e);
            },
        };
        let then_branch = match Command::new(&node.children[1], env, rl) {
            Ok(c) => Box::new(c),
            Err(e) => {
                return Err(e);
            },
        };
        let else_branch = if node.children.len() >= 3 {
            proof {
                vstd::std_specs::vec::axiom_vec_index_decreases(node.children, 2);
            }
            match Command::new(&node.children[2], env, rl) {
                Ok(c) => Some(Box::new(c)),
                Err(e) => {
                    return Err(e);
                },
            }
        } else {
            None
        };
        Ok(Conditional { condition, then_branch, else_branch })
    }
}

impl Command {
    /// Builds the command tree that `node` describes. Command words are
    /// classified against the alias and function tables `env` as they are
    /// now; heredoc bodies are read from `rl`.
    pub fn new(
        node: &ParseNode,
        env: (&VarTable, &VarTable),
        rl: &mut Option<LineSource>,
    ) -> (r: Result<Self, TrshError>)
        requires
            env.0.wf(),
            env.1.wf(),
            *old(rl) matches Some(src) ==> src.wf(),
        ensures
            *final(rl) matches Some(src) ==> src.wf(),
            *old(rl) is None ==> *final(rl) is None,
            r matches Ok(c) ==> built_as(*node, c, env.0@, env.1@),
            !is_command_kind(node.kind) ==> r == Err::<Self, TrshError>(
                TrshError::Ast(AstError::Unsupported(node.kind)),
            ),
            node.kind == NodeKind::IfClause && node.children.len() < 2 ==> r == Err::<
                Self,
                TrshError,
            >(TrshError::Ast(AstError::IncompleteConditional)),
            buildable(*node) ==> r is Ok,
        decreases node, 1nat,
    {
        let ghost al = env.0@;
        let ghost fs = env.1@;
        match node.kind {
            NodeKind::CommandList => {
                let mut v: Vec<Command> = Vec::new();
                let mut i: usize = 0;
                while i < node.children.len()
                    invariant
                        env.0.wf(),
                        env.1.wf(),
                        al == env.0@,
                        fs == env.1@,
                        *old(rl) is None ==> *rl is None,
                        *rl matches Some(src) ==> src.wf(),
                        i <= node.children.len(),
                        v.len() == i,
                        forall|j: int| 0 <= j < i ==> built_as(#[trigger] node.children[j], v[j], al, fs),
                        node.kind == NodeKind::CommandList,
                    decreases node.children.len() - i,
                {
                    proof {
                        vstd::std_specs::vec::axiom_vec_index_decreases(node.children, i as int);
                        if buildable(*node) {
                            lemma_buildable_upto(*node, node.children.len() as int, 1, i as int);
                        }
                    }
                    match Command::new(&node.children[i], env, rl) {
                        Ok(c) => v.push(c),
                        Err(e) => {
                            return Err(e);
                        },
                    }
                    i = i + 1;
                }
                Ok(Command::Sequence(v))
            },
            NodeKind::IfClause => match Conditional::new(node, env, rl) {
                Ok(k) => Ok(Command::Conditional(k)),
                Err(e) => Err(e),
            },
            NodeKind::SimpleCommand | NodeKind::TestCond => match SimpleCommand::new(node, env, rl) {
                Ok(sc) => Ok(Command::Simple(sc)),
                Err(e) => Err(e),
            },
            NodeKind::Pipeline => {
                if node.children.len() == 0 {
                    return Err(TrshError::Ast(AstError::Unsupported(NodeKind::Pipeline)));
                }
                proof {
                    vstd::std_specs::vec::axiom_vec_index_decreases(node.children, 0);
                    if buildable(*node) {
                        lemma_buildable_upto(*node, node.children.len() as int, 1, 0);
                    }
                }
                let mut left = match Command::new(&node.children[0], env, rl) {
                    Ok(c) => c,
                    Err(e) => {
                        return Err(e);
                    },
                };
                let mut i: usize = 1;
                while i < node.children.len()
                    invariant
                        env.0.wf(),
                        env.1.wf(),
                        al == env.0@,
                        fs == env.1@,
                        *old(rl) is None ==> *rl is None,
                        *rl matches Some(src) ==> src.wf(),
                        1 <= i <= node.children.len(),
                        pipeline_built(*node, i as int, left, al, fs),
                        node.kind == NodeKind::Pipeline,
                    decreases node.children.len() - i,
                {
                    proof {
                        vstd::std_specs::vec::axiom_vec_index_decreases(node.children, i as int);
                        if buildable(*node) {
                            lemma_buildable_upto(*node, node.children.len() as int, 1, i as int);
                        }
                    }
                    let right = match Command::new(&node.children[i], env, rl) {
                        Ok(c) => c,
                        Err(e) => {
                            return Err(e);
                        },
                    };
                    left = Command::Pipeline(Box::new(left), Box::new(right));
                    i = i + 1;
                }
                Ok(left)
            },
            NodeKind::AndOr => {
                if node.children.len() % 2 == 0 {
                    return Err(TrshError::Ast(AstError::Unsupported(NodeKind::AndOr)));
                }
                proof {
                    vstd::std_specs::vec::axiom_vec_index_decreases(node.children, 0);
                    if buildable(*node) {
                        lemma_buildable_upto(*node, node.children.len() as int, 2, 0);
                    }
                }
                let mut left = match Command::new(&node.children[0], env, rl) {
                    Ok(c) => c,
                    Err(e) => {
                        return Err(e);
                    },
                };
                let mut i: usize = 1;
                while i < node.children.len()
                    invariant
                        env.0.wf(),
                        env.1.wf(),
                        al == env.0@,
                        fs == env.1@,
                        *old(rl) is None ==> *rl is None,
                        *rl matches Some(src) ==> src.wf(),
                        1 <= i <= node.children.len(),
                        i % 2 == 1,
                        node.children.len() % 2 == 1,
                        and_or_built(*node, i as int, left, al, fs),
                        node.kind == NodeKind::AndOr,
                    decreases node.children.len() - i,
                {
                    proof {
                        vstd::std_specs::vec::axiom_vec_index_decreases(node.children, i + 1);
                        if buildable(*node) {
                            lemma_buildable_upto(*node, node.children.len() as int, 2, i + 1);
                            assert((i as int) % 2 == 1);
                        }
                    }
                    let right = match Command::new(&node.children[i + 1], env, rl) {
                        Ok(c) => c,
                        Err(e) => {
                            return Err(e);
                        },
                    };
                    let op = node.children[i].text.as_str();
                    if same_text(op, "&&") {
                        left = Command::And(Box::new(left), Box::new(right));
                    } else if same_text(op, "||") {
                        left = Command::Or(Box::new(left), Box::new(right));
                    } else {
                        return Err(TrshError::Ast(AstError::Unsupported(node.children[i].kind)));
                    }
                    i = i + 2;
                }
                Ok(left)
            },
            NodeKind::WhileLoop => {
                if node.children.len() < 2 {
                    return Err(TrshError::Ast(AstError::IncompleteLoop));
                }
                proof {
                    vstd::std_specs::vec::axiom_vec_index_decreases(node.children, 0);
                    vstd::std_specs::vec::axiom_vec_index_decreases(node.children, 1);
                    if buildable(*node) {
                        lemma_buildable_upto(*node, 2, 1, 0);
                        lemma_buildable_upto(*node, 2, 1, 1);
                    }
                }
                let condition = match Command::new(&node.children[0], env, rl) {
                    Ok(c) => Box::new(c),
                    Err(e) => {
                        return Err(e);
                    },
                };
                let body = match Command::new(&node.children[1], env, rl) {
                    Ok(c) => Box::new(c),
                    Err(e) => {
                        return Err(e);
                    },
                };
                Ok(Command::WhileLoop(WhileLoop { condition, body }))
            },
            k => Err(TrshError::Ast(AstError::Unsupported(k))),
        }
    }
}

/// A whole parsed input: the command its first child describes.
pub struct Program(pub Command);

impl Program {
    /// Builds the program that a `Program` node describes.
    pub fn new(
        node: &ParseNode,
        env: (&VarTable, &VarTable),
        rl: &mut Option<LineSource>,
    ) -> (r: Result<Self, TrshError>)
        requires
            env.0.wf(),
            env.1.wf(),
            *old(rl) matches Some(src) ==> src.wf(),
        ensures
            *final(rl) matches Some(src) ==> src.wf(),
            *old(rl) is None ==> *final(rl) is None,
            r matches Ok(p) ==> node.children.len() > 0 && built_as(node.children[0], p.0, env.0@, env.1@),
            node.children.len() == 0 ==> r == Err::<Self, TrshError>(
                TrshError::Ast(AstError::Unsupported(node.kind)),
            ),
            node.children.len() > 0 && buildable(node.children[0]) ==> r is Ok,
    {
        if node.children.len() == 0 {
            return Err(TrshError::Ast(AstError::Unsupported(node.kind)));
        }
        match Command::new(&node.children[0], env, rl) {
            Ok(c) => Ok(Program(c)),
            Err(e) => Err(e),
        }
    }
}

} // verus!
