use trsh::{
    Action, AstError, Builtin, CmdArg, CmdName, Command, Event, Executor, Job, LineSource,
    NodeKind, Outcome, ParseNode, Program, Redirection, SimpleCommand, Token, TrshError, VarTable,
};

fn node(kind: NodeKind, text: &str, children: Vec<ParseNode>) -> ParseNode {
    ParseNode { kind, text: text.to_string(), children }
}

fn leaf(kind: NodeKind, text: &str) -> ParseNode {
    node(kind, text, vec![])
}

fn word(text: &str) -> ParseNode {
    node(NodeKind::Arg, text, vec![leaf(NodeKind::Word, text)])
}

fn simple(name: &str, parts: Vec<ParseNode>) -> ParseNode {
    let mut children = vec![leaf(NodeKind::CommandName, name)];
    children.extend(parts);
    node(NodeKind::SimpleCommand, name, children)
}

fn build(n: &ParseNode, ex: &Executor) -> Result<Command, TrshError> {
    let mut none: Option<LineSource> = None;
    Command::new(n, ex.env(), &mut none)
}

fn shell() -> Executor {
    Executor::new("/home/u/w".to_string(), "/home/u".to_string(), vec![])
}

#[test]
fn tokens_from_nodes() {
    assert_eq!(Token::new(&leaf(NodeKind::Word, "ls")), Ok(Token::Word("ls".to_string())));
    assert_eq!(
        Token::new(&leaf(NodeKind::Quote, "\"a b\"")),
        Ok(Token::Quote("a b".to_string()))
    );
    assert_eq!(Token::new(&leaf(NodeKind::Quote, "\"\"\"")), Ok(Token::Quote(String::new())));
    assert_eq!(
        Token::new(&leaf(NodeKind::VariableExpansion, "$HOME")),
        Ok(Token::VarExp("HOME".to_string()))
    );
    assert_eq!(Token::new(&leaf(NodeKind::Eq, "=")), Ok(Token::Eq));
    assert_eq!(Token::new(&word("x")), Ok(Token::Word("x".to_string())));
    assert_eq!(Token::new(&leaf(NodeKind::Arg, "")), Err(AstError::Unsupported(NodeKind::Arg)));
    assert_eq!(
        Token::new(&leaf(NodeKind::Pipeline, "")),
        Err(AstError::Unsupported(NodeKind::Pipeline))
    );
    assert_eq!(Token::Neq.as_str(), "!=");
}

#[test]
fn assignments_collapse() {
    let toks = vec![
        Token::Word("FOO".to_string()),
        Token::Eq,
        Token::Word("bar".to_string()),
        Token::Word("X".to_string()),
        Token::Eq,
        Token::Quote("a b".to_string()),
        Token::Eq,
        Token::VarExp("V".to_string()),
        Token::Neq,
    ];
    assert_eq!(
        trsh::collapse_tokens(toks),
        vec![
            CmdArg::Assignment("FOO".to_string(), "bar".to_string()),
            CmdArg::Assignment("X".to_string(), "a b".to_string()),
            CmdArg::OpEq,
            CmdArg::Variable("V".to_string()),
            CmdArg::OpNeq,
        ]
    );
    assert_eq!(
        trsh::collapse_tokens(vec![Token::Word("a".to_string()), Token::Eq]),
        vec![CmdArg::Arg("a".to_string()), CmdArg::OpEq]
    );
}

#[test]
fn command_names_are_classified_in_order() {
    let mut aliases = VarTable::new();
    aliases.insert("ll".to_string(), "ls -l".to_string());
    aliases.insert("cd".to_string(), "echo shadowed".to_string());
    let mut functions = VarTable::new();
    functions.insert("f".to_string(), "body".to_string());
    functions.insert("ll".to_string(), "never".to_string());
    let env = (&aliases, &functions);
    let name_of = |text: &str| {
        let mut none: Option<LineSource> = None;
        SimpleCommand::new(&simple(text, vec![]), env, &mut none).unwrap().name
    };
    assert_eq!(name_of("./ll"), CmdName::Path("./ll".to_string()));
    assert_eq!(name_of("ll"), CmdName::Alias("ls -l".to_string()));
    assert_eq!(name_of("cd"), CmdName::Alias("echo shadowed".to_string()));
    assert_eq!(name_of("f"), CmdName::Function("body".to_string()));
    assert_eq!(name_of("pwd"), CmdName::Builtin(Builtin::Pwd));
    assert_eq!(name_of("  grep \n"), CmdName::Unknown("grep".to_string()));
    assert_eq!(name_of(":"), CmdName::Builtin(Builtin::Colon));
    assert_eq!(Builtin::new("echo"), None);
    assert_eq!(Builtin::new("unset"), Some(Builtin::Unset));
}

#[test]
fn simple_command_parts() {
    let ex = shell();
    let n = simple(
        "cat",
        vec![
            word("-n"),
            node(NodeKind::TruncRight, "> out", vec![leaf(NodeKind::Word, "out")]),
            word("K"),
            node(NodeKind::Arg, "=", vec![leaf(NodeKind::Eq, "=")]),
            node(NodeKind::Arg, "\"v w\"", vec![leaf(NodeKind::Quote, "\"v w\"")]),
            node(NodeKind::Input, "< in", vec![leaf(NodeKind::Word, "in")]),
            node(NodeKind::AppendRight, ">> log", vec![leaf(NodeKind::Word, "log")]),
        ],
    );
    match build(&n, &ex).unwrap() {
        Command::Simple(sc) => {
            assert_eq!(sc.name, CmdName::Unknown("cat".to_string()));
            assert_eq!(
                sc.args,
                vec![
                    CmdArg::Arg("-n".to_string()),
                    CmdArg::Assignment("K".to_string(), "v w".to_string())
                ]
            );
            assert_eq!(
                sc.redirections,
                vec![
                    Redirection::TruncRight("out".to_string()),
                    Redirection::Input("in".to_string()),
                    Redirection::AppendRight("log".to_string()),
                ]
            );
        }
        other => panic!("{other:?}"),
    }
    let bad = simple("cat", vec![leaf(NodeKind::Pipeline, "|")]);
    assert!(matches!(
        build(&bad, &ex),
        Err(TrshError::Ast(AstError::Unsupported(NodeKind::Pipeline)))
    ));
    let empty = node(NodeKind::SimpleCommand, "", vec![]);
    assert!(matches!(build(&empty, &ex), Err(TrshError::Ast(AstError::Unsupported(_)))));
}

#[test]
fn heredoc_reads_until_delimiter() {
    let mut src = Some(LineSource::new(vec![
        "one".to_string(),
        "two".to_string(),
        "EOF".to_string(),
        "after".to_string(),
    ]));
    let r = Redirection::load_heredoc("EOF".to_string(), &mut src);
    assert_eq!(r, Ok(Redirection::HereDoc("one\ntwo\n".to_string())));
    assert_eq!(src.as_ref().unwrap().next, 3);
    let r = Redirection::load_heredoc("EOF".to_string(), &mut src);
    assert_eq!(r, Err(AstError::UnterminatedHeredoc));
    let mut none: Option<LineSource> = None;
    assert_eq!(
        Redirection::load_heredoc("EOF".to_string(), &mut none),
        Err(AstError::MissingHeredocSource)
    );
    let mut src = Some(LineSource::new(vec!["END".to_string()]));
    assert_eq!(
        Redirection::load_heredoc("END".to_string(), &mut src),
        Ok(Redirection::HereDoc(String::new()))
    );
}

#[test]
fn heredoc_in_a_command() {
    let ex = shell();
    let n = simple("cat", vec![node(NodeKind::HereDoc, "<<X", vec![leaf(NodeKind::Word, "X")])]);
    assert!(matches!(
        build(&n, &ex),
        Err(TrshError::Ast(AstError::MissingHeredocSource))
    ));
    let mut src = Some(LineSource::new(vec!["hello".to_string(), "X".to_string()]));
    match Command::new(&n, ex.env(), &mut src).unwrap() {
        Command::Simple(sc) => {
            assert_eq!(sc.redirections, vec![Redirection::HereDoc("hello\n".to_string())])
        }
        other => panic!("{other:?}"),
    }
}

#[test]
fn compound_nodes() {
    let ex = shell();
    let if_node = node(
        NodeKind::IfClause,
        "",
        vec![simple("true", vec![]), simple("a", vec![]), simple("b", vec![])],
    );
    match build(&if_node, &ex).unwrap() {
        Command::Conditional(c) => assert!(c.else_branch.is_some()),
        other => panic!("{other:?}"),
    }
    let short_if = node(NodeKind::IfClause, "", vec![simple("true", vec![])]);
    assert!(matches!(
        build(&short_if, &ex),
        Err(TrshError::Ast(AstError::IncompleteConditional))
    ));
    let short_while = node(NodeKind::WhileLoop, "", vec![simple("true", vec![])]);
    assert!(matches!(build(&short_while, &ex), Err(TrshError::Ast(AstError::IncompleteLoop))));
    let pipe = node(
        NodeKind::Pipeline,
        "",
        vec![simple("a", vec![]), simple("b", vec![]), simple("c", vec![])],
    );
    match build(&pipe, &ex).unwrap() {
        Command::Pipeline(l, r) => {
            assert!(matches!(*l, Command::Pipeline(_, _)));
            assert!(matches!(*r, Command::Simple(_)));
        }
        other => panic!("{other:?}"),
    }
    let and_or = node(
        NodeKind::AndOr,
        "",
        vec![
            simple("a", vec![]),
            leaf(NodeKind::Operator, "&&"),
            simple("b", vec![]),
            leaf(NodeKind::Operator, "||"),
            simple("c", vec![]),
        ],
    );
    match build(&and_or, &ex).unwrap() {
        Command::Or(l, _) => assert!(matches!(*l, Command::And(_, _))),
        other => panic!("{other:?}"),
    }
    let bad_op = node(
        NodeKind::AndOr,
        "",
        vec![simple("a", vec![]), leaf(NodeKind::Operator, "|&"), simple("b", vec![])],
    );
    assert!(matches!(build(&bad_op, &ex), Err(TrshError::Ast(AstError::Unsupported(_)))));
    let list = node(NodeKind::CommandList, "", vec![simple("a", vec![]), simple("b", vec![])]);
    match build(&list, &ex).unwrap() {
        Command::Sequence(v) => assert_eq!(v.len(), 2),
        other => panic!("{other:?}"),
    }
    assert!(matches!(
        build(&leaf(NodeKind::Word, "x"), &ex),
        Err(TrshError::Ast(AstError::Unsupported(NodeKind::Word)))
    ));
    let p = node(NodeKind::Program, "", vec![list]);
    let mut none: Option<LineSource> = None;
    assert!(matches!(Program::new(&p, ex.env(), &mut none), Ok(Program(Command::Sequence(_)))));
}

#[test]
fn alias_runs_against_current_state() {
    let mut ex = shell();
    let define = node(
        NodeKind::Program,
        "",
        vec![simple(
            "alias",
            vec![
                word("greet"),
                node(NodeKind::Arg, "=", vec![leaf(NodeKind::Eq, "=")]),
                node(NodeKind::Arg, "\"echo hi\"", vec![leaf(NodeKind::Quote, "\"echo hi\"")]),
            ],
        )],
    );
    let mut none: Option<LineSource> = None;
    let prog = Program::new(&define, ex.env(), &mut none).unwrap();
    drive(&mut ex, prog.0);
    assert_eq!(ex.aliases.get("greet"), Some(&"echo hi".to_string()));
    let mut none: Option<LineSource> = None;
    let call = Program::new(&node(NodeKind::Program, "", vec![simple("greet", vec![])]), ex.env(), &mut none)
        .unwrap();
    let mut none: Option<LineSource> = None;
    let cd = Program::new(
        &node(NodeKind::Program, "", vec![simple("cd", vec![word("/tmp")])]),
        ex.env(),
        &mut none,
    )
    .unwrap();
    drive(&mut ex, cd.0);
    assert_eq!(ex.cwd, "/tmp");
    let log = drive(&mut ex, call.0);
    assert!(matches!(&log[0], Action::Parse(t) if t == "echo hi"));
    match log.iter().find(|a| matches!(a, Action::Spawn(_))).unwrap() {
        Action::Spawn(l) => {
            assert_eq!(l.name, "echo");
            assert_eq!(l.args, vec!["hi"]);
            assert_eq!(l.cwd, "/tmp");
        }
        other => panic!("{other:?}"),
    }
}

/// Runs a job, answering a parse request for `echo hi` with its tree.
fn drive(ex: &mut Executor, cmd: Command) -> Vec<Action> {
    let mut job = Job::new(cmd, None, None);
    let mut log = Vec::new();
    loop {
        let a = ex.exec(&mut job);
        let ev = match &a {
            Action::Finished(o) => {
                assert!(matches!(o, Outcome::Status(0)), "{o:?}");
                return log;
            }
            Action::Parse(t) => {
                let mut parts = t.split(' ');
                let name = parts.next().unwrap();
                let n = simple(name, parts.map(word).collect());
                Event::Parsed(Ok(node(NodeKind::Program, t, vec![n])))
            }
            Action::Locate(cs) => Event::Located(vec![true; cs.len()]),
            Action::Spawn(_) => Event::Exited(0),
            Action::Canonicalize(p) => Event::Canonical(Ok(p.clone())),
            _ => Event::Done,
        };
        log.push(a);
        ex.absorb(&mut job, ev);
    }
}

#[test]
fn parse_error_of_alias_text_fails() {
    let mut ex = shell();
    let cmd = Command::Simple(SimpleCommand {
        name: CmdName::Alias("((".to_string()),
        args: vec![],
        redirections: vec![],
    });
    let mut job = Job::new(cmd, None, None);
    assert!(matches!(ex.exec(&mut job), Action::Parse(_)));
    ex.absorb(&mut job, Event::Parsed(Err("unexpected (".to_string())));
    match ex.exec(&mut job) {
        Action::Finished(Outcome::Failed(TrshError::Parse(m))) => assert_eq!(m, "unexpected ("),
        other => panic!("{other:?}"),
    }
}

#[test]
fn rule_names_and_heredoc_delimiters() {
    assert_eq!(NodeKind::from_rule_name("simple_command"), NodeKind::SimpleCommand);
    assert_eq!(NodeKind::from_rule_name("HEREDOC"), NodeKind::HereDoc);
    assert_eq!(NodeKind::from_rule_name("APPEN_R"), NodeKind::AppendRight);
    assert_eq!(NodeKind::from_rule_name("nonsense"), NodeKind::Other);
    let tree = node(
        NodeKind::Program,
        "",
        vec![node(
            NodeKind::CommandList,
            "",
            vec![
                simple("cat", vec![node(NodeKind::HereDoc, "<<A", vec![leaf(NodeKind::Word, "A")])]),
                simple("ls", vec![word("-l")]),
                simple("cat", vec![node(NodeKind::HereDoc, "<<B", vec![leaf(NodeKind::Word, "B")])]),
            ],
        )],
    );
    assert_eq!(trsh::heredoc_delimiters(&tree), vec!["A".to_string(), "B".to_string()]);
    let mut src = Some(LineSource::new(vec![
        "x".to_string(),
        "A".to_string(),
        "y".to_string(),
        "B".to_string(),
    ]));
    let p = Program::new(&tree, shell().env(), &mut src).unwrap();
    match p.0 {
        Command::Sequence(v) => {
            match &v[2] {
                Command::Simple(sc) => {
                    assert_eq!(sc.redirections, vec![Redirection::HereDoc("y\n".to_string())])
                }
                other => panic!("{other:?}"),
            }
        }
        other => panic!("{other:?}"),
    }
}

#[test]
fn redirection_texts() {
    assert_eq!(Redirection::AppendRight("f".to_string()).text(), ">> f");
    assert_eq!(Redirection::Input("f".to_string()).text(), "< f");
    assert_eq!(Redirection::TruncRight("f".to_string()).text(), "> f");
    assert_eq!(Redirection::HereDoc("b".to_string()).text(), "<<b");
}
