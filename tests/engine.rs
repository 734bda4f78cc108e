use trsh::{
    Action, Builtin, CmdArg, CmdName, Command, Conditional, Event, ExecError, Executor, Io, Job,
    Launch, Mode, Outcome, Redirection, SimpleCommand, StdinPlan, StdoutPlan, Stream, TrshError,
    WhileLoop,
};

fn shell() -> Executor {
    Executor::new(
        "/home/user/work".to_string(),
        "/home/user".to_string(),
        vec![("PATH".to_string(), "/usr/bin:/bin".to_string())],
    )
}

fn prog(name: &str, args: &[&str]) -> Command {
    Command::Simple(SimpleCommand {
        name: CmdName::Unknown(name.to_string()),
        args: args.iter().map(|a| CmdArg::Arg(a.to_string())).collect(),
        redirections: vec![],
    })
}

fn builtin(b: Builtin, args: Vec<CmdArg>) -> Command {
    Command::Simple(SimpleCommand { name: CmdName::Builtin(b), args, redirections: vec![] })
}

fn arg(s: &str) -> CmdArg {
    CmdArg::Arg(s.to_string())
}

/// Runs a job to its end. Programs named `false` exit with 1, all others
/// with 0; every action is recorded.
fn run_with<F: FnMut(&Action) -> Event>(
    ex: &mut Executor,
    cmd: Command,
    mut answer: F,
) -> (Outcome, Vec<Action>) {
    let mut job = Job::new(cmd, None, None);
    let mut log = Vec::new();
    for _ in 0..10_000 {
        let action = ex.exec(&mut job);
        if let Action::Finished(_) = action {
            if let Action::Finished(o) = action {
                return (o, log);
            }
        }
        let ev = answer(&action);
        log.push(action);
        ex.absorb(&mut job, ev);
    }
    panic!("job did not finish");
}

fn default_answer(a: &Action) -> Event {
    match a {
        Action::Spawn(Launch { name, wait, .. }) => {
            if !*wait {
                Event::Spawned
            } else if name == "false" {
                Event::Exited(1)
            } else {
                Event::Exited(0)
            }
        }
        Action::Locate(cs) => Event::Located(vec![true; cs.len()]),
        Action::Probe(_, p) => Event::Probed(std::path::Path::new(p).is_file()),
        Action::Canonicalize(p) => Event::Canonical(Ok(p.clone())),
        _ => Event::Done,
    }
}

fn run(ex: &mut Executor, cmd: Command) -> (Outcome, Vec<Action>) {
    run_with(ex, cmd, default_answer)
}

fn status(o: &Outcome) -> i32 {
    match o {
        Outcome::Status(s) => *s,
        Outcome::Failed(e) => panic!("failed: {e:?}"),
    }
}

fn spawned_names(log: &[Action]) -> Vec<String> {
    log.iter()
        .filter_map(|a| match a {
            Action::Spawn(l) => Some(l.name.clone()),
            _ => None,
        })
        .collect()
}

fn printed(log: &[Action]) -> String {
    let mut s = String::new();
    for a in log {
        if let Action::Print { out, .. } = a {
            s.push_str(out);
        }
    }
    s
}

#[test]
fn sequence_status_is_last_member() {
    let mut ex = shell();
    let (o, log) = run(&mut ex, Command::Sequence(vec![prog("true", &[]), prog("false", &[])]));
    assert_eq!(status(&o), 1);
    assert_eq!(spawned_names(&log), vec!["true", "false"]);
    let (o, _) = run(
        &mut ex,
        Command::Sequence(vec![prog("false", &[]), prog("false", &[]), prog("true", &[])]),
    );
    assert_eq!(status(&o), 0);
    assert_eq!(ex.last_status, 0);
    let (o, _) = run(&mut ex, Command::Sequence(vec![]));
    assert_eq!(status(&o), 0);
}

#[test]
fn or_and_short_circuit() {
    let mut ex = shell();
    let (o, log) =
        run(&mut ex, Command::Or(Box::new(prog("false", &[])), Box::new(prog("true", &[]))));
    assert_eq!(status(&o), 0);
    assert_eq!(spawned_names(&log), vec!["false", "true"]);
    let (o, _) =
        run(&mut ex, Command::And(Box::new(prog("true", &[])), Box::new(prog("false", &[]))));
    assert_eq!(status(&o), 1);
    let (o, log) = run(
        &mut ex,
        Command::Or(Box::new(prog("true", &[])), Box::new(prog("touch", &["made"]))),
    );
    assert_eq!(status(&o), 0);
    assert_eq!(spawned_names(&log), vec!["true"]);
    let (o, log) = run(
        &mut ex,
        Command::And(Box::new(prog("false", &[])), Box::new(prog("touch", &["made"]))),
    );
    assert_eq!(status(&o), 1);
    assert_eq!(spawned_names(&log), vec!["false"]);
}

#[test]
fn test_builtin_statuses() {
    let mut ex = shell();
    let (o, log) = run(&mut ex, builtin(Builtin::Test, vec![arg("-f"), arg("/etc/passwd")]));
    assert_eq!(status(&o), 0);
    assert!(matches!(&log[0], Action::Probe(trsh::UnaryTest::IsFile, p) if p == "/etc/passwd"));
    let (o, _) = run(&mut ex, builtin(Builtin::Test, vec![arg("-f"), arg("/no/such/path/here")]));
    assert_eq!(status(&o), 1);
    let (o, _) = run(&mut ex, builtin(Builtin::Test, vec![arg("3"), arg("-gt"), arg("2")]));
    assert_eq!(status(&o), 0);
    let (o, _) = run(&mut ex, builtin(Builtin::Test, vec![arg("abc"), arg("-gt"), arg("2")]));
    assert_eq!(status(&o), 2);
    let (o, _) = run(&mut ex, builtin(Builtin::Test, vec![arg("2"), arg("-ge"), arg("3")]));
    assert_eq!(status(&o), 1);
    let (o, _) = run(&mut ex, builtin(Builtin::Test, vec![arg("-n"), arg("x")]));
    assert_eq!(status(&o), 0);
    let (o, _) = run(&mut ex, builtin(Builtin::Test, vec![arg("-z"), arg("x")]));
    assert_eq!(status(&o), 1);
}

#[test]
fn test_builtin_errors() {
    let mut ex = shell();
    let (o, _) = run(&mut ex, builtin(Builtin::Test, vec![arg("-q"), arg("x")]));
    match o {
        Outcome::Failed(TrshError::Exec(ExecError::General(e))) => {
            assert_eq!(e.text(), "test: invalid test: -q")
        }
        other => panic!("{other:?}"),
    }
    let (o, _) = run(&mut ex, builtin(Builtin::Test, vec![arg("1"), arg("-xx"), arg("2")]));
    match o {
        Outcome::Failed(TrshError::Exec(ExecError::General(e))) => assert_eq!(e.expl, "invalid cmd"),
        other => panic!("{other:?}"),
    }
    let (o, _) = run(&mut ex, builtin(Builtin::Test, vec![arg("1")]));
    match o {
        Outcome::Failed(TrshError::Exec(ExecError::General(e))) => {
            assert_eq!(e.expl, "can't do anything with 1 yet")
        }
        other => panic!("{other:?}"),
    }
}

#[test]
fn cd_home_then_pwd() {
    let mut ex = shell();
    let (o, log) = run(
        &mut ex,
        Command::Sequence(vec![builtin(Builtin::Cd, vec![]), builtin(Builtin::Pwd, vec![])]),
    );
    assert_eq!(status(&o), 0);
    assert_eq!(ex.cwd, "/home/user");
    assert_eq!(printed(&log), "/home/user\n");
}

#[test]
fn cd_with_one_and_many_arguments() {
    let mut ex = shell();
    let (o, log) = run(&mut ex, builtin(Builtin::Cd, vec![arg("sub")]));
    assert_eq!(status(&o), 0);
    assert!(matches!(&log[0], Action::Canonicalize(p) if p == "/home/user/work/sub"));
    assert_eq!(ex.cwd, "/home/user/work/sub");
    let (o, _) = run(&mut ex, builtin(Builtin::Cd, vec![arg("/tmp")]));
    assert_eq!(status(&o), 0);
    assert_eq!(ex.cwd, "/tmp");
    let (o, _) = run_with(&mut ex, builtin(Builtin::Cd, vec![arg("nope")]), |a| match a {
        Action::Canonicalize(_) => Event::Canonical(Err("No such file or directory".to_string())),
        other => default_answer(other),
    });
    match o {
        Outcome::Failed(TrshError::Exec(ExecError::General(e))) => {
            assert_eq!(e.text(), "cd: No such file or directory")
        }
        other => panic!("{other:?}"),
    }
    assert_eq!(ex.cwd, "/tmp");
    let (o, _) = run(&mut ex, builtin(Builtin::Cd, vec![arg("a"), arg("b")]));
    match o {
        Outcome::Failed(TrshError::Exec(ExecError::General(e))) => {
            assert_eq!(e.text(), "cd: too many arguments")
        }
        other => panic!("{other:?}"),
    }
}

fn assign(k: &str, v: &str) -> CmdArg {
    CmdArg::Assignment(k.to_string(), v.to_string())
}

#[test]
fn export_then_unset() {
    let mut ex = shell();
    run(&mut ex, builtin(Builtin::Export, vec![assign("FOO", "bar")]));
    let (_, log) = run(&mut ex, builtin(Builtin::Export, vec![]));
    let listing = printed(&log);
    assert!(listing.lines().any(|l| l == "declare -x FOO=\"bar\""));
    assert!(listing.lines().any(|l| l == "declare -x PATH=\"/usr/bin:/bin\""));
    run(&mut ex, builtin(Builtin::Unset, vec![arg("FOO")]));
    let (_, log) = run(&mut ex, builtin(Builtin::Export, vec![]));
    assert!(!printed(&log).contains("FOO"));
}

#[test]
fn export_bare_name_keeps_value() {
    let mut ex = shell();
    run(&mut ex, builtin(Builtin::Export, vec![arg("NEW"), assign("X", "1")]));
    run(&mut ex, builtin(Builtin::Export, vec![arg("X")]));
    let (_, log) = run(&mut ex, builtin(Builtin::Export, vec![]));
    assert_eq!(
        printed(&log),
        "declare -x PATH=\"/usr/bin:/bin\"\ndeclare -x NEW=\"\"\ndeclare -x X=\"1\"\n"
    );
    let (o, _) = run(&mut ex, builtin(Builtin::Export, vec![CmdArg::OpEq]));
    assert!(matches!(o, Outcome::Failed(TrshError::Exec(ExecError::NotImplemented(_)))));
}

#[test]
fn alias_define_show_and_remove() {
    let mut ex = shell();
    let (o, log) = run(
        &mut ex,
        builtin(Builtin::Alias, vec![assign("ll", "ls -l"), arg("ll"), arg("nope")]),
    );
    assert_eq!(status(&o), 0);
    match &log[0] {
        Action::Print { out, err } => {
            assert_eq!(out, "alias ll=\"ls -l\"\n");
            assert_eq!(err, "trsh: alias: nope: not found\n");
        }
        other => panic!("{other:?}"),
    }
    let (_, log) = run(&mut ex, builtin(Builtin::Alias, vec![]));
    assert_eq!(printed(&log), "alias ll=\"ls -l\"\n");
    let (o, _) = run(&mut ex, builtin(Builtin::Unalias, vec![arg("ll")]));
    assert_eq!(status(&o), 0);
    let (o, _) = run(&mut ex, builtin(Builtin::Unalias, vec![arg("ll")]));
    match o {
        Outcome::Failed(TrshError::Exec(ExecError::General(e))) => {
            assert_eq!(e.text(), "unalias: ll: not found")
        }
        other => panic!("{other:?}"),
    }
    let (o, log) = run(&mut ex, builtin(Builtin::Unalias, vec![]));
    assert_eq!(status(&o), 0);
    assert_eq!(printed(&log), "unalias: usage: unalias [-a] name [name ...]\n");
}

#[test]
fn builtins_without_effect_are_refused() {
    let mut ex = shell();
    let (o, _) = run(&mut ex, builtin(Builtin::Jobs, vec![]));
    match o {
        Outcome::Failed(TrshError::Exec(ExecError::NotImplemented(n))) => assert_eq!(n, "jobs"),
        other => panic!("{other:?}"),
    }
    let path_cmd = Command::Simple(SimpleCommand {
        name: CmdName::Path("./x".to_string()),
        args: vec![],
        redirections: vec![],
    });
    let (o, _) = run(&mut ex, path_cmd);
    assert!(matches!(o, Outcome::Failed(TrshError::Exec(ExecError::NotImplemented(_)))));
}

#[test]
fn exit_builtin_ends_the_process() {
    let mut ex = shell();
    let mut job = Job::new(builtin(Builtin::Exit, vec![]), None, None);
    assert!(matches!(ex.exec(&mut job), Action::Exit));
    assert!(job.is_finished());
}

#[test]
fn pipeline_starts_both_sides_before_waiting() {
    let mut ex = shell();
    let (o, log) = run(
        &mut ex,
        Command::Pipeline(Box::new(prog("yes", &[])), Box::new(prog("head", &["-n", "1"]))),
    );
    assert_eq!(status(&o), 0);
    let spawns: Vec<&Launch> = log
        .iter()
        .filter_map(|a| match a {
            Action::Spawn(l) => Some(l),
            _ => None,
        })
        .collect();
    assert_eq!(spawns.len(), 2);
    assert_eq!(spawns[0].name, "yes");
    assert!(!spawns[0].wait);
    assert_eq!(spawns[0].stdout, StdoutPlan::Pipe(0));
    assert_eq!(spawns[1].name, "head");
    assert!(spawns[1].wait);
    assert_eq!(spawns[1].stdin, StdinPlan::Pipe(0));
    assert_eq!(spawns[1].args, vec!["-n".to_string(), "1".to_string()]);
    assert!(matches!(log.last(), Some(Action::Reap(0))));
}

#[test]
fn pipeline_chain_passes_streams_on() {
    let mut ex = shell();
    let inner = Command::Pipeline(Box::new(prog("a", &[])), Box::new(prog("b", &[])));
    let (o, log) = run(&mut ex, Command::Pipeline(Box::new(inner), Box::new(prog("c", &[]))));
    assert_eq!(status(&o), 0);
    let spawns: Vec<&Launch> = log
        .iter()
        .filter_map(|a| match a {
            Action::Spawn(l) => Some(l),
            _ => None,
        })
        .collect();
    assert_eq!(spawns[0].stdout, StdoutPlan::Pipe(1));
    assert_eq!(spawns[1].stdin, StdinPlan::Pipe(1));
    assert_eq!(spawns[1].stdout, StdoutPlan::Pipe(0));
    assert!(!spawns[1].wait);
    assert_eq!(spawns[2].stdin, StdinPlan::Pipe(0));
    assert!(spawns[2].wait);
}

#[test]
fn while_loop_runs_until_condition_fails() {
    let mut ex = shell();
    let mut checks = 0;
    let cmd = Command::WhileLoop(WhileLoop {
        condition: Box::new(prog("check", &[])),
        body: Box::new(prog("work", &[])),
    });
    let (o, log) = run_with(&mut ex, cmd, |a| match a {
        Action::Spawn(l) if l.name == "check" => {
            checks += 1;
            Event::Exited(if checks <= 2 { 0 } else { 1 })
        }
        other => default_answer(other),
    });
    assert_eq!(status(&o), 0);
    assert_eq!(spawned_names(&log), vec!["check", "work", "check", "work", "check"]);
}

#[test]
fn while_loop_condition_error_ends_loop() {
    let mut ex = shell();
    let cmd = Command::WhileLoop(WhileLoop {
        condition: Box::new(prog("missing", &[])),
        body: Box::new(prog("work", &[])),
    });
    let (o, _) = run_with(&mut ex, cmd, |a| match a {
        Action::Spawn(_) => Event::Failed(ExecError::UnknownCmd),
        other => default_answer(other),
    });
    assert_eq!(status(&o), 0);
}

#[test]
fn conditional_branches() {
    let mut ex = shell();
    let cmd = Command::Conditional(Conditional {
        condition: Box::new(prog("false", &[])),
        then_branch: Box::new(prog("yes_branch", &[])),
        else_branch: Some(Box::new(prog("no_branch", &[]))),
    });
    let (o, log) = run(&mut ex, cmd);
    assert_eq!(status(&o), 0);
    assert_eq!(spawned_names(&log), vec!["false", "no_branch"]);
    let cmd = Command::Conditional(Conditional {
        condition: Box::new(prog("false", &[])),
        then_branch: Box::new(prog("yes_branch", &[])),
        else_branch: None,
    });
    let (o, _) = run(&mut ex, cmd);
    assert_eq!(status(&o), 1);
}

#[test]
fn unknown_command_error_stops_sequence() {
    let mut ex = shell();
    let (o, log) = run_with(
        &mut ex,
        Command::Sequence(vec![prog("nothere", &[]), prog("true", &[])]),
        |a| match a {
            Action::Locate(cs) if cs[0].ends_with("/nothere") => Event::Located(vec![false; cs.len()]),
            other => default_answer(other),
        },
    );
    assert!(matches!(o, Outcome::Failed(TrshError::Exec(ExecError::UnknownCmd))));
    assert!(spawned_names(&log).is_empty());
}

#[test]
fn answer_that_does_not_fit_fails_the_command() {
    let mut ex = shell();
    let (o, _) = run_with(&mut ex, prog("x", &[]), |_| Event::Probed(true));
    assert!(matches!(o, Outcome::Failed(TrshError::Exec(ExecError::Failed))));
}

#[test]
fn redirections_plan_with_overrides() {
    let rs = vec![
        Redirection::TruncRight("a".to_string()),
        Redirection::Input("in".to_string()),
        Redirection::AppendRight("b".to_string()),
        Redirection::HereDoc("body\n".to_string()),
    ];
    let (i, o) = trsh::plan_streams(&rs, Io::none());
    assert_eq!(i, StdinPlan::Text("body\n".to_string()));
    assert_eq!(o, StdoutPlan::Opened(2));
    let (i, o) = trsh::plan_streams(
        &rs,
        Io { stdin: Some(Stream::PipeRead(4)), stdout: Some(Stream::PipeWrite(5)) },
    );
    assert_eq!(i, StdinPlan::Pipe(4));
    assert_eq!(o, StdoutPlan::Pipe(5));
    let (i, o) = trsh::plan_streams(&rs[..2].to_vec(), Io::none());
    assert_eq!(i, StdinPlan::Opened(1));
    assert_eq!(o, StdoutPlan::Opened(0));
    let (i, o) = trsh::plan_streams(&vec![], Io::none());
    assert_eq!(i, StdinPlan::Inherit);
    assert_eq!(o, StdoutPlan::Inherit);
}

#[test]
fn spawn_carries_cwd_args_and_redirections() {
    let mut ex = shell();
    let cmd = Command::Simple(SimpleCommand {
        name: CmdName::Unknown("grep".to_string()),
        args: vec![arg("-n"), CmdArg::Quoted("a b".to_string()), assign("K", "v")],
        redirections: vec![Redirection::Input("f.txt".to_string())],
    });
    let mut job = Job::new(cmd, None, None);
    match ex.exec(&mut job) {
        Action::Locate(cs) => assert_eq!(cs, vec!["/usr/bin/grep", "/bin/grep"]),
        other => panic!("{other:?}"),
    }
    ex.absorb(&mut job, Event::Located(vec![false, true]));
    match ex.exec(&mut job) {
        Action::Spawn(l) => {
            assert_eq!(l.program, "/bin/grep");
            assert_eq!(l.cwd, "/home/user/work");
            assert_eq!(l.args, vec!["-n", "\"a b\"", "K=\"v\""]);
            assert_eq!(l.stdin, StdinPlan::Opened(0));
            assert_eq!(l.stdout, StdoutPlan::Inherit);
            assert!(l.wait);
        }
        other => panic!("{other:?}"),
    }
    assert!(matches!(job.mode, Mode::Await(_)));
}

#[test]
fn lookup_on_search_path() {
    let ex = shell();
    let c = ex.command_candidates("ls");
    assert_eq!(c, vec!["/usr/bin/ls", "/bin/ls"]);
    assert_eq!(ex.lookup_command("ls", &vec![false, true]), Some("/bin/ls".to_string()));
    assert_eq!(ex.lookup_command("ls", &vec![true, true]), Some("/usr/bin/ls".to_string()));
    assert_eq!(ex.lookup_command("ls", &vec![false, false]), None);
    assert_eq!(ex.command_candidates("./run"), vec!["./run"]);
    let bare = Executor::new("/".to_string(), "/".to_string(), vec![]);
    assert_eq!(bare.command_candidates("sh"), vec!["/usr/bin/sh", "/bin/sh"]);
    let odd = Executor::new(
        "/".to_string(),
        "/".to_string(),
        vec![("PATH".to_string(), "/opt/:x::".to_string())],
    );
    assert_eq!(odd.command_candidates("t"), vec!["/opt/t", "x/t", "t", "t"]);
}

#[test]
fn prompt_label_names_the_directory() {
    let ex = shell();
    assert_eq!(ex.prompt_label(), "work");
    let home = Executor::new("/home/user".to_string(), "/home/user".to_string(), vec![]);
    assert_eq!(home.prompt_label(), "~");
}

#[test]
fn alias_cycle_is_cut_off() {
    let mut ex = shell();
    run(&mut ex, builtin(Builtin::Alias, vec![assign("a", "a")]));
    let cmd = Command::Simple(SimpleCommand {
        name: CmdName::Alias("a".to_string()),
        args: vec![],
        redirections: vec![],
    });
    let (o, log) = run_with(&mut ex, cmd, |a| match a {
        Action::Parse(_) => Event::Parsed(Ok(trsh::ParseNode {
            kind: trsh::NodeKind::Program,
            text: "a".to_string(),
            children: vec![trsh::ParseNode {
                kind: trsh::NodeKind::SimpleCommand,
                text: "a".to_string(),
                children: vec![trsh::ParseNode {
                    kind: trsh::NodeKind::CommandName,
                    text: "a".to_string(),
                    children: vec![],
                }],
            }],
        })),
        other => default_answer(other),
    });
    assert!(matches!(o, Outcome::Failed(TrshError::Exec(ExecError::AliasDepthExceeded))));
    assert_eq!(
        log.iter().filter(|a| matches!(a, Action::Parse(_))).count() as u64,
        trsh::MAX_ALIAS_DEPTH
    );
}

/// `test` compares its operands as numbers for every operator, `=` and `!=`
/// included: two equal words that are not numbers give status 2.
#[test]
fn string_operands_are_malformed_for_equality() {
    let mut ex = shell();
    let (o, _) = run(&mut ex, builtin(Builtin::Test, vec![arg("abc"), CmdArg::OpEq, arg("abc")]));
    assert_eq!(status(&o), 2);
    let (o, _) = run(&mut ex, builtin(Builtin::Test, vec![arg("7"), CmdArg::OpEq, arg("7")]));
    assert_eq!(status(&o), 0);
    let (o, _) = run(&mut ex, builtin(Builtin::Test, vec![arg("7"), CmdArg::OpNeq, arg("8")]));
    assert_eq!(status(&o), 0);
}

#[test]
fn executor_starts_from_its_environment() {
    let ex = Executor::new(
        "/w".to_string(),
        "/h".to_string(),
        vec![
            ("A".to_string(), "1".to_string()),
            ("B".to_string(), "2".to_string()),
            ("A".to_string(), "3".to_string()),
        ],
    );
    assert_eq!(ex.env_vars.get("A"), Some(&"3".to_string()));
    assert_eq!(ex.env_vars.get("B"), Some(&"2".to_string()));
    assert_eq!(ex.env_vars.len(), 2);
    assert_eq!(ex.last_status, 0);
    let (a, f) = ex.env();
    assert_eq!(a.len(), 0);
    assert_eq!(f.len(), 0);
}

#[test]
fn test_with_four_arguments_is_refused() {
    let mut ex = shell();
    let (o, _) = run(
        &mut ex,
        builtin(Builtin::Test, vec![arg("a"), CmdArg::Quoted("b c".to_string()), arg("d"), arg("e")]),
    );
    match o {
        Outcome::Failed(TrshError::Exec(ExecError::General(e))) => {
            assert_eq!(e.expl, "can't do anything with a \"b c\" d e yet")
        }
        other => panic!("{other:?}"),
    }
}

#[test]
fn alias_of_one_unknown_name_fails() {
    let mut ex = shell();
    let (o, log) = run(&mut ex, builtin(Builtin::Alias, vec![arg("nope")]));
    match o {
        Outcome::Failed(TrshError::Exec(ExecError::General(e))) => {
            assert_eq!(e.text(), "alias: nope: not found")
        }
        other => panic!("{other:?}"),
    }
    assert!(printed(&log).is_empty());
    run(&mut ex, builtin(Builtin::Alias, vec![assign("ll", "ls -l")]));
    let (o, log) = run(&mut ex, builtin(Builtin::Alias, vec![arg("ll")]));
    assert_eq!(status(&o), 0);
    assert_eq!(printed(&log), "alias ll=\"ls -l\"\n");
    let (o, _) = run(&mut ex, builtin(Builtin::Alias, vec![arg("nope"), arg("ll")]));
    assert_eq!(status(&o), 0);
}
