use vstd::prelude::*;

use crate::ast::{ArgView, CmdArg};
use crate::builtins::Builtin;
use crate::error::{ExecError, TrshError};
use crate::paths::{candidates, candidates_of, join_path, join_path_text};
use crate::test_expr::{binary_test_named, status_of, unary_test_named, BinaryTest, UnaryTest};
use crate::vars::{entry_view, map_of, VarTable};

verus! {

/// The search path used when `PATH` is not set.
pub open spec fn default_search() -> Seq<char> {
    "/usr/bin:/bin"@
}

/// The shell's state: working and home directories, environment and shell
/// variables, aliases, functions and the status of the last command line.
pub struct Executor {
    pub env_vars: VarTable,
    pub vars: VarTable,
    pub cwd: String,
    pub home_dir: String,
    pub last_status: i32,
    pub aliases: VarTable,
    pub functions: VarTable,
}

/// What a builtin did, or what it needs done before it can finish.
pub enum BuiltinStep {
    /// Finished with a status and text for the standard output and error streams.
    Done { status: i32, out: String, err: String },
    /// Failed.
    Fail(TrshError),
    /// `cd` needs this path made canonical.
    Canonicalize(String),
    /// `test` needs this predicate decided of a path.
    Probe(UnaryTest, String),
    /// `exit`: the process ends.
    Exit,
}

/// The line that `export` prints for one variable.
pub open spec fn export_line(k: Seq<char>, v: Seq<char>) -> Seq<char> {
    "declare -x "@ + k + "=\""@ + v + "\"\n"@
}

/// The line that `alias` prints for one alias.
pub open spec fn alias_line(k: Seq<char>, v: Seq<char>) -> Seq<char> {
    "alias "@ + k + "=\""@ + v + "\"\n"@
}

/// The lines of `export` with no arguments, one per variable, in order.
pub open spec fn export_listing(ps: Seq<(Seq<char>, Seq<char>)>) -> Seq<char>
    decreases ps.len(),
{
    if ps.len() == 0 {
        Seq::empty()
    } else {
        export_listing(ps.drop_last()) + export_line(ps.last().0, ps.last().1)
    }
}

/// The lines of `alias` with no arguments, one per alias, in order.
pub open spec fn alias_listing(ps: Seq<(Seq<char>, Seq<char>)>) -> Seq<char>
    decreases ps.len(),
{
    if ps.len() == 0 {
        Seq::empty()
    } else {
        alias_listing(ps.drop_last()) + alias_line(ps.last().0, ps.last().1)
    }
}

/// Whether `export` and `alias` accept an argument: a name or an assignment.
pub open spec fn settable(a: ArgView) -> bool {
    a is Arg || a is Assignment
}

/// The variables after `export` of the arguments: an assignment sets its
/// name, a bare name is added, empty, when absent.
pub open spec fn exported(m: Map<Seq<char>, Seq<char>>, args: Seq<ArgView>) -> Map<
    Seq<char>,
    Seq<char>,
>
    decreases args.len(),
{
    if args.len() == 0 {
        m
    } else {
        let m1 = exported(m, args.drop_last());
        match args.last() {
            ArgView::Arg(a) => if m1.contains_key(a) {
                m1
            } else {
                m1.insert(a, Seq::empty())
            },
            ArgView::Assignment(k, v) => m1.insert(k, v),
            _ => m1,
        }
    }
}

/// The aliases after `alias` of the arguments: an assignment defines its name.
pub open spec fn aliased(m: Map<Seq<char>, Seq<char>>, args: Seq<ArgView>) -> Map<
    Seq<char>,
    Seq<char>,
>
    decreases args.len(),
{
    if args.len() == 0 {
        m
    } else {
        let m1 = aliased(m, args.drop_last());
        match args.last() {
            ArgView::Assignment(k, v) => m1.insert(k, v),
            _ => m1,
        }
    }
}

/// What `alias` prints for the arguments: the definition of each bare name
/// that is defined at that point.
pub open spec fn alias_shown(m: Map<Seq<char>, Seq<char>>, args: Seq<ArgView>) -> Seq<char>
    decreases args.len(),
{
    if args.len() == 0 {
        Seq::empty()
    } else {
        let m1 = aliased(m, args.drop_last());
        let before = alias_shown(m, args.drop_last());
        match args.last() {
            ArgView::Arg(a) => if m1.contains_key(a) {
                before + alias_line(a, m1[a])
            } else {
                before
            },
            _ => before,
        }
    }
}

/// The diagnostics of `alias` for the arguments: one line for each bare name
/// that is not defined at that point.
pub open spec fn alias_missing(m: Map<Seq<char>, Seq<char>>, args: Seq<ArgView>) -> Seq<char>
    decreases args.len(),
{
    if args.len() == 0 {
        Seq::empty()
    } else {
        let m1 = aliased(m, args.drop_last());
        let before = alias_missing(m, args.drop_last());
        match args.last() {
            ArgView::Arg(a) => if m1.contains_key(a) {
                before
            } else {
                before + "trsh: alias: "@ + a + ": not found\n"@
            },
            _ => before,
        }
    }
}

/// The word of each argument.
pub open spec fn arg_words(args: Seq<CmdArg>) -> Seq<Seq<char>> {
    args.map_values(|a: CmdArg| a.word())
}

/// The table after removing each word in turn.
pub open spec fn removed_all(m: Map<Seq<char>, Seq<char>>, ws: Seq<Seq<char>>) -> Map<
    Seq<char>,
    Seq<char>,
>
    decreases ws.len(),
{
    if ws.len() == 0 {
        m
    } else {
        removed_all(m, ws.drop_last()).remove(ws.last())
    }
}

/// The aliases after `unalias` of the words from position `i` on, and the
/// position of the first word with no alias at that point, where it stops.
pub open spec fn unaliased(m: Map<Seq<char>, Seq<char>>, ws: Seq<Seq<char>>, i: int) -> (
    Map<Seq<char>, Seq<char>>,
    Option<int>,
)
    decreases ws.len() - i,
{
    if i < 0 || i >= ws.len() {
        (m, None)
    } else if m.contains_key(ws[i]) {
        unaliased(m.remove(ws[i]), ws, i + 1)
    } else {
        (m, Some(i))
    }
}

pub open spec fn arg_views(args: Seq<CmdArg>) -> Seq<ArgView> {
    args.map_values(|a: CmdArg| a.view())
}

/// What follows the last `/` of a path.
pub open spec fn after_last_slash(s: Seq<char>) -> Seq<char>
    decreases s.len(),
{
    if s.len() == 0 || s.last() == '/' {
        Seq::empty()
    } else {
        after_last_slash(s.drop_last()).push(s.last())
    }
}

/// The prompt's name for a working directory: `~` at home, else the last
/// component of the path, or the whole path when it ends in `/`.
pub open spec fn label_of(cwd: Seq<char>, home: Seq<char>) -> Seq<char> {
    if cwd == home {
        "~"@
    } else if after_last_slash(cwd).len() == 0 {
        cwd
    } else {
        after_last_slash(cwd)
    }
}

proof fn lemma_after_last_slash(s: Seq<char>, i: int)
    requires
        0 <= i <= s.len(),
        i == 0 || s[i - 1] == '/',
        forall|j: int| i <= j < s.len() ==> s[j] != '/',
    ensures
        after_last_slash(s) == s.subrange(i, s.len() as int),
    decreases s.len(),
{
    if s.len() > i {
        lemma_after_last_slash(s.drop_last(), i);
        assert(s.subrange(i, s.len() as int) =~= s.drop_last().subrange(
            i,
            s.len() - 1,
        ).push(s.last()));
    } else if s.len() > 0 {
        assert(s.subrange(i, s.len() as int) =~= Seq::<char>::empty());
    }
}

impl Executor {
    pub open spec fn wf(&self) -> bool {
        &&& self.env_vars.wf()
        &&& self.vars.wf()
        &&& self.aliases.wf()
        &&& self.functions.wf()
    }

    /// The search path: the value of `PATH`, or a default when it is not set.
    pub open spec fn search_path(&self) -> Seq<char> {
        if self.env_vars@.contains_key("PATH"@) {
            self.env_vars@["PATH"@]
        } else {
            default_search()
        }
    }

    /// A shell in directory `cwd` with home `home_dir` and the environment
    /// `env` (a later pair for the same name wins).
    pub fn new(cwd: String, home_dir: String, env: Vec<(String, String)>) -> (r: Self)
        ensures
            r.wf(),
            r.cwd@ == cwd@,
            r.home_dir@ == home_dir@,
            r.last_status == 0,
            r.aliases@ == Map::<Seq<char>, Seq<char>>::empty(),
            r.functions@ == Map::<Seq<char>, Seq<char>>::empty(),
            r.vars@ == Map::<Seq<char>, Seq<char>>::empty(),
            r.env_vars@ == map_of(env@.map_values(|e: (String, String)| entry_view(e))),
    {
        let mut env_vars = VarTable::new();
        let mut env = env;
        let ghost env0 = env@;
        let mut i: usize = 0;
        let n = env.len();
        while i < n
            invariant
                n == env0.len(),
                i <= n,
                env_vars.wf(),
                env.len() == n - i,
                forall|j: int| 0 <= j < env.len() ==> #[trigger] env@[j] == env0[j + i],
                env_vars@ == map_of(env0.subrange(0, i as int).map_values(|e: (String, String)| entry_view(e))),
            decreases n - i,
        {
            let ghost pre = env0.subrange(0, i as int).map_values(|e: (String, String)| entry_view(e));
            let ghost cur = env0.subrange(0, i + 1).map_values(|e: (String, String)| entry_view(e));
            assert(cur.drop_last() =~= pre);
            let (k, v) = env.remove(0);
            assert(cur.last() == (k@, v@));
            env_vars.insert(k, v);
            i = i + 1;
        }
        assert(env0.subrange(0, i as int) =~= env0);
        Executor {
            env_vars,
            vars: VarTable::new(),
            cwd,
            home_dir,
            last_status: 0,
            aliases: VarTable::new(),
            functions: VarTable::new(),
        }
    }

    /// The alias and function tables, against which command words are classified.
    pub fn env(&self) -> (r: (&VarTable, &VarTable))
        ensures
            r.0 == &self.aliases,
            r.1 == &self.functions,
    {
        (&self.aliases, &self.functions)
    }

    /// The places where command `cmd_name` is looked for, in order.
    pub fn command_candidates(&self, cmd_name: &str) -> (r: Vec<String>)
        requires
            self.wf(),
        ensures
            r@.map_values(|x: String| x@) == candidates_of(cmd_name@, self.search_path()),
    {
        match self.env_vars.get("PATH") {
            Some(p) => candidates(cmd_name, p.as_str()),
            None => candidates(cmd_name, "/usr/bin:/bin"),
        }
    }

    /// The first of the command's candidates that is an executable file,
    /// given for each candidate whether it is one.
    pub fn lookup_command(&self, cmd_name: &str, executable: &Vec<bool>) -> (r: Option<String>)
        requires
            self.wf(),
            executable.len() == candidates_of(cmd_name@, self.search_path()).len(),
        ensures
            r matches Some(p) ==> exists|i: int|
                0 <= i < executable.len() && executable[i] && p@ == candidates_of(
                    cmd_name@,
                    self.search_path(),
                )[i] && forall|j: int| 0 <= j < i ==> !executable[j],
            r is None ==> forall|i: int| 0 <= i < executable.len() ==> !executable[i],
    {
        let cs = self.command_candidates(cmd_name);
        let ghost cv = cs@.map_values(|x: String| x@);
        let mut i: usize = 0;
        while i < cs.len()
            invariant
                cs.len() == executable.len(),
                cv == cs@.map_values(|x: String| x@),
                cv == candidates_of(cmd_name@, self.search_path()),
                i <= cs.len(),
                forall|j: int| 0 <= j < i ==> !executable[j],
            decreases cs.len() - i,
        {
            if executable[i] {
                assert(cs@[i as int]@ == cv[i as int]);
                return Some(cs[i].clone());
            }
            i = i + 1;
        }
        None
    }

    /// The prompt's name for the working directory: `~` at home, else its
    /// last component.
    pub fn prompt_label(&self) -> (r: String)
        ensures
            r@ == label_of(self.cwd@, self.home_dir@),
    {
        if self.cwd == self.home_dir {
            return "~".to_owned();
        }
        let s = self.cwd.as_str();
        let n = s.unicode_len();
        let mut i: usize = n;
        while i > 0 && s.get_char(i - 1) != '/'
            invariant
                i <= n,
                n == s@.len(),
                forall|j: int| i <= j < n ==> s@[j] != '/',
            decreases i,
        {
            i = i - 1;
        }
        proof {
            lemma_after_last_slash(s@, i as int);
        }
        if i == n {
            s.to_owned()
        } else {
            s.substring_char(i, n).to_owned()
        }
    }

    /// `cd`: no argument goes home; one goes to the working directory joined
    /// with it, once made canonical; more are refused.
    pub fn exec_cd(&mut self, args: &Vec<CmdArg>) -> (r: BuiltinStep)
        requires
            old(self).wf(),
        ensures
            final(self).wf(),
            cd_fits(*old(self), *final(self), args@, r),
    {
        if args.len() == 0 {
            self.cwd = self.home_dir.clone();
            BuiltinStep::Done { status: 0, out: String::new(), err: String::new() }
        } else if args.len() == 1 {
            BuiltinStep::Canonicalize(join_path_text(self.cwd.as_str(), args[0].as_str()))
        } else {
            BuiltinStep::Fail(TrshError::gen_exec("cd", "too many arguments"))
        }
    }

    /// What `pwd` prints: the working directory and a newline.
    pub fn pwd_text(&self) -> (r: String)
        ensures
            r@ == self.cwd@ + "\n"@,
    {
        self.cwd.clone().concat("\n")
    }

    /// `export`: with no argument, lists the environment; else sets each
    /// assignment and adds each bare name that is missing, with an empty value.
    pub fn handle_export(&mut self, args: &Vec<CmdArg>) -> (r: BuiltinStep)
        requires
            old(self).wf(),
        ensures
            final(self).wf(),
            export_fits(*old(self), *final(self), args@, r),
    {
        if args.len() == 0 {
            let out = listing(&self.env_vars, "declare -x ");
            return BuiltinStep::Done { status: 0, out, err: String::new() };
        }
        let ghost m0 = self.env_vars@;
        let mut i: usize = 0;
        while i < args.len()
            invariant
                i <= args.len(),
                self.vars == old(self).vars,
                self.cwd == old(self).cwd,
                self.home_dir == old(self).home_dir,
                self.last_status == old(self).last_status,
                self.aliases == old(self).aliases,
                self.functions == old(self).functions,
                self.wf(),
                self.env_vars@ == exported(m0, arg_views(args@).subrange(0, i as int)),
                forall|j: int| 0 <= j < i ==> settable(#[trigger] args[j].view()),
            decreases args.len() - i,
        {
            let ghost pre = arg_views(args@).subrange(0, i as int);
            let ghost cur = arg_views(args@).subrange(0, i + 1);
            assert(cur.drop_last() =~= pre);
            assert(cur.last() == args[i as int].view());
            match &args[i] {
                CmdArg::Arg(a) => {
                    if self.env_vars.get(a.as_str()).is_none() {
                        self.env_vars.insert(a.clone(), String::new());
                    }
                },
                CmdArg::Assignment(k, v) => {
                    self.env_vars.insert(k.clone(), v.clone());
                },
                _ => {
                    return BuiltinStep::Fail(
                        TrshError::Exec(ExecError::NotImplemented("export".to_owned())),
                    );
                },
            }
            i = i + 1;
        }
        assert(arg_views(args@).subrange(0, i as int) =~= arg_views(args@));
        BuiltinStep::Done { status: 0, out: String::new(), err: String::new() }
    }

    /// `alias`: with no argument, lists the aliases; else defines each
    /// assignment and shows each bare name, or reports it missing.
    pub fn handle_alias(&mut self, args: &Vec<CmdArg>) -> (r: BuiltinStep)
        requires
            old(self).wf(),
        ensures
            final(self).wf(),
            alias_fits(*old(self), *final(self), args@, r),
    {
        if args.len() == 0 {
            let out = listing(&self.aliases, "alias ");
            return BuiltinStep::Done { status: 0, out, err: String::new() };
        }
        if args.len() == 1 {
            if let CmdArg::Arg(a) = &args[0] {
                if self.aliases.get(a.as_str()).is_none() {
                    let msg = a.clone().concat(": not found");
                    return BuiltinStep::Fail(TrshError::gen_exec("alias", msg.as_str()));
                }
            }
        }
        let ghost m0 = self.aliases@;
        let mut out = String::new();
        let mut err = String::new();
        let mut i: usize = 0;
        while i < args.len()
            invariant
                i <= args.len(),
                self.env_vars == old(self).env_vars,
                self.vars == old(self).vars,
                self.cwd == old(self).cwd,
                self.home_dir == old(self).home_dir,
                self.last_status == old(self).last_status,
                self.functions == old(self).functions,
                self.wf(),
                self.aliases@ == aliased(m0, arg_views(args@).subrange(0, i as int)),
                out@ == alias_shown(m0, arg_views(args@).subrange(0, i as int)),
                err@ == alias_missing(m0, arg_views(args@).subrange(0, i as int)),
                forall|j: int| 0 <= j < i ==> settable(#[trigger] args[j].view()),
            decreases args.len() - i,
        {
            let ghost pre = arg_views(args@).subrange(0, i as int);
            let ghost cur = arg_views(args@).subrange(0, i + 1);
            assert(cur.drop_last() =~= pre);
            assert(cur.last() == args[i as int].view());
            match &args[i] {
                CmdArg::Arg(a) => {
                    match self.aliases.get(a.as_str()) {
                        Some(v) => {
                            out.append("alias ");
                            out.append(a.as_str());
                            out.append("=\"");
                            out.append(v.as_str());
                            out.append("\"\n");
                        },
                        None => {
                            err.append("trsh: alias: ");
                            err.append(a.as_str());
                            err.append(": not found\n");
                        },
                    }
                },
                CmdArg::Assignment(k, v) => {
                    self.aliases.insert(k.clone(), v.clone());
                },
                _ => {
                    return BuiltinStep::Fail(
                        TrshError::Exec(ExecError::NotImplemented("alias".to_owned())),
                    );
                },
            }
            i = i + 1;
        }
        assert(arg_views(args@).subrange(0, i as int) =~= arg_views(args@));
        BuiltinStep::Done { status: 0, out, err }
    }

    /// `unalias`: removes each named alias; a name with no alias is an error,
    /// which stops the removal there.
    pub fn unalias(&mut self, args: &Vec<CmdArg>) -> (r: BuiltinStep)
        requires
            old(self).wf(),
        ensures
            final(self).wf(),
            unalias_fits(*old(self), *final(self), args@, r),
    {
        if args.len() == 0 {
            return BuiltinStep::Done {
                status: 0,
                out: "unalias: usage: unalias [-a] name [name ...]\n".to_owned(),
                err: String::new(),
            };
        }
        let ghost m0 = self.aliases@;
        let ghost ws = arg_words(args@);
        let mut i: usize = 0;
        while i < args.len()
            invariant
                i <= args.len(),
                ws == arg_words(args@),
                self.env_vars == old(self).env_vars,
                self.vars == old(self).vars,
                self.cwd == old(self).cwd,
                self.home_dir == old(self).home_dir,
                self.last_status == old(self).last_status,
                self.functions == old(self).functions,
                self.wf(),
                m0 == old(self).aliases@,
                unaliased(m0, ws, 0) == unaliased(self.aliases@, ws, i as int),
            decreases args.len() - i,
        {
            assert(ws[i as int] == args[i as int].word());
            let ghost before = self.aliases@;
            match self.aliases.remove(args[i].as_str()) {
                Some(_) => {},
                None => {
                    assert(self.aliases@ =~= before);
                    assert(unaliased(before, ws, i as int) == (before, Some(i as int)));
                    let msg = args[i].as_os_string().concat(": not found");
                    return BuiltinStep::Fail(TrshError::gen_exec("unalias", msg.as_str()));
                },
            }
            i = i + 1;
        }
        BuiltinStep::Done { status: 0, out: String::new(), err: String::new() }
    }

    /// `unset`: removes each named variable from the environment.
    pub fn unset(&mut self, args: &Vec<CmdArg>) -> (r: BuiltinStep)
        requires
            old(self).wf(),
        ensures
            final(self).wf(),
            unset_fits(*old(self), *final(self), args@, r),
    {
        let ghost m0 = self.env_vars@;
        let ghost p0 = self.env_vars.pairs();
        let mut i: usize = 0;
        while i < args.len()
            invariant
                i <= args.len(),
                self.vars == old(self).vars,
                self.cwd == old(self).cwd,
                self.home_dir == old(self).home_dir,
                self.last_status == old(self).last_status,
                self.aliases == old(self).aliases,
                self.functions == old(self).functions,
                self.wf(),
                self.env_vars@ == removed_all(m0, arg_words(args@).subrange(0, i as int)),
                forall|j: int| 0 <= j < i ==> !self.env_vars@.contains_key(#[trigger] args[j].word()),
                forall|e| self.env_vars.pairs().contains(e) ==> p0.contains(e),
            decreases args.len() - i,
        {
            let ghost pre = arg_words(args@).subrange(0, i as int);
            let ghost cur = arg_words(args@).subrange(0, i + 1);
            assert(cur.drop_last() =~= pre);
            assert(cur.last() == args[i as int].word());
            self.env_vars.remove(args[i].as_str());
            i = i + 1;
        }
        assert(arg_words(args@).subrange(0, i as int) =~= arg_words(args@));
        BuiltinStep::Done { status: 0, out: String::new(), err: String::new() }
    }
}

/// The arguments as written, with a space between each two.
pub open spec fn shown(args: Seq<CmdArg>) -> Seq<char>
    decreases args.len(),
{
    if args.len() == 0 {
        Seq::empty()
    } else if args.len() == 1 {
        args[0].written()
    } else {
        shown(args.drop_last()) + " "@ + args.last().written()
    }
}

/// Whether `e1` is `e0` with at most its working directory changed.
pub open spec fn same_but_cwd(e0: Executor, e1: Executor) -> bool {
    &&& e1.env_vars == e0.env_vars
    &&& e1.vars == e0.vars
    &&& e1.home_dir == e0.home_dir
    &&& e1.last_status == e0.last_status
    &&& e1.aliases == e0.aliases
    &&& e1.functions == e0.functions
}

/// Whether `e1` is `e0` with at most its environment changed.
pub open spec fn same_but_env(e0: Executor, e1: Executor) -> bool {
    &&& e1.cwd == e0.cwd
    &&& e1.vars == e0.vars
    &&& e1.home_dir == e0.home_dir
    &&& e1.last_status == e0.last_status
    &&& e1.aliases == e0.aliases
    &&& e1.functions == e0.functions
}

/// Whether `e1` is `e0` with at most its aliases changed.
pub open spec fn same_but_aliases(e0: Executor, e1: Executor) -> bool {
    &&& e1.cwd == e0.cwd
    &&& e1.env_vars == e0.env_vars
    &&& e1.vars == e0.vars
    &&& e1.home_dir == e0.home_dir
    &&& e1.last_status == e0.last_status
    &&& e1.functions == e0.functions
}

/// A builtin that finished with status 0 and printed nothing.
pub open spec fn quiet_success(r: BuiltinStep) -> bool {
    r matches BuiltinStep::Done { status, out, err } && status == 0 && out@.len() == 0 && err@.len()
        == 0
}

/// A builtin that failed with the explanation `expl` under the name `name`.
pub open spec fn fails_with(r: BuiltinStep, name: Seq<char>, expl: Seq<char>) -> bool {
    r matches BuiltinStep::Fail(TrshError::Exec(ExecError::General(x))) && x.name@ == name
        && x.expl@ == expl
}

/// `cd`: no argument goes home; one asks for the working directory joined
/// with it to be made canonical; more are refused.
pub open spec fn cd_fits(e0: Executor, e1: Executor, args: Seq<CmdArg>, r: BuiltinStep) -> bool {
    &&& same_but_cwd(e0, e1)
    &&& args.len() == 0 ==> e1.cwd@ == e0.home_dir@ && quiet_success(r)
    &&& args.len() == 1 ==> e1 == e0 && (r matches BuiltinStep::Canonicalize(p) && p@ == join_path(
        e0.cwd@,
        args[0].word(),
    ))
    &&& args.len() > 1 ==> e1 == e0 && fails_with(r, "cd"@, "too many arguments"@)
}

/// `export`: with no argument, lists the environment; else sets each
/// assignment and adds each bare name that is missing, with an empty value.
pub open spec fn export_fits(e0: Executor, e1: Executor, args: Seq<CmdArg>, r: BuiltinStep) -> bool {
    &&& same_but_env(e0, e1)
    &&& args.len() == 0 ==> e1 == e0 && (r matches BuiltinStep::Done { status, out, err } && status
        == 0 && out@ == export_listing(e0.env_vars.pairs()) && err@.len() == 0)
    &&& args.len() > 0 && (forall|i: int| 0 <= i < args.len() ==> settable(#[trigger] args[i].view()))
        ==> e1.env_vars@ == exported(e0.env_vars@, arg_views(args)) && quiet_success(r)
    &&& args.len() > 0 && (exists|i: int| 0 <= i < args.len() && !settable(#[trigger] args[i].view()))
        ==> (r matches BuiltinStep::Fail(TrshError::Exec(ExecError::NotImplemented(w))) && w@
        == "export"@)
}

/// Whether the arguments are one bare name that has no alias.
pub open spec fn lone_missing_name(m: Map<Seq<char>, Seq<char>>, args: Seq<CmdArg>) -> bool {
    args.len() == 1 && args[0] is Arg && !m.contains_key(args[0].word())
}

/// `alias`: with no argument, lists the aliases; with one bare name that has
/// no alias, fails; else defines each assignment and shows each bare name, or
/// reports it missing on the error stream.
pub open spec fn alias_fits(e0: Executor, e1: Executor, args: Seq<CmdArg>, r: BuiltinStep) -> bool {
    &&& same_but_aliases(e0, e1)
    &&& args.len() == 0 ==> e1 == e0 && (r matches BuiltinStep::Done { status, out, err } && status
        == 0 && out@ == alias_listing(e0.aliases.pairs()) && err@.len() == 0)
    &&& lone_missing_name(e0.aliases@, args) ==> e1 == e0 && fails_with(
        r,
        "alias"@,
        args[0].word() + ": not found"@,
    )
    &&& args.len() > 0 && !lone_missing_name(e0.aliases@, args) && (forall|i: int|
        0 <= i < args.len() ==> settable(#[trigger] args[i].view())) ==> e1.aliases@ == aliased(
        e0.aliases@,
        arg_views(args),
    ) && (r matches BuiltinStep::Done { status, out, err } && status == 0 && out@ == alias_shown(
        e0.aliases@,
        arg_views(args),
    ) && err@ == alias_missing(e0.aliases@, arg_views(args)))
    &&& args.len() > 0 && (exists|i: int| 0 <= i < args.len() && !settable(#[trigger] args[i].view()))
        ==> (r matches BuiltinStep::Fail(TrshError::Exec(ExecError::NotImplemented(w))) && w@
        == "alias"@)
}

/// `unalias`: removes each named alias; a name with no alias is an error,
/// which stops the removal there.
pub open spec fn unalias_fits(e0: Executor, e1: Executor, args: Seq<CmdArg>, r: BuiltinStep) -> bool {
    &&& same_but_aliases(e0, e1)
    &&& args.len() == 0 ==> e1 == e0 && (r matches BuiltinStep::Done { status, out, err } && status
        == 0 && out@ == "unalias: usage: unalias [-a] name [name ...]\n"@ && err@.len() == 0)
    &&& args.len() > 0 ==> e1.aliases@ == unaliased(e0.aliases@, arg_words(args), 0).0
    &&& args.len() > 0 ==> match unaliased(e0.aliases@, arg_words(args), 0).1 {
        None => quiet_success(r),
        Some(i) => fails_with(r, "unalias"@, args[i].written() + ": not found"@),
    }
}

/// `unset`: removes each named variable from the environment.
pub open spec fn unset_fits(e0: Executor, e1: Executor, args: Seq<CmdArg>, r: BuiltinStep) -> bool {
    &&& same_but_env(e0, e1)
    &&& e1.env_vars@ == removed_all(e0.env_vars@, arg_words(args))
    &&& forall|i: int| 0 <= i < args.len() ==> !e1.env_vars@.contains_key(#[trigger] args[i].word())
    &&& forall|e| e1.env_vars.pairs().contains(e) ==> e0.env_vars.pairs().contains(e)
    &&& quiet_success(r)
}

/// `test`: with two arguments a unary predicate, with three a numeric
/// comparison; any other count is refused.
pub open spec fn test_fits(args: Seq<CmdArg>, r: BuiltinStep) -> bool {
    &&& args.len() == 2 ==> match unary_test_named(args[0].word()) {
        Some(t) => if t.on_files() {
            r matches BuiltinStep::Probe(t2, p) && t2 == t && p@ == args[1].word()
        } else {
            r matches BuiltinStep::Done { status, out, err } && out@.len() == 0 && err@.len() == 0
                && status == status_of((t is NonEmpty) == (args[1].word().len() > 0))
        },
        None => fails_with(r, "test"@, "invalid test: "@ + args[0].written()),
    }
    &&& args.len() == 3 ==> match binary_test_named(args[1].word()) {
        Some(bt) => r matches BuiltinStep::Done { status, out, err } && out@.len() == 0 && err@.len()
            == 0 && status == bt.status(args[0].word(), args[2].word()),
        None => fails_with(r, "test"@, "invalid cmd"@),
    }
    &&& args.len() != 2 && args.len() != 3 ==> fails_with(
        r,
        "test"@,
        "can't do anything with "@ + shown(args) + " yet"@,
    )
}

/// What builtin `b` does with `args`: the effect of its handler; `pwd`
/// prints the working directory, `exit` ends the process, and builtins
/// without an effect yet are refused. None but `cd`, `export`, `unset`,
/// `alias` and `unalias` changes the state.
pub open spec fn builtin_fits(
    b: Builtin,
    e0: Executor,
    e1: Executor,
    args: Seq<CmdArg>,
    r: BuiltinStep,
) -> bool {
    match b {
        Builtin::Cd => cd_fits(e0, e1, args, r),
        Builtin::Export => export_fits(e0, e1, args, r),
        Builtin::Alias => alias_fits(e0, e1, args, r),
        Builtin::Unalias => unalias_fits(e0, e1, args, r),
        Builtin::Unset => unset_fits(e0, e1, args, r),
        Builtin::Test => e1 == e0 && test_fits(args, r),
        Builtin::Pwd => e1 == e0 && (r matches BuiltinStep::Done { status, out, err } && status == 0
            && out@ == e0.cwd@ + "\n"@ && err@.len() == 0),
        Builtin::Exit => e1 == e0 && r is Exit,
        _ => e1 == e0 && (r matches BuiltinStep::Fail(
            TrshError::Exec(ExecError::NotImplemented(_)),
        )),
    }
}

/// Whether a builtin has an effect yet.
pub open spec fn implemented(b: Builtin) -> bool {
    ||| b is Alias
    ||| b is Cd
    ||| b is Exit
    ||| b is Export
    ||| b is Pwd
    ||| b is Test
    ||| b is Unalias
    ||| b is Unset
}

impl Executor {
    /// `test`: with two arguments a unary predicate, with three a numeric
    /// comparison; any other count is refused.
    pub fn handle_test(&self, args: &Vec<CmdArg>) -> (r: BuiltinStep)
        ensures
            test_fits(args@, r),
    {
        if args.len() == 2 {
            match UnaryTest::from_op(args[0].as_str()) {
                Some(t) => {
                    if t.is_on_files() {
                        BuiltinStep::Probe(t, args[1].as_str().to_owned())
                    } else {
                        let empty = args[1].as_str().unicode_len() == 0;
                        let holds = match t {
                            UnaryTest::NonEmpty => !empty,
                            _ => empty,
                        };
                        BuiltinStep::Done {
                            status: if holds {
                                0
                            } else {
                                1
                            },
                            out: String::new(),
                            err: String::new(),
                        }
                    }
                },
                None => {
                    let msg = "invalid test: ".to_owned().concat(args[0].as_os_string().as_str());
                    BuiltinStep::Fail(TrshError::gen_exec("test", msg.as_str()))
                },
            }
        } else if args.len() == 3 {
            match BinaryTest::from_op(args[1].as_str()) {
                Some(bt) => BuiltinStep::Done {
                    status: bt.compare(args[0].as_str(), args[2].as_str()),
                    out: String::new(),
                    err: String::new(),
                },
                None => BuiltinStep::Fail(TrshError::gen_exec("test", "invalid cmd")),
            }
        } else {
            let mut listed = String::new();
            assert(args@.subrange(0, 0) =~= Seq::<CmdArg>::empty());
            let mut i: usize = 0;
            while i < args.len()
                invariant
                    i <= args.len(),
                    listed@ == shown(args@.subrange(0, i as int)),
                decreases args.len() - i,
            {
                let ghost cur = args@.subrange(0, i + 1);
                assert(cur.drop_last() =~= args@.subrange(0, i as int));
                if i > 0 {
                    listed.append(" ");
                }
                listed.append(args[i].as_os_string().as_str());
                i = i + 1;
            }
            assert(args@.subrange(0, i as int) =~= args@);
            let msg = "can't do anything with ".to_owned().concat(listed.as_str()).concat(" yet");
            BuiltinStep::Fail(TrshError::gen_exec("test", msg.as_str()))
        }
    }

    /// Runs builtin `b` on `args`. Builtins without an effect yet are refused
    /// as not implemented, and leave the state as it was.
    pub fn exec_builtin(&mut self, b: Builtin, args: &Vec<CmdArg>) -> (r: BuiltinStep)
        requires
            old(self).wf(),
        ensures
            final(self).wf(),
            builtin_fits(b, *old(self), *final(self), args@, r),
    {
        match b {
            Builtin::Alias => self.handle_alias(args),
            Builtin::Cd => self.exec_cd(args),
            Builtin::Exit => BuiltinStep::Exit,
            Builtin::Export => self.handle_export(args),
            Builtin::Pwd => BuiltinStep::Done { status: 0, out: self.pwd_text(), err: String::new() },
            Builtin::Test => self.handle_test(args),
            Builtin::Unalias => self.unalias(args),
            Builtin::Unset => self.unset(args),
            _ => BuiltinStep::Fail(TrshError::Exec(ExecError::NotImplemented(b.name().to_owned()))),
        }
    }
}

/// Every entry of `t` as a line `prefix name="value"`.
fn listing(t: &VarTable, prefix: &str) -> (r: String)
    ensures
        prefix@ == "declare -x "@ ==> r@ == export_listing(t.pairs()),
        prefix@ == "alias "@ ==> r@ == alias_listing(t.pairs()),
{
    let mut out = String::new();
    let mut i: usize = 0;
    while i < t.len()
        invariant
            i <= t.pairs().len(),
            prefix@ == "declare -x "@ ==> out@ == export_listing(t.pairs().subrange(0, i as int)),
            prefix@ == "alias "@ ==> out@ == alias_listing(t.pairs().subrange(0, i as int)),
        decreases t.pairs().len() - i,
    {
        let (k, v) = t.entry(i);
        let ghost cur = t.pairs().subrange(0, i + 1);
        assert(cur.drop_last() =~= t.pairs().subrange(0, i as int));
        out.append(prefix);
        out.append(k.as_str());
        out.append("=\"");
        out.append(v.as_str());
        out.append("\"\n");
        i = i + 1;
        assert(export_line(k@, v@) =~= "declare -x "@ + k@ + "=\""@ + v@ + "\"\n"@);
        assert(prefix@ == "declare -x "@ ==> out@ =~= export_listing(cur));
        assert(prefix@ == "alias "@ ==> out@ =~= alias_listing(cur));
    }
    assert(t.pairs().subrange(0, i as int) =~= t.pairs());
    out
}

} // verus!
