use vstd::prelude::*;

use crate::ast::{CmdArg, Command, RedirView, Redirection, SimpleCommand};
use crate::builder::{LineSource, Program};
use crate::builtins::CmdName;
use crate::error::{ExecError, TrshError};
use crate::builder::buildable;
use crate::paths::candidates_of;
use crate::executor::{builtin_fits, same_but_cwd, BuiltinStep, Executor};
use crate::parse_tree::ParseNode;
use crate::test_expr::UnaryTest;

verus! {

/// How deep alias expansions may nest before the executor gives up.
pub const MAX_ALIAS_DEPTH: u64 = 64;

/// One end of a pipe that the executor asked for, by number.
#[derive(Debug, Clone, Copy, PartialEq, Eq, Structural)]
pub enum Stream {
    PipeRead(u64),
    PipeWrite(u64),
}

/// Streams that a caller hands a command in place of its own.
#[derive(Debug, Clone, Copy, PartialEq, Eq, Structural)]
pub struct Io {
    pub stdin: Option<Stream>,
    pub stdout: Option<Stream>,
}

impl Io {
    pub fn none() -> (r: Io)
        ensures
            r == (Io { stdin: None, stdout: None }),
    {
        Io { stdin: None, stdout: None }
    }
}

/// The result of a command: an exit status, or an error.
#[derive(Debug)]
pub enum Outcome {
    Status(i32),
    Failed(TrshError),
}

/// Work that is left once the command being run has finished.
#[derive(Debug)]
pub enum Frame {
    /// The remaining members of a sequence.
    SeqRest(Vec<Command>, u64),
    /// The right side of `&&`.
    AndRight(Command, u64),
    /// The right side of `||`.
    OrRight(Command, u64),
    /// The branches of an `if` whose condition runs.
    Branch(Command, Option<Command>, u64),
    /// A loop whose condition runs.
    LoopCond(Command, Command, u64),
    /// A loop whose body runs.
    LoopBody(Command, Command, u64),
    /// The right side of a pipeline whose left side runs, with its streams
    /// and the pipe's number.
    PipeRight(Command, Io, u64, u64),
    /// A pipeline whose right side runs: its left side is reaped after.
    PipeJoin(u64),
}

/// The answer that the executor waits for.
#[derive(Debug)]
pub enum Wait {
    /// The exit status of a process it waits for.
    Exit,
    /// The start of a process it does not wait for.
    Spawned,
    /// The canonical form of a path, for `cd`.
    Canonical,
    /// Whether a file predicate holds, for `test`.
    Probe(UnaryTest),
    /// The parse of an alias's text, to run with these streams at this depth.
    Parsed(Io, u64),
    /// The end of the processes of a pipeline, then this outcome.
    Reaped(Outcome),
    /// Which of the command's candidates are executable, to start this
    /// process with the first that is.
    Locate(Launch),
}

/// Where a job stands.
#[derive(Debug)]
pub enum Mode {
    /// A command to start, with its streams and its alias depth.
    Eval(Command, Io, u64),
    /// A command finished with this outcome.
    Return(Outcome),
    /// Waiting for an answer from outside.
    Await(Wait),
    /// A process to start.
    Start(Launch),
    Finished,
}

/// One command line being run: where it stands, the work left, and the
/// number of the next pipe.
#[derive(Debug)]
pub struct Job {
    pub frames: Vec<Frame>,
    pub mode: Mode,
    pub next_pipe: u64,
}

/// Where a process reads its input.
#[derive(Debug, PartialEq, Eq)]
pub enum StdinPlan {
    Inherit,
    /// The read end of a pipe.
    Pipe(u64),
    /// The file of the redirection at this position.
    Opened(usize),
    /// This text, written to the process.
    Text(String),
}

/// Where a process writes its output.
#[derive(Debug, PartialEq, Eq)]
pub enum StdoutPlan {
    Inherit,
    /// The write end of a pipe.
    Pipe(u64),
    /// The file of the redirection at this position.
    Opened(usize),
}

/// A process to start. Every file redirection is opened, in order; the
/// plans say which of them the process reads and writes.
#[derive(Debug)]
pub struct Launch {
    /// The command word.
    pub name: String,
    /// The executable file found for it on the search path.
    pub program: String,
    pub args: Vec<String>,
    pub cwd: String,
    pub redirections: Vec<Redirection>,
    pub stdin: StdinPlan,
    pub stdout: StdoutPlan,
    /// Whether to wait for the process to end; a process that writes into a
    /// pipe runs on while the next one starts.
    pub wait: bool,
}

/// What the executor needs done outside.
#[derive(Debug)]
pub enum Action {
    /// Nothing: ask again.
    Continue,
    /// Write these texts to the standard output and error streams.
    Print { out: String, err: String },
    /// Say which of these paths name executable files: answer with `Located`.
    Locate(Vec<String>),
    /// Start a process: answer with `Exited` when it is waited for, else
    /// with `Spawned`, or with `Failed`.
    Spawn(Launch),
    /// Make a path canonical: answer with `Canonical`.
    Canonicalize(String),
    /// Decide a file predicate of a path: answer with `Probed`.
    Probe(UnaryTest, String),
    /// Parse this text as a program: answer with `Parsed`.
    Parse(String),
    /// Wait for the processes started into pipe number `p`, then close it:
    /// answer with `Done`.
    Reap(u64),
    /// End the whole process with status 0.
    Exit,
    /// The job is over with this outcome.
    Finished(Outcome),
}

/// An answer from outside.
#[derive(Debug)]
pub enum Event {
    Done,
    Exited(i32),
    Spawned,
    Failed(ExecError),
    Canonical(Result<String, String>),
    Probed(bool),
    Parsed(Result<ParseNode, String>),
    /// For each path asked about, whether it names an executable file.
    Located(Vec<bool>),
}

/// Position of the last redirection that gives input.
pub open spec fn last_input(rs: Seq<RedirView>) -> Option<int>
    decreases rs.len(),
{
    if rs.len() == 0 {
        None
    } else if rs.last() is Input || rs.last() is HereDoc {
        Some(rs.len() - 1)
    } else {
        last_input(rs.drop_last())
    }
}

/// Position of the last redirection that takes output.
pub open spec fn last_output(rs: Seq<RedirView>) -> Option<int>
    decreases rs.len(),
{
    if rs.len() == 0 {
        None
    } else if rs.last() is AppendRight || rs.last() is TruncRight {
        Some(rs.len() - 1)
    } else {
        last_output(rs.drop_last())
    }
}

proof fn lemma_last_in_range(rs: Seq<RedirView>)
    ensures
        last_input(rs) matches Some(j) ==> 0 <= j < rs.len(),
        last_output(rs) matches Some(j) ==> 0 <= j < rs.len(),
    decreases rs.len(),
{
    if rs.len() > 0 {
        lemma_last_in_range(rs.drop_last());
    }
}

pub open spec fn stream_id(s: Stream) -> u64 {
    match s {
        Stream::PipeRead(p) => p,
        Stream::PipeWrite(p) => p,
    }
}

pub open spec fn redir_views(rs: Seq<Redirection>) -> Seq<RedirView> {
    rs.map_values(|r: Redirection| r.view())
}

/// Where a process reads: the caller's stream if one was given, else the
/// last input redirection, else the inherited input.
pub open spec fn input_plan_fits(p: StdinPlan, rs: Seq<Redirection>, io: Io) -> bool {
    match io.stdin {
        Some(s) => p == StdinPlan::Pipe(stream_id(s)),
        None => match last_input(redir_views(rs)) {
            Some(j) => match rs[j] {
                Redirection::HereDoc(b) => p matches StdinPlan::Text(t) && t@ == b@,
                _ => p == StdinPlan::Opened(j as usize),
            },
            None => p == StdinPlan::Inherit,
        },
    }
}

/// Where a process writes: the caller's stream if one was given, else the
/// last output redirection, else the inherited output.
pub open spec fn output_plan_fits(p: StdoutPlan, rs: Seq<Redirection>, io: Io) -> bool {
    match io.stdout {
        Some(s) => p == StdoutPlan::Pipe(stream_id(s)),
        None => match last_output(redir_views(rs)) {
            Some(j) => p == StdoutPlan::Opened(j as usize),
            None => p == StdoutPlan::Inherit,
        },
    }
}

/// Decides where a process reads and writes: a stream the caller hands over
/// wins over the command's own redirections, and among those the last wins.
pub fn plan_streams(rs: &Vec<Redirection>, io: Io) -> (r: (StdinPlan, StdoutPlan))
    ensures
        input_plan_fits(r.0, rs@, io),
        output_plan_fits(r.1, rs@, io),
{
    let ghost vs = redir_views(rs@);
    let mut last_in: Option<usize> = None;
    let mut last_out: Option<usize> = None;
    let mut i: usize = 0;
    while i < rs.len()
        invariant
            i <= rs.len(),
            vs == redir_views(rs@),
            last_input(vs.subrange(0, i as int)) == match last_in {
                Some(j) => Some(j as int),
                None => None::<int>,
            },
            last_output(vs.subrange(0, i as int)) == match last_out {
                Some(j) => Some(j as int),
                None => None::<int>,
            },
        decreases rs.len() - i,
    {
        let ghost cur = vs.subrange(0, i + 1);
        assert(cur.drop_last() =~= vs.subrange(0, i as int));
        assert(cur.last() == rs@[i as int].view());
        match &rs[i] {
            Redirection::Input(_) | Redirection::HereDoc(_) => {
                last_in = Some(i);
            },
            _ => {
                last_out = Some(i);
            },
        }
        i = i + 1;
    }
    assert(vs.subrange(0, i as int) =~= vs);
    proof {
        lemma_last_in_range(vs);
    }
    let input = match io.stdin {
        Some(Stream::PipeRead(p)) | Some(Stream::PipeWrite(p)) => StdinPlan::Pipe(p),
        None => match last_in {
            Some(j) => match &rs[j] {
                Redirection::HereDoc(b) => StdinPlan::Text(b.clone()),
                _ => StdinPlan::Opened(j),
            },
            None => StdinPlan::Inherit,
        },
    };
    let output = match io.stdout {
        Some(Stream::PipeRead(p)) | Some(Stream::PipeWrite(p)) => StdoutPlan::Pipe(p),
        None => match last_out {
            Some(j) => StdoutPlan::Opened(j),
            None => StdoutPlan::Inherit,
        },
    };
    (input, output)
}

/// The arguments as they are handed to a program.
fn written_args(args: &Vec<CmdArg>) -> (r: Vec<String>)
    ensures
        r.len() == args.len(),
        forall|i: int| 0 <= i < args.len() ==> (#[trigger] r@[i])@ == args@[i].written(),
{
    let mut r: Vec<String> = Vec::new();
    let mut i: usize = 0;
    while i < args.len()
        invariant
            i <= args.len(),
            r.len() == i,
            forall|j: int| 0 <= j < i ==> (#[trigger] r@[j])@ == args@[j].written(),
        decreases args.len() - i,
    {
        r.push(args[i].as_os_string());
        i = i + 1;
    }
    r
}

/// No stream handed over.
pub open spec fn no_io() -> Io {
    Io { stdin: None, stdout: None }
}

/// The `else` branch without its box.
pub open spec fn unboxed(e: Option<Box<Command>>) -> Option<Command> {
    match e {
        Some(b) => Some(*b),
        None => None,
    }
}

/// Whether a process writes into a pipe, and so runs on while the next starts.
pub open spec fn feeds_pipe(io: Io) -> bool {
    io.stdout matches Some(Stream::PipeWrite(_))
}

impl Job {
    /// A job that runs `cmd` with the given streams in place of its own.
    pub fn new(cmd: Command, stdin: Option<Stream>, stdout: Option<Stream>) -> (r: Job)
        ensures
            r.frames@.len() == 0,
            r.mode == Mode::Eval(cmd, Io { stdin, stdout }, 0),
            r.next_pipe == 0,
    {
        Job { frames: Vec::new(), mode: Mode::Eval(cmd, Io { stdin, stdout }, 0), next_pipe: 0 }
    }

    /// Whether the job is over.
    pub fn is_finished(&self) -> (r: bool)
        ensures
            r == self.mode is Finished,
    {
        match self.mode {
            Mode::Finished => true,
            _ => false,
        }
    }
}

/// What `Executor::absorb` does with an answer.
pub open spec fn absorb_fits(e0: Executor, e1: Executor, j0: Job, j1: Job, event: Event) -> bool {
    &&& j1.frames == j0.frames
    &&& j1.next_pipe == j0.next_pipe
    &&& !(j0.mode is Await) ==> j1 == j0 && e1 == e0
    &&& j0.mode is Await && !(j0.mode matches Mode::Await(Wait::Canonical)) ==> e1.cwd
        == e0.cwd
    &&& j0.mode is Await ==> same_but_cwd(e0, e1)
    &&& j0.mode matches Mode::Await(w) ==> match (w, event) {
        (Wait::Exit, Event::Exited(c)) => j1.mode == Mode::Return(Outcome::Status(c)),
        (Wait::Spawned, Event::Spawned) => j1.mode == Mode::Return(Outcome::Status(0)),
        (Wait::Canonical, Event::Canonical(Ok(p))) => e1.cwd@ == p@ && j1.mode
            == Mode::Return(Outcome::Status(0)),
        (Wait::Canonical, Event::Canonical(Err(m))) => e1.cwd == e0.cwd
            && (j1.mode matches Mode::Return(
            Outcome::Failed(TrshError::Exec(ExecError::General(x))),
        ) && x.name@ == "cd"@ && x.expl@ == m@),
        (Wait::Probe(_), Event::Probed(b)) => j1.mode == Mode::Return(
            Outcome::Status(
                if b {
                    0
                } else {
                    1
                },
            ),
        ),
        (Wait::Parsed(io, d), Event::Parsed(Ok(node))) => match j1.mode {
            Mode::Eval(c, io2, d2) => io2 == io && d2 == d && node.children.len() > 0
                && crate::builder::built_as(node.children[0], c, e0.aliases@, e0.functions@),
            Mode::Return(Outcome::Failed(_)) => !(node.children.len() > 0 && buildable(
                node.children[0],
            )),
            _ => false,
        },
        (Wait::Parsed(_, _), Event::Parsed(Err(m))) => j1.mode matches Mode::Return(
            Outcome::Failed(TrshError::Parse(m2)),
        ) && m2 == m,
        (Wait::Reaped(o), Event::Done) => j1.mode == Mode::Return(o),
        // The process starts from the first candidate that is executable; a
        // command with none is unknown.
        (Wait::Locate(l), Event::Located(ps)) => {
            let cs = candidates_of(l.name@, e0.search_path());
            if ps.len() != cs.len() {
                j1.mode == Mode::Return(Outcome::Failed(TrshError::Exec(ExecError::Failed)))
            } else if forall|i: int| 0 <= i < ps.len() ==> !ps[i] {
                j1.mode == Mode::Return(Outcome::Failed(TrshError::Exec(ExecError::UnknownCmd)))
            } else {
                j1.mode matches Mode::Start(l2) && l2 == (Launch { program: l2.program, ..l })
                    && exists|i: int|
                    0 <= i < ps.len() && ps[i] && l2.program@ == cs[i] && forall|j: int|
                        0 <= j < i ==> !ps[j]
            }
        },
        (_, Event::Failed(e)) => j1.mode == Mode::Return(
            Outcome::Failed(TrshError::Exec(e)),
        ),
        _ => j1.mode == Mode::Return(Outcome::Failed(TrshError::Exec(ExecError::Failed))),
    }
}

impl Executor {
    /// Takes the answer to the job's last action. An answer that does not fit
    /// what the job waits for fails the command; a job that waits for nothing
    /// ignores it.
    pub fn absorb(&mut self, job: &mut Job, event: Event)
        requires
            old(self).wf(),
        ensures
            final(self).wf(),
            absorb_fits(*old(self), *final(self), *old(job), *final(job), event),
    {
        let mut mode = Mode::Finished;
        std::mem::swap(&mut mode, &mut job.mode);
        let w = match mode {
            Mode::Await(w) => w,
            other => {
                job.mode = other;
                return;
            },
        };
        job.mode = match (w, event) {
            (Wait::Exit, Event::Exited(c)) => Mode::Return(Outcome::Status(c)),
            (Wait::Spawned, Event::Spawned) => Mode::Return(Outcome::Status(0)),
            (Wait::Canonical, Event::Canonical(Ok(p))) => {
                self.cwd = p;
                Mode::Return(Outcome::Status(0))
            },
            (Wait::Canonical, Event::Canonical(Err(m))) => Mode::Return(
                Outcome::Failed(TrshError::gen_exec("cd", m.as_str())),
            ),
            (Wait::Probe(_), Event::Probed(b)) => Mode::Return(
                Outcome::Status(
                    if b {
                        0
                    } else {
                        1
                    },
                ),
            ),
            (Wait::Parsed(io, d), Event::Parsed(Ok(node))) => {
                let mut none: Option<LineSource> = None;
                match Program::new(&node, self.env(), &mut none) {
                    Ok(p) => Mode::Eval(p.0, io, d),
                    Err(e) => Mode::Return(Outcome::Failed(e)),
                }
            },
            (Wait::Parsed(_, _), Event::Parsed(Err(m))) => Mode::Return(
                Outcome::Failed(TrshError::Parse(m)),
            ),
            (Wait::Reaped(o), Event::Done) => Mode::Return(o),
            (Wait::Locate(l), Event::Located(ps)) => {
                let cs = self.command_candidates(l.name.as_str());
                if ps.len() != cs.len() {
                    Mode::Return(Outcome::Failed(TrshError::Exec(ExecError::Failed)))
                } else {
                    match self.lookup_command(l.name.as_str(), &ps) {
                        Some(p) => Mode::Start(Launch { program: p, ..l }),
                        None => Mode::Return(Outcome::Failed(TrshError::Exec(ExecError::UnknownCmd))),
                    }
                }
            },
            (_, Event::Failed(e)) => Mode::Return(Outcome::Failed(TrshError::Exec(e))),
            _ => Mode::Return(Outcome::Failed(TrshError::Exec(ExecError::Failed))),
        };
    }
}

/// How a job moves on when a command finished with status `s` and `f` is
/// the work left on top.
pub open spec fn resumes(f: Frame, s: i32, j1: Job, rest: Seq<Frame>, r: Action) -> bool {
    match f {
        // A sequence runs its members in order; the status of the sequence is
        // the status of its last member.
        Frame::SeqRest(v, d) => if v.len() == 0 {
            j1.mode == Mode::Return(Outcome::Status(s)) && j1.frames@ == rest && r is Continue
        } else {
            &&& j1.mode == Mode::Eval(v[0], no_io(), d)
            &&& j1.frames@.len() == rest.len() + 1
            &&& j1.frames@.drop_last() == rest
            &&& j1.frames@.last() matches Frame::SeqRest(w, d2)
            &&& w@ == v@.drop_first()
            &&& d2 == d
            &&& r is Continue
        },
        // `l && r`: the right side runs only when the left side succeeded.
        Frame::AndRight(c, d) => j1.frames@ == rest && r is Continue && if s == 0 {
            j1.mode == Mode::Eval(c, no_io(), d)
        } else {
            j1.mode == Mode::Return(Outcome::Status(s))
        },
        // `l || r`: the right side runs only when the left side failed.
        Frame::OrRight(c, d) => j1.frames@ == rest && r is Continue && if s != 0 {
            j1.mode == Mode::Eval(c, no_io(), d)
        } else {
            j1.mode == Mode::Return(Outcome::Status(s))
        },
        Frame::Branch(t, e, d) => j1.frames@ == rest && r is Continue && if s == 0 {
            j1.mode == Mode::Eval(t, no_io(), d)
        } else {
            match e {
                Some(e) => j1.mode == Mode::Eval(e, no_io(), d),
                None => j1.mode == Mode::Return(Outcome::Status(s)),
            }
        },
        Frame::LoopCond(c, b, d) => r is Continue && if s == 0 {
            &&& j1.frames@ == rest.push(Frame::LoopBody(c, b, d))
            &&& j1.mode matches Mode::Eval(b2, io, d2)
            &&& b2.same_as(b) && io == no_io() && d2 == d
        } else {
            j1.frames@ == rest && j1.mode == Mode::Return(Outcome::Status(0))
        },
        Frame::LoopBody(c, b, d) => {
            &&& r is Continue
            &&& j1.frames@ == rest.push(Frame::LoopCond(c, b, d))
            &&& j1.mode matches Mode::Eval(c2, io, d2)
            &&& c2.same_as(c) && io == no_io() && d2 == d
        },
        Frame::PipeRight(c, io, d, p) => j1.frames@ == rest.push(Frame::PipeJoin(p)) && j1.mode
            == Mode::Eval(c, io, d) && r is Continue,
        Frame::PipeJoin(p) => j1.frames@ == rest && j1.mode == Mode::Await(
            Wait::Reaped(Outcome::Status(s)),
        ) && r == Action::Reap(p),
    }
}

/// How a job unwinds when a command failed with `e` and `f` is the work left
/// on top: a loop's condition that fails ends the loop with success, a
/// pipeline reaps what it started, anything else passes the error on.
pub open spec fn unwinds(f: Frame, e: TrshError, j1: Job, rest: Seq<Frame>, r: Action) -> bool {
    &&& j1.frames@ == rest
    &&& match f {
        Frame::LoopCond(_, _, _) => j1.mode == Mode::Return(Outcome::Status(0)) && r is Continue,
        Frame::PipeJoin(p) => j1.mode == Mode::Await(Wait::Reaped(Outcome::Failed(e))) && r
            == Action::Reap(p),
        Frame::PipeRight(_, _, _, p) => j1.mode == Mode::Await(Wait::Reaped(Outcome::Failed(e)))
            && r == Action::Reap(p),
        _ => j1.mode == Mode::Return(Outcome::Failed(e)) && r is Continue,
    }
}

/// How a job starts a compound command: the first part runs and the rest is
/// left as work.
pub open spec fn starts(cmd: Command, io: Io, d: u64, j0: Job, j1: Job, r: Action) -> bool {
    let fs = j0.frames@;
    match cmd {
        Command::Sequence(v) => r is Continue && if v.len() == 0 {
            j1.frames@ == fs && j1.mode == Mode::Return(Outcome::Status(0))
        } else {
            &&& j1.mode == Mode::Eval(v[0], no_io(), d)
            &&& j1.frames@.len() == fs.len() + 1
            &&& j1.frames@.drop_last() == fs
            &&& j1.frames@.last() matches Frame::SeqRest(w, d2)
            &&& w@ == v@.drop_first()
            &&& d2 == d
        },
        Command::And(a, b) => r is Continue && j1.frames@ == fs.push(Frame::AndRight(*b, d))
            && j1.mode == Mode::Eval(*a, no_io(), d),
        Command::Or(a, b) => r is Continue && j1.frames@ == fs.push(Frame::OrRight(*b, d)) && j1.mode
            == Mode::Eval(*a, no_io(), d),
        Command::Conditional(k) => r is Continue && j1.frames@ == fs.push(
            Frame::Branch(*k.then_branch, unboxed(k.else_branch), d),
        ) && j1.mode == Mode::Eval(*k.condition, no_io(), d),
        Command::WhileLoop(w) => {
            &&& r is Continue
            &&& j1.frames@ == fs.push(Frame::LoopCond(*w.condition, *w.body, d))
            &&& j1.mode matches Mode::Eval(c2, io2, d2)
            &&& c2.same_as(*w.condition) && io2 == no_io() && d2 == d
        },
        // Both sides of a pipeline are started before either is waited for:
        // the left side writes into a new pipe, the right side reads from it.
        Command::Pipeline(a, b) => r is Continue && if j0.next_pipe < u64::MAX {
            let p = j0.next_pipe;
            &&& j1.next_pipe == p + 1
            &&& j1.frames@ == fs.push(
                Frame::PipeRight(*b, Io { stdin: Some(Stream::PipeRead(p)), stdout: io.stdout }, d, p),
            )
            &&& j1.mode == Mode::Eval(*a, Io { stdin: io.stdin, stdout: Some(Stream::PipeWrite(p)) }, d)
        } else {
            j1.frames@ == fs && j1.mode == Mode::Return(
                Outcome::Failed(TrshError::Exec(ExecError::Failed)),
            )
        },
        Command::Simple(_) => true,
    }
}

/// How a job starts a simple command that is not a builtin.
pub open spec fn launches(
    sc: SimpleCommand,
    io: Io,
    d: u64,
    e0: Executor,
    e1: Executor,
    j0: Job,
    j1: Job,
    r: Action,
) -> bool {
    match sc.name {
        CmdName::Unknown(n) => {
            &&& j1.frames@ == j0.frames@
            &&& r matches Action::Locate(cs)
            &&& cs@.map_values(|x: String| x@) == candidates_of(n@, e0.search_path())
            &&& j1.mode matches Mode::Await(Wait::Locate(l))
            &&& l.name@ == n@
            &&& l.program@ == n@
            &&& l.cwd@ == e0.cwd@
            &&& l.args.len() == sc.args.len()
            &&& (forall|i: int| 0 <= i < sc.args.len() ==> (#[trigger] l.args@[i])@ == sc.args@[i].written())
            &&& l.redirections@ == sc.redirections@
            &&& input_plan_fits(l.stdin, sc.redirections@, io)
            &&& output_plan_fits(l.stdout, sc.redirections@, io)
            &&& l.wait == !feeds_pipe(io)
        },
        // An alias is parsed anew each time it runs, against the state of
        // that moment, with the caller's streams.
        CmdName::Alias(t) => j1.frames@ == j0.frames@ && if d < MAX_ALIAS_DEPTH {
            r matches Action::Parse(x) && x@ == t@ && j1.mode == Mode::Await(Wait::Parsed(io, (d + 1) as u64))
        } else {
            r is Continue && j1.mode == Mode::Return(
                Outcome::Failed(TrshError::Exec(ExecError::AliasDepthExceeded)),
            )
        },
        CmdName::Path(_) | CmdName::Function(_) => j1.frames@ == j0.frames@ && r is Continue
            && j1.mode matches Mode::Return(Outcome::Failed(TrshError::Exec(ExecError::NotImplemented(_)))),
        // A builtin runs at once; what it prints is handed out, and what it
        // needs from the system is asked for.
        CmdName::Builtin(b) => {
            &&& j1.frames@ == j0.frames@
            &&& carries(builtin_step_of(j1, r), j1, r)
            &&& builtin_fits(b, e0, e1, sc.args@, builtin_step_of(j1, r))
        },
    }
}

/// Whether the job's next mode and action carry out what a builtin did.
pub open spec fn carries(st: BuiltinStep, j1: Job, r: Action) -> bool {
    match st {
        BuiltinStep::Done { status, out, err } => j1.mode == Mode::Return(Outcome::Status(status))
            && r == (Action::Print { out, err }),
        BuiltinStep::Fail(e) => j1.mode == Mode::Return(Outcome::Failed(e)) && r is Continue,
        BuiltinStep::Canonicalize(p) => j1.mode == Mode::Await(Wait::Canonical) && r
            == Action::Canonicalize(p),
        BuiltinStep::Probe(t, p) => j1.mode == Mode::Await(Wait::Probe(t)) && r == Action::Probe(t, p),
        BuiltinStep::Exit => j1.mode is Finished && r is Exit,
    }
}

/// The builtin result that a job's next mode and action stand for.
pub open spec fn builtin_step_of(j1: Job, r: Action) -> BuiltinStep {
    match r {
        Action::Print { out, err } => BuiltinStep::Done {
            status: match j1.mode {
                Mode::Return(Outcome::Status(s)) => s,
                _ => 0,
            },
            out,
            err,
        },
        Action::Canonicalize(p) => BuiltinStep::Canonicalize(p),
        Action::Probe(t, p) => BuiltinStep::Probe(t, p),
        Action::Exit => BuiltinStep::Exit,
        _ => match j1.mode {
            Mode::Return(Outcome::Failed(e)) => BuiltinStep::Fail(e),
            _ => BuiltinStep::Exit,
        },
    }
}

/// One move of a job, as `Executor::exec` makes it.
pub open spec fn step_fits(e0: Executor, e1: Executor, j0: Job, j1: Job, r: Action) -> bool {
    match j0.mode {
        Mode::Return(o) => if j0.frames@.len() == 0 {
            &&& j1.mode is Finished
            &&& r == Action::Finished(o)
            &&& o matches Outcome::Status(s) ==> e1.last_status == s
        } else {
            let f = j0.frames@.last();
            let rest = j0.frames@.drop_last();
            &&& e1 == e0
            &&& j1.next_pipe == j0.next_pipe
            &&& match o {
                Outcome::Status(s) => resumes(f, s, j1, rest, r),
                Outcome::Failed(e) => unwinds(f, e, j1, rest, r),
            }
        },
        Mode::Eval(cmd, io, d) => match cmd {
            Command::Simple(sc) => launches(sc, io, d, e0, e1, j0, j1, r) && j1.next_pipe == j0.next_pipe
                && (!(sc.name is Builtin) ==> e1 == e0),
            _ => e1 == e0 && starts(cmd, io, d, j0, j1, r) && (!(cmd is Pipeline) ==> j1.next_pipe
                == j0.next_pipe),
        },
        Mode::Await(_) => e1 == e0 && j1 == j0 && r is Continue,
        Mode::Start(l) => {
            &&& e1 == e0
            &&& j1.frames@ == j0.frames@
            &&& j1.next_pipe == j0.next_pipe
            &&& j1.mode == Mode::Await(
                if l.wait {
                    Wait::Exit
                } else {
                    Wait::Spawned
                },
            )
            &&& r == Action::Spawn(l)
        },
        Mode::Finished => e1 == e0 && j1 == j0 && r == Action::Finished(
            Outcome::Status(e0.last_status),
        ),
    }
}

impl Executor {
    /// Moves the job on by one step and says what has to be done outside
    /// before the next one.
    pub fn exec(&mut self, job: &mut Job) -> (r: Action)
        requires
            old(self).wf(),
        ensures
            final(self).wf(),
            final(self).home_dir == old(self).home_dir,
            step_fits(*old(self), *final(self), *old(job), *final(job), r),
    {
        let mut mode = Mode::Finished;
        std::mem::swap(&mut mode, &mut job.mode);
        match mode {
            Mode::Finished => Action::Finished(Outcome::Status(self.last_status)),
            Mode::Await(w) => {
                job.mode = Mode::Await(w);
                Action::Continue
            },
            Mode::Start(l) => {
                job.mode = Mode::Await(
                    if l.wait {
                        Wait::Exit
                    } else {
                        Wait::Spawned
                    },
                );
                Action::Spawn(l)
            },
            Mode::Return(o) => self.resume(job, o),
            Mode::Eval(cmd, io, d) => match cmd {
                Command::Simple(sc) => self.eval_simple(job, sc, io, d),
                other => Self::eval_compound(job, other, io, d),
            },
        }
    }

    fn resume(&mut self, job: &mut Job, o: Outcome) -> (r: Action)
        requires
            old(self).wf(),
        ensures
            final(self).wf(),
            final(self).home_dir == old(self).home_dir,
            step_fits(*old(self), *final(self), Job { mode: Mode::Return(o), ..*old(job) }, *final(job), r),
    {
        let f = match job.frames.pop() {
            None => {
                job.mode = Mode::Finished;
                if let Outcome::Status(s) = o {
                    self.last_status = s;
                }
                return Action::Finished(o);
            },
            Some(f) => f,
        };
        match o {
            Outcome::Failed(e) => match f {
                Frame::LoopCond(_, _, _) => {
                    job.mode = Mode::Return(Outcome::Status(0));
                    Action::Continue
                },
                Frame::PipeJoin(p) | Frame::PipeRight(_, _, _, p) => {
                    job.mode = Mode::Await(Wait::Reaped(Outcome::Failed(e)));
                    Action::Reap(p)
                },
                _ => {
                    job.mode = Mode::Return(Outcome::Failed(e));
                    Action::Continue
                },
            },
            Outcome::Status(s) => match f {
                Frame::SeqRest(mut v, d) => {
                    if v.len() == 0 {
                        job.mode = Mode::Return(Outcome::Status(s));
                    } else {
                        let ghost v0 = v@;
                        let c = v.remove(0);
                        assert(v@ =~= v0.drop_first());
                        let ghost before = job.frames@;
                        job.frames.push(Frame::SeqRest(v, d));
                        assert(job.frames@.drop_last() =~= before);
                        job.mode = Mode::Eval(c, Io::none(), d);
                    }
                    Action::Continue
                },
                Frame::AndRight(c, d) => {
                    job.mode = if s == 0 {
                        Mode::Eval(c, Io::none(), d)
                    } else {
                        Mode::Return(Outcome::Status(s))
                    };
                    Action::Continue
                },
                Frame::OrRight(c, d) => {
                    job.mode = if s != 0 {
                        Mode::Eval(c, Io::none(), d)
                    } else {
                        Mode::Return(Outcome::Status(s))
                    };
                    Action::Continue
                },
                Frame::Branch(t, e, d) => {
                    job.mode = if s == 0 {
                        Mode::Eval(t, Io::none(), d)
                    } else {
                        match e {
                            Some(e) => Mode::Eval(e, Io::none(), d),
                            None => Mode::Return(Outcome::Status(s)),
                        }
                    };
                    Action::Continue
                },
                Frame::LoopCond(c, b, d) => {
                    if s == 0 {
                        let b2 = b.duplicate();
                        job.frames.push(Frame::LoopBody(c, b, d));
                        job.mode = Mode::Eval(b2, Io::none(), d);
                    } else {
                        job.mode = Mode::Return(Outcome::Status(0));
                    }
                    Action::Continue
                },
                Frame::LoopBody(c, b, d) => {
                    let c2 = c.duplicate();
                    job.frames.push(Frame::LoopCond(c, b, d));
                    job.mode = Mode::Eval(c2, Io::none(), d);
                    Action::Continue
                },
                Frame::PipeRight(c, io, d, p) => {
                    job.frames.push(Frame::PipeJoin(p));
                    job.mode = Mode::Eval(c, io, d);
                    Action::Continue
                },
                Frame::PipeJoin(p) => {
                    job.mode = Mode::Await(Wait::Reaped(Outcome::Status(s)));
                    Action::Reap(p)
                },
            },
        }
    }

    fn eval_compound(job: &mut Job, cmd: Command, io: Io, d: u64) -> (r: Action)
        requires
            !(cmd is Simple),
        ensures
            starts(cmd, io, d, *old(job), *final(job), r),
            !(cmd is Pipeline) ==> final(job).next_pipe == old(job).next_pipe,
    {
        match cmd {
            Command::Sequence(mut v) => {
                if v.len() == 0 {
                    job.mode = Mode::Return(Outcome::Status(0));
                } else {
                    let ghost v0 = v@;
                    let c = v.remove(0);
                    assert(v@ =~= v0.drop_first());
                    let ghost before = job.frames@;
                    job.frames.push(Frame::SeqRest(v, d));
                    assert(job.frames@.drop_last() =~= before);
                    job.mode = Mode::Eval(c, Io::none(), d);
                }
                Action::Continue
            },
            Command::And(a, b) => {
                job.frames.push(Frame::AndRight(*b, d));
                job.mode = Mode::Eval(*a, Io::none(), d);
                Action::Continue
            },
            Command::Or(a, b) => {
                job.frames.push(Frame::OrRight(*b, d));
                job.mode = Mode::Eval(*a, Io::none(), d);
                Action::Continue
            },
            Command::Conditional(k) => {
                let e = match k.else_branch {
                    Some(e) => Some(*e),
                    None => None,
                };
                job.frames.push(Frame::Branch(*k.then_branch, e, d));
                job.mode = Mode::Eval(*k.condition, Io::none(), d);
                Action::Continue
            },
            Command::WhileLoop(w) => {
                let c2 = w.condition.duplicate();
                job.frames.push(Frame::LoopCond(*w.condition, *w.body, d));
                job.mode = Mode::Eval(c2, Io::none(), d);
                Action::Continue
            },
            Command::Pipeline(a, b) => {
                if job.next_pipe == u64::MAX {
                    job.mode = Mode::Return(Outcome::Failed(TrshError::Exec(ExecError::Failed)));
                } else {
                    let p = job.next_pipe;
                    job.next_pipe = p + 1;
                    job.frames.push(
                        Frame::PipeRight(
                            *b,
                            Io { stdin: Some(Stream::PipeRead(p)), stdout: io.stdout },
                            d,
                            p,
                        ),
                    );
                    job.mode = Mode::Eval(
                        *a,
                        Io { stdin: io.stdin, stdout: Some(Stream::PipeWrite(p)) },
                        d,
                    );
                }
                Action::Continue
            },
            Command::Simple(_) => Action::Continue,
        }
    }

    fn eval_simple(&mut self, job: &mut Job, sc: SimpleCommand, io: Io, d: u64) -> (r: Action)
        requires
            old(self).wf(),
        ensures
            final(self).wf(),
            final(self).home_dir == old(self).home_dir,
            final(job).next_pipe == old(job).next_pipe,
            !(sc.name is Builtin) ==> *final(self) == *old(self),
            launches(sc, io, d, *old(self), *final(self), *old(job), *final(job), r),
    {
        let SimpleCommand { name, args, redirections } = sc;
        match name {
            CmdName::Builtin(b) => match self.exec_builtin(b, &args) {
                BuiltinStep::Done { status, out, err } => {
                    job.mode = Mode::Return(Outcome::Status(status));
                    Action::Print { out, err }
                },
                BuiltinStep::Fail(e) => {
                    job.mode = Mode::Return(Outcome::Failed(e));
                    Action::Continue
                },
                BuiltinStep::Canonicalize(p) => {
                    job.mode = Mode::Await(Wait::Canonical);
                    Action::Canonicalize(p)
                },
                BuiltinStep::Probe(t, p) => {
                    job.mode = Mode::Await(Wait::Probe(t));
                    Action::Probe(t, p)
                },
                BuiltinStep::Exit => {
                    job.mode = Mode::Finished;
                    Action::Exit
                },
            },
            CmdName::Unknown(n) => {
                let (stdin, stdout) = plan_streams(&redirections, io);
                let wait = match io.stdout {
                    Some(Stream::PipeWrite(_)) => false,
                    _ => true,
                };
                let cs = self.command_candidates(n.as_str());
                job.mode = Mode::Await(
                    Wait::Locate(
                        Launch {
                            program: n.clone(),
                            name: n,
                            args: written_args(&args),
                            cwd: self.cwd.clone(),
                            redirections,
                            stdin,
                            stdout,
                            wait,
                        },
                    ),
                );
                Action::Locate(cs)
            },
            CmdName::Alias(t) => {
                if d < MAX_ALIAS_DEPTH {
                    job.mode = Mode::Await(Wait::Parsed(io, d + 1));
                    Action::Parse(t)
                } else {
                    job.mode = Mode::Return(
                        Outcome::Failed(TrshError::Exec(ExecError::AliasDepthExceeded)),
                    );
                    Action::Continue
                }
            },
            CmdName::Path(_) => {
                job.mode = Mode::Return(
                    Outcome::Failed(TrshError::Exec(ExecError::NotImplemented("path".to_owned()))),
                );
                Action::Continue
            },
            CmdName::Function(_) => {
                job.mode = Mode::Return(
                    Outcome::Failed(
                        TrshError::Exec(ExecError::NotImplemented("function".to_owned())),
                    ),
                );
                Action::Continue
            },
        }
    }
}

} // verus!
