use vstd::prelude::*;

use crate::ast::ArgView;
use crate::executor::{export_line, export_listing, exported, removed_all, Executor};
use crate::ast::{Command, SimpleCommand};
use crate::test_expr::{binary_test_named, unary_test_named};
use crate::builtins::{Builtin, CmdName};
use crate::machine::{absorb_fits, feeds_pipe, no_io, StdinPlan, StdoutPlan, step_fits, Action, Event, Frame, Io, Job, Mode, Outcome};
use crate::vars::{lemma_map_of_entry, lemma_map_of_keys, VarTable};

verus! {

/// Whether a command runs as a program.
pub open spec fn is_program(c: Command) -> bool {
    c matches Command::Simple(sc) && sc.name is Unknown
}

/// Whether the moves `js`, `es`, `rs` from `a` to `b` are a whole run of one
/// command: it ends in status `s` with the work left as it was at `a`.
pub open spec fn finishes(js: Seq<Job>, a: int, b: int, s: i32) -> bool {
    &&& 0 <= a <= b < js.len()
    &&& js[b].mode == Mode::Return(Outcome::Status(s))
    &&& js[b].frames@ == js[a].frames@
}

/// Whether the moves are a run of a sequence of `n` commands in which the
/// `i`-th command runs from `a[i]` to `b[i]` and ends in status `st[i]`: the
/// opening move comes first, and the move after each command is `exec`'s.
pub open spec fn sequence_run(
    n: int,
    st: Seq<i32>,
    a: Seq<int>,
    b: Seq<int>,
    js: Seq<Job>,
    es: Seq<Executor>,
    rs: Seq<Action>,
) -> bool {
    &&& st.len() == n && a.len() == n && b.len() == n
    &&& js.len() == es.len() && rs.len() + 1 == js.len()
    &&& n >= 1 && a[0] == 1 && js.len() >= 2
    &&& step_fits(es[0], es[1], js[0], js[1], rs[0])
    &&& forall|i: int|
        0 <= i < n ==> {
            &&& finishes(js, #[trigger] a[i], b[i], st[i])
            &&& b[i] + 1 < js.len()
            &&& step_fits(es[b[i]], es[b[i] + 1], js[b[i]], js[b[i] + 1], rs[b[i]])
            &&& i + 1 < n ==> a[i + 1] == b[i] + 1
        }
}

proof fn lemma_sequence_at(
    v: Vec<Command>,
    io: Io,
    d: u64,
    st: Seq<i32>,
    a: Seq<int>,
    b: Seq<int>,
    js: Seq<Job>,
    es: Seq<Executor>,
    rs: Seq<Action>,
    i: int,
)
    requires
        js[0].mode == Mode::Eval(Command::Sequence(v), io, d),
        sequence_run(v.len() as int, st, a, b, js, es, rs),
        0 <= i < v.len(),
    ensures
        js[a[i]].mode == Mode::Eval(v@[i], no_io(), d),
        js[a[i]].frames@.len() == js[0].frames@.len() + 1,
        js[a[i]].frames@.drop_last() == js[0].frames@,
        js[a[i]].frames@.last() matches Frame::SeqRest(w, d2) && w@ == v@.subrange(
            i + 1,
            v.len() as int,
        ) && d2 == d,
    decreases i,
{
    let n = v.len() as int;
    if i == 0 {
        assert(v@.drop_first() =~= v@.subrange(1, n));
    } else {
        lemma_sequence_at(v, io, d, st, a, b, js, es, rs, i - 1);
        assert(finishes(js, a[i - 1], b[i - 1], st[i - 1]));
        let w = js[a[i - 1]].frames@.last()->SeqRest_0;
        assert(w@.len() > 0);
        assert(w@[0] == v@[i]);
        assert(w@.drop_first() =~= v@.subrange(i + 1, n));
    }
}

/// A sequence returns the status of its last command, whatever the
/// commands are: each runs in turn, in order, and once the last has ended
/// no work of the sequence is left.
pub proof fn law_sequence_returns_last_status(
    v: Vec<Command>,
    io: Io,
    d: u64,
    st: Seq<i32>,
    a: Seq<int>,
    b: Seq<int>,
    js: Seq<Job>,
    es: Seq<Executor>,
    rs: Seq<Action>,
)
    requires
        js[0].mode == Mode::Eval(Command::Sequence(v), io, d),
        sequence_run(v.len() as int, st, a, b, js, es, rs),
    ensures
        forall|i: int| 0 <= i < v.len() ==> js[#[trigger] a[i]].mode == Mode::Eval(v@[i], no_io(), d),
        js[b[v.len() - 1] + 1].mode == Mode::Return(Outcome::Status(st[v.len() - 1])),
        js[b[v.len() - 1] + 1].frames@ == js[0].frames@,
{
    let n = v.len() as int;
    assert forall|i: int| 0 <= i < n implies js[#[trigger] a[i]].mode == Mode::Eval(v@[i], no_io(), d) by {
        lemma_sequence_at(v, io, d, st, a, b, js, es, rs, i);
    }
    lemma_sequence_at(v, io, d, st, a, b, js, es, rs, n - 1);
    assert(finishes(js, a[n - 1], b[n - 1], st[n - 1]));
}

/// `l || r`, whatever the commands: once `l`, run from move 1 to move `bl`,
/// has ended in status `sl`, the next move returns `sl` when it is 0, leaving
/// no work, and never starts `r`; otherwise it starts `r`, whose status is
/// then the result.
pub proof fn law_or_short_circuit(
    l: Command,
    r: Command,
    io: Io,
    d: u64,
    sl: i32,
    bl: int,
    js: Seq<Job>,
    es: Seq<Executor>,
    rs: Seq<Action>,
)
    requires
        js[0].mode == Mode::Eval(Command::Or(Box::new(l), Box::new(r)), io, d),
        js.len() == es.len() && rs.len() + 1 == js.len(),
        1 <= bl && bl + 1 < js.len(),
        step_fits(es[0], es[1], js[0], js[1], rs[0]),
        finishes(js, 1, bl, sl),
        step_fits(es[bl], es[bl + 1], js[bl], js[bl + 1], rs[bl]),
    ensures
        js[1].mode == Mode::Eval(l, no_io(), d),
        sl == 0 ==> js[bl + 1].mode == Mode::Return(Outcome::Status(0)),
        sl != 0 ==> js[bl + 1].mode == Mode::Eval(r, no_io(), d),
        js[bl + 1].frames@ == js[0].frames@,
{
}

/// `l && r`, whatever the commands: once `l` has ended in status `sl`, the
/// next move returns `sl` when it is not 0, leaving no work, and never
/// starts `r`; otherwise it starts `r`, whose status is then the result.
pub proof fn law_and_short_circuit(
    l: Command,
    r: Command,
    io: Io,
    d: u64,
    sl: i32,
    bl: int,
    js: Seq<Job>,
    es: Seq<Executor>,
    rs: Seq<Action>,
)
    requires
        js[0].mode == Mode::Eval(Command::And(Box::new(l), Box::new(r)), io, d),
        js.len() == es.len() && rs.len() + 1 == js.len(),
        1 <= bl && bl + 1 < js.len(),
        step_fits(es[0], es[1], js[0], js[1], rs[0]),
        finishes(js, 1, bl, sl),
        step_fits(es[bl], es[bl + 1], js[bl], js[bl + 1], rs[bl]),
    ensures
        js[1].mode == Mode::Eval(l, no_io(), d),
        sl != 0 ==> js[bl + 1].mode == Mode::Return(Outcome::Status(sl)),
        sl == 0 ==> js[bl + 1].mode == Mode::Eval(r, no_io(), d),
        js[bl + 1].frames@ == js[0].frames@,
{
}

/// `test -f p` (and `-d`, `-e`) asks whether `p` is a regular file (a
/// directory, something that exists) and answers 0 exactly when the answer
/// is yes; `test x OP y` with a numeric operator answers at once with the
/// comparison's status.
pub proof fn law_test_status(
    sc: SimpleCommand,
    io: Io,
    d: u64,
    e0: Executor,
    e1: Executor,
    e2: Executor,
    j0: Job,
    j1: Job,
    j2: Job,
    r: Action,
    found: bool,
)
    requires
        sc.name == CmdName::Builtin(Builtin::Test),
        j0.mode == Mode::Eval(Command::Simple(sc), io, d),
        step_fits(e0, e1, j0, j1, r),
        absorb_fits(e1, e2, j1, j2, Event::Probed(found)),
    ensures
        sc.args.len() == 2 && unary_test_named(sc.args[0].word()) is Some && unary_test_named(
            sc.args[0].word(),
        )->0.on_files() ==> (r matches Action::Probe(t2, p) && t2 == unary_test_named(
            sc.args[0].word(),
        )->0 && p@ == sc.args[1].word()) && j2.mode == Mode::Return(
            Outcome::Status(if found { 0 } else { 1 }),
        ),
        sc.args.len() == 3 && binary_test_named(sc.args[1].word()) is Some ==> j1.mode
            == Mode::Return(
            Outcome::Status(
                binary_test_named(sc.args[1].word())->0.status(sc.args[0].word(), sc.args[2].word()),
            ),
        ),
{
}

/// `a | b`: the left program starts writing into a new pipe and is not
/// waited for; the right program starts next, reading from that pipe, so
/// neither waits on the other to drain it. The moves: open the pipeline,
/// look up `a` (answered with `pa`), start it, take its start, go on to
/// `b`, look it up (answered with `pb`), start it.
pub proof fn law_pipeline_starts_both_sides(
    a: Command,
    b: Command,
    io: Io,
    d: u64,
    pa: Vec<bool>,
    pb: Vec<bool>,
    js: Seq<Job>,
    es: Seq<Executor>,
    rs: Seq<Action>,
)
    requires
        is_program(a),
        is_program(b),
        js[0].mode == Mode::Eval(Command::Pipeline(Box::new(a), Box::new(b)), io, d),
        js[0].next_pipe < u64::MAX,
        js.len() >= 10 && es.len() >= 10 && rs.len() >= 9,
        forall|t: int|
            0 <= t < 9 && t != 2 && t != 4 && t != 7 ==> step_fits(
                es[t],
                es[t + 1],
                js[t],
                js[t + 1],
                #[trigger] rs[t],
            ),
        absorb_fits(es[2], es[3], js[2], js[3], Event::Located(pa)),
        absorb_fits(es[4], es[5], js[4], js[5], Event::Spawned),
        absorb_fits(es[7], es[8], js[7], js[8], Event::Located(pb)),
        js[3].mode is Start,
        js[8].mode is Start,
    ensures
        rs[3] matches Action::Spawn(l) && !l.wait && l.stdout == StdoutPlan::Pipe(js[0].next_pipe),
        rs[8] matches Action::Spawn(l) && l.stdin == StdinPlan::Pipe(js[0].next_pipe) && l.wait
            == !feeds_pipe(io),
        js[9].frames@.last() == Frame::PipeJoin(js[0].next_pipe),
{
    assert(step_fits(es[0], es[1], js[0], js[1], rs[0]));
    assert(step_fits(es[1], es[2], js[1], js[2], rs[1]));
    assert(step_fits(es[3], es[4], js[3], js[4], rs[3]));
    assert(step_fits(es[5], es[6], js[5], js[6], rs[5]));
    assert(step_fits(es[6], es[7], js[6], js[7], rs[6]));
    assert(step_fits(es[8], es[9], js[8], js[9], rs[8]));
}

/// After `cd` with no argument the working directory is the home directory,
/// so what `pwd` prints next is the home directory and a newline.
pub proof fn law_cd_home_then_pwd(
    e0: Executor,
    e1: Executor,
    e2: Executor,
    j0: Job,
    j1: Job,
    k0: Job,
    k1: Job,
    r1: Action,
    r2: Action,
)
    requires
        j0.mode matches Mode::Eval(Command::Simple(sc), _, _) && sc.name == CmdName::Builtin(
            Builtin::Cd,
        ) && sc.args.len() == 0,
        step_fits(e0, e1, j0, j1, r1),
        k0.mode matches Mode::Eval(Command::Simple(sc), _, _) && sc.name == CmdName::Builtin(
            Builtin::Pwd,
        ),
        step_fits(e1, e2, k0, k1, r2),
    ensures
        e1.cwd@ == e0.home_dir@,
        r2 matches Action::Print { out, .. } && out@ == e0.home_dir@ + "\n"@,
{
}

proof fn lemma_listing_concat(a: Seq<(Seq<char>, Seq<char>)>, b: Seq<(Seq<char>, Seq<char>)>)
    ensures
        export_listing(a + b) == export_listing(a) + export_listing(b),
    decreases b.len(),
{
    if b.len() == 0 {
        assert(a + b =~= a);
        assert(export_listing(a) + export_listing(b) =~= export_listing(a));
    } else {
        lemma_listing_concat(a, b.drop_last());
        assert((a + b).drop_last() =~= a + b.drop_last());
        assert((a + b).last() == b.last());
        assert(export_listing(a + b) =~= export_listing(a) + export_listing(b));
    }
}

/// After `export k=v` the listing of `export` holds the line for `k` with
/// `v`; after `unset k` it holds no line for `k` at all.
pub proof fn law_export_then_unset(
    t0: VarTable,
    t1: VarTable,
    t2: VarTable,
    k: Seq<char>,
    v: Seq<char>,
)
    requires
        t1.wf(),
        t2.wf(),
        t1@ == exported(t0@, seq![ArgView::Assignment(k, v)]),
        t2@ == removed_all(t1@, seq![k]),
    ensures
        exists|a: Seq<char>, b: Seq<char>| export_listing(t1.pairs()) == a + export_line(k, v) + b,
        forall|i: int| 0 <= i < t2.pairs().len() ==> (#[trigger] t2.pairs()[i]).0 != k,
        !t2@.contains_key(k),
{
    let a = seq![ArgView::Assignment(k, v)];
    assert(a.drop_last() =~= Seq::<ArgView>::empty());
    assert(a.last() == ArgView::Assignment(k, v));
    assert(exported(t0@, a.drop_last()) == t0@);
    assert(t1@ == t0@.insert(k, v));
    lemma_map_of_keys(t1.pairs(), k);
    let i = choose|i: int| 0 <= i < t1.pairs().len() && (#[trigger] t1.pairs()[i]).0 == k;
    lemma_map_of_entry(t1.pairs(), i);
    let ps = t1.pairs();
    lemma_listing_concat(ps.subrange(0, i + 1), ps.subrange(i + 1, ps.len() as int));
    assert(ps.subrange(0, i + 1) + ps.subrange(i + 1, ps.len() as int) =~= ps);
    assert(ps.subrange(0, i + 1).drop_last() =~= ps.subrange(0, i));
    assert(export_listing(ps) == export_listing(ps.subrange(0, i)) + export_line(k, v)
        + export_listing(ps.subrange(i + 1, ps.len() as int)));
    let w = seq![k];
    assert(w.drop_last() =~= Seq::<Seq<char>>::empty());
    assert(w.last() == k);
    assert(removed_all(t1@, w.drop_last()) == t1@);
    assert(t2@ == t1@.remove(k));
    lemma_map_of_keys(t2.pairs(), k);
}

} // verus!
