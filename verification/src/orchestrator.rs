//! The process orchestrator: what has to be done, and in what order, to
//! run a pipeline.
//!
//! Creating pipes and processes is the caller's work. An [`Orchestrator`]
//! says what to do next ([`Orchestrator::next`]) and is told how it went;
//! it keeps track of the pipe descriptors that are open, so that each is
//! closed as soon as no later stage needs it and none is left open at the
//! end.

use crate::error::{RshError, Status, StatusCode};
use crate::evaluator::{stage_texts, texts, PipelineRequest};
use crate::redirect::{FileMode, FileRequest, OutputOption, Redirection, Stream};
use vstd::prelude::*;

verus! {

/// The two ends of a pipe.
#[derive(Debug, PartialEq, Eq, Structural, Clone, Copy)]
pub enum PipeEnd {
    Read,
    Write,
}

/// A descriptor of a pipeline's pipes: one end of the pipe number `pipe`.
/// Pipe `i` leads from stage `i` to stage `i + 1`.
#[derive(Debug, PartialEq, Eq, Structural, Clone, Copy)]
pub struct Descriptor {
    pub pipe: usize,
    pub end: PipeEnd,
}

/// What the orchestrator is waiting to hear the outcome of.
#[derive(Debug, PartialEq, Eq, Structural, Clone, Copy)]
pub enum Awaiting {
    Nothing,
    /// The creation of the next pipe.
    Pipe,
    /// The creation of the next stage's process.
    Spawn,
}

/// A command that the shell runs itself, as a value.
pub enum BuiltinCall {
    /// Change the working directory to the given one.
    Cd(Seq<char>),
    Logo,
    History,
    Exit,
}

/// The built-in that an argument vector calls, if its first word names
/// one. `cd` without an argument goes to `./`.
pub open spec fn builtin_of(argv: Seq<Seq<char>>) -> Option<BuiltinCall> {
    if argv.len() == 0 {
        None
    } else if argv[0] == "cd"@ {
        Some(
            BuiltinCall::Cd(
                if argv.len() > 1 {
                    argv[1]
                } else {
                    "./"@
                },
            ),
        )
    } else if argv[0] == "%logo"@ {
        Some(BuiltinCall::Logo)
    } else if argv[0] == "%fl"@ {
        Some(BuiltinCall::History)
    } else if argv[0] == "exit"@ {
        Some(BuiltinCall::Exit)
    } else {
        None
    }
}

/// What the orchestrator asks for, as a value.
pub enum Order {
    /// Run the built-in; its result is the result of the run.
    Builtin(BuiltinCall),
    /// Create the next pipe.
    OpenPipe,
    /// Create the process of the stage with this index.
    Spawn(nat),
    /// Close this descriptor in the shell's own process.
    Close(Descriptor),
    /// Wait for one child process to end.
    Wait,
    /// The run is over; whether every pipe and process could be created.
    Finish(bool),
}

/// The state of a run, as a value.
pub struct Machine {
    /// The argument vector of each stage.
    pub request: Seq<Seq<Seq<char>>>,
    pub redirect: Redirection,
    /// For each pipe created, whether its read end is open in the shell.
    pub read_open: Seq<bool>,
    /// For each pipe created, whether its write end is open in the shell.
    pub write_open: Seq<bool>,
    /// How many stages have a process.
    pub spawned: nat,
    /// How many processes have been waited for.
    pub waited: nat,
    /// Whether a pipe or a process could not be created.
    pub failed: bool,
    pub awaiting: Awaiting,
    pub finished: bool,
}

impl Machine {
    /// The number of stages.
    pub open spec fn stages(self) -> nat {
        self.request.len()
    }

    /// The number of pipes created.
    pub open spec fn pipes(self) -> nat {
        self.read_open.len()
    }

    /// The state before anything was done.
    pub open spec fn start(request: Seq<Seq<Seq<char>>>, redirect: Redirection) -> Machine {
        Machine {
            request,
            redirect,
            read_open: Seq::empty(),
            write_open: Seq::empty(),
            spawned: 0,
            waited: 0,
            failed: false,
            awaiting: Awaiting::Nothing,
            finished: false,
        }
    }

    /// Whether the descriptor `d` is open in the shell.
    pub open spec fn is_open(self, d: Descriptor) -> bool {
        d.pipe < self.pipes() && match d.end {
            PipeEnd::Read => self.read_open[d.pipe as int],
            PipeEnd::Write => self.write_open[d.pipe as int],
        }
    }

    /// Whether no later stage needs the descriptor `d`: the write end of
    /// pipe `i` once stage `i` has its process, the read end once stage
    /// `i + 1` has; every descriptor once the run has failed.
    pub open spec fn spent(self, d: Descriptor) -> bool {
        self.failed || match d.end {
            PipeEnd::Read => d.pipe + 1 < self.spawned,
            PipeEnd::Write => d.pipe < self.spawned,
        }
    }

    /// Whether `d` is to be closed now: it is open and spent.
    pub open spec fn due(self, d: Descriptor) -> bool {
        self.is_open(d) && self.spent(d)
    }

    /// The first descriptor that is due, from pipe `from` on; of a pipe
    /// the read end comes first.
    pub open spec fn next_due(self, from: nat) -> Option<Descriptor>
        decreases self.pipes() - from,
    {
        if from >= self.pipes() || from > usize::MAX {
            None
        } else if self.due(Descriptor { pipe: from as usize, end: PipeEnd::Read }) {
            Some(Descriptor { pipe: from as usize, end: PipeEnd::Read })
        } else if self.due(Descriptor { pipe: from as usize, end: PipeEnd::Write }) {
            Some(Descriptor { pipe: from as usize, end: PipeEnd::Write })
        } else {
            self.next_due(from + 1)
        }
    }

    /// The descriptors that are open, from pipe `from` on, in order.
    pub open spec fn open_from(self, from: nat) -> Seq<Descriptor>
        decreases self.pipes() - from,
    {
        if from >= self.pipes() || from > usize::MAX {
            Seq::empty()
        } else {
            (if self.read_open[from as int] {
                seq![Descriptor { pipe: from as usize, end: PipeEnd::Read }]
            } else {
                Seq::empty()
            }) + (if self.write_open[from as int] {
                seq![Descriptor { pipe: from as usize, end: PipeEnd::Write }]
            } else {
                Seq::empty()
            }) + self.open_from(from + 1)
        }
    }

    /// The state with the descriptor `d` closed.
    pub open spec fn closed(self, d: Descriptor) -> Machine {
        match d.end {
            PipeEnd::Read => Machine {
                read_open: self.read_open.update(d.pipe as int, false),
                ..self
            },
            PipeEnd::Write => Machine {
                write_open: self.write_open.update(d.pipe as int, false),
                ..self
            },
        }
    }

    /// The state once the outcome of what was asked for is known: a new
    /// pipe has both ends open, a new process is one more stage spawned,
    /// and a failure of either fails the run.
    pub open spec fn settle(self, ok: bool) -> Machine {
        match self.awaiting {
            Awaiting::Nothing => self,
            Awaiting::Pipe => if ok {
                Machine {
                    read_open: self.read_open.push(true),
                    write_open: self.write_open.push(true),
                    awaiting: Awaiting::Nothing,
                    ..self
                }
            } else {
                Machine { failed: true, awaiting: Awaiting::Nothing, ..self }
            },
            Awaiting::Spawn => if ok {
                Machine { spawned: self.spawned + 1, awaiting: Awaiting::Nothing, ..self }
            } else {
                Machine { failed: true, awaiting: Awaiting::Nothing, ..self }
            },
        }
    }

    /// Whether the run is that of a built-in: a single stage whose first
    /// word names one.
    pub open spec fn builtin(self) -> Option<BuiltinCall> {
        if self.stages() == 1 {
            builtin_of(self.request[0])
        } else {
            None
        }
    }

    /// What is asked for next, and the state after asking, where `ok` says
    /// how what was asked for before went.
    ///
    /// A built-in is run at once and is the whole run. Otherwise every
    /// pipe is created, then every stage's process, each descriptor being
    /// closed as soon as it is spent; then every process is waited for.
    /// After a failure nothing more is created: what is open is closed and
    /// what was spawned is waited for.
    pub open spec fn step(self, ok: bool) -> (Machine, Order) {
        let m = self.settle(ok);
        if self.finished {
            (self, Order::Finish(!self.failed))
        } else if m.builtin() is Some {
            (Machine { finished: true, ..m }, Order::Builtin(m.builtin().unwrap()))
        } else if m.next_due(0) is Some {
            (m.closed(m.next_due(0).unwrap()), Order::Close(m.next_due(0).unwrap()))
        } else if !m.failed && m.pipes() + 1 < m.stages() {
            (Machine { awaiting: Awaiting::Pipe, ..m }, Order::OpenPipe)
        } else if !m.failed && m.spawned < m.stages() {
            (Machine { awaiting: Awaiting::Spawn, ..m }, Order::Spawn(m.spawned))
        } else if m.waited < m.spawned {
            (Machine { waited: m.waited + 1, ..m }, Order::Wait)
        } else {
            (Machine { finished: true, ..m }, Order::Finish(!m.failed))
        }
    }

    /// What holds of every state that a run goes through.
    pub open spec fn wf(self) -> bool {
        &&& self.stages() <= usize::MAX
        &&& self.write_open.len() == self.read_open.len()
        &&& self.pipes() < self.stages() || self.pipes() == 0
        &&& self.waited <= self.spawned <= self.stages()
        &&& self.spawned > 0 ==> self.pipes() + 1 == self.stages()
        &&& self.awaiting == Awaiting::Pipe ==> !self.failed && !self.finished && self.pipes() + 1
            < self.stages() && self.spawned == 0
        &&& self.awaiting == Awaiting::Spawn ==> !self.failed && !self.finished && self.spawned
            < self.stages() && self.pipes() + 1 == self.stages()
        &&& self.builtin() is Some ==> self.pipes() == 0 && self.spawned == 0 && self.awaiting
            == Awaiting::Nothing
        &&& !self.failed ==> forall|k: int|
            0 <= k < self.pipes() ==> (!(#[trigger] self.write_open[k]) ==> k < self.spawned)
        &&& !self.failed ==> forall|k: int|
            0 <= k < self.pipes() ==> (!(#[trigger] self.read_open[k]) ==> k + 1 < self.spawned)
        &&& self.finished ==> self.waited == self.spawned
        &&& self.finished ==> forall|k: int| 0 <= k < self.pipes() ==> !(#[trigger] self.read_open[k])
        &&& self.finished ==> forall|k: int|
            0 <= k < self.pipes() ==> !(#[trigger] self.write_open[k])
        &&& self.finished && !self.failed && self.builtin() is None ==> self.spawned
            == self.stages() && (self.stages() > 0 ==> self.pipes() + 1 == self.stages())
    }
}

/// What the first due descriptor is: none is left out before it, and where
/// there is none, no descriptor is due.
pub proof fn lemma_next_due(m: Machine, from: nat)
    requires
        m.write_open.len() == m.read_open.len(),
    ensures
        match m.next_due(from) {
            Some(d) => m.due(d) && from <= d.pipe,
            None => forall|d: Descriptor| from <= d.pipe ==> !m.due(d),
        },
    decreases m.pipes() - from,
{
    if from >= m.pipes() || from > usize::MAX {
    } else if m.due(Descriptor { pipe: from as usize, end: PipeEnd::Read }) {
    } else if m.due(Descriptor { pipe: from as usize, end: PipeEnd::Write }) {
    } else {
        lemma_next_due(m, from + 1);
        if m.next_due(from) is None {
            assert forall|d: Descriptor| from <= d.pipe implies !m.due(d) by {
                if d.pipe == from {
                    match d.end {
                        PipeEnd::Read => {
                            assert(d == Descriptor { pipe: from as usize, end: PipeEnd::Read });
                        },
                        PipeEnd::Write => {
                            assert(d == Descriptor { pipe: from as usize, end: PipeEnd::Write });
                        },
                    }
                }
            }
        }
    }
}

/// The descriptors listed as open are those that are open.
pub proof fn lemma_open_from(m: Machine, from: nat, d: Descriptor)
    requires
        m.write_open.len() == m.read_open.len(),
    ensures
        m.open_from(from).contains(d) <==> from <= d.pipe && m.is_open(d),
    decreases m.pipes() - from,
{
    if from >= m.pipes() || from > usize::MAX {
    } else {
        lemma_open_from(m, from + 1, d);
        let r = Descriptor { pipe: from as usize, end: PipeEnd::Read };
        let w = Descriptor { pipe: from as usize, end: PipeEnd::Write };
        let reads = if m.read_open[from as int] {
            seq![r]
        } else {
            Seq::<Descriptor>::empty()
        };
        let writes = if m.write_open[from as int] {
            seq![w]
        } else {
            Seq::<Descriptor>::empty()
        };
        let rest = m.open_from(from + 1);
        let all = reads + writes + rest;
        assert(m.open_from(from) == all);
        if all.contains(d) {
            let i = choose|i: int| 0 <= i < all.len() && all[i] == d;
            if i < reads.len() {
                assert(d == r);
            } else if i < reads.len() + writes.len() {
                assert(d == w);
            } else {
                assert(rest[i - reads.len() - writes.len()] == d);
            }
        }
        if from <= d.pipe && m.is_open(d) {
            if d.pipe == from {
                match d.end {
                    PipeEnd::Read => {
                        assert(d == r);
                        assert(all[0] == d);
                    },
                    PipeEnd::Write => {
                        assert(d == w);
                        assert(all[reads.len() as int] == d);
                    },
                }
            } else {
                let i = choose|i: int| 0 <= i < rest.len() && rest[i] == d;
                assert(all[reads.len() + writes.len() + i] == d);
            }
        }
    }
}

/// Learning an outcome keeps a run well-formed.
pub proof fn lemma_settle_wf(m: Machine, ok: bool)
    requires
        m.wf(),
    ensures
        m.settle(ok).wf(),
{
    let s = m.settle(ok);
    assert(s.request == m.request);
    assert(s.builtin() == m.builtin());
}

/// A run stays well-formed, whatever the outcomes are.
pub proof fn lemma_step_wf(m: Machine, ok: bool)
    requires
        m.wf(),
    ensures
        m.step(ok).0.wf(),
{
    let s = m.settle(ok);
    lemma_settle_wf(m, ok);
    let f = m.step(ok).0;
    if !m.finished {
        lemma_next_due(s, 0);
        assert(f.request == s.request);
        assert(f.builtin() == s.builtin());
        if s.builtin() is Some {
        } else if s.next_due(0) is Some {
        } else if !s.failed && s.pipes() + 1 < s.stages() {
        } else if !s.failed && s.spawned < s.stages() {
        } else if s.waited < s.spawned {
        } else {
            assert forall|k: int| 0 <= k < f.pipes() implies !(#[trigger] f.read_open[k]) by {
                assert(!s.due(Descriptor { pipe: k as usize, end: PipeEnd::Read }));
            }
            assert forall|k: int| 0 <= k < f.pipes() implies !(#[trigger] f.write_open[k]) by {
                assert(!s.due(Descriptor { pipe: k as usize, end: PipeEnd::Write }));
            }
        }
    }
}

/// Nothing leaks: when a run is over, no pipe descriptor is open in the
/// shell and every process that was created has been waited for.
pub proof fn lemma_nothing_left(m: Machine, ok: bool)
    requires
        m.wf(),
        m.step(ok).1 is Finish || m.step(ok).1 is Builtin,
    ensures
        forall|d: Descriptor| !m.step(ok).0.is_open(d),
        m.step(ok).0.waited == m.step(ok).0.spawned,
{
    lemma_step_wf(m, ok);
}

/// A run that ends well has created one pipe less than it has stages, and
/// a process for every stage.
pub proof fn lemma_success_is_complete(m: Machine, ok: bool)
    requires
        m.wf(),
        m.builtin() is None,
        m.step(ok).1 == Order::Finish(true),
    ensures
        m.step(ok).0.spawned == m.stages(),
        m.step(ok).0.waited == m.stages(),
        m.stages() > 0 ==> m.step(ok).0.pipes() + 1 == m.stages(),
{
    lemma_step_wf(m, ok);
}

/// Only a descriptor that is open is closed, and it is closed only when
/// no later stage needs it.
pub proof fn lemma_close_is_due(m: Machine, ok: bool, d: Descriptor)
    requires
        m.wf(),
        m.step(ok).1 == Order::Close(d),
    ensures
        m.settle(ok).is_open(d),
        m.settle(ok).spent(d),
        !m.step(ok).0.is_open(d),
{
    lemma_next_due(m.settle(ok), 0);
}

/// What a new process inherits: when stage `i` is created, the shell holds
/// the read end of pipe `i - 1` and both ends of every later pipe, and no
/// other. So no stage holds the write end of a pipe that leads to it or to
/// an earlier stage.
pub proof fn lemma_spawn_inherits(m: Machine, ok: bool, i: nat, d: Descriptor)
    requires
        m.wf(),
        m.step(ok).1 == Order::Spawn(i),
    ensures
        m.step(ok).0.pipes() + 1 == m.stages(),
        m.step(ok).0.is_open(d) <==> d.pipe < m.step(ok).0.pipes() && (d.pipe >= i || (d.pipe + 1
            == i && d.end == PipeEnd::Read)),
{
    let s = m.settle(ok);
    lemma_next_due(s, 0);
    lemma_step_wf(m, ok);
    assert(!s.due(d));
}

/// How many of `flags` are set.
pub open spec fn count_set(flags: Seq<bool>) -> nat
    decreases flags.len(),
{
    if flags.len() == 0 {
        0
    } else {
        count_set(flags.drop_last()) + if flags.last() {
            1nat
        } else {
            0nat
        }
    }
}

/// Clearing a flag that is set leaves one less set.
proof fn lemma_count_clear(flags: Seq<bool>, at: int)
    requires
        0 <= at < flags.len(),
        flags[at],
    ensures
        count_set(flags.update(at, false)) + 1 == count_set(flags),
    decreases flags.len(),
{
    let cleared = flags.update(at, false);
    if at == flags.len() - 1 {
        assert(cleared.drop_last() =~= flags.drop_last());
    } else {
        assert(cleared.drop_last() =~= flags.drop_last().update(at, false));
        lemma_count_clear(flags.drop_last(), at);
    }
}

/// One more flag that is set is one more set.
proof fn lemma_count_push(flags: Seq<bool>)
    ensures
        count_set(flags.push(true)) == count_set(flags) + 1,
{
    assert(flags.push(true).drop_last() =~= flags);
}

impl Machine {
    /// A bound on the number of steps that a run still takes.
    pub open spec fn remaining(self) -> nat {
        if self.finished {
            0
        } else {
            let pipes_to_come = if self.pipes() < self.stages() {
                (self.stages() - 1 - self.pipes()) as nat
            } else {
                0nat
            };
            let stages_to_come = if self.spawned < self.stages() {
                (self.stages() - self.spawned) as nat
            } else {
                0nat
            };
            let waits_to_come = if self.waited < self.spawned {
                (self.spawned - self.waited) as nat
            } else {
                0nat
            };
            1 + 3 * pipes_to_come + count_set(self.read_open) + count_set(self.write_open) + 2
                * stages_to_come + waits_to_come + (if self.awaiting == Awaiting::Nothing {
                1nat
            } else {
                0nat
            }) + (if self.failed {
                0nat
            } else {
                2nat
            })
        }
    }
}

/// Every run ends: each step leaves fewer steps to take, whatever the
/// outcomes are. A run of `n` stages, `n` at least 1, is over after at most
/// `5 * n + 1` steps.
pub proof fn lemma_run_ends(m: Machine, ok: bool)
    requires
        m.wf(),
        !m.finished,
    ensures
        m.step(ok).0.remaining() < m.remaining(),
        m.stages() > 0 ==> Machine::start(m.request, m.redirect).remaining() == 5 * m.stages() + 1,
{
    let s = m.settle(ok);
    lemma_settle_wf(m, ok);
    lemma_next_due(s, 0);
    assert(s.remaining() <= m.remaining()) by {
        if m.awaiting == Awaiting::Pipe && ok {
            lemma_count_push(m.read_open);
            lemma_count_push(m.write_open);
        }
    }
    if s.builtin() is Some {
    } else if s.next_due(0) is Some {
        let d = s.next_due(0).unwrap();
        match d.end {
            PipeEnd::Read => {
                lemma_count_clear(s.read_open, d.pipe as int);
            },
            PipeEnd::Write => {
                lemma_count_clear(s.write_open, d.pipe as int);
            },
        }
    }
    assert(count_set(Seq::<bool>::empty()) == 0);
}

/// A command that the shell runs itself.
#[derive(Debug, PartialEq)]
pub enum Builtin {
    /// Change the working directory to the given one.
    Cd(String),
    /// Print the banner.
    Logo,
    /// Print the history.
    History,
    /// End the session.
    Exit,
}

impl Builtin {
    pub open spec fn view(&self) -> BuiltinCall {
        match self {
            Builtin::Cd(dir) => BuiltinCall::Cd(dir@),
            Builtin::Logo => BuiltinCall::Logo,
            Builtin::History => BuiltinCall::History,
            Builtin::Exit => BuiltinCall::Exit,
        }
    }
}

/// A file to open, as a value: its path and its mode.
pub open spec fn file_view(request: Option<FileRequest>) -> Option<(Seq<char>, FileMode)> {
    match request {
        Some(file) => Some((file.path@, file.mode)),
        None => None,
    }
}

/// The file of an output redirection, as a value.
pub open spec fn output_file(to: Option<(Seq<char>, OutputOption)>) -> Option<
    (Seq<char>, FileMode),
> {
    match to {
        Some((path, option)) => Some((path, option.mode())),
        None => None,
    }
}

/// What a new process does before it runs its program: which files and
/// pipes become its standard streams, which descriptors it closes, and
/// the program with its arguments. `steps` gives all of it in the order
/// in which it is done.
#[derive(Debug)]
pub struct ChildPlan {
    pub stage: usize,
    pub error: Option<FileRequest>,
    pub input: Option<FileRequest>,
    pub output: Option<FileRequest>,
    pub stdin_pipe: Option<usize>,
    pub stdout_pipe: Option<usize>,
    pub close: Vec<Descriptor>,
    pub argv: Vec<String>,
}

impl ChildPlan {
    /// The plan is that of stage `self.stage` in the state `m`: every
    /// stage has the error redirection, the first the input redirection,
    /// the last the output redirection; each stage but the first reads
    /// from the pipe before it, each but the last writes to the pipe after
    /// it; and it closes every pipe descriptor that the shell holds.
    pub open spec fn agrees(&self, m: Machine) -> bool {
        &&& self.stage < m.stages()
        &&& texts(self.argv@) == m.request[self.stage as int]
        &&& file_view(self.error) == output_file(m.redirect.error)
        &&& file_view(self.input) == if self.stage == 0 {
            match m.redirect.input {
                Some(path) => Some((path, FileMode::Read)),
                None => None,
            }
        } else {
            None
        }
        &&& file_view(self.output) == if self.stage + 1 == m.stages() {
            output_file(m.redirect.output)
        } else {
            None
        }
        &&& self.stdin_pipe == if self.stage > 0 {
            Some((self.stage - 1) as usize)
        } else {
            None
        }
        &&& self.stdout_pipe == if self.stage + 1 < m.stages() {
            Some(self.stage)
        } else {
            None
        }
        &&& self.close@ == m.open_from(0)
    }
}

/// One thing that a new process does before it runs its program, as a
/// value.
pub enum Deed {
    /// Take the default handling of the terminal's stop signals back.
    RestoreSignals,
    /// Open the file with this path in this mode and make it the stream.
    Open(Stream, Seq<char>, FileMode),
    /// Make the descriptor the stream.
    Attach(Stream, Descriptor),
    /// Close the descriptor.
    Close(Descriptor),
    /// Run the program that the first word names, with these words as its
    /// arguments. Where that fails, report it and end with a status other
    /// than 0.
    Exec(Seq<Seq<char>>),
}

/// One thing that a new process does before it runs its program.
#[derive(Debug, PartialEq)]
pub enum ChildStep {
    /// Take the default handling of the terminal's stop signals back.
    RestoreSignals,
    /// Open the file and make it the stream.
    Open(Stream, FileRequest),
    /// Make the descriptor the stream.
    Attach(Stream, Descriptor),
    /// Close the descriptor.
    Close(Descriptor),
    /// Run the program that the first word names, with these words as its
    /// arguments. Where that fails, report it and end with a status other
    /// than 0.
    Exec(Vec<String>),
}

impl ChildStep {
    pub open spec fn view(&self) -> Deed {
        match self {
            ChildStep::RestoreSignals => Deed::RestoreSignals,
            ChildStep::Open(stream, file) => Deed::Open(*stream, file.path@, file.mode),
            ChildStep::Attach(stream, d) => Deed::Attach(*stream, *d),
            ChildStep::Close(d) => Deed::Close(*d),
            ChildStep::Exec(argv) => Deed::Exec(texts(argv@)),
        }
    }
}

/// The deed that opens `file` as `stream`, if there is a file.
pub open spec fn open_deed(stream: Stream, file: Option<FileRequest>) -> Seq<Deed> {
    match file {
        Some(f) => seq![Deed::Open(stream, f.path@, f.mode)],
        None => Seq::empty(),
    }
}

/// The deed that makes an end of the pipe `pipe` the stream `stream`, if
/// there is a pipe: the read end for the standard input, the write end
/// for any other stream.
pub open spec fn attach_deed(stream: Stream, pipe: Option<usize>) -> Seq<Deed> {
    match pipe {
        Some(i) => seq![
            Deed::Attach(
                stream,
                Descriptor {
                    pipe: i,
                    end: if stream == Stream::Input {
                        PipeEnd::Read
                    } else {
                        PipeEnd::Write
                    },
                },
            ),
        ],
        None => Seq::empty(),
    }
}

impl ChildPlan {
    /// What the process does, in order: the signals first; then the
    /// redirections to files, the error output before the input before
    /// the output; then the pipes, which so take the place of a file for
    /// the same stream; then every descriptor closed; the program last.
    pub open spec fn deeds(&self) -> Seq<Deed> {
        seq![Deed::RestoreSignals] + open_deed(Stream::Error, self.error) + open_deed(
            Stream::Input,
            self.input,
        ) + open_deed(Stream::Output, self.output) + attach_deed(Stream::Input, self.stdin_pipe)
            + attach_deed(Stream::Output, self.stdout_pipe) + self.close@.map_values(
            |d: Descriptor| Deed::Close(d),
        ) + seq![Deed::Exec(texts(self.argv@))]
    }

    /// What the process does, in order.
    pub fn steps(&self) -> (steps: Vec<ChildStep>)
        ensures
            steps@.map_values(|s: ChildStep| s@) == self.deeds(),
    {
        let mut steps: Vec<ChildStep> = Vec::new();
        steps.push(ChildStep::RestoreSignals);
        match &self.error {
            Some(file) => {
                steps.push(
                    ChildStep::Open(
                        Stream::Error,
                        FileRequest { path: file.path.clone(), mode: file.mode },
                    ),
                );
            },
            None => {},
        }
        match &self.input {
            Some(file) => {
                steps.push(
                    ChildStep::Open(
                        Stream::Input,
                        FileRequest { path: file.path.clone(), mode: file.mode },
                    ),
                );
            },
            None => {},
        }
        match &self.output {
            Some(file) => {
                steps.push(
                    ChildStep::Open(
                        Stream::Output,
                        FileRequest { path: file.path.clone(), mode: file.mode },
                    ),
                );
            },
            None => {},
        }
        match self.stdin_pipe {
            Some(i) => {
                steps.push(
                    ChildStep::Attach(Stream::Input, Descriptor { pipe: i, end: PipeEnd::Read }),
                );
            },
            None => {},
        }
        match self.stdout_pipe {
            Some(i) => {
                steps.push(
                    ChildStep::Attach(Stream::Output, Descriptor { pipe: i, end: PipeEnd::Write }),
                );
            },
            None => {},
        }
        let ghost head = seq![Deed::RestoreSignals] + open_deed(Stream::Error, self.error)
            + open_deed(Stream::Input, self.input) + open_deed(Stream::Output, self.output)
            + attach_deed(Stream::Input, self.stdin_pipe) + attach_deed(
            Stream::Output,
            self.stdout_pipe,
        );
        assert(steps@.map_values(|s: ChildStep| s@) =~= head);
        let mut k: usize = 0;
        while k < self.close.len()
            invariant
                k <= self.close.len(),
                steps@.map_values(|s: ChildStep| s@) == head + self.close@.take(k as int).map_values(
                    |d: Descriptor| Deed::Close(d),
                ),
            decreases self.close.len() - k,
        {
            let ghost before = steps@.map_values(|s: ChildStep| s@);
            steps.push(ChildStep::Close(self.close[k]));
            assert(steps@.map_values(|s: ChildStep| s@) =~= before.push(
                Deed::Close(self.close@[k as int]),
            ));
            assert(self.close@.take(k + 1).map_values(|d: Descriptor| Deed::Close(d))
                =~= self.close@.take(k as int).map_values(|d: Descriptor| Deed::Close(d)).push(
                Deed::Close(self.close@[k as int]),
            ));
            k = k + 1;
        }
        assert(self.close@.take(self.close.len() as int) =~= self.close@);
        let ghost before = steps@.map_values(|s: ChildStep| s@);
        let argv = clone_words(&self.argv);
        steps.push(ChildStep::Exec(argv));
        assert(steps@.map_values(|s: ChildStep| s@) =~= before.push(Deed::Exec(texts(self.argv@))));
        assert(before.push(Deed::Exec(texts(self.argv@))) =~= self.deeds());
        steps
    }
}

/// What the shell has to do next.
#[derive(Debug)]
pub enum Command {
    /// Run the built-in; its result is the result of the run.
    Builtin(Builtin),
    /// Create a pipe; it is the pipe with the next number, from 0.
    OpenPipe,
    /// Create a process that follows the plan.
    Spawn(ChildPlan),
    /// Close the descriptor in the shell's own process.
    Close(Descriptor),
    /// Wait for one child process to end, whichever.
    Wait,
    /// The run is over, with this result.
    Finish(Result<Status, RshError>),
}

impl Command {
    pub open spec fn view(&self) -> Order {
        match self {
            Command::Builtin(b) => Order::Builtin(b@),
            Command::OpenPipe => Order::OpenPipe,
            Command::Spawn(plan) => Order::Spawn(plan.stage as nat),
            Command::Close(d) => Order::Close(*d),
            Command::Wait => Order::Wait,
            Command::Finish(result) => Order::Finish(result is Ok),
        }
    }
}

/// Whether `word` is the text `literal`.
fn is_word(word: &String, literal: &str) -> (b: bool)
    ensures
        b == (word@ == literal@),
{
    let other = literal.to_owned();
    *word == other
}

/// A copy of `words`.
pub fn clone_words(words: &Vec<String>) -> (copy: Vec<String>)
    ensures
        texts(copy@) == texts(words@),
{
    let mut copy: Vec<String> = Vec::new();
    let mut i: usize = 0;
    while i < words.len()
        invariant
            i <= words.len(),
            copy.len() == i,
            forall|j: int| 0 <= j < i ==> copy@[j]@ == words@[j]@,
        decreases words.len() - i,
    {
        copy.push(words[i].clone());
        i = i + 1;
    }
    assert(texts(copy@) =~= texts(words@));
    copy
}

/// The built-in that `argv` calls, if its first word names one.
pub fn builtin(argv: &Vec<String>) -> (found: Option<Builtin>)
    ensures
        match builtin_of(texts(argv@)) {
            Some(call) => found matches Some(b) && b@ == call,
            None => found is None,
        },
{
    if argv.len() == 0 {
        return None;
    }
    assert(texts(argv@)[0] == argv@[0]@);
    if is_word(&argv[0], "cd") {
        if argv.len() > 1 {
            assert(texts(argv@)[1] == argv@[1]@);
            Some(Builtin::Cd(argv[1].clone()))
        } else {
            Some(Builtin::Cd("./".to_owned()))
        }
    } else if is_word(&argv[0], "%logo") {
        Some(Builtin::Logo)
    } else if is_word(&argv[0], "%fl") {
        Some(Builtin::History)
    } else if is_word(&argv[0], "exit") {
        Some(Builtin::Exit)
    } else {
        None
    }
}

/// A copy of `flags`.
fn copy_flags(flags: &Vec<bool>) -> (copy: Vec<bool>)
    ensures
        copy@ == flags@,
{
    let mut copy: Vec<bool> = Vec::new();
    let mut i: usize = 0;
    while i < flags.len()
        invariant
            i <= flags.len(),
            copy@ == flags@.take(i as int),
        decreases flags.len() - i,
    {
        copy.push(flags[i]);
        assert(flags@.take(i as int).push(flags@[i as int]) =~= flags@.take(i + 1));
        i = i + 1;
    }
    assert(flags@.take(flags.len() as int) =~= flags@);
    copy
}

/// How far a run has come.
struct Progress {
    read_open: Vec<bool>,
    write_open: Vec<bool>,
    spawned: usize,
    waited: usize,
    failed: bool,
    awaiting: Awaiting,
    finished: bool,
}

impl Progress {
    /// The state of the run of `request` that has come this far.
    spec fn machine(&self, request: &PipelineRequest) -> Machine {
        Machine {
            request: request@.0,
            redirect: request@.1,
            read_open: self.read_open@,
            write_open: self.write_open@,
            spawned: self.spawned as nat,
            waited: self.waited as nat,
            failed: self.failed,
            awaiting: self.awaiting,
            finished: self.finished,
        }
    }

    /// A copy of the progress.
    fn copy(&self) -> (p: Progress)
        ensures
            p.read_open@ == self.read_open@,
            p.write_open@ == self.write_open@,
            p.spawned == self.spawned,
            p.waited == self.waited,
            p.failed == self.failed,
            p.awaiting == self.awaiting,
            p.finished == self.finished,
    {
        Progress {
            read_open: copy_flags(&self.read_open),
            write_open: copy_flags(&self.write_open),
            spawned: self.spawned,
            waited: self.waited,
            failed: self.failed,
            awaiting: self.awaiting,
            finished: self.finished,
        }
    }

    /// The result of the run as it stands: success, or the failure to
    /// create a pipe or a process.
    fn verdict(&self) -> (result: Result<Status, RshError>)
        ensures
            result is Ok <==> !self.failed,
            result matches Ok(status) ==> status.status_code() == StatusCode::Success
                && status.exit_code() == 0,
            result matches Err(error) ==> error.message@ == "Failed to create a pipe or a process"@,
    {
        if self.failed {
            Err(RshError::new("Failed to create a pipe or a process"))
        } else {
            Ok(Status::success())
        }
    }

    /// The first descriptor that is to be closed now, if any.
    fn find_due(&self, request: &PipelineRequest) -> (found: Option<Descriptor>)
        requires
            self.write_open@.len() == self.read_open@.len(),
        ensures
            found == self.machine(request).next_due(0),
    {
        let ghost m = self.machine(request);
        let mut k: usize = 0;
        while k < self.read_open.len()
            invariant
                k <= self.read_open.len(),
                m == self.machine(request),
                m.write_open.len() == m.read_open.len(),
                m.next_due(0) == m.next_due(k as nat),
            decreases self.read_open.len() - k,
        {
            if self.read_open[k] && (self.failed || k + 1 < self.spawned) {
                return Some(Descriptor { pipe: k, end: PipeEnd::Read });
            }
            if self.write_open[k] && (self.failed || k < self.spawned) {
                return Some(Descriptor { pipe: k, end: PipeEnd::Write });
            }
            k = k + 1;
        }
        None
    }

    /// The descriptors that are open, in order.
    fn open_descriptors(&self, request: &PipelineRequest) -> (open: Vec<Descriptor>)
        requires
            self.write_open@.len() == self.read_open@.len(),
        ensures
            open@ == self.machine(request).open_from(0),
    {
        let ghost m = self.machine(request);
        let mut open: Vec<Descriptor> = Vec::new();
        let mut k: usize = 0;
        assert(open@ + m.open_from(0) =~= m.open_from(0));
        while k < self.read_open.len()
            invariant
                k <= self.read_open.len(),
                m == self.machine(request),
                m.write_open.len() == m.read_open.len(),
                m.open_from(0) == open@ + m.open_from(k as nat),
            decreases self.read_open.len() - k,
        {
            let ghost before = open@;
            let ghost rest = m.open_from((k + 1) as nat);
            if self.read_open[k] {
                open.push(Descriptor { pipe: k, end: PipeEnd::Read });
            }
            if self.write_open[k] {
                open.push(Descriptor { pipe: k, end: PipeEnd::Write });
            }
            assert(open@ + rest =~= before + m.open_from(k as nat));
            k = k + 1;
        }
        assert(open@ + Seq::<Descriptor>::empty() =~= open@);
        open
    }

    /// The plan of the stage `stage`.
    fn child_plan(&self, request: &PipelineRequest, stage: usize) -> (plan: ChildPlan)
        requires
            self.write_open@.len() == self.read_open@.len(),
            stage < request.stages@.len(),
        ensures
            plan.stage == stage,
            plan.agrees(self.machine(request)),
    {
        let stages = request.stages.len();
        assert(stage_texts(request.stages@)[stage as int] == texts(request.stages@[stage as int]@));
        ChildPlan {
            stage,
            error: request.redirect.error(),
            input: if stage == 0 {
                request.redirect.input()
            } else {
                None
            },
            output: if stage + 1 == stages {
                request.redirect.output()
            } else {
                None
            },
            stdin_pipe: if stage > 0 {
                Some(stage - 1)
            } else {
                None
            },
            stdout_pipe: if stage + 1 < stages {
                Some(stage)
            } else {
                None
            },
            close: self.open_descriptors(request),
            argv: clone_words(&request.stages[stage]),
        }
    }

    /// Takes the run one step on.
    fn step(&mut self, request: &PipelineRequest, ok: bool) -> (command: Command)
        requires
            old(self).machine(request).wf(),
        ensures
            final(self).machine(request).wf(),
            (final(self).machine(request), command@) == old(self).machine(request).step(ok),
            command matches Command::Spawn(plan) ==> plan.agrees(final(self).machine(request)),
            command matches Command::Finish(Ok(status)) ==> status.status_code()
                == StatusCode::Success && status.exit_code() == 0,
            command matches Command::Finish(Err(error)) ==> error.message@
                == "Failed to create a pipe or a process"@,
    {
        proof {
            lemma_step_wf(self.machine(request), ok);
        }
        if self.finished {
            return Command::Finish(self.verdict());
        }
        assert(self.machine(request).stages() == request.stages@.len());
        match self.awaiting {
            Awaiting::Nothing => {},
            Awaiting::Pipe => {
                if ok {
                    self.read_open.push(true);
                    self.write_open.push(true);
                } else {
                    self.failed = true;
                }
            },
            Awaiting::Spawn => {
                if ok {
                    self.spawned = self.spawned + 1;
                } else {
                    self.failed = true;
                }
            },
        }
        self.awaiting = Awaiting::Nothing;
        assert(self.machine(request) == old(self).machine(request).settle(ok));
        let stages = request.stages.len();
        if stages == 1 {
            assert(stage_texts(request.stages@)[0] == texts(request.stages@[0]@));
            match builtin(&request.stages[0]) {
                Some(call) => {
                    self.finished = true;
                    return Command::Builtin(call);
                },
                None => {},
            }
        }
        match self.find_due(request) {
            Some(d) => {
                proof {
                    lemma_next_due(self.machine(request), 0);
                }
                match d.end {
                    PipeEnd::Read => {
                        self.read_open.set(d.pipe, false);
                    },
                    PipeEnd::Write => {
                        self.write_open.set(d.pipe, false);
                    },
                }
                return Command::Close(d);
            },
            None => {},
        }
        if !self.failed && self.read_open.len() + 1 < stages {
            self.awaiting = Awaiting::Pipe;
            return Command::OpenPipe;
        }
        if !self.failed && self.spawned < stages {
            self.awaiting = Awaiting::Spawn;
            return Command::Spawn(self.child_plan(request, self.spawned));
        }
        if self.waited < self.spawned {
            self.waited = self.waited + 1;
            return Command::Wait;
        }
        self.finished = true;
        Command::Finish(self.verdict())
    }
}

/// The run of one pipeline.
pub struct Orchestrator {
    request: PipelineRequest,
    progress: Progress,
}

impl Orchestrator {
    pub closed spec fn view(&self) -> Machine {
        self.progress.machine(&self.request)
    }

    /// Every run is in a state that `Machine::wf` admits.
    #[verifier::type_invariant]
    spec fn well_formed(&self) -> bool {
        self@.wf()
    }

    /// The run of `request`, before anything was done.
    pub fn new(request: PipelineRequest) -> (run: Orchestrator)
        ensures
            run@ == Machine::start(request@.0, request@.1),
            run@.wf(),
    {
        assert(stage_texts(request.stages@).len() == request.stages.len());
        Orchestrator {
            request,
            progress: Progress {
                read_open: Vec::new(),
                write_open: Vec::new(),
                spawned: 0,
                waited: 0,
                failed: false,
                awaiting: Awaiting::Nothing,
                finished: false,
            },
        }
    }

    /// Says what to do next; `ok` tells how what was asked for last went
    /// (it is not looked at where nothing was asked for, or where what was
    /// asked for cannot fail: closing and waiting).
    ///
    /// After `Builtin` and after `Finish` the run is over.
    pub fn next(&mut self, ok: bool) -> (command: Command)
        ensures
            old(self)@.wf(),
            final(self)@.wf(),
            (final(self)@, command@) == old(self)@.step(ok),
            command matches Command::Spawn(plan) ==> plan.agrees(final(self)@),
            command matches Command::Finish(Ok(status)) ==> status.status_code()
                == StatusCode::Success && status.exit_code() == 0,
            command matches Command::Finish(Err(error)) ==> error.message@
                == "Failed to create a pipe or a process"@,
    {
        proof {
            use_type_invariant(&*self);
        }
        let mut progress = self.progress.copy();
        let command = progress.step(&self.request, ok);
        self.progress = progress;
        command
    }
}

} // verus!
