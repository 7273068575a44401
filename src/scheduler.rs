//! The run lifecycle as a state machine. The caller performs each returned
//! action (opening or closing a sink, sampling, sleeping) and reports back
//! whether it succeeded and whether cancellation has been requested.

use vstd::prelude::*;
use crate::config::{Config, OutputFormat};

verus! {

/// Lifecycle phase of a run.
#[derive(Clone, Copy, Debug, PartialEq, Eq, Structural)]
pub enum Phase {
    Starting,
    Running,
    Draining,
    Stopped,
}

/// A fatal failure; the run ends with a non-zero status.
#[derive(Clone, Copy, Debug, PartialEq, Eq, Structural)]
pub enum Failure {
    /// The live feed could not be started.
    LiveOpen,
    /// The existing durable target could not be removed.
    TargetRemoval,
    /// The durable recorder could not be opened.
    DurableOpen,
    /// The durable recorder could not be flushed and closed.
    DurableClose,
}

/// What the caller must do next.
#[derive(Clone, Copy, Debug, PartialEq, Eq, Structural)]
pub enum Action {
    OpenLive,
    RemoveTarget,
    OpenDurable,
    /// Sample every enabled category and publish each record to the open sinks.
    Sample,
    /// Sleep for this many milliseconds.
    Sleep(u64),
    CloseLive,
    CloseDurable,
    /// The run is over: exit with status 0 when there is no failure.
    Exit(Option<Failure>),
}

/// Why a run refuses to start.
#[derive(Clone, Copy, Debug, PartialEq, Eq, Structural)]
pub enum StartupError {
    /// The durable target exists and overwriting it was not requested.
    TargetExists,
}

/// A sink that receives published records.
#[derive(Clone, Copy, Debug, PartialEq, Eq, Hash, Structural)]
pub enum SinkKind {
    Live,
    Durable,
}

/// The state of a run.
#[derive(Clone, Copy, Debug)]
pub struct Scheduler {
    phase: Phase,
    last: Option<Action>,
    want_live: bool,
    want_durable: bool,
    remove_target: bool,
    live_open: bool,
    durable_open: bool,
    interval: u64,
    timeout: Option<u64>,
    elapsed: u64,
    failure: Option<Failure>,
}

/// Whether a run whose durable target is in the state given may start.
pub open spec fn startup_refused(config: Config, target_exists: bool) -> bool {
    config.format.spec_has_durable() && target_exists && !config.overwrite
}

/// The opening actions of a run that replaces an existing durable target,
/// when every one of them succeeds.
pub open spec fn replacing_startup(format: OutputFormat) -> Seq<Action> {
    (if format.spec_has_live() {
        seq![Action::OpenLive]
    } else {
        Seq::empty()
    }) + seq![Action::RemoveTarget, Action::OpenDurable]
}

impl Scheduler {
    pub closed spec fn phase(self) -> Phase {
        self.phase
    }

    /// Whether sink `k` is open.
    pub closed spec fn is_open(self, k: SinkKind) -> bool {
        match k {
            SinkKind::Live => self.live_open,
            SinkKind::Durable => self.durable_open,
        }
    }

    /// Whether the run is in its inter-tick sleep.
    pub closed spec fn sleeping(self) -> bool {
        self.phase == Phase::Running && self.last matches Some(Action::Sleep(_))
    }

    /// Ticks completed so far.
    pub closed spec fn ticks(self) -> u64 {
        self.elapsed
    }

    pub closed spec fn wf(self) -> bool {
        &&& self.live_open ==> self.want_live
        &&& self.durable_open ==> self.want_durable
        &&& self.remove_target ==> self.want_durable && !self.durable_open
        &&& self.phase == Phase::Starting ==> {
            &&& self.failure is None
            &&& self.last matches Some(Action::OpenLive) ==> self.want_live && !self.live_open
            &&& self.last matches Some(Action::RemoveTarget) ==> self.remove_target
            &&& self.last matches Some(Action::OpenDurable) ==> self.want_durable
                && !self.remove_target
        }
        &&& self.phase == Phase::Running ==> {
            &&& self.failure is None
            &&& self.want_live == self.live_open
            &&& self.want_durable == self.durable_open
            &&& !self.remove_target
            &&& (self.last matches Some(Action::Sample) || self.last matches Some(Action::Sleep(_)))
        }
        &&& self.phase == Phase::Stopped ==> !self.live_open && !self.durable_open
        &&& self.timeout matches Some(t) ==> self.elapsed <= t
        &&& self.phase == Phase::Running ==> self.within_timeout()
    }

    pub closed spec fn within_timeout(self) -> bool {
        match self.timeout {
            Some(t) => self.elapsed < t,
            None => true,
        }
    }

    /// The state a run starts in, or why it may not start.
    pub closed spec fn initial(config: Config, target_exists: bool) -> Result<
        Scheduler,
        StartupError,
    > {
        if startup_refused(config, target_exists) {
            Err(StartupError::TargetExists)
        } else {
            Ok(
                Scheduler {
                    phase: Phase::Starting,
                    last: None,
                    want_live: config.format.spec_has_live(),
                    want_durable: config.format.spec_has_durable(),
                    remove_target: config.format.spec_has_durable() && target_exists,
                    live_open: false,
                    durable_open: false,
                    interval: config.interval,
                    timeout: config.timeout,
                    elapsed: 0,
                    failure: None,
                },
            )
        }
    }

    spec fn drain(self) -> (Scheduler, Action) {
        if self.live_open {
            (Scheduler { phase: Phase::Draining, last: Some(Action::CloseLive), ..self }, Action::CloseLive)
        } else if self.durable_open {
            (
                Scheduler { phase: Phase::Draining, last: Some(Action::CloseDurable), ..self },
                Action::CloseDurable,
            )
        } else {
            (
                Scheduler { phase: Phase::Stopped, last: Some(Action::Exit(self.failure)), ..self },
                Action::Exit(self.failure),
            )
        }
    }

    spec fn tick(self, cancelled: bool) -> (Scheduler, Action) {
        if !cancelled && self.within_timeout() {
            (Scheduler { phase: Phase::Running, last: Some(Action::Sample), ..self }, Action::Sample)
        } else {
            self.drain()
        }
    }

    spec fn start_next(self, cancelled: bool) -> (Scheduler, Action) {
        if self.want_live && !self.live_open {
            (Scheduler { last: Some(Action::OpenLive), ..self }, Action::OpenLive)
        } else if self.remove_target {
            (Scheduler { last: Some(Action::RemoveTarget), ..self }, Action::RemoveTarget)
        } else if self.want_durable && !self.durable_open {
            (Scheduler { last: Some(Action::OpenDurable), ..self }, Action::OpenDurable)
        } else {
            self.tick(cancelled)
        }
    }

    spec fn fail(self, f: Failure) -> (Scheduler, Action) {
        Scheduler { failure: Some(f), ..self }.drain()
    }

    /// One transition: `ok` reports whether the previous action succeeded,
    /// `cancelled` whether cancellation has been requested.
    pub closed spec fn next(self, ok: bool, cancelled: bool) -> (Scheduler, Action) {
        match self.phase {
            Phase::Starting => match self.last {
                Some(Action::OpenLive) => if ok {
                    Scheduler { live_open: true, ..self }.start_next(cancelled)
                } else {
                    self.fail(Failure::LiveOpen)
                },
                Some(Action::RemoveTarget) => if ok {
                    Scheduler { remove_target: false, ..self }.start_next(cancelled)
                } else {
                    self.fail(Failure::TargetRemoval)
                },
                Some(Action::OpenDurable) => if ok {
                    Scheduler { durable_open: true, ..self }.start_next(cancelled)
                } else {
                    self.fail(Failure::DurableOpen)
                },
                _ => self.start_next(cancelled),
            },
            Phase::Running => match self.last {
                Some(Action::Sample) => (
                    Scheduler { last: Some(Action::Sleep(self.interval)), ..self },
                    Action::Sleep(self.interval),
                ),
                Some(Action::Sleep(_)) => Scheduler {
                    elapsed: if self.elapsed < u64::MAX {
                        (self.elapsed + 1) as u64
                    } else {
                        self.elapsed
                    },
                    ..self
                }.tick(cancelled),
                _ => self.tick(cancelled),
            },
            Phase::Draining => match self.last {
                Some(Action::CloseLive) => Scheduler { live_open: false, ..self }.drain(),
                Some(Action::CloseDurable) => Scheduler {
                    durable_open: false,
                    failure: if ok || self.failure is Some {
                        self.failure
                    } else {
                        Some(Failure::DurableClose)
                    },
                    ..self
                }.drain(),
                _ => self.drain(),
            },
            Phase::Stopped => (self, Action::Exit(self.failure)),
        }
    }

    /// The actions of a run fed `inputs`, each an (`ok`, `cancelled`) pair,
    /// and the state it ends in.
    pub closed spec fn run(self, inputs: Seq<(bool, bool)>) -> (Scheduler, Seq<Action>)
        decreases inputs.len(),
    {
        if inputs.len() == 0 {
            (self, Seq::empty())
        } else {
            let (t, a) = self.next(inputs[0].0, inputs[0].1);
            let (u, rest) = t.run(inputs.drop_first());
            (u, seq![a] + rest)
        }
    }

    /// Checks the durable target and prepares a run. A run that would record
    /// durably over an existing target without leave to overwrite it is
    /// refused here, before any sink is opened.
    pub fn new(config: &Config, target_exists: bool) -> (r: Result<Scheduler, StartupError>)
        ensures
            r == Scheduler::initial(*config, target_exists),
            r is Err <==> startup_refused(*config, target_exists),
            r matches Ok(s) ==> {
                &&& s.wf()
                &&& s.phase() == Phase::Starting
                &&& !s.is_open(SinkKind::Live)
                &&& !s.is_open(SinkKind::Durable)
                &&& s.ticks() == 0
            },
    {
        let want_durable = config.format.has_durable();
        if want_durable && target_exists && !config.overwrite {
            return Err(StartupError::TargetExists);
        }
        Ok(
            Scheduler {
                phase: Phase::Starting,
                last: None,
                want_live: config.format.has_live(),
                want_durable,
                remove_target: want_durable && target_exists,
                live_open: false,
                durable_open: false,
                interval: config.interval,
                timeout: config.timeout,
                elapsed: 0,
                failure: None,
            },
        )
    }

    /// The current phase.
    pub fn current_phase(&self) -> (r: Phase)
        ensures
            r == self.phase(),
    {
        self.phase
    }

    /// The open sinks in delivery order: the live feed before the durable recorder.
    pub fn publish_targets(&self) -> (r: Vec<SinkKind>)
        ensures
            r@ == (if self.is_open(SinkKind::Live) {
                seq![SinkKind::Live]
            } else {
                Seq::empty()
            }) + (if self.is_open(SinkKind::Durable) {
                seq![SinkKind::Durable]
            } else {
                Seq::empty()
            }),
    {
        let mut r: Vec<SinkKind> = Vec::new();
        if self.live_open {
            r.push(SinkKind::Live);
        }
        if self.durable_open {
            r.push(SinkKind::Durable);
        }
        proof {
            assert(r@ =~= (if self.live_open {
                seq![SinkKind::Live]
            } else {
                Seq::empty()
            }) + (if self.durable_open {
                seq![SinkKind::Durable]
            } else {
                Seq::empty()
            }));
        }
        r
    }

    fn exec_drain(&mut self) -> (r: Action)
        ensures
            (*final(self), r) == old(self).drain(),
    {
        if self.live_open {
            self.phase = Phase::Draining;
            self.last = Some(Action::CloseLive);
            Action::CloseLive
        } else if self.durable_open {
            self.phase = Phase::Draining;
            self.last = Some(Action::CloseDurable);
            Action::CloseDurable
        } else {
            self.phase = Phase::Stopped;
            self.last = Some(Action::Exit(self.failure));
            Action::Exit(self.failure)
        }
    }

    fn exec_tick(&mut self, cancelled: bool) -> (r: Action)
        ensures
            (*final(self), r) == old(self).tick(cancelled),
    {
        let within = match self.timeout {
            Some(t) => self.elapsed < t,
            None => true,
        };
        if !cancelled && within {
            self.phase = Phase::Running;
            self.last = Some(Action::Sample);
            Action::Sample
        } else {
            self.exec_drain()
        }
    }

    fn exec_start_next(&mut self, cancelled: bool) -> (r: Action)
        ensures
            (*final(self), r) == old(self).start_next(cancelled),
    {
        if self.want_live && !self.live_open {
            self.last = Some(Action::OpenLive);
            Action::OpenLive
        } else if self.remove_target {
            self.last = Some(Action::RemoveTarget);
            Action::RemoveTarget
        } else if self.want_durable && !self.durable_open {
            self.last = Some(Action::OpenDurable);
            Action::OpenDurable
        } else {
            self.exec_tick(cancelled)
        }
    }

    /// Advances the run by one transition. `ok` reports whether the previous
    /// action succeeded (ignored for actions that cannot fail); `cancelled`
    /// whether cancellation has been requested, which is acted on only at the
    /// start of a tick.
    pub fn step(&mut self, ok: bool, cancelled: bool) -> (r: Action)
        ensures
            (*final(self), r) == old(self).next(ok, cancelled),
            old(self).wf() ==> final(self).wf(),
    {
        proof {
            lemma_next_wf(*self, ok, cancelled);
        }
        match self.phase {
            Phase::Starting => match self.last {
                Some(Action::OpenLive) => if ok {
                    self.live_open = true;
                    self.exec_start_next(cancelled)
                } else {
                    self.failure = Some(Failure::LiveOpen);
                    self.exec_drain()
                },
                Some(Action::RemoveTarget) => if ok {
                    self.remove_target = false;
                    self.exec_start_next(cancelled)
                } else {
                    self.failure = Some(Failure::TargetRemoval);
                    self.exec_drain()
                },
                Some(Action::OpenDurable) => if ok {
                    self.durable_open = true;
                    self.exec_start_next(cancelled)
                } else {
                    self.failure = Some(Failure::DurableOpen);
                    self.exec_drain()
                },
                _ => self.exec_start_next(cancelled),
            },
            Phase::Running => match self.last {
                Some(Action::Sample) => {
                    self.last = Some(Action::Sleep(self.interval));
                    Action::Sleep(self.interval)
                },
                Some(Action::Sleep(_)) => {
                    if self.elapsed < u64::MAX {
                        self.elapsed = self.elapsed + 1;
                    }
                    self.exec_tick(cancelled)
                },
                _ => self.exec_tick(cancelled),
            },
            Phase::Draining => match self.last {
                Some(Action::CloseLive) => {
                    self.live_open = false;
                    self.exec_drain()
                },
                Some(Action::CloseDurable) => {
                    self.durable_open = false;
                    if !ok && self.failure.is_none() {
                        self.failure = Some(Failure::DurableClose);
                    }
                    self.exec_drain()
                },
                _ => self.exec_drain(),
            },
            Phase::Stopped => Action::Exit(self.failure),
        }
    }
}

proof fn lemma_next_wf(s: Scheduler, ok: bool, cancelled: bool)
    ensures
        s.wf() ==> s.next(ok, cancelled).0.wf(),
{
}

} // verus!

verus! {

/// The closing actions owed by a run in state `s`: the live feed first, the
/// durable recorder last, each only if open.
pub open spec fn owed_closes(s: Scheduler) -> Seq<Action> {
    (if s.is_open(SinkKind::Live) {
        seq![Action::CloseLive]
    } else {
        Seq::empty()
    }) + (if s.is_open(SinkKind::Durable) {
        seq![Action::CloseDurable]
    } else {
        Seq::empty()
    })
}

proof fn lemma_stopped_run(s: Scheduler, inputs: Seq<(bool, bool)>)
    requires
        s.phase == Phase::Stopped,
    ensures
        s.run(inputs).0 == s,
        s.run(inputs).1.len() == inputs.len(),
        forall|i: int| 0 <= i < inputs.len() ==> #[trigger] s.run(inputs).1[i] == Action::Exit(s.failure),
    decreases inputs.len(),
{
    if inputs.len() > 0 {
        lemma_stopped_run(s, inputs.drop_first());
        let rest = s.run(inputs.drop_first()).1;
        assert forall|i: int| 0 <= i < inputs.len() implies #[trigger] s.run(inputs).1[i]
            == Action::Exit(s.failure) by {
            if i > 0 {
                assert(s.run(inputs).1[i] == rest[i - 1]);
            }
        }
    }
}

proof fn lemma_drain_run(y: Scheduler, inputs: Seq<(bool, bool)>)
    requires
        inputs.len() >= owed_closes(y).len(),
    ensures
        ({
            let (x, a) = y.drain();
            let (t, rest) = x.run(inputs);
            let acts = seq![a] + rest;
            &&& acts.len() == inputs.len() + 1
            &&& acts.subrange(0, owed_closes(y).len() as int) == owed_closes(y)
            &&& forall|i: int| owed_closes(y).len() <= i < acts.len() ==> #[trigger] acts[i] is Exit
            &&& t.phase == Phase::Stopped
            &&& !t.live_open
            &&& !t.durable_open
        }),
    decreases inputs.len(),
{
    let (x, a) = y.drain();
    let closes = owed_closes(y);
    if y.live_open || y.durable_open {
        let (x1, _) = x.next(inputs[0].0, inputs[0].1);
        let y1 = if y.live_open {
            Scheduler { live_open: false, ..x }
        } else {
            Scheduler {
                durable_open: false,
                failure: if inputs[0].0 || x.failure is Some {
                    x.failure
                } else {
                    Some(Failure::DurableClose)
                },
                ..x
            }
        };
        assert(x.next(inputs[0].0, inputs[0].1) == y1.drain());
        lemma_drain_run(y1, inputs.drop_first());
        assert(owed_closes(y1) == closes.drop_first());
        let acts = seq![a] + x.run(inputs).1;
        let acts1 = seq![y1.drain().1] + y1.drain().0.run(inputs.drop_first()).1;
        assert(x.run(inputs).1 == acts1);
        assert(acts.subrange(0, closes.len() as int) =~= closes);
        assert forall|i: int| closes.len() <= i < acts.len() implies #[trigger] acts[i] is Exit by {
            assert(acts[i] == acts1[i - 1]);
        }
    } else {
        lemma_stopped_run(x, inputs);
        let acts = seq![a] + x.run(inputs).1;
        assert forall|i: int| closes.len() <= i < acts.len() implies #[trigger] acts[i] is Exit by {
            if i > 0 {
                assert(acts[i] == x.run(inputs).1[i - 1]);
            }
        }
    }
}

/// Cancellation law: when a sleeping run sees cancellation at the start of
/// the next tick, it samples no more. Its next actions close every open sink
/// exactly once, the live feed before the durable recorder, and then it only
/// exits, stopped with no sink open.
pub proof fn cancellation_stops_within_a_tick(s: Scheduler, inputs: Seq<(bool, bool)>)
    requires
        s.wf(),
        s.sleeping(),
        inputs.len() > owed_closes(s).len(),
        inputs[0].1,
    ensures
        ({
            let (t, acts) = s.run(inputs);
            &&& acts.len() == inputs.len()
            &&& acts.subrange(0, owed_closes(s).len() as int) == owed_closes(s)
            &&& forall|i: int| owed_closes(s).len() <= i < acts.len() ==> #[trigger] acts[i] is Exit
            &&& t.phase() == Phase::Stopped
            &&& !t.is_open(SinkKind::Live)
            &&& !t.is_open(SinkKind::Durable)
        }),
{
    let y = Scheduler {
        elapsed: if s.elapsed < u64::MAX {
            (s.elapsed + 1) as u64
        } else {
            s.elapsed
        },
        ..s
    };
    assert(s.next(inputs[0].0, inputs[0].1) == y.drain());
    assert(owed_closes(y) == owed_closes(s));
    lemma_drain_run(y, inputs.drop_first());
}

/// Overwrite law: a durable run whose target exists and may be overwritten
/// starts; when every step succeeds it removes the target, then opens a fresh
/// durable recorder (after the live feed, if any), and holds it open.
pub proof fn overwrite_replaces_target(config: Config, inputs: Seq<(bool, bool)>)
    requires
        config.format.spec_has_durable(),
        config.overwrite,
        inputs.len() == replacing_startup(config.format).len() + 1,
        forall|i: int| 0 <= i < inputs.len() ==> (#[trigger] inputs[i]).0,
    ensures
        Scheduler::initial(config, true) is Ok,
        ({
            let (t, acts) = Scheduler::initial(config, true)->Ok_0.run(inputs);
            &&& acts.subrange(0, replacing_startup(config.format).len() as int)
                == replacing_startup(config.format)
            &&& t.is_open(SinkKind::Durable)
            &&& t.is_open(SinkKind::Live) == config.format.spec_has_live()
        }),
{
    let s = Scheduler::initial(config, true)->Ok_0;
    let opens = replacing_startup(config.format);
    let (t, acts) = s.run(inputs);
    let in1 = inputs.drop_first();
    let in2 = in1.drop_first();
    let in3 = in2.drop_first();
    assert(inputs[0].0 && in1[0].0 && in2[0].0);
    let (s1, a0) = s.next(inputs[0].0, inputs[0].1);
    let (s2, a1) = s1.next(in1[0].0, in1[0].1);
    let (s3, a2) = s2.next(in2[0].0, in2[0].1);
    assert(acts == seq![a0] + s1.run(in1).1);
    assert(s1.run(in1).1 == seq![a1] + s2.run(in2).1);
    assert(s2.run(in2).1 == seq![a2] + s3.run(in3).1);
    if config.format.spec_has_live() {
        assert(in3[0].0);
        let (s4, a3) = s3.next(in3[0].0, in3[0].1);
        assert(in3.drop_first().len() == 0);
        assert(s4.run(in3.drop_first()) == (s4, Seq::<Action>::empty()));
        assert(s3.run(in3).1 =~= seq![a3]);
        assert(acts.subrange(0, 3) =~= opens);
    } else {
        assert(in3.len() == 0);
        assert(acts.subrange(0, 2) =~= opens);
    }
}


/// Number of `Sample` actions in `acts`.
pub open spec fn sample_count(acts: Seq<Action>) -> nat
    decreases acts.len(),
{
    if acts.len() == 0 {
        0
    } else {
        (if acts[0] == Action::Sample {
            1nat
        } else {
            0nat
        }) + sample_count(acts.drop_first())
    }
}

proof fn lemma_sample_count_prepend(a: Action, rest: Seq<Action>)
    ensures
        sample_count(seq![a] + rest) == (if a == Action::Sample {
            1nat
        } else {
            0nat
        }) + sample_count(rest),
{
    assert((seq![a] + rest).drop_first() =~= rest);
}

proof fn lemma_sample_count_none(acts: Seq<Action>)
    requires
        forall|i: int| 0 <= i < acts.len() ==> acts[i] != Action::Sample,
    ensures
        sample_count(acts) == 0,
    decreases acts.len(),
{
    if acts.len() > 0 {
        lemma_sample_count_none(acts.drop_first());
    }
}

/// Whether every input reports success and no cancellation.
pub open spec fn undisturbed(inputs: Seq<(bool, bool)>) -> bool {
    forall|i: int| 0 <= i < inputs.len() ==> #[trigger] inputs[i] == (true, false)
}

proof fn lemma_drain_no_samples(y: Scheduler, inputs: Seq<(bool, bool)>)
    requires
        inputs.len() >= owed_closes(y).len(),
    ensures
        sample_count(seq![y.drain().1] + y.drain().0.run(inputs).1) == 0,
        y.drain().0.run(inputs).0.phase == Phase::Stopped,
{
    lemma_drain_run(y, inputs);
    let acts = seq![y.drain().1] + y.drain().0.run(inputs).1;
    let closes = owed_closes(y);
    assert forall|i: int| 0 <= i < acts.len() implies acts[i] != Action::Sample by {
        if i < closes.len() {
            assert(acts[i] == acts.subrange(0, closes.len() as int)[i]);
        }
    }
    lemma_sample_count_none(acts);
}

proof fn lemma_ticks(y: Scheduler, t: u64, inputs: Seq<(bool, bool)>)
    requires
        y.timeout == Some(t),
        y.elapsed <= t,
        undisturbed(inputs),
        inputs.len() >= 2 * (t - y.elapsed) + owed_closes(y).len(),
    ensures
        sample_count(seq![y.tick(false).1] + y.tick(false).0.run(inputs).1) == t - y.elapsed,
        y.tick(false).0.run(inputs).0.phase == Phase::Stopped,
    decreases t - y.elapsed,
{
    let (x, a) = y.tick(false);
    if y.elapsed < t {
        let in1 = inputs.drop_first();
        let in2 = in1.drop_first();
        assert(inputs[0] == (true, false));
        assert(in1[0] == (true, false));
        let (x1, a1) = x.next(true, false);
        let y2 = Scheduler { elapsed: (x1.elapsed + 1) as u64, ..x1 };
        assert(x1.next(true, false) == y2.tick(false));
        assert(owed_closes(y2) == owed_closes(y));
        assert(undisturbed(in2)) by {
            assert forall|i: int| 0 <= i < in2.len() implies #[trigger] in2[i] == (true, false) by {
                assert(in2[i] == inputs[i + 2]);
            }
        }
        lemma_ticks(y2, t, in2);
        let rest2 = seq![y2.tick(false).1] + y2.tick(false).0.run(in2).1;
        assert(x1.run(in1).1 == rest2);
        assert(x.run(inputs).1 == seq![a1] + rest2);
        lemma_sample_count_prepend(a1, rest2);
        lemma_sample_count_prepend(a, seq![a1] + rest2);
    } else {
        lemma_drain_no_samples(y, inputs);
    }
}

spec fn pending_opens(y: Scheduler) -> nat {
    (if y.want_live && !y.live_open {
        1nat
    } else {
        0nat
    }) + (if y.remove_target {
        1nat
    } else {
        0nat
    }) + (if y.want_durable && !y.durable_open {
        1nat
    } else {
        0nat
    })
}

proof fn lemma_start(y: Scheduler, t: u64, inputs: Seq<(bool, bool)>)
    requires
        y.phase == Phase::Starting,
        y.timeout == Some(t),
        y.elapsed == 0,
        y.live_open ==> y.want_live,
        y.durable_open ==> y.want_durable,
        y.remove_target ==> y.want_durable && !y.durable_open,
        undisturbed(inputs),
        inputs.len() >= pending_opens(y) + 2 * t + (if y.want_live {
            1nat
        } else {
            0nat
        }) + (if y.want_durable {
            1nat
        } else {
            0nat
        }),
    ensures
        sample_count(seq![y.start_next(false).1] + y.start_next(false).0.run(inputs).1) == t,
        y.start_next(false).0.run(inputs).0.phase == Phase::Stopped,
    decreases pending_opens(y),
{
    let (x, a) = y.start_next(false);
    if pending_opens(y) > 0 {
        let in1 = inputs.drop_first();
        assert(inputs[0] == (true, false));
        let y1 = if y.want_live && !y.live_open {
            Scheduler { live_open: true, ..x }
        } else if y.remove_target {
            Scheduler { remove_target: false, ..x }
        } else {
            Scheduler { durable_open: true, ..x }
        };
        assert(x.next(true, false) == y1.start_next(false));
        assert(undisturbed(in1)) by {
            assert forall|i: int| 0 <= i < in1.len() implies #[trigger] in1[i] == (true, false) by {
                assert(in1[i] == inputs[i + 1]);
            }
        }
        lemma_start(y1, t, in1);
        let rest = seq![y1.start_next(false).1] + y1.start_next(false).0.run(in1).1;
        assert(x.run(inputs).1 == rest);
        lemma_sample_count_prepend(a, rest);
    } else {
        lemma_ticks(y, t, inputs);
    }
}

/// Timeout law: a run with a timeout of `t` ticks that is never cancelled and
/// whose every step succeeds samples exactly `t` times, then closes its sinks
/// and stops. The inputs must cover the opening steps, two steps per tick
/// (sample, sleep), one per close and the exit.
pub proof fn timeout_bounds_samples(
    config: Config,
    target_exists: bool,
    t: u64,
    inputs: Seq<(bool, bool)>,
)
    requires
        !startup_refused(config, target_exists),
        config.timeout == Some(t),
        undisturbed(inputs),
        inputs.len() >= 1 + 2 * t + (if config.format.spec_has_live() {
            2nat
        } else {
            0nat
        }) + (if config.format.spec_has_durable() {
            2nat
        } else {
            0nat
        }) + (if config.format.spec_has_durable() && target_exists {
            1nat
        } else {
            0nat
        }),
    ensures
        Scheduler::initial(config, target_exists) is Ok,
        sample_count(Scheduler::initial(config, target_exists)->Ok_0.run(inputs).1) == t,
        Scheduler::initial(config, target_exists)->Ok_0.run(inputs).0.phase() == Phase::Stopped,
{
    let s = Scheduler::initial(config, target_exists)->Ok_0;
    let in1 = inputs.drop_first();
    assert(inputs[0] == (true, false));
    assert(s.next(true, false) == s.start_next(false));
    assert(undisturbed(in1)) by {
        assert forall|i: int| 0 <= i < in1.len() implies #[trigger] in1[i] == (true, false) by {
            assert(in1[i] == inputs[i + 1]);
        }
    }
    lemma_start(s, t, in1);
}

} // verus!
