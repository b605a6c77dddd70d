use vstd::prelude::*;
use crate::config::{resolved, strategy_named, Config, Invocation, Options, Strategy};

verus! {

/// A point of the lifecycle at which the state may be reported.
#[derive(PartialEq, Eq, Structural, Clone, Copy, Debug)]
pub enum Checkpoint {
    Reserved,
    Touched,
    Released,
}

/// An operation on the region that did not succeed.
#[derive(PartialEq, Eq, Structural, Clone, Copy, Debug)]
pub enum Failure {
    Reserve,
    Touch,
    Release,
}

/// One thing for the caller to do, in order.
#[derive(PartialEq, Eq, Structural, Clone, Copy, Debug)]
pub enum Action {
    /// Query the memory and swap counters and print their report.
    ShowReport,
    /// Print how the program is used.
    ShowUsage,
    /// Print the byte counts to reserve and to page in.
    ShowSizes { reserve_bytes: usize, touch_bytes: usize },
    /// Print which strategy runs.
    ShowMode(Strategy),
    /// Obtain the region; its outcome is handed to the next step.
    Reserve { strategy: Strategy, bytes: usize },
    /// Print what was done at a checkpoint.
    Announce(Checkpoint),
    /// Wait until the operator confirms.
    AwaitOperator,
    /// Wait a fixed time.
    Delay { seconds: u64 },
    /// Write `value` over the first `bytes` of the region; its outcome is handed to the next step.
    Fill { bytes: usize, value: u8 },
    /// Pin the first `bytes` of the region in physical memory; its outcome is handed to the next step.
    Pin { bytes: usize },
    /// Give the region back; its outcome is handed to the next step.
    Release,
    /// Print that an operation did not succeed.
    ReportFailure(Failure),
    /// Stop: nothing is left to do.
    Finish,
}

/// Where the lifecycle stands: which outcome the next step waits for.
#[derive(PartialEq, Eq, Structural, Clone, Copy, Debug)]
pub enum Phase {
    Start,
    Reserving,
    Touching,
    Releasing,
    Done,
}

/// What is known of the region: whether it is held, its size, how much of it
/// was paged in, and whether it is pinned.
#[derive(PartialEq, Eq, Structural, Clone, Copy, Debug)]
pub struct Handle {
    pub live: bool,
    pub size: usize,
    pub resident: usize,
    pub pinned: bool,
}

impl Handle {
    /// No region is held.
    pub open spec fn none() -> Handle {
        Handle { live: false, size: 0, resident: 0, pinned: false }
    }

    /// Only a held region is pinned or paged in, and never beyond its size.
    pub open spec fn wf(self) -> bool {
        &&& self.pinned ==> self.live
        &&& self.resident <= self.size
        &&& !self.live ==> self == Handle::none()
    }

    /// Whether the handle is pinned.
    pub fn is_pinned(&self) -> (r: bool)
        ensures
            r == self.pinned,
    {
        self.pinned
    }
}

/// Whether an action asks for an allocation primitive: reserving, writing,
/// pinning or releasing memory.
pub open spec fn is_allocation(a: Action) -> bool {
    a is Reserve || a is Fill || a is Pin || a is Release
}

/// `s` when `b` holds, else nothing.
pub open spec fn when(b: bool, s: Seq<Action>) -> Seq<Action> {
    if b {
        s
    } else {
        seq![]
    }
}

/// How a strategy pages the region in.
pub open spec fn touch_action(c: Config) -> Action {
    match c.strategy {
        Strategy::PinnedHeapBuffer => Action::Pin { bytes: c.touch_bytes },
        Strategy::AnonymousMap => Action::Fill { bytes: c.touch_bytes, value: 1 },
        _ => Action::Fill { bytes: c.touch_bytes, value: 0 },
    }
}

/// The first actions of an invocation, up to the reserve of a run.
pub open spec fn opening_actions(inv: Invocation) -> Seq<Action> {
    match inv {
        Invocation::Query => seq![Action::ShowReport, Action::Finish],
        Invocation::Usage => seq![Action::ShowUsage, Action::Finish],
        Invocation::Run(c) => when(c.verbose, seq![Action::ShowReport]) + seq![
            Action::ShowSizes { reserve_bytes: c.reserve_bytes, touch_bytes: c.touch_bytes },
            Action::ShowMode(c.strategy),
            Action::Reserve { strategy: c.strategy, bytes: c.reserve_bytes },
        ],
    }
}

/// The actions after the reserve, up to paging in; a failed reserve ends the run.
pub open spec fn reserved_actions(c: Config, ok: bool) -> Seq<Action> {
    if !ok {
        seq![Action::ReportFailure(Failure::Reserve), Action::Finish]
    } else {
        when(c.verbose, seq![Action::Announce(Checkpoint::Reserved), Action::ShowReport])
            + when(c.step, seq![Action::AwaitOperator])
            + when(c.strategy is HeapBufferDelayed, seq![Action::Delay { seconds: 2 }])
            + seq![touch_action(c)]
    }
}

/// The actions after paging in, up to the release; the pause before it always comes.
pub open spec fn touched_actions(c: Config, ok: bool) -> Seq<Action> {
    when(!ok, seq![Action::ReportFailure(Failure::Touch)])
        + when(c.verbose, seq![Action::Announce(Checkpoint::Touched), Action::ShowReport])
        + seq![Action::AwaitOperator, Action::Release]
}

/// The actions after the release, to the end of the run.
pub open spec fn released_actions(c: Config, ok: bool) -> Seq<Action> {
    when(!ok, seq![Action::ReportFailure(Failure::Release)])
        + when(c.verbose, seq![Action::Announce(Checkpoint::Released), Action::ShowReport])
        + when(c.step, seq![Action::AwaitOperator])
        + seq![Action::Finish]
}

/// The actions of one step, given the outcome of the operation that ended the last.
pub open spec fn step_actions(inv: Invocation, phase: Phase, ok: bool) -> Seq<Action> {
    match phase {
        Phase::Start => opening_actions(inv),
        Phase::Reserving => reserved_actions(inv->Run_0, ok),
        Phase::Touching => touched_actions(inv->Run_0, ok),
        Phase::Releasing => released_actions(inv->Run_0, ok),
        Phase::Done => seq![],
    }
}

/// The phase after one step.
pub open spec fn next_phase(inv: Invocation, phase: Phase, ok: bool) -> Phase {
    match phase {
        Phase::Start => if inv is Run {
            Phase::Reserving
        } else {
            Phase::Done
        },
        Phase::Reserving => if ok {
            Phase::Touching
        } else {
            Phase::Done
        },
        Phase::Touching => Phase::Releasing,
        _ => Phase::Done,
    }
}

/// The handle after one step: a reserve makes it, paging in fills it, pinning
/// pins it, and the release ends it, whatever that release reported.
pub open spec fn next_handle(inv: Invocation, h: Handle, phase: Phase, ok: bool) -> Handle {
    match phase {
        Phase::Reserving => if ok {
            Handle { live: true, size: inv->Run_0.reserve_bytes, resident: 0, pinned: false }
        } else {
            h
        },
        Phase::Touching => if ok {
            Handle {
                resident: inv->Run_0.touch_bytes,
                pinned: inv->Run_0.strategy is PinnedHeapBuffer,
                ..h
            }
        } else {
            h
        },
        Phase::Releasing => Handle::none(),
        _ => h,
    }
}

/// The lifecycle of one invocation: it hands out the actions of each step and
/// keeps the handle of the region.
pub struct Driver {
    invocation: Invocation,
    phase: Phase,
    handle: Handle,
}

impl Driver {
    pub closed spec fn spec_invocation(self) -> Invocation {
        self.invocation
    }

    pub closed spec fn spec_phase(self) -> Phase {
        self.phase
    }

    pub closed spec fn spec_handle(self) -> Handle {
        self.handle
    }

    /// The handle is held exactly between a successful reserve and the release.
    pub open spec fn wf(self) -> bool {
        &&& self.spec_invocation() matches Invocation::Run(c) ==> c.wf()
        &&& (self.spec_phase() is Reserving || self.spec_phase() is Touching || self.spec_phase() is Releasing)
            ==> self.spec_invocation() is Run
        &&& self.spec_handle().wf()
        &&& (self.spec_phase() is Start || self.spec_phase() is Reserving || self.spec_phase() is Done) ==> !self.spec_handle().live
        &&& (self.spec_phase() is Touching || self.spec_phase() is Releasing) ==> {
            &&& self.spec_handle().live
            &&& self.spec_handle().size == self.spec_invocation()->Run_0.reserve_bytes
        }
        &&& self.spec_phase() is Touching ==> self.spec_handle().resident == 0 && !self.spec_handle().pinned
    }

    /// A driver at the start of an invocation, holding nothing.
    pub fn new(invocation: Invocation) -> (r: Driver)
        requires
            invocation matches Invocation::Run(c) ==> c.wf(),
        ensures
            r.wf(),
            r.spec_invocation() == invocation,
            r.spec_phase() == Phase::Start,
            r.spec_handle() == Handle::none(),
    {
        Driver {
            invocation,
            phase: Phase::Start,
            handle: Handle { live: false, size: 0, resident: 0, pinned: false },
        }
    }

    /// Where the lifecycle stands.
    pub fn phase(&self) -> (r: Phase)
        ensures
            r == self.spec_phase(),
    {
        self.phase
    }

    /// Runs one step: from the outcome of the operation that ended the last
    /// step (ignored at the start), the actions to perform now. The last of
    /// them is an operation whose outcome the next step takes, or `Finish`.
    pub fn advance(&mut self, succeeded: bool) -> (r: Vec<Action>)
        requires
            old(self).wf(),
        ensures
            final(self).wf(),
            final(self).spec_invocation() == old(self).spec_invocation(),
            r@ == step_actions(old(self).spec_invocation(), old(self).spec_phase(), succeeded),
            final(self).spec_phase() == next_phase(
                old(self).spec_invocation(),
                old(self).spec_phase(),
                succeeded,
            ),
            final(self).spec_handle() == next_handle(
                old(self).spec_invocation(),
                old(self).spec_handle(),
                old(self).spec_phase(),
                succeeded,
            ),
    {
        let mut r: Vec<Action> = Vec::new();
        match (self.phase, self.invocation) {
            (Phase::Start, Invocation::Query) => {
                r.push(Action::ShowReport);
                r.push(Action::Finish);
                self.phase = Phase::Done;
            },
            (Phase::Start, Invocation::Usage) => {
                r.push(Action::ShowUsage);
                r.push(Action::Finish);
                self.phase = Phase::Done;
            },
            (Phase::Start, Invocation::Run(c)) => {
                if c.verbose {
                    r.push(Action::ShowReport);
                }
                r.push(
                    Action::ShowSizes { reserve_bytes: c.reserve_bytes, touch_bytes: c.touch_bytes },
                );
                r.push(Action::ShowMode(c.strategy));
                r.push(Action::Reserve { strategy: c.strategy, bytes: c.reserve_bytes });
                self.phase = Phase::Reserving;
            },
            (Phase::Reserving, Invocation::Run(c)) => {
                if !succeeded {
                    r.push(Action::ReportFailure(Failure::Reserve));
                    r.push(Action::Finish);
                    self.phase = Phase::Done;
                } else {
                    if c.verbose {
                        r.push(Action::Announce(Checkpoint::Reserved));
                        r.push(Action::ShowReport);
                    }
                    if c.step {
                        r.push(Action::AwaitOperator);
                    }
                    if c.strategy == Strategy::HeapBufferDelayed {
                        r.push(Action::Delay { seconds: 2 });
                    }
                    let touch = match c.strategy {
                        Strategy::PinnedHeapBuffer => Action::Pin { bytes: c.touch_bytes },
                        Strategy::AnonymousMap => Action::Fill { bytes: c.touch_bytes, value: 1 },
                        _ => Action::Fill { bytes: c.touch_bytes, value: 0 },
                    };
                    r.push(touch);
                    self.handle = Handle {
                        live: true,
                        size: c.reserve_bytes,
                        resident: 0,
                        pinned: false,
                    };
                    self.phase = Phase::Touching;
                }
            },
            (Phase::Touching, Invocation::Run(c)) => {
                if !succeeded {
                    r.push(Action::ReportFailure(Failure::Touch));
                } else {
                    self.handle = Handle {
                        resident: c.touch_bytes,
                        pinned: c.strategy == Strategy::PinnedHeapBuffer,
                        ..self.handle
                    };
                }
                if c.verbose {
                    r.push(Action::Announce(Checkpoint::Touched));
                    r.push(Action::ShowReport);
                }
                r.push(Action::AwaitOperator);
                r.push(Action::Release);
                self.phase = Phase::Releasing;
            },
            (Phase::Releasing, Invocation::Run(c)) => {
                if !succeeded {
                    r.push(Action::ReportFailure(Failure::Release));
                }
                if c.verbose {
                    r.push(Action::Announce(Checkpoint::Released));
                    r.push(Action::ShowReport);
                }
                if c.step {
                    r.push(Action::AwaitOperator);
                }
                r.push(Action::Finish);
                self.handle = Handle { live: false, size: 0, resident: 0, pinned: false };
                self.phase = Phase::Done;
            },
            _ => {},
        }
        assert(r@ =~= step_actions(old(self).spec_invocation(), old(self).spec_phase(), succeeded));
        r
    }

    /// What is known of the region.
    pub fn handle(&self) -> (r: Handle)
        ensures
            r == self.spec_handle(),
    {
        self.handle
    }
}

/// All the actions of a run, given whether its reserve, its paging in and its
/// release succeeded.
pub open spec fn run_actions(c: Config, reserved: bool, touched: bool, released: bool) -> Seq<
    Action,
> {
    opening_actions(Invocation::Run(c)) + reserved_actions(c, reserved) + if reserved {
        touched_actions(c, touched) + released_actions(c, released)
    } else {
        seq![]
    }
}

/// The handle once a run has paged its region in.
pub open spec fn touched_handle(c: Config, touched: bool) -> Handle {
    let inv = Invocation::Run(c);
    next_handle(inv, next_handle(inv, Handle::none(), Phase::Reserving, true), Phase::Touching, touched)
}

/// The handle at the end of a run.
pub open spec fn final_handle(c: Config, reserved: bool, touched: bool, released: bool) -> Handle {
    let inv = Invocation::Run(c);
    if reserved {
        next_handle(inv, touched_handle(c, touched), Phase::Releasing, released)
    } else {
        next_handle(inv, Handle::none(), Phase::Reserving, false)
    }
}

/// Without a size to reserve, the program shows its usage and stops, whatever
/// the strategy: no allocation primitive is asked for.
pub proof fn lemma_no_reserve_shows_usage(o: Options, ok: bool)
    requires
        !o.query,
        o.init_size_mb == 0,
        strategy_named(o.alloc_type@) is Some,
    ensures
        resolved(o) == Ok::<Invocation, crate::config::ConfigError>(Invocation::Usage),
        step_actions(Invocation::Usage, Phase::Start, ok) == seq![Action::ShowUsage, Action::Finish],
        forall|i: int|
            0 <= i < step_actions(Invocation::Usage, Phase::Start, ok).len() ==> !is_allocation(
                #[trigger] step_actions(Invocation::Usage, Phase::Start, ok)[i],
            ),
        next_phase(Invocation::Usage, Phase::Start, ok) == Phase::Done,
{
}

/// A query shows one report and stops: no allocation primitive is asked for.
pub proof fn lemma_query_only_reports(o: Options, ok: bool)
    requires
        o.query,
        strategy_named(o.alloc_type@) is Some,
    ensures
        resolved(o) == Ok::<Invocation, crate::config::ConfigError>(Invocation::Query),
        step_actions(Invocation::Query, Phase::Start, ok) == seq![Action::ShowReport, Action::Finish],
        forall|i: int|
            0 <= i < step_actions(Invocation::Query, Phase::Start, ok).len() ==> !is_allocation(
                #[trigger] step_actions(Invocation::Query, Phase::Start, ok)[i],
            ),
        next_phase(Invocation::Query, Phase::Start, ok) == Phase::Done,
{
}

/// Whatever the strategy and whatever each operation reported, no region is
/// held or pinned once a run is over, and a region is pinned only while held.
pub proof fn lemma_pin_ends_with_handle(c: Config, reserved: bool, touched: bool, released: bool)
    requires
        c.wf(),
    ensures
        !final_handle(c, reserved, touched, released).live,
        !final_handle(c, reserved, touched, released).pinned,
        touched_handle(c, touched).pinned ==> touched_handle(c, touched).live,
        touched_handle(c, touched).wf(),
{
}

/// With nothing to page in, a run passes all three checkpoints and writes no byte.
pub proof fn lemma_zero_touch_writes_nothing(c: Config)
    requires
        c.wf(),
        c.touch_bytes == 0,
    ensures
        opening_actions(Invocation::Run(c)).last() == (Action::Reserve {
            strategy: c.strategy,
            bytes: c.reserve_bytes,
        }),
        reserved_actions(c, true).last() == touch_action(c),
        touched_actions(c, true).last() == Action::Release,
        released_actions(c, true).last() == Action::Finish,
        forall|i: int|
            0 <= i < run_actions(c, true, true, true).len() ==> {
                &&& #[trigger] run_actions(c, true, true, true)[i] matches Action::Fill {
                    bytes,
                    ..
                } ==> bytes == 0
                &&& run_actions(c, true, true, true)[i] matches Action::Pin { bytes } ==> bytes
                    == 0
                &&& !(run_actions(c, true, true, true)[i] is ReportFailure)
            },
        touched_handle(c, true).resident == 0,
{
    let s = run_actions(c, true, true, true);
    assert forall|i: int| 0 <= i < s.len() implies {
        &&& #[trigger] s[i] matches Action::Fill { bytes, .. } ==> bytes == 0
        &&& s[i] matches Action::Pin { bytes } ==> bytes == 0
        &&& !(s[i] is ReportFailure)
    } by {
        let a = opening_actions(Invocation::Run(c));
        let b = reserved_actions(c, true);
        let t = touched_actions(c, true);
        let r = released_actions(c, true);
        assert(s == a + b + (t + r));
        if i < a.len() {
            assert(s[i] == a[i]);
        } else if i < a.len() + b.len() {
            assert(s[i] == b[i - a.len()]);
        } else if i < a.len() + b.len() + t.len() {
            assert(s[i] == t[i - a.len() - b.len()]);
        } else {
            assert(s[i] == r[i - a.len() - b.len() - t.len()]);
        }
    }
}

/// Paging in as much as was reserved makes the whole region resident.
pub proof fn lemma_full_touch_pages_in_all(c: Config)
    requires
        c.wf(),
        c.touch_bytes == c.reserve_bytes,
    ensures
        touch_action(c) matches Action::Fill { bytes, .. } ==> bytes == c.reserve_bytes,
        touch_action(c) matches Action::Pin { bytes } ==> bytes == c.reserve_bytes,
        touched_handle(c, true).live,
        touched_handle(c, true).resident == touched_handle(c, true).size,
        touched_handle(c, true).size == c.reserve_bytes,
{
}

} // verus!
