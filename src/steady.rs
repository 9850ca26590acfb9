use vstd::prelude::*;
use crate::timer::{Duration, Timer, NANOS_PER_SEC};

verus! {

/// Length of the short smoke-test wait, in nanoseconds.
pub const SMOKE_WAIT_NANOS: u64 = 1;

/// Length of the wait between two status lines, in seconds.
pub const STATUS_PERIOD_SECS: u64 = 1;

/// One line that the kernel emits on its console.
#[derive(Clone, Debug, PartialEq, Eq)]
pub enum Emission {
    /// The board identity.
    BootingOn(String),
    /// The timer resolution, in nanoseconds.
    TimerResolution(u64),
    /// The heading of the driver inventory.
    DriversLoaded,
    /// One driver of the inventory: its 1-based index and its identity.
    DriverEntry(usize, String),
    /// The status line of the steady-state loop, naming the wait that follows.
    Spinning(Duration),
    /// The diagnostic of a failed driver, naming its identity.
    DriverLoadError(String),
}

/// The inventory lines for drivers with identities `ids`, in order.
pub open spec fn inventory_of(ids: Seq<String>) -> Seq<Emission> {
    Seq::new(ids.len(), |k: int| Emission::DriverEntry((k + 1) as usize, ids[k]))
}

/// The lines the steady-state stage emits before its first wait.
pub open spec fn prelude_of(board: String, resolution_ns: u64, ids: Seq<String>) -> Seq<Emission> {
    seq![
        Emission::BootingOn(board),
        Emission::TimerResolution(resolution_ns),
        Emission::DriversLoaded,
    ] + inventory_of(ids)
}

/// Lists each driver with its 1-based index, keeping the collection's order.
pub fn driver_inventory(ids: &Vec<String>) -> (r: Vec<Emission>)
    requires
        ids@.len() < usize::MAX,
    ensures
        r@ == inventory_of(ids@),
{
    let mut r: Vec<Emission> = Vec::new();
    let mut k: usize = 0;
    while k < ids.len()
        invariant
            k <= ids@.len() < usize::MAX,
            r@ == inventory_of(ids@).take(k as int),
        decreases ids@.len() - k,
    {
        r.push(Emission::DriverEntry(k + 1, ids[k].clone()));
        k = k + 1;
        proof {
            assert(r@ =~= inventory_of(ids@).take(k as int));
        }
    }
    proof {
        assert(r@ =~= inventory_of(ids@));
    }
    r
}

/// The opening lines of the steady-state stage: board identity, timer
/// resolution in nanoseconds, then the driver inventory.
pub fn steady_prelude(board: &String, timer: &Timer, ids: &Vec<String>) -> (r: Vec<Emission>)
    requires
        ids@.len() < usize::MAX,
    ensures
        r@ == prelude_of(*board, timer.resolution_ns, ids@),
{
    let mut r: Vec<Emission> = Vec::new();
    r.push(Emission::BootingOn(board.clone()));
    r.push(Emission::TimerResolution(timer.resolution().as_nanos()));
    r.push(Emission::DriversLoaded);
    let mut inventory = driver_inventory(ids);
    r.append(&mut inventory);
    proof {
        assert(r@ =~= prelude_of(*board, timer.resolution_ns, ids@));
    }
    r
}

/// The diagnostic emitted before halting on the failure of driver `k`.
pub fn failure_diagnostic(ids: &Vec<String>, k: usize) -> (r: Emission)
    requires
        k < ids@.len(),
    ensures
        r == Emission::DriverLoadError(ids@[k as int]),
{
    Emission::DriverLoadError(ids[k].clone())
}

/// Phases of the steady-state stage. `Status` and `Wait` alternate forever.
#[derive(Clone, Copy, Debug, PartialEq, Eq, Structural)]
pub enum SteadyPhase {
    Prelude,
    SmokeWait,
    Status,
    Wait,
}

/// What the caller must do in a phase of the steady-state stage.
#[derive(Clone, Copy, Debug, PartialEq, Eq, Structural)]
pub enum SteadyAction {
    /// Emit the lines of `steady_prelude`.
    EmitPrelude,
    /// Emit the status line naming the wait that follows.
    EmitStatus(Duration),
    /// Block on the timer for this long.
    SpinFor(Duration),
}

/// The wait between two status lines.
pub open spec fn status_period() -> Duration {
    Duration { nanos: (STATUS_PERIOD_SECS * NANOS_PER_SEC) as u64 }
}

pub open spec fn next_phase(p: SteadyPhase) -> SteadyPhase {
    match p {
        SteadyPhase::Prelude => SteadyPhase::SmokeWait,
        SteadyPhase::SmokeWait => SteadyPhase::Status,
        SteadyPhase::Status => SteadyPhase::Wait,
        SteadyPhase::Wait => SteadyPhase::Status,
    }
}

pub open spec fn steady_action_of(p: SteadyPhase) -> SteadyAction {
    match p {
        SteadyPhase::Prelude => SteadyAction::EmitPrelude,
        SteadyPhase::SmokeWait => SteadyAction::SpinFor(Duration { nanos: SMOKE_WAIT_NANOS }),
        SteadyPhase::Status => SteadyAction::EmitStatus(status_period()),
        SteadyPhase::Wait => SteadyAction::SpinFor(status_period()),
    }
}

/// The phase reached from `p` after `k` steps.
pub open spec fn phase_after(p: SteadyPhase, k: nat) -> SteadyPhase
    decreases k,
{
    if k == 0 {
        p
    } else {
        phase_after(next_phase(p), (k - 1) as nat)
    }
}

/// Whether `p` lies in the unbounded status loop.
pub open spec fn in_loop(p: SteadyPhase) -> bool {
    p is Status || p is Wait
}

/// The steady-state stage, reached once early init has handed off.
#[derive(Clone, Copy, Debug, PartialEq, Eq, Structural)]
pub struct SteadyState {
    pub phase: SteadyPhase,
}

impl SteadyState {
    pub fn new() -> (r: SteadyState)
        ensures
            r.phase == SteadyPhase::Prelude,
    {
        SteadyState { phase: SteadyPhase::Prelude }
    }

    /// The action the current phase asks of the caller.
    pub fn action(&self) -> (r: SteadyAction)
        ensures
            r == steady_action_of(self.phase),
    {
        match self.phase {
            SteadyPhase::Prelude => SteadyAction::EmitPrelude,
            SteadyPhase::SmokeWait => SteadyAction::SpinFor(Duration::from_nanos(SMOKE_WAIT_NANOS)),
            SteadyPhase::Status => SteadyAction::EmitStatus(Duration::from_secs(STATUS_PERIOD_SECS)),
            SteadyPhase::Wait => SteadyAction::SpinFor(Duration::from_secs(STATUS_PERIOD_SECS)),
        }
    }

    /// Moves on once the current action is done.
    pub fn step(&mut self)
        ensures
            final(self).phase == next_phase(old(self).phase),
    {
        self.phase = match self.phase {
            SteadyPhase::Prelude => SteadyPhase::SmokeWait,
            SteadyPhase::SmokeWait => SteadyPhase::Status,
            SteadyPhase::Status => SteadyPhase::Wait,
            SteadyPhase::Wait => SteadyPhase::Status,
        };
    }
}

/// The stage enters its status loop after the prelude and the smoke wait.
pub proof fn lemma_loop_is_entered()
    ensures
        phase_after(SteadyPhase::Prelude, 2) == SteadyPhase::Status,
{
    reveal_with_fuel(phase_after, 3);
}

/// Once in the status loop the stage stays in it for any number of steps:
/// it has no terminal phase, and every action it asks for is a status line
/// or a wait of the fixed period.
pub proof fn lemma_loop_never_ends(p: SteadyPhase, k: nat)
    requires
        in_loop(p),
    ensures
        in_loop(phase_after(p, k)),
        steady_action_of(phase_after(p, k)) == SteadyAction::EmitStatus(status_period())
            || steady_action_of(phase_after(p, k)) == SteadyAction::SpinFor(status_period()),
    decreases k,
{
    if k > 0 {
        lemma_loop_never_ends(next_phase(p), (k - 1) as nat);
    }
}

} // verus!
