use vstd::prelude::*;

verus! {

/// Outcome of one driver's one-time initialization.
#[derive(Clone, Copy, Debug, PartialEq, Eq, Structural)]
pub enum InitResult {
    Success,
    Failure,
}

/// States of the early-init stage.
///
/// `InitializingDriver(i)` and `HaltedOnError(i)` carry the index of the
/// driver being initialized, and of the driver that failed.
#[derive(Clone, Copy, Debug, PartialEq, Eq, Structural)]
pub enum BootState {
    NotStarted,
    InitializingDriver(usize),
    DriversReady,
    PostInitHook,
    HandoffToSteadyState,
    HaltedOnError(usize),
}

/// What the machine learns from the outside after it asked for an action.
#[derive(Clone, Copy, Debug, PartialEq, Eq, Structural)]
pub enum BootEvent {
    /// The requested action is done and returned nothing.
    Proceed,
    /// The driver whose initialization was requested returned this.
    DriverReturned(InitResult),
}

/// What the caller must do next on the machine's behalf.
#[derive(Clone, Copy, Debug, PartialEq, Eq, Structural)]
pub enum BootAction {
    /// Nothing outside; hand `BootEvent::Proceed` back.
    Proceed,
    /// Call `initialize()` on the driver at this index and hand back its result.
    InitDriver(usize),
    /// Run the board's post-init hook, if it has one, then hand back `Proceed`.
    RunPostInitHook,
    /// Early init is over: start the steady-state stage.
    EnterSteadyState,
    /// Emit a diagnostic naming the driver at this index and halt for good.
    Halt(usize),
}

/// The state that follows `s` on event `e`, for a collection of `n` drivers.
/// An event that does not fit the state leaves it as it is.
pub open spec fn next_state(n: nat, s: BootState, e: BootEvent) -> BootState {
    match (s, e) {
        (BootState::NotStarted, BootEvent::Proceed) => {
            if n == 0 {
                BootState::DriversReady
            } else {
                BootState::InitializingDriver(0)
            }
        },
        (BootState::InitializingDriver(i), BootEvent::DriverReturned(InitResult::Success)) => {
            if i + 1 < n {
                BootState::InitializingDriver((i + 1) as usize)
            } else {
                BootState::DriversReady
            }
        },
        (BootState::InitializingDriver(i), BootEvent::DriverReturned(InitResult::Failure)) => {
            BootState::HaltedOnError(i)
        },
        (BootState::DriversReady, BootEvent::Proceed) => BootState::PostInitHook,
        (BootState::PostInitHook, BootEvent::Proceed) => BootState::HandoffToSteadyState,
        _ => s,
    }
}

/// The action that state `s` asks of the caller.
pub open spec fn action_of(s: BootState) -> BootAction {
    match s {
        BootState::NotStarted => BootAction::Proceed,
        BootState::InitializingDriver(i) => BootAction::InitDriver(i),
        BootState::DriversReady => BootAction::Proceed,
        BootState::PostInitHook => BootAction::RunPostInitHook,
        BootState::HandoffToSteadyState => BootAction::EnterSteadyState,
        BootState::HaltedOnError(i) => BootAction::Halt(i),
    }
}

/// Whether early init has ended, in success or in failure.
pub open spec fn is_terminal(s: BootState) -> bool {
    s is HandoffToSteadyState || s is HaltedOnError
}

/// Steps still to take from `s` before a terminal state, on the success path.
pub open spec fn steps_left(n: nat, s: BootState) -> nat {
    match s {
        BootState::NotStarted => n + 3,
        BootState::InitializingDriver(i) => if i < n { (n - i + 2) as nat } else { 0 },
        BootState::DriversReady => 2,
        BootState::PostInitHook => 1,
        BootState::HandoffToSteadyState => 0,
        BootState::HaltedOnError(_) => 0,
    }
}

/// The early-init stage for a board with `driver_count` drivers.
#[derive(Clone, Copy, Debug, PartialEq, Eq, Structural)]
pub struct EarlyInit {
    pub driver_count: usize,
    pub state: BootState,
}

impl EarlyInit {
    /// Driver indices in the state always name a driver of the collection.
    pub open spec fn wf(&self) -> bool {
        match self.state {
            BootState::InitializingDriver(i) => i < self.driver_count,
            BootState::HaltedOnError(i) => i < self.driver_count,
            _ => true,
        }
    }

    pub fn new(driver_count: usize) -> (r: EarlyInit)
        ensures
            r.driver_count == driver_count,
            r.state == BootState::NotStarted,
            r.wf(),
    {
        EarlyInit { driver_count, state: BootState::NotStarted }
    }

    /// The action the current state asks of the caller.
    pub fn action(&self) -> (r: BootAction)
        ensures
            r == action_of(self.state),
    {
        match self.state {
            BootState::NotStarted => BootAction::Proceed,
            BootState::InitializingDriver(i) => BootAction::InitDriver(i),
            BootState::DriversReady => BootAction::Proceed,
            BootState::PostInitHook => BootAction::RunPostInitHook,
            BootState::HandoffToSteadyState => BootAction::EnterSteadyState,
            BootState::HaltedOnError(i) => BootAction::Halt(i),
        }
    }

    /// Takes the transition for event `e`.
    pub fn step(&mut self, e: BootEvent)
        requires
            old(self).wf(),
        ensures
            final(self).driver_count == old(self).driver_count,
            final(self).state == next_state(old(self).driver_count as nat, old(self).state, e),
            final(self).wf(),
    {
        let n = self.driver_count;
        let next = match (self.state, e) {
            (BootState::NotStarted, BootEvent::Proceed) => {
                if n == 0 {
                    BootState::DriversReady
                } else {
                    BootState::InitializingDriver(0)
                }
            },
            (BootState::InitializingDriver(i), BootEvent::DriverReturned(InitResult::Success)) => {
                if i + 1 < n {
                    BootState::InitializingDriver(i + 1)
                } else {
                    BootState::DriversReady
                }
            },
            (BootState::InitializingDriver(i), BootEvent::DriverReturned(InitResult::Failure)) => {
                BootState::HaltedOnError(i)
            },
            (BootState::DriversReady, BootEvent::Proceed) => BootState::PostInitHook,
            (BootState::PostInitHook, BootEvent::Proceed) => BootState::HandoffToSteadyState,
            _ => self.state,
        };
        self.state = next;
    }
}

/// The indices `0, 1, ..., k - 1`, in that order.
pub open spec fn indices_upto(k: int) -> Seq<usize> {
    Seq::new(k as nat, |j: int| j as usize)
}

/// Whether each of the first `k` outcomes is a success.
pub open spec fn succeed_before(outcomes: Seq<InitResult>, k: int) -> bool {
    forall|j: int| 0 <= j < k ==> #[trigger] outcomes[j] is Success
}

/// A whole run of early init: which drivers were initialized, in which
/// order, how often the post-init hook ran, and the state it ended in.
#[derive(Debug)]
pub struct BootReport {
    pub invoked: Vec<usize>,
    pub hook_runs: usize,
    pub state: BootState,
}

/// What a run has done by the time it is in state `s`.
pub open spec fn run_so_far(
    n: nat,
    outcomes: Seq<InitResult>,
    s: BootState,
    invoked: Seq<usize>,
    hook_runs: nat,
) -> bool {
    match s {
        BootState::NotStarted => invoked.len() == 0 && hook_runs == 0,
        BootState::InitializingDriver(i) => {
            invoked == indices_upto(i as int) && succeed_before(outcomes, i as int) && hook_runs
                == 0
        },
        BootState::DriversReady => {
            invoked == indices_upto(n as int) && succeed_before(outcomes, n as int) && hook_runs == 0
        },
        BootState::PostInitHook => {
            invoked == indices_upto(n as int) && succeed_before(outcomes, n as int) && hook_runs == 0
        },
        BootState::HandoffToSteadyState => {
            invoked == indices_upto(n as int) && succeed_before(outcomes, n as int) && hook_runs == 1
        },
        BootState::HaltedOnError(i) => {
            invoked == indices_upto(i + 1) && succeed_before(outcomes, i as int)
                && outcomes[i as int] is Failure && hook_runs == 0
        },
    }
}

/// Runs early init to its end over a board whose driver `i` returns
/// `outcomes[i]` when initialized.
///
/// Drivers are initialized one at a time in index order, and none after the
/// first that fails. On a failure at `k` the run halts naming `k` and the
/// post-init hook never runs; when all succeed the hook runs exactly once and
/// the run hands off to the steady-state stage.
pub fn run_early_init(outcomes: &Vec<InitResult>) -> (r: BootReport)
    ensures
        is_terminal(r.state),
        r.state is HandoffToSteadyState <==> succeed_before(outcomes@, outcomes@.len() as int),
        r.state is HandoffToSteadyState ==> r.invoked@ == indices_upto(outcomes@.len() as int)
            && r.hook_runs == 1,
        forall|k: usize|
            r.state == BootState::HaltedOnError(k) ==> {
                &&& k < outcomes@.len()
                &&& outcomes@[k as int] is Failure
                &&& succeed_before(outcomes@, k as int)
                &&& r.invoked@ == indices_upto(k + 1)
                &&& r.hook_runs == 0
            },
{
    let n = outcomes.len();
    let mut machine = EarlyInit::new(n);
    let mut invoked: Vec<usize> = Vec::new();
    let mut hook_runs: usize = 0;
    loop
        invariant
            machine.wf(),
            machine.driver_count == n,
            n == outcomes@.len(),
            run_so_far(n as nat, outcomes@, machine.state, invoked@, hook_runs as nat),
        ensures
            is_terminal(machine.state),
            run_so_far(n as nat, outcomes@, machine.state, invoked@, hook_runs as nat),
        decreases steps_left(n as nat, machine.state),
    {
        match machine.action() {
            BootAction::Proceed => {
                machine.step(BootEvent::Proceed);
                proof {
                    if invoked@.len() == 0 {
                        assert(indices_upto(0) =~= invoked@);
                    }
                }
            },
            BootAction::InitDriver(i) => {
                let ghost before = invoked@;
                invoked.push(i);
                let outcome = outcomes[i];
                machine.step(BootEvent::DriverReturned(outcome));
                proof {
                    assert(invoked@ =~= indices_upto(i + 1)) by {
                        assert(before =~= indices_upto(i as int));
                    }
                    if outcome is Success {
                        assert(succeed_before(outcomes@, i + 1)) by {
                            assert forall|j: int| 0 <= j < i + 1 implies #[trigger] outcomes@[j] is Success by {
                                if j < i {
                                    assert(succeed_before(outcomes@, i as int));
                                }
                            }
                        }
                    }
                }
            },
            BootAction::RunPostInitHook => {
                hook_runs = hook_runs + 1;
                machine.step(BootEvent::Proceed);
            },
            BootAction::EnterSteadyState => {
                break;
            },
            BootAction::Halt(_) => {
                break;
            },
        }
    }
    proof {
        if machine.state is HaltedOnError {
            assert(!succeed_before(outcomes@, n as int));
        }
    }
    BootReport { invoked, hook_runs, state: machine.state }
}

} // verus!
