use vstd::prelude::*;

verus! {

/// A status that the interception engine reports for one step.
#[derive(Clone, Copy, PartialEq, Eq, Structural, Debug)]
pub enum EngineStatus {
    Unknown,
    Success,
    AlreadyInitialized,
    NotInitialized,
    AlreadyCreated,
    NotCreated,
    Enabled,
    Disabled,
    NotExecutable,
    UnsupportedFunction,
    MemoryAlloc,
    MemoryProtect,
    ModuleNotFound,
    FunctionNotFound,
}

/// Why hook installation stopped.
#[derive(Clone, Copy, PartialEq, Eq, Structural, Debug)]
pub enum InstallError {
    /// The hook target's library or export could not be resolved.
    TargetNotFound,
    /// Engine initialization failed with the given status.
    EngineInit(EngineStatus),
    /// Creating the hook failed with the given status.
    HookCreation(EngineStatus),
    /// Queueing the hook for enabling failed with the given status.
    Enable(EngineStatus),
    /// Applying the queued hooks failed with the given status.
    Apply(EngineStatus),
    /// The trampoline could not be recorded for the capture shim.
    TrampolineRegistration,
    /// A step's outcome arrived when another step was due.
    OutOfOrder,
}

/// Where hook installation stands: each phase names the step that is due.
#[derive(Clone, Copy, PartialEq, Eq, Structural, Debug)]
pub enum Phase {
    Resolving,
    Initializing,
    Creating,
    Registering,
    Enabling,
    Applying,
    Active,
    Failed(InstallError),
}

/// The outcome of the step that was due.
#[derive(Clone, Copy, PartialEq, Eq, Structural, Debug)]
pub enum Event {
    /// Whether the hook target's address was found.
    TargetResolved(bool),
    /// The status that the engine reported.
    Status(EngineStatus),
    /// Whether the trampoline was recorded.
    TrampolineRegistered(bool),
}

/// The work that the phase asks the caller to perform next.
#[derive(Clone, Copy, PartialEq, Eq, Structural, Debug)]
pub enum Action {
    ResolveTarget,
    InitializeEngine,
    CreateHook,
    RegisterTrampoline,
    QueueEnable,
    ApplyQueued,
    Stop,
}

/// Engine initialization is idempotent: a repeated initialization is success.
pub open spec fn init_succeeded(s: EngineStatus) -> bool {
    s == EngineStatus::Success || s == EngineStatus::AlreadyInitialized
}

/// The phase that follows `phase` once `event` is known.
pub open spec fn step_spec(phase: Phase, event: Event) -> Phase {
    match (phase, event) {
        (Phase::Active, _) => Phase::Active,
        (Phase::Failed(e), _) => Phase::Failed(e),
        (Phase::Resolving, Event::TargetResolved(found)) => if found {
            Phase::Initializing
        } else {
            Phase::Failed(InstallError::TargetNotFound)
        },
        (Phase::Initializing, Event::Status(s)) => if init_succeeded(s) {
            Phase::Creating
        } else {
            Phase::Failed(InstallError::EngineInit(s))
        },
        (Phase::Creating, Event::Status(s)) => if s == EngineStatus::Success {
            Phase::Registering
        } else {
            Phase::Failed(InstallError::HookCreation(s))
        },
        (Phase::Registering, Event::TrampolineRegistered(ok)) => if ok {
            Phase::Enabling
        } else {
            Phase::Failed(InstallError::TrampolineRegistration)
        },
        (Phase::Enabling, Event::Status(s)) => if s == EngineStatus::Success {
            Phase::Applying
        } else {
            Phase::Failed(InstallError::Enable(s))
        },
        (Phase::Applying, Event::Status(s)) => if s == EngineStatus::Success {
            Phase::Active
        } else {
            Phase::Failed(InstallError::Apply(s))
        },
        _ => Phase::Failed(InstallError::OutOfOrder),
    }
}

/// The step that `phase` asks for.
pub open spec fn action_spec(phase: Phase) -> Action {
    match phase {
        Phase::Resolving => Action::ResolveTarget,
        Phase::Initializing => Action::InitializeEngine,
        Phase::Creating => Action::CreateHook,
        Phase::Registering => Action::RegisterTrampoline,
        Phase::Enabling => Action::QueueEnable,
        Phase::Applying => Action::ApplyQueued,
        _ => Action::Stop,
    }
}

/// The phase reached from `phase` after the outcomes `events`, in order.
pub open spec fn run(phase: Phase, events: Seq<Event>) -> Phase
    decreases events.len(),
{
    if events.len() == 0 {
        phase
    } else {
        run(step_spec(phase, events[0]), events.drop_first())
    }
}

/// The outcomes of a fully successful installation, where engine
/// initialization reported `init`.
pub open spec fn successful_outcomes(init: EngineStatus) -> Seq<Event> {
    seq![
        Event::TargetResolved(true),
        Event::Status(init),
        Event::Status(EngineStatus::Success),
        Event::TrampolineRegistered(true),
        Event::Status(EngineStatus::Success),
        Event::Status(EngineStatus::Success),
    ]
}

/// Whether an engine initialization status lets installation go on.
pub fn init_status_accepted(s: EngineStatus) -> (r: bool)
    ensures
        r == init_succeeded(s),
{
    match s {
        EngineStatus::Success | EngineStatus::AlreadyInitialized => true,
        _ => false,
    }
}

/// The step that `phase` asks the caller to perform.
pub fn next_action(phase: Phase) -> (r: Action)
    ensures
        r == action_spec(phase),
{
    match phase {
        Phase::Resolving => Action::ResolveTarget,
        Phase::Initializing => Action::InitializeEngine,
        Phase::Creating => Action::CreateHook,
        Phase::Registering => Action::RegisterTrampoline,
        Phase::Enabling => Action::QueueEnable,
        Phase::Applying => Action::ApplyQueued,
        _ => Action::Stop,
    }
}

/// Advances installation by the outcome of the step that was due. Any failure
/// is final, and an outcome of another step than the due one is a failure.
pub fn step(phase: Phase, event: Event) -> (r: Phase)
    ensures
        r == step_spec(phase, event),
{
    let ok = EngineStatus::Success;
    match (phase, event) {
        (Phase::Active, _) => Phase::Active,
        (Phase::Failed(e), _) => Phase::Failed(e),
        (Phase::Resolving, Event::TargetResolved(found)) => if found {
            Phase::Initializing
        } else {
            Phase::Failed(InstallError::TargetNotFound)
        },
        (Phase::Initializing, Event::Status(s)) => if init_status_accepted(s) {
            Phase::Creating
        } else {
            Phase::Failed(InstallError::EngineInit(s))
        },
        (Phase::Creating, Event::Status(s)) => if s == ok {
            Phase::Registering
        } else {
            Phase::Failed(InstallError::HookCreation(s))
        },
        (Phase::Registering, Event::TrampolineRegistered(recorded)) => if recorded {
            Phase::Enabling
        } else {
            Phase::Failed(InstallError::TrampolineRegistration)
        },
        (Phase::Enabling, Event::Status(s)) => if s == ok {
            Phase::Applying
        } else {
            Phase::Failed(InstallError::Enable(s))
        },
        (Phase::Applying, Event::Status(s)) => if s == ok {
            Phase::Active
        } else {
            Phase::Failed(InstallError::Apply(s))
        },
        _ => Phase::Failed(InstallError::OutOfOrder),
    }
}

/// Installation from its start through the outcomes `events`, in order.
pub fn run_outcomes(events: &Vec<Event>) -> (r: Phase)
    ensures
        r == run(Phase::Resolving, events@),
{
    let mut phase = Phase::Resolving;
    let mut i: usize = 0;
    assert(events@.subrange(0, events@.len() as int) == events@);
    while i < events.len()
        invariant
            i <= events@.len(),
            run(Phase::Resolving, events@) == run(phase, events@.subrange(i as int, events@.len() as int)),
        decreases events@.len() - i,
    {
        let ghost rest = events@.subrange(i as int, events@.len() as int);
        assert(rest[0] == events@[i as int]);
        assert(rest.drop_first() == events@.subrange(i + 1 as int, events@.len() as int));
        phase = step(phase, events[i]);
        i = i + 1;
    }
    phase
}

/// A failed installation stays failed, whatever outcomes follow.
pub proof fn lemma_failure_is_final(e: InstallError, events: Seq<Event>)
    ensures
        run(Phase::Failed(e), events) == Phase::Failed(e),
    decreases events.len(),
{
    if events.len() > 0 {
        lemma_failure_is_final(e, events.drop_first());
    }
}

/// Engine initialization may be requested twice: a first call that reports
/// success and a repeated one that reports "already initialized" both let
/// installation go on, and lead on to the same phase whatever follows.
pub proof fn lemma_init_idempotent(rest: Seq<Event>)
    ensures
        init_succeeded(EngineStatus::Success),
        init_succeeded(EngineStatus::AlreadyInitialized),
        run(Phase::Initializing, seq![Event::Status(EngineStatus::Success)] + rest)
            == run(Phase::Initializing, seq![Event::Status(EngineStatus::AlreadyInitialized)] + rest),
        run(Phase::Resolving, successful_outcomes(EngineStatus::Success)) == Phase::Active,
        run(Phase::Resolving, successful_outcomes(EngineStatus::AlreadyInitialized)) == Phase::Active,
{
    let a = seq![Event::Status(EngineStatus::Success)] + rest;
    let b = seq![Event::Status(EngineStatus::AlreadyInitialized)] + rest;
    assert(a.drop_first() == rest);
    assert(b.drop_first() == rest);
    reveal_with_fuel(run, 7);
}

/// When creating the hook fails, installation fails for good: no later
/// outcome activates the hook or registers a trampoline.
pub proof fn lemma_creation_failure_is_final(s: EngineStatus, rest: Seq<Event>)
    requires
        s != EngineStatus::Success,
    ensures
        run(Phase::Creating, seq![Event::Status(s)] + rest)
            == Phase::Failed(InstallError::HookCreation(s)),
{
    let evs = seq![Event::Status(s)] + rest;
    assert(evs.drop_first() == rest);
    lemma_failure_is_final(InstallError::HookCreation(s), rest);
}

/// One step of a run that ends with the hook active: the step's outcome is
/// there, and it neither fails nor leaves the run unable to end active.
proof fn lemma_active_run_step(p: Phase, events: Seq<Event>)
    requires
        run(p, events) == Phase::Active,
        p != Phase::Active,
    ensures
        events.len() > 0,
        run(step_spec(p, events[0]), events.drop_first()) == Phase::Active,
        !(step_spec(p, events[0]) is Failed),
{
    if events.len() > 0 {
        let q = step_spec(p, events[0]);
        if let Phase::Failed(e) = q {
            lemma_failure_is_final(e, events.drop_first());
        }
    }
}

/// The hook becomes active only through the whole protocol in its order:
/// the target resolved, the engine initialized (or found already so), the
/// hook created, its trampoline recorded, and only then queued and applied,
/// so the detour never goes live without a trampoline to call through.
pub proof fn lemma_active_needs_every_step(events: Seq<Event>)
    requires
        run(Phase::Resolving, events) == Phase::Active,
    ensures
        events.len() >= 6,
        events[0] == Event::TargetResolved(true),
        events[1] is Status && init_succeeded(events[1]->Status_0),
        events[2] == Event::Status(EngineStatus::Success),
        events[3] == Event::TrampolineRegistered(true),
        events[4] == Event::Status(EngineStatus::Success),
        events[5] == Event::Status(EngineStatus::Success),
{
    let e1 = events.drop_first();
    lemma_active_run_step(Phase::Resolving, events);
    let e2 = e1.drop_first();
    lemma_active_run_step(Phase::Initializing, e1);
    let e3 = e2.drop_first();
    lemma_active_run_step(Phase::Creating, e2);
    let e4 = e3.drop_first();
    lemma_active_run_step(Phase::Registering, e3);
    let e5 = e4.drop_first();
    lemma_active_run_step(Phase::Enabling, e4);
    lemma_active_run_step(Phase::Applying, e5);
    assert(e1[0] == events[1]);
    assert(e2[0] == events[2]);
    assert(e3[0] == events[3]);
    assert(e4[0] == events[4]);
    assert(e5[0] == events[5]);
}

/// A trampoline that cannot be recorded stops installation before the hook
/// is queued or applied: the target function is never patched.
pub proof fn lemma_registration_failure_leaves_target_unpatched(rest: Seq<Event>)
    ensures
        step_spec(Phase::Registering, Event::TrampolineRegistered(false))
            == Phase::Failed(InstallError::TrampolineRegistration),
        action_spec(Phase::Failed(InstallError::TrampolineRegistration)) == Action::Stop,
        run(Phase::Registering, seq![Event::TrampolineRegistered(false)] + rest)
            == Phase::Failed(InstallError::TrampolineRegistration),
{
    let evs = seq![Event::TrampolineRegistered(false)] + rest;
    assert(evs.drop_first() == rest);
    lemma_failure_is_final(InstallError::TrampolineRegistration, rest);
}

} // verus!
