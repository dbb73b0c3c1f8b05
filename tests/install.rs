use xinput_viewer::install::{
    init_status_accepted, next_action, run_outcomes, step, Action, EngineStatus, Event,
    InstallError, Phase,
};
use xinput_viewer::snapshot::GamepadSnapshot;
use xinput_viewer::store::StateStore;

fn outcomes(init: EngineStatus) -> Vec<Event> {
    vec![
        Event::TargetResolved(true),
        Event::Status(init),
        Event::Status(EngineStatus::Success),
        Event::TrampolineRegistered(true),
        Event::Status(EngineStatus::Success),
        Event::Status(EngineStatus::Success),
    ]
}

#[test]
fn full_protocol_activates_hook() {
    assert_eq!(run_outcomes(&outcomes(EngineStatus::Success)), Phase::Active);
}

#[test]
fn already_initialized_engine_still_installs() {
    assert!(init_status_accepted(EngineStatus::Success));
    assert!(init_status_accepted(EngineStatus::AlreadyInitialized));
    assert_eq!(run_outcomes(&outcomes(EngineStatus::AlreadyInitialized)), Phase::Active);
}

#[test]
fn init_twice_leads_to_same_phase() {
    let first = step(Phase::Initializing, Event::Status(EngineStatus::Success));
    let second = step(Phase::Initializing, Event::Status(EngineStatus::AlreadyInitialized));
    assert_eq!(first, Phase::Creating);
    assert_eq!(second, Phase::Creating);
}

#[test]
fn allocation_failure_in_init_aborts() {
    let evs = vec![Event::TargetResolved(true), Event::Status(EngineStatus::MemoryAlloc)];
    assert_eq!(run_outcomes(&evs), Phase::Failed(InstallError::EngineInit(EngineStatus::MemoryAlloc)));
    assert!(!init_status_accepted(EngineStatus::MemoryAlloc));
    assert!(!init_status_accepted(EngineStatus::Unknown));
}

#[test]
fn creation_failure_leaves_feature_inactive() {
    let evs = vec![
        Event::TargetResolved(true),
        Event::Status(EngineStatus::Success),
        Event::Status(EngineStatus::AlreadyCreated),
        Event::TrampolineRegistered(true),
        Event::Status(EngineStatus::Success),
        Event::Status(EngineStatus::Success),
    ];
    let phase = run_outcomes(&evs);
    assert_eq!(phase, Phase::Failed(InstallError::HookCreation(EngineStatus::AlreadyCreated)));
    assert_eq!(next_action(phase), Action::Stop);
    let store = StateStore::new();
    assert_eq!(store.read(), GamepadSnapshot::zeroed());
}

#[test]
fn each_step_failure_is_reported() {
    assert_eq!(step(Phase::Resolving, Event::TargetResolved(false)), Phase::Failed(InstallError::TargetNotFound));
    assert_eq!(
        step(Phase::Enabling, Event::Status(EngineStatus::NotCreated)),
        Phase::Failed(InstallError::Enable(EngineStatus::NotCreated))
    );
    assert_eq!(
        step(Phase::Applying, Event::Status(EngineStatus::MemoryProtect)),
        Phase::Failed(InstallError::Apply(EngineStatus::MemoryProtect))
    );
    assert_eq!(
        step(Phase::Registering, Event::TrampolineRegistered(false)),
        Phase::Failed(InstallError::TrampolineRegistration)
    );
}

#[test]
fn trampoline_is_recorded_before_enable_and_apply() {
    assert_eq!(step(Phase::Creating, Event::Status(EngineStatus::Success)), Phase::Registering);
    assert_eq!(step(Phase::Registering, Event::TrampolineRegistered(true)), Phase::Enabling);
    assert_eq!(step(Phase::Applying, Event::Status(EngineStatus::Success)), Phase::Active);
    assert_eq!(
        step(Phase::Enabling, Event::TrampolineRegistered(true)),
        Phase::Failed(InstallError::OutOfOrder)
    );
}

#[test]
fn registration_failure_stops_before_patching() {
    let evs = vec![
        Event::TargetResolved(true),
        Event::Status(EngineStatus::Success),
        Event::Status(EngineStatus::Success),
        Event::TrampolineRegistered(false),
        Event::Status(EngineStatus::Success),
        Event::Status(EngineStatus::Success),
    ];
    let phase = run_outcomes(&evs);
    assert_eq!(phase, Phase::Failed(InstallError::TrampolineRegistration));
    assert_eq!(next_action(phase), Action::Stop);
}

#[test]
fn reordered_steps_fail() {
    assert_eq!(
        step(Phase::Resolving, Event::Status(EngineStatus::Success)),
        Phase::Failed(InstallError::OutOfOrder)
    );
    assert_eq!(
        step(Phase::Creating, Event::TrampolineRegistered(true)),
        Phase::Failed(InstallError::OutOfOrder)
    );
    let skipped = vec![Event::TargetResolved(true), Event::TrampolineRegistered(true)];
    assert_eq!(run_outcomes(&skipped), Phase::Failed(InstallError::OutOfOrder));
}

#[test]
fn active_hook_stays_active() {
    assert_eq!(step(Phase::Active, Event::TargetResolved(false)), Phase::Active);
    assert_eq!(next_action(Phase::Active), Action::Stop);
}

#[test]
fn actions_follow_protocol_order() {
    assert_eq!(next_action(Phase::Resolving), Action::ResolveTarget);
    assert_eq!(next_action(Phase::Initializing), Action::InitializeEngine);
    assert_eq!(next_action(Phase::Creating), Action::CreateHook);
    assert_eq!(next_action(Phase::Registering), Action::RegisterTrampoline);
    assert_eq!(next_action(Phase::Enabling), Action::QueueEnable);
    assert_eq!(next_action(Phase::Applying), Action::ApplyQueued);
}
