//! The reconciliation state machine.
//!
//! Once per tick the loop asks the service directory about the target
//! service and decides: patch it, record it as already patched, note that an
//! outside hand stopped or deleted it, or do nothing.  The machine here owns
//! every one of those decisions; the surrounding binary only carries them
//! out.  Each call of [`step`] consumes one observed [`Event`] and returns
//! the next state together with the one [`Action`] the driver must perform
//! next.  Directory calls that fail with anything but "not found" are fatal:
//! the loop terminates and the process relies on outside supervision, as
//! does a launch command that cannot be split safely.

use vstd::prelude::*;

use crate::cmdline::{
    insert_flag_pair, patched_token_seq, split_command, split_tokens, token_views, CmdError,
};
use crate::policy::{
    exec_opt_flag, exec_opt_value, patch_marker, spec_exec_opt_flag, spec_exec_opt_value,
    spec_patch_marker, spec_target_service_name, target_service_name,
};

verus! {

/// Lifecycle state of a service, as the service directory reports it.
#[derive(Clone, Copy, PartialEq, Eq, Structural, Debug)]
pub enum ServiceState {
    Stopped,
    StartPending,
    StopPending,
    Running,
    ContinuePending,
    PausePending,
    Paused,
}

/// What one wait on the cancellation channel delivered.
#[derive(Clone, Copy, PartialEq, Eq, Structural, Debug)]
pub enum TickSignal {
    /// The stop signal arrived: leave the loop.
    Cancelled,
    /// The channel is severed; treated exactly like a stop signal, so the
    /// loop never spins on a dead channel.
    Disconnected,
    /// The tick period elapsed with no signal: reconcile once.
    Elapsed,
}

/// Outcome of opening the target service.
#[derive(Clone, Copy, PartialEq, Eq, Structural, Debug)]
pub enum OpenOutcome {
    /// The service exists and a handle was obtained.
    Opened,
    /// The service does not exist.  Expected, recoverable steady state —
    /// never an error.
    NotFound,
    /// Any other directory failure (access denied, unexpected error).
    Failed,
}

/// One entry of a service's dependency list.
#[derive(Clone, PartialEq, Eq, Debug)]
pub struct Dependency {
    /// Whether the entry names a load-order group rather than a service.
    pub is_group: bool,
    pub name: String,
}

/// A service's launch configuration, as read from the directory.
#[derive(Clone, PartialEq, Eq, Debug)]
pub struct ServiceConfig {
    pub display_name: String,
    pub service_type: u32,
    pub start_type: u32,
    pub error_control: u32,
    /// The full launch command: executable path, possibly quoted, possibly
    /// followed by arguments.
    pub launch_command: String,
    pub dependencies: Vec<Dependency>,
}

/// The replacement configuration a patch writes back.  A configuration is
/// only replaceable as a whole, so every field is here, the untouched ones
/// copied from the configuration that was read.
#[derive(Clone, PartialEq, Eq, Debug)]
pub struct PatchedConfig {
    pub name: String,
    pub display_name: String,
    pub service_type: u32,
    pub start_type: u32,
    pub error_control: u32,
    pub executable_path: String,
    pub launch_arguments: Vec<String>,
    pub dependencies: Vec<Dependency>,
    /// Always `None`: credentials are cleared so the service keeps its
    /// prior run-as identity.
    pub account_name: Option<String>,
    /// Always `None`, for the same reason.
    pub account_password: Option<String>,
}

/// Mathematical model of a dependency entry.
pub ghost struct DependencyModel {
    pub is_group: bool,
    pub name: Seq<char>,
}

/// Mathematical model of a read configuration.
#[verifier::ext_equal]
pub ghost struct ConfigModel {
    pub display_name: Seq<char>,
    pub service_type: u32,
    pub start_type: u32,
    pub error_control: u32,
    pub launch_command: Seq<char>,
    pub dependencies: Seq<DependencyModel>,
}

/// Mathematical model of a replacement configuration.
#[verifier::ext_equal]
pub ghost struct PlanModel {
    pub name: Seq<char>,
    pub display_name: Seq<char>,
    pub service_type: u32,
    pub start_type: u32,
    pub error_control: u32,
    pub executable_path: Seq<char>,
    pub launch_arguments: Seq<Seq<char>>,
    pub dependencies: Seq<DependencyModel>,
    pub account_name: Option<Seq<char>>,
    pub account_password: Option<Seq<char>>,
}

impl View for Dependency {
    type V = DependencyModel;

    open spec fn view(&self) -> DependencyModel {
        DependencyModel { is_group: self.is_group, name: self.name@ }
    }
}

impl View for ServiceConfig {
    type V = ConfigModel;

    open spec fn view(&self) -> ConfigModel {
        ConfigModel {
            display_name: self.display_name@,
            service_type: self.service_type,
            start_type: self.start_type,
            error_control: self.error_control,
            launch_command: self.launch_command@,
            dependencies: self.dependencies@.map_values(|d: Dependency| d@),
        }
    }
}

impl View for PatchedConfig {
    type V = PlanModel;

    open spec fn view(&self) -> PlanModel {
        PlanModel {
            name: self.name@,
            display_name: self.display_name@,
            service_type: self.service_type,
            start_type: self.start_type,
            error_control: self.error_control,
            executable_path: self.executable_path@,
            launch_arguments: token_views(self.launch_arguments@),
            dependencies: self.dependencies@.map_values(|d: Dependency| d@),
            account_name: match self.account_name {
                Some(ref s) => Some(s@),
                None => None,
            },
            account_password: match self.account_password {
                Some(ref s) => Some(s@),
                None => None,
            },
        }
    }
}

/// The replacement configuration owed to a read configuration: tokens of the
/// launch command with the flag/value pair inserted after the executable,
/// the display name set to the patch marker, credentials cleared, and every
/// other field copied through unchanged.
pub open spec fn spec_build_plan(cfg: ConfigModel) -> Result<PlanModel, CmdError> {
    match split_tokens(cfg.launch_command) {
        None => Err(CmdError::UnbalancedQuote),
        Some(toks) => {
            if toks.len() == 0 {
                Err(CmdError::EmptyCommand)
            } else {
                Ok(
                    PlanModel {
                        name: spec_target_service_name(),
                        display_name: spec_patch_marker(),
                        service_type: cfg.service_type,
                        start_type: cfg.start_type,
                        error_control: cfg.error_control,
                        executable_path: toks[0],
                        launch_arguments: seq![spec_exec_opt_flag(), spec_exec_opt_value()]
                            + toks.skip(1),
                        dependencies: cfg.dependencies,
                        account_name: None,
                        account_password: None,
                    },
                )
            }
        },
    }
}

/// Builds the replacement configuration for an unpatched target, or says
/// exactly why its launch command cannot be patched.
pub fn build_patched_config(cfg: ServiceConfig) -> (r: Result<PatchedConfig, CmdError>)
    ensures
        match r {
            Ok(p) => spec_build_plan(cfg@) == Ok::<PlanModel, CmdError>(p@),
            Err(e) => spec_build_plan(cfg@) == Err::<PlanModel, CmdError>(e),
        },
{
    let toks = match split_command(cfg.launch_command.as_str()) {
        Ok(toks) => toks,
        Err(e) => {
            return Err(e);
        },
    };
    if toks.len() == 0 {
        return Err(CmdError::EmptyCommand);
    }
    let ghost toks_view = token_views(toks@);
    let mut patched = insert_flag_pair(toks, exec_opt_flag(), exec_opt_value());
    let ghost patched_view = token_views(patched@);
    let ghost pre_remove = patched@;
    let executable_path = patched.remove(0);
    let launch_arguments = patched;
    let p = PatchedConfig {
        name: String::from_str(target_service_name()),
        display_name: String::from_str(patch_marker()),
        service_type: cfg.service_type,
        start_type: cfg.start_type,
        error_control: cfg.error_control,
        executable_path,
        launch_arguments,
        dependencies: cfg.dependencies,
        account_name: None,
        account_password: None,
    };
    proof {
        assert(p.executable_path@ == pre_remove[0]@ && pre_remove[0]@ == patched_view[0]);
        assert(patched_view[0] == toks_view[0]);
        assert(token_views(p.launch_arguments@) =~= patched_view.skip(1));
        assert(patched_view.skip(1) =~= seq![spec_exec_opt_flag(), spec_exec_opt_value()]
            + toks_view.skip(1));
        assert(spec_build_plan(cfg@) is Ok);
        assert(p@ =~= spec_build_plan(cfg@).unwrap());
    }
    Ok(p)
}

/// A fatal condition: the loop terminates and reports it, and the process
/// relies on outside supervision to be restarted.
#[derive(Clone, Copy, PartialEq, Eq, Structural, Debug)]
pub enum FatalError {
    /// A directory call failed with something other than "not found".
    Directory,
    /// The target's launch command cannot be patched safely.
    MalformedCommand(CmdError),
    /// The driver delivered an event the current phase cannot accept.
    UnexpectedEvent,
}

/// Where the machine stands inside one tick.
#[derive(Clone, PartialEq, Eq, Debug)]
pub enum Phase {
    /// Between ticks, waiting on the cancellation channel.
    Waiting,
    /// Asked the driver to open the target service.
    Opening,
    /// Asked for the target's status.
    CheckingStatus,
    /// Saw the target Running; asked for a debounce pause and a re-query.
    Debouncing,
    /// Still Running after the debounce; asked for the configuration.
    ReadingConfig,
    /// Asked the driver to stop the target; polling until it is Stopped.
    AwaitingStop { plan: PatchedConfig },
    /// Target stopped; asked the driver to write the replacement
    /// configuration.
    Applying,
    /// Configuration written; asked for the descriptive comment.
    SettingDescription,
    /// Description set; asked the driver to start the target again.
    Starting,
    /// Terminal: the loop has exited, cleanly or fatally.
    Finished,
}

/// The whole state of the reconciliation loop.
#[derive(Clone, PartialEq, Eq, Debug)]
pub struct LoopState {
    /// Whether this process believes it is the author of the target's
    /// current configuration.
    pub modified_by_us: bool,
    pub phase: Phase,
}

/// What the driver observed while carrying out the requested action.
#[derive(Clone, PartialEq, Eq, Debug)]
pub enum Event {
    /// Outcome of one wait on the cancellation channel.
    Tick(TickSignal),
    /// Outcome of opening the target service.
    Open(OpenOutcome),
    /// A successfully queried status.
    Status(ServiceState),
    /// The status query failed.
    StatusFailed,
    /// A successfully read configuration.
    Config(ServiceConfig),
    /// The configuration read failed.
    ConfigFailed,
    /// The replacement configuration was written.
    ConfigChanged,
    /// Writing the replacement configuration failed.
    ConfigChangeFailed,
    /// The descriptive comment was set.
    DescriptionSet,
    /// Setting the descriptive comment failed.
    DescriptionFailed,
    /// The target service was started.
    Started,
    /// Starting the target service failed.
    StartFailed,
}

/// What the driver must do next.
#[derive(Clone, PartialEq, Eq, Debug)]
pub enum Action {
    /// Wait one tick on the cancellation channel, then report the signal.
    AwaitTick,
    /// Open the target service with status, configuration and control
    /// access, then report the outcome.
    OpenTarget,
    /// Query the target's status, then report it.
    QueryStatus,
    /// Sleep the debounce pause, re-query the status, then report it.
    DebounceThenQueryStatus,
    /// Read the target's configuration, then report it.
    QueryConfig,
    /// Ask the target to stop — a refusal is of no consequence — then query
    /// its status and report it.
    StopThenQueryStatus,
    /// Sleep one stop-poll interval, query the status, then report it.
    PollStatusSoon,
    /// Write this replacement configuration, then report the outcome.
    ApplyConfig(PatchedConfig),
    /// Set the patched description on the target, then report the outcome.
    SetServiceDescription,
    /// Start the target service, then report the outcome.
    StartTarget,
    /// Leave the loop; the stop was requested and is acknowledged.
    ExitLoop,
    /// Leave the loop and report this fatal condition.
    Fail(FatalError),
}

/// Model of a phase.
#[verifier::ext_equal]
pub ghost enum PhaseModel {
    Waiting,
    Opening,
    CheckingStatus,
    Debouncing,
    ReadingConfig,
    AwaitingStop { plan: PlanModel },
    Applying,
    SettingDescription,
    Starting,
    Finished,
}

/// Model of the loop state.
#[verifier::ext_equal]
pub ghost struct StateModel {
    pub modified_by_us: bool,
    pub phase: PhaseModel,
}

/// Model of an observed event.
#[verifier::ext_equal]
pub ghost enum EventModel {
    Tick(TickSignal),
    Open(OpenOutcome),
    Status(ServiceState),
    StatusFailed,
    Config(ConfigModel),
    ConfigFailed,
    ConfigChanged,
    ConfigChangeFailed,
    DescriptionSet,
    DescriptionFailed,
    Started,
    StartFailed,
}

/// Model of a requested action.
#[verifier::ext_equal]
pub ghost enum ActionModel {
    AwaitTick,
    OpenTarget,
    QueryStatus,
    DebounceThenQueryStatus,
    QueryConfig,
    StopThenQueryStatus,
    PollStatusSoon,
    ApplyConfig(PlanModel),
    SetServiceDescription,
    StartTarget,
    ExitLoop,
    Fail(FatalError),
}

impl View for Phase {
    type V = PhaseModel;

    open spec fn view(&self) -> PhaseModel {
        match self {
            Phase::Waiting => PhaseModel::Waiting,
            Phase::Opening => PhaseModel::Opening,
            Phase::CheckingStatus => PhaseModel::CheckingStatus,
            Phase::Debouncing => PhaseModel::Debouncing,
            Phase::ReadingConfig => PhaseModel::ReadingConfig,
            Phase::AwaitingStop { plan } => PhaseModel::AwaitingStop { plan: plan@ },
            Phase::Applying => PhaseModel::Applying,
            Phase::SettingDescription => PhaseModel::SettingDescription,
            Phase::Starting => PhaseModel::Starting,
            Phase::Finished => PhaseModel::Finished,
        }
    }
}

impl View for LoopState {
    type V = StateModel;

    open spec fn view(&self) -> StateModel {
        StateModel { modified_by_us: self.modified_by_us, phase: self.phase@ }
    }
}

impl View for Event {
    type V = EventModel;

    open spec fn view(&self) -> EventModel {
        match self {
            Event::Tick(sig) => EventModel::Tick(*sig),
            Event::Open(out) => EventModel::Open(*out),
            Event::Status(s) => EventModel::Status(*s),
            Event::StatusFailed => EventModel::StatusFailed,
            Event::Config(cfg) => EventModel::Config(cfg@),
            Event::ConfigFailed => EventModel::ConfigFailed,
            Event::ConfigChanged => EventModel::ConfigChanged,
            Event::ConfigChangeFailed => EventModel::ConfigChangeFailed,
            Event::DescriptionSet => EventModel::DescriptionSet,
            Event::DescriptionFailed => EventModel::DescriptionFailed,
            Event::Started => EventModel::Started,
            Event::StartFailed => EventModel::StartFailed,
        }
    }
}

impl View for Action {
    type V = ActionModel;

    open spec fn view(&self) -> ActionModel {
        match self {
            Action::AwaitTick => ActionModel::AwaitTick,
            Action::OpenTarget => ActionModel::OpenTarget,
            Action::QueryStatus => ActionModel::QueryStatus,
            Action::DebounceThenQueryStatus => ActionModel::DebounceThenQueryStatus,
            Action::QueryConfig => ActionModel::QueryConfig,
            Action::StopThenQueryStatus => ActionModel::StopThenQueryStatus,
            Action::PollStatusSoon => ActionModel::PollStatusSoon,
            Action::ApplyConfig(plan) => ActionModel::ApplyConfig(plan@),
            Action::SetServiceDescription => ActionModel::SetServiceDescription,
            Action::StartTarget => ActionModel::StartTarget,
            Action::ExitLoop => ActionModel::ExitLoop,
            Action::Fail(e) => ActionModel::Fail(*e),
        }
    }
}

/// The loop's starting state: nothing patched yet, waiting for the first
/// tick.
pub open spec fn spec_initial_state() -> StateModel {
    StateModel { modified_by_us: false, phase: PhaseModel::Waiting }
}

/// The transition relation of the reconciliation loop, one observed event
/// at a time.
pub open spec fn spec_step(st: StateModel, ev: EventModel) -> (StateModel, ActionModel) {
    match (st.phase, ev) {
        (PhaseModel::Waiting, EventModel::Tick(sig)) => if sig is Elapsed {
            (
                StateModel { modified_by_us: st.modified_by_us, phase: PhaseModel::Opening },
                ActionModel::OpenTarget,
            )
        } else {
            // Cancellation, or a severed channel treated the same way.
            (
                StateModel { modified_by_us: st.modified_by_us, phase: PhaseModel::Finished },
                ActionModel::ExitLoop,
            )
        },
        (PhaseModel::Opening, EventModel::Open(out)) => match out {
            OpenOutcome::Opened => (
                StateModel { modified_by_us: st.modified_by_us, phase: PhaseModel::CheckingStatus },
                ActionModel::QueryStatus,
            ),
            // The installer deleted the target; a recreated instance must be
            // treated as unpatched.
            OpenOutcome::NotFound => (
                StateModel { modified_by_us: false, phase: PhaseModel::Waiting },
                ActionModel::AwaitTick,
            ),
            OpenOutcome::Failed => (
                StateModel { modified_by_us: st.modified_by_us, phase: PhaseModel::Finished },
                ActionModel::Fail(FatalError::Directory),
            ),
        },
        (PhaseModel::CheckingStatus, EventModel::Status(s)) => if !st.modified_by_us {
            if s is Running {
                // Candidate found; confirm it is not mid-transition first.
                (
                    StateModel { modified_by_us: st.modified_by_us, phase: PhaseModel::Debouncing },
                    ActionModel::DebounceThenQueryStatus,
                )
            } else {
                (
                    StateModel { modified_by_us: st.modified_by_us, phase: PhaseModel::Waiting },
                    ActionModel::AwaitTick,
                )
            }
        } else {
            if s is Stopped {
                // An outside hand stopped the patched service: re-evaluate it
                // as a candidate from the next tick on.
                (
                    StateModel { modified_by_us: false, phase: PhaseModel::Waiting },
                    ActionModel::AwaitTick,
                )
            } else {
                (
                    StateModel { modified_by_us: st.modified_by_us, phase: PhaseModel::Waiting },
                    ActionModel::AwaitTick,
                )
            }
        },
        (PhaseModel::Debouncing, EventModel::Status(s)) => if s is Running {
            (
                StateModel { modified_by_us: st.modified_by_us, phase: PhaseModel::ReadingConfig },
                ActionModel::QueryConfig,
            )
        } else {
            // Transient state: abandon the tick untouched.
            (
                StateModel { modified_by_us: st.modified_by_us, phase: PhaseModel::Waiting },
                ActionModel::AwaitTick,
            )
        },
        (PhaseModel::ReadingConfig, EventModel::Config(cfg)) => if cfg.display_name
            == spec_patch_marker() {
            // Already patched, e.g. by an earlier run of this process.
            (
                StateModel { modified_by_us: true, phase: PhaseModel::Waiting },
                ActionModel::AwaitTick,
            )
        } else {
            match spec_build_plan(cfg) {
                Err(e) => (
                    StateModel { modified_by_us: st.modified_by_us, phase: PhaseModel::Finished },
                    ActionModel::Fail(FatalError::MalformedCommand(e)),
                ),
                Ok(plan) => (
                    StateModel {
                        modified_by_us: st.modified_by_us,
                        phase: PhaseModel::AwaitingStop { plan },
                    },
                    ActionModel::StopThenQueryStatus,
                ),
            }
        },
        (PhaseModel::AwaitingStop { plan }, EventModel::Status(s)) => if s is Stopped {
            (
                StateModel { modified_by_us: st.modified_by_us, phase: PhaseModel::Applying },
                ActionModel::ApplyConfig(plan),
            )
        } else {
            (
                StateModel {
                    modified_by_us: st.modified_by_us,
                    phase: PhaseModel::AwaitingStop { plan },
                },
                ActionModel::PollStatusSoon,
            )
        },
        (PhaseModel::Applying, EventModel::ConfigChanged) => (
            StateModel { modified_by_us: st.modified_by_us, phase: PhaseModel::SettingDescription },
            ActionModel::SetServiceDescription,
        ),
        (PhaseModel::SettingDescription, EventModel::DescriptionSet) => (
            StateModel { modified_by_us: st.modified_by_us, phase: PhaseModel::Starting },
            ActionModel::StartTarget,
        ),
        (PhaseModel::Starting, EventModel::Started) => (
            StateModel { modified_by_us: true, phase: PhaseModel::Waiting },
            ActionModel::AwaitTick,
        ),
        (PhaseModel::CheckingStatus, EventModel::StatusFailed) => (
            StateModel { modified_by_us: st.modified_by_us, phase: PhaseModel::Finished },
            ActionModel::Fail(FatalError::Directory),
        ),
        (PhaseModel::Debouncing, EventModel::StatusFailed) => (
            StateModel { modified_by_us: st.modified_by_us, phase: PhaseModel::Finished },
            ActionModel::Fail(FatalError::Directory),
        ),
        (PhaseModel::AwaitingStop { .. }, EventModel::StatusFailed) => (
            StateModel { modified_by_us: st.modified_by_us, phase: PhaseModel::Finished },
            ActionModel::Fail(FatalError::Directory),
        ),
        (PhaseModel::ReadingConfig, EventModel::ConfigFailed) => (
            StateModel { modified_by_us: st.modified_by_us, phase: PhaseModel::Finished },
            ActionModel::Fail(FatalError::Directory),
        ),
        (PhaseModel::Applying, EventModel::ConfigChangeFailed) => (
            StateModel { modified_by_us: st.modified_by_us, phase: PhaseModel::Finished },
            ActionModel::Fail(FatalError::Directory),
        ),
        (PhaseModel::SettingDescription, EventModel::DescriptionFailed) => (
            StateModel { modified_by_us: st.modified_by_us, phase: PhaseModel::Finished },
            ActionModel::Fail(FatalError::Directory),
        ),
        (PhaseModel::Starting, EventModel::StartFailed) => (
            StateModel { modified_by_us: st.modified_by_us, phase: PhaseModel::Finished },
            ActionModel::Fail(FatalError::Directory),
        ),
        _ => (
            StateModel { modified_by_us: st.modified_by_us, phase: PhaseModel::Finished },
            ActionModel::Fail(FatalError::UnexpectedEvent),
        ),
    }
}

impl LoopState {
    /// The loop's starting state.  Its first action is [`Action::AwaitTick`].
    pub fn initial() -> (st: LoopState)
        ensures
            st@ == spec_initial_state(),
    {
        LoopState { modified_by_us: false, phase: Phase::Waiting }
    }
}

/// Performs one transition of the reconciliation loop: consumes the event
/// observed while carrying out the previous action and returns the next
/// state with the next action.
pub fn step(st: LoopState, ev: Event) -> (r: (LoopState, Action))
    ensures
        r.0@ == spec_step(st@, ev@).0,
        r.1@ == spec_step(st@, ev@).1,
{
    let modified_by_us = st.modified_by_us;
    match (st.phase, ev) {
        (Phase::Waiting, Event::Tick(sig)) => if sig == TickSignal::Elapsed {
            (LoopState { modified_by_us, phase: Phase::Opening }, Action::OpenTarget)
        } else {
            (LoopState { modified_by_us, phase: Phase::Finished }, Action::ExitLoop)
        },
        (Phase::Opening, Event::Open(out)) => match out {
            OpenOutcome::Opened => (
                LoopState { modified_by_us, phase: Phase::CheckingStatus },
                Action::QueryStatus,
            ),
            OpenOutcome::NotFound => (
                LoopState { modified_by_us: false, phase: Phase::Waiting },
                Action::AwaitTick,
            ),
            OpenOutcome::Failed => (
                LoopState { modified_by_us, phase: Phase::Finished },
                Action::Fail(FatalError::Directory),
            ),
        },
        (Phase::CheckingStatus, Event::Status(s)) => if !modified_by_us {
            if s == ServiceState::Running {
                (
                    LoopState { modified_by_us, phase: Phase::Debouncing },
                    Action::DebounceThenQueryStatus,
                )
            } else {
                (LoopState { modified_by_us, phase: Phase::Waiting }, Action::AwaitTick)
            }
        } else {
            if s == ServiceState::Stopped {
                (LoopState { modified_by_us: false, phase: Phase::Waiting }, Action::AwaitTick)
            } else {
                (LoopState { modified_by_us, phase: Phase::Waiting }, Action::AwaitTick)
            }
        },
        (Phase::Debouncing, Event::Status(s)) => if s == ServiceState::Running {
            (LoopState { modified_by_us, phase: Phase::ReadingConfig }, Action::QueryConfig)
        } else {
            (LoopState { modified_by_us, phase: Phase::Waiting }, Action::AwaitTick)
        },
        (Phase::ReadingConfig, Event::Config(cfg)) => if cfg.display_name == String::from_str(
            patch_marker(),
        ) {
            (LoopState { modified_by_us: true, phase: Phase::Waiting }, Action::AwaitTick)
        } else {
            match build_patched_config(cfg) {
                Err(e) => (
                    LoopState { modified_by_us, phase: Phase::Finished },
                    Action::Fail(FatalError::MalformedCommand(e)),
                ),
                Ok(plan) => (
                    LoopState { modified_by_us, phase: Phase::AwaitingStop { plan } },
                    Action::StopThenQueryStatus,
                ),
            }
        },
        (Phase::AwaitingStop { plan }, Event::Status(s)) => if s == ServiceState::Stopped {
            (LoopState { modified_by_us, phase: Phase::Applying }, Action::ApplyConfig(plan))
        } else {
            (
                LoopState { modified_by_us, phase: Phase::AwaitingStop { plan } },
                Action::PollStatusSoon,
            )
        },
        (Phase::Applying, Event::ConfigChanged) => (
            LoopState { modified_by_us, phase: Phase::SettingDescription },
            Action::SetServiceDescription,
        ),
        (Phase::SettingDescription, Event::DescriptionSet) => (
            LoopState { modified_by_us, phase: Phase::Starting },
            Action::StartTarget,
        ),
        (Phase::Starting, Event::Started) => (
            LoopState { modified_by_us: true, phase: Phase::Waiting },
            Action::AwaitTick,
        ),
        (Phase::CheckingStatus, Event::StatusFailed) => (
            LoopState { modified_by_us, phase: Phase::Finished },
            Action::Fail(FatalError::Directory),
        ),
        (Phase::Debouncing, Event::StatusFailed) => (
            LoopState { modified_by_us, phase: Phase::Finished },
            Action::Fail(FatalError::Directory),
        ),
        (Phase::AwaitingStop { .. }, Event::StatusFailed) => (
            LoopState { modified_by_us, phase: Phase::Finished },
            Action::Fail(FatalError::Directory),
        ),
        (Phase::ReadingConfig, Event::ConfigFailed) => (
            LoopState { modified_by_us, phase: Phase::Finished },
            Action::Fail(FatalError::Directory),
        ),
        (Phase::Applying, Event::ConfigChangeFailed) => (
            LoopState { modified_by_us, phase: Phase::Finished },
            Action::Fail(FatalError::Directory),
        ),
        (Phase::SettingDescription, Event::DescriptionFailed) => (
            LoopState { modified_by_us, phase: Phase::Finished },
            Action::Fail(FatalError::Directory),
        ),
        (Phase::Starting, Event::StartFailed) => (
            LoopState { modified_by_us, phase: Phase::Finished },
            Action::Fail(FatalError::Directory),
        ),
        _ => (
            LoopState { modified_by_us, phase: Phase::Finished },
            Action::Fail(FatalError::UnexpectedEvent),
        ),
    }
}

/// Law: patch detection is idempotent.  A configuration whose display name
/// already carries the patch marker is only recorded — the machine sets
/// `modified_by_us` and goes back to waiting, requesting no stop, no
/// configuration change and no start.
pub proof fn lemma_patch_detection_idempotent(st: StateModel, cfg: ConfigModel)
    requires
        st.phase is ReadingConfig,
        cfg.display_name == spec_patch_marker(),
    ensures
        spec_step(st, EventModel::Config(cfg)).0.modified_by_us,
        spec_step(st, EventModel::Config(cfg)).0.phase is Waiting,
        spec_step(st, EventModel::Config(cfg)).1 == ActionModel::AwaitTick,
{
}

/// Law: the debounce holds.  If the re-query after the debounce pause sees
/// any state other than Running, the tick is abandoned: the machine goes
/// back to waiting with its flag untouched, requesting no stop, no
/// configuration change and no start.
pub proof fn lemma_debounce_abandons_transients(st: StateModel, s: ServiceState)
    requires
        st.phase is Debouncing,
        s != ServiceState::Running,
    ensures
        spec_step(st, EventModel::Status(s)).0.modified_by_us == st.modified_by_us,
        spec_step(st, EventModel::Status(s)).0.phase is Waiting,
        spec_step(st, EventModel::Status(s)).1 == ActionModel::AwaitTick,
{
}

/// Law: a revert is detected.  When the machine believes it patched the
/// target and then sees it Stopped, it clears `modified_by_us`, so the next
/// tick evaluates the service as a patch candidate again; and indeed a later
/// status check in that cleared state treats a Running target as a
/// candidate, requesting the debounce.
pub proof fn lemma_revert_detected(st: StateModel)
    requires
        st.phase is CheckingStatus,
        st.modified_by_us,
    ensures
        !spec_step(st, EventModel::Status(ServiceState::Stopped)).0.modified_by_us,
        spec_step(st, EventModel::Status(ServiceState::Stopped)).0.phase is Waiting,
        spec_step(st, EventModel::Status(ServiceState::Stopped)).1 == ActionModel::AwaitTick,
        spec_step(
            StateModel { modified_by_us: false, phase: PhaseModel::CheckingStatus },
            EventModel::Status(ServiceState::Running),
        ).1 == ActionModel::DebounceThenQueryStatus,
{
}

/// Law: deletion recovers.  When the target cannot be opened because it is
/// absent, the machine clears `modified_by_us` and keeps ticking: no error
/// is raised, whatever the flag held before.
pub proof fn lemma_deletion_recovery(st: StateModel)
    requires
        st.phase is Opening,
    ensures
        !spec_step(st, EventModel::Open(OpenOutcome::NotFound)).0.modified_by_us,
        spec_step(st, EventModel::Open(OpenOutcome::NotFound)).0.phase is Waiting,
        spec_step(st, EventModel::Open(OpenOutcome::NotFound)).1 == ActionModel::AwaitTick,
{
}

/// Law: cancellation exits.  At any tick boundary, a stop signal — or a
/// severed channel — makes the loop exit at once, whatever
/// `modified_by_us` holds.
pub proof fn lemma_cancellation_exits(st: StateModel, sig: TickSignal)
    requires
        st.phase is Waiting,
        sig != TickSignal::Elapsed,
    ensures
        spec_step(st, EventModel::Tick(sig)).0.phase is Finished,
        spec_step(st, EventModel::Tick(sig)).1 == ActionModel::ExitLoop,
{
}

} // verus!
