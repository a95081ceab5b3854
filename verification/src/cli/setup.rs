//! The course of a setup: what to do next, given what came of the last step.
use vstd::prelude::*;

use crate::cli::auto_setup::{action_for, any_failed, decide_profile_action, finalize_profile,
    is_active_after, merged, profile_to_validate, same_profile, seed_report,
    seeds_reported, settle, settled, setup_report, AutoSetupReport, DaemonState, ProfileAction,
    ProfileFieldDiff, SetupFailure, SetupStep};
use crate::cli::error::{CliError, DaemonFailure};
use crate::error::CoreError;
use crate::types::{Identity, Profile, SeededChannelOutcome};

verus! {

/// A profile that the provider accepted, and what has to be done with it.
pub struct Accepted {
    pub profile: Profile,
    pub identity: Identity,
    pub step: SetupStep,
}

/// How far a setup has come.
pub enum SetupState {
    /// The environment is read.
    Begun,
    /// A stored profile of the same name is looked for.
    Loading { desired: Profile },
    /// The provider is asked.
    Validating { action: ProfileAction, profile: Profile, existing: Option<Profile> },
    /// The profile is stored.
    Storing { accepted: Accepted },
    /// A daemon that holds the old profile is stopped.
    Stopping { accepted: Accepted },
    /// The profile is made the active one, or the active one is looked up.
    Marking { accepted: Accepted },
    /// A daemon is looked for or started.
    Starting { accepted: Accepted, is_active: bool },
    /// The cursors are seeded.
    Seeding { accepted: Accepted, is_active: bool, daemon_state: DaemonState },
    Ended,
}

/// What came of a step.
pub enum SetupEvent {
    /// The profile that the environment describes.
    Environment(Result<Profile, CliError>),
    /// The stored profile of the same name.
    Found(Result<Option<Profile>, CoreError>),
    /// Who the token belongs to, once the team was found accessible too.
    Validated(Result<Identity, CliError>),
    Stored(Result<(), CliError>),
    Stopped(Result<(), CliError>),
    /// The active profile, where it was looked up.
    Marked(Result<Option<String>, CliError>),
    Daemon(Result<DaemonState, CliError>),
    Seeds(Result<Vec<SeededChannelOutcome>, DaemonFailure>),
}

/// What to do next.
pub enum SetupAction {
    /// Look for the stored profile of the same name.
    Load,
    /// Ask the provider who the token belongs to, and whether the team is accessible.
    Validate,
    Store,
    StopDaemon,
    /// Make the profile the active one.
    Mark,
    /// Look up the active profile.
    ReadMarker,
    EnsureDaemon,
    Seed,
    /// It succeeded.
    Report(AutoSetupReport),
    Refuse(SetupFailure),
    /// The stored profile belongs to another identity.
    RefuseDrift(Vec<ProfileFieldDiff>),
    Fail(CliError),
}

/// A state with what to do in it.
pub struct SetupMove {
    pub state: SetupState,
    pub action: SetupAction,
}

/// The event is one that the state waits for.
pub open spec fn awaited(state: SetupState, event: SetupEvent) -> bool {
    match state {
        SetupState::Begun => event is Environment,
        SetupState::Loading { .. } => event is Found,
        SetupState::Validating { action, existing, .. } => event is Validated && !(
        action is IdentityDrift) && (action is Reuse ==> existing is Some),
        SetupState::Storing { .. } => event is Stored,
        SetupState::Stopping { .. } => event is Stopped,
        SetupState::Marking { .. } => event is Marked,
        SetupState::Starting { .. } => event is Daemon,
        SetupState::Seeding { .. } => event is Seeds,
        SetupState::Ended => false,
    }
}

/// The setup is over, for this reason.
pub open spec fn ends(m: SetupMove, action: SetupAction) -> bool {
    m.state is Ended && m.action == action
}

/// The profile becomes the active one, unless it was asked not to.
pub open spec fn goes_on_to_mark(m: SetupMove, accepted: Accepted, no_activate: bool) -> bool {
    m.state == (SetupState::Marking { accepted }) && (if no_activate {
        m.action is ReadMarker
    } else {
        m.action is Mark
    })
}

/// What has to be done with a stored profile is decided, and the provider is asked
/// about what will be used.
pub open spec fn goes_on_to_validate(
    m: SetupMove,
    desired: Profile,
    existing: Option<Profile>,
) -> bool {
    m.action is Validate && (m.state matches SetupState::Validating {
        action,
        profile,
        existing: kept,
    } && kept == existing && action_for(desired, existing, action) && match action {
        ProfileAction::Create => profile == desired,
        ProfileAction::Refresh(_) => merged(desired, existing->0, profile),
        ProfileAction::Reuse => same_profile(profile, existing->0),
        ProfileAction::IdentityDrift(_) => false,
    })
}

/// A refused identity ends the setup.
pub open spec fn ends_in_drift(m: SetupMove, desired: Profile, existing: Option<Profile>) -> bool {
    m.state is Ended && (m.action matches SetupAction::RefuseDrift(diff) && action_for(
        desired,
        existing,
        ProfileAction::IdentityDrift(diff),
    ))
}

/// The accepted profile that a state carries.
pub open spec fn carried(state: SetupState) -> Option<Accepted> {
    match state {
        SetupState::Storing { accepted } => Some(accepted),
        SetupState::Stopping { accepted } => Some(accepted),
        SetupState::Marking { accepted } => Some(accepted),
        SetupState::Starting { accepted, .. } => Some(accepted),
        SetupState::Seeding { accepted, .. } => Some(accepted),
        _ => None,
    }
}

/// What follows once the provider accepted the profile.
pub open spec fn goes_on_accepted(
    m: SetupMove,
    action: ProfileAction,
    profile: Profile,
    existing: Option<Profile>,
    identity: Identity,
    no_activate: bool,
) -> bool {
    carried(m.state) matches Some(accepted) && {
        &&& accepted.profile == (Profile { bot_username: identity.username, ..profile })
        &&& accepted.identity == identity
        &&& settled(action, existing, accepted.profile, accepted.step)
        &&& if accepted.step.store {
            m.state is Storing && m.action is Store
        } else {
            goes_on_to_mark(m, accepted, no_activate)
        }
    }
}

/// `m` is what follows an event.
pub open spec fn moves(
    no_activate: bool,
    state: SetupState,
    event: SetupEvent,
    m: SetupMove,
) -> bool {
    match (state, event) {
        (SetupState::Begun, SetupEvent::Environment(Ok(desired))) => m == (SetupMove {
            state: SetupState::Loading { desired },
            action: SetupAction::Load,
        }),
        (SetupState::Begun, SetupEvent::Environment(Err(e))) => ends(
            m,
            SetupAction::Refuse(SetupFailure::EnvInput(e)),
        ),
        (SetupState::Loading { desired }, SetupEvent::Found(Ok(existing))) => {
            goes_on_to_validate(m, desired, existing) || ends_in_drift(m, desired, existing)
        },
        (SetupState::Loading { .. }, SetupEvent::Found(Err(e))) => ends(
            m,
            SetupAction::Fail(CliError::Core(e)),
        ),
        (
            SetupState::Validating { action, profile, existing },
            SetupEvent::Validated(Ok(identity)),
        ) => goes_on_accepted(m, action, profile, existing, identity, no_activate),
        (SetupState::Validating { .. }, SetupEvent::Validated(Err(e))) => ends(
            m,
            SetupAction::Refuse(SetupFailure::Preflight(e)),
        ),
        (SetupState::Storing { accepted }, SetupEvent::Stored(Ok(_))) => {
            if accepted.step.stop_daemon {
                m.state == (SetupState::Stopping { accepted }) && m.action is StopDaemon
            } else {
                goes_on_to_mark(m, accepted, no_activate)
            }
        },
        (SetupState::Storing { .. }, SetupEvent::Stored(Err(e))) => ends(m, SetupAction::Fail(e)),
        (SetupState::Stopping { accepted }, SetupEvent::Stopped(Ok(_))) => goes_on_to_mark(
            m,
            accepted,
            no_activate,
        ),
        (SetupState::Stopping { .. }, SetupEvent::Stopped(Err(e))) => ends(
            m,
            SetupAction::Refuse(SetupFailure::RefreshStop(e)),
        ),
        (SetupState::Marking { accepted }, SetupEvent::Marked(Ok(marker))) => {
            m.action is EnsureDaemon && m.state == (SetupState::Starting {
                accepted,
                is_active: !no_activate || (marker matches Some(name) && name@
                    == accepted.profile.name@),
            })
        },
        (SetupState::Marking { .. }, SetupEvent::Marked(Err(e))) => ends(m, SetupAction::Fail(e)),
        (SetupState::Starting { accepted, is_active }, SetupEvent::Daemon(Ok(daemon_state))) => {
            m.action is Seed && m.state == (SetupState::Seeding {
                accepted,
                is_active,
                daemon_state,
            })
        },
        (SetupState::Starting { .. }, SetupEvent::Daemon(Err(e))) => ends(
            m,
            SetupAction::Refuse(SetupFailure::DaemonStart(e)),
        ),
        (
            SetupState::Seeding { accepted, is_active, daemon_state },
            SetupEvent::Seeds(answer),
        ) => {
            m.state is Ended && match answer {
                Err(DaemonFailure::NotRunning(_)) => m.action == SetupAction::Refuse(
                    SetupFailure::DaemonUnreachable,
                ),
                _ => m.action matches SetupAction::Report(report) && reports(
                    report,
                    accepted,
                    is_active,
                    daemon_state,
                    answer,
                ),
            }
        },
        _ => false,
    }
}

/// `report` tells of a setup that succeeded.
pub open spec fn reports(
    report: AutoSetupReport,
    accepted: Accepted,
    is_active: bool,
    daemon_state: DaemonState,
    answer: Result<Vec<SeededChannelOutcome>, DaemonFailure>,
) -> bool {
    &&& report.profile_name == accepted.profile.name
    &&& report.bot_username == accepted.profile.bot_username
    &&& report.profile_state == accepted.step.state
    &&& report.daemon_state == daemon_state
    &&& report.is_active == is_active
    &&& report.refresh_diff == accepted.step.diff
    &&& seeds_reported(answer, report.seed_outcomes@)
    &&& report.degraded == any_failed(report.seed_outcomes@)
}

fn go_on_to_mark(accepted: Accepted, no_activate: bool) -> (m: SetupMove)
    ensures
        goes_on_to_mark(m, accepted, no_activate),
{
    SetupMove {
        state: SetupState::Marking { accepted },
        action: if no_activate {
            SetupAction::ReadMarker
        } else {
            SetupAction::Mark
        },
    }
}

fn end(action: SetupAction) -> (m: SetupMove)
    ensures
        ends(m, action),
{
    SetupMove { state: SetupState::Ended, action }
}

/// Goes on with an event. `no_activate` says that the profile must not become the
/// active one.
pub fn handle_auto_setup(no_activate: bool, state: SetupState, event: SetupEvent) -> (m: SetupMove)
    requires
        awaited(state, event),
    ensures
        moves(no_activate, state, event, m),
{
    match (state, event) {
        (SetupState::Begun, SetupEvent::Environment(Ok(desired))) => SetupMove {
            state: SetupState::Loading { desired },
            action: SetupAction::Load,
        },
        (SetupState::Begun, SetupEvent::Environment(Err(e))) => end(
            SetupAction::Refuse(SetupFailure::EnvInput(e)),
        ),
        (SetupState::Loading { desired }, SetupEvent::Found(Ok(existing))) => {
            let action = decide_profile_action(&desired, existing.as_ref());
            match profile_to_validate(&action, desired, existing.as_ref()) {
                Some(profile) => SetupMove {
                    state: SetupState::Validating { action, profile, existing },
                    action: SetupAction::Validate,
                },
                None => match action {
                    ProfileAction::IdentityDrift(diff) => end(SetupAction::RefuseDrift(diff)),
                    _ => end(SetupAction::Validate),
                },
            }
        },
        (SetupState::Loading { .. }, SetupEvent::Found(Err(e))) => end(
            SetupAction::Fail(CliError::Core(e)),
        ),
        (
            SetupState::Validating { action, profile, existing },
            SetupEvent::Validated(Ok(identity)),
        ) => {
            let profile = finalize_profile(profile, &identity);
            let step = settle(action, existing.as_ref(), &profile);
            let store = step.store;
            let accepted = Accepted { profile, identity, step };
            if store {
                SetupMove { state: SetupState::Storing { accepted }, action: SetupAction::Store }
            } else {
                go_on_to_mark(accepted, no_activate)
            }
        },
        (SetupState::Validating { .. }, SetupEvent::Validated(Err(e))) => end(
            SetupAction::Refuse(SetupFailure::Preflight(e)),
        ),
        (SetupState::Storing { accepted }, SetupEvent::Stored(Ok(_))) => {
            if accepted.step.stop_daemon {
                SetupMove {
                    state: SetupState::Stopping { accepted },
                    action: SetupAction::StopDaemon,
                }
            } else {
                go_on_to_mark(accepted, no_activate)
            }
        },
        (SetupState::Storing { .. }, SetupEvent::Stored(Err(e))) => end(SetupAction::Fail(e)),
        (SetupState::Stopping { accepted }, SetupEvent::Stopped(Ok(_))) => go_on_to_mark(
            accepted,
            no_activate,
        ),
        (SetupState::Stopping { .. }, SetupEvent::Stopped(Err(e))) => end(
            SetupAction::Refuse(SetupFailure::RefreshStop(e)),
        ),
        (SetupState::Marking { accepted }, SetupEvent::Marked(Ok(marker))) => {
            let is_active = match &marker {
                Some(name) => is_active_after(
                    no_activate,
                    Some(name.as_str()),
                    accepted.profile.name.as_str(),
                ),
                None => is_active_after(no_activate, None, accepted.profile.name.as_str()),
            };
            SetupMove {
                state: SetupState::Starting { accepted, is_active },
                action: SetupAction::EnsureDaemon,
            }
        },
        (SetupState::Marking { .. }, SetupEvent::Marked(Err(e))) => end(SetupAction::Fail(e)),
        (SetupState::Starting { accepted, is_active }, SetupEvent::Daemon(Ok(daemon_state))) => {
            SetupMove {
                state: SetupState::Seeding { accepted, is_active, daemon_state },
                action: SetupAction::Seed,
            }
        },
        (SetupState::Starting { .. }, SetupEvent::Daemon(Err(e))) => end(
            SetupAction::Refuse(SetupFailure::DaemonStart(e)),
        ),
        (
            SetupState::Seeding { accepted, is_active, daemon_state },
            SetupEvent::Seeds(answer),
        ) => match seed_report(answer) {
            Ok(outcomes) => end(
                SetupAction::Report(
                    setup_report(
                        &accepted.profile,
                        accepted.step,
                        daemon_state,
                        is_active,
                        outcomes,
                    ),
                ),
            ),
            Err(failure) => end(SetupAction::Refuse(failure)),
        },
        _ => {
            proof {
                assert(false);
            }
            end(SetupAction::Load)
        },
    }
}

/// Nothing is stored, marked, started or reported before the provider accepted the
/// token: only its answer leads past that point, and only from beyond it is a success
/// reported.
pub proof fn success_needs_an_accepted_token(
    no_activate: bool,
    state: SetupState,
    event: SetupEvent,
    m: SetupMove,
)
    requires
        moves(no_activate, state, event, m),
    ensures
        carried(m.state) is Some ==> carried(state) is Some || (event matches SetupEvent::Validated(
            answer,
        ) && answer is Ok),
        m.action is Store || m.action is StopDaemon || m.action is Mark || m.action is EnsureDaemon
            || m.action is Seed ==> carried(m.state) is Some,
        m.action is Report ==> carried(state) is Some,
{
}

/// How many steps are left at most.
pub open spec fn steps_left(state: SetupState) -> nat {
    match state {
        SetupState::Begun => 8,
        SetupState::Loading { .. } => 7,
        SetupState::Validating { .. } => 6,
        SetupState::Storing { .. } => 5,
        SetupState::Stopping { .. } => 4,
        SetupState::Marking { .. } => 3,
        SetupState::Starting { .. } => 2,
        SetupState::Seeding { .. } => 1,
        SetupState::Ended => 0,
    }
}

/// A setup comes to an end: each event brings it nearer.
pub proof fn setup_ends(no_activate: bool, state: SetupState, event: SetupEvent, m: SetupMove)
    requires
        moves(no_activate, state, event, m),
    ensures
        steps_left(m.state) < steps_left(state),
{
}

/// A setup can always go on: a state that it comes to waits for an event of one sort,
/// whatever that brings.
pub proof fn setup_goes_on(no_activate: bool, state: SetupState, event: SetupEvent, m: SetupMove)
    requires
        moves(no_activate, state, event, m),
    ensures
        m.state matches SetupState::Validating { action, existing, .. } ==> !(
        action is IdentityDrift) && (action is Reuse ==> existing is Some),
{
}

/// A setup goes on step by step: the environment, the stored profile, the token, storing,
/// stopping, marking, the daemon, the seeds.
pub proof fn setup_takes_its_steps_in_turn(
    no_activate: bool,
    state: SetupState,
    event: SetupEvent,
    m: SetupMove,
)
    requires
        moves(no_activate, state, event, m),
    ensures
        m.action is Load <==> m.state is Loading,
        m.action is Validate <==> m.state is Validating,
        m.action is Store <==> m.state is Storing,
        m.action is StopDaemon <==> m.state is Stopping,
        m.action is Mark || m.action is ReadMarker <==> m.state is Marking,
        m.action is Mark ==> !no_activate,
        m.action is ReadMarker ==> no_activate,
        m.action is EnsureDaemon <==> m.state is Starting,
        m.action is Seed <==> m.state is Seeding,
        m.action is Report || m.action is Refuse || m.action is RefuseDrift || m.action is Fail
            <==> m.state is Ended,
{
}

/// What fails ends the setup, as a failure of the step that it was.
pub proof fn failed_steps_end_the_setup(
    no_activate: bool,
    state: SetupState,
    event: SetupEvent,
    m: SetupMove,
)
    requires
        moves(no_activate, state, event, m),
    ensures
        event matches SetupEvent::Environment(Err(e)) ==> m.action == SetupAction::Refuse(
            SetupFailure::EnvInput(e),
        ),
        event matches SetupEvent::Found(Err(e)) ==> m.action == SetupAction::Fail(CliError::Core(e)),
        event matches SetupEvent::Validated(Err(e)) ==> m.action == SetupAction::Refuse(
            SetupFailure::Preflight(e),
        ),
        event matches SetupEvent::Stored(Err(e)) ==> m.action == SetupAction::Fail(e),
        event matches SetupEvent::Stopped(Err(e)) ==> m.action == SetupAction::Refuse(
            SetupFailure::RefreshStop(e),
        ),
        event matches SetupEvent::Marked(Err(e)) ==> m.action == SetupAction::Fail(e),
        event matches SetupEvent::Daemon(Err(e)) ==> m.action == SetupAction::Refuse(
            SetupFailure::DaemonStart(e),
        ),
        event matches SetupEvent::Seeds(Err(DaemonFailure::NotRunning(_))) ==> m.action
            == SetupAction::Refuse(SetupFailure::DaemonUnreachable),
        event matches SetupEvent::Seeds(Ok(_)) ==> m.action is Report,
{
}

/// A stored profile with another role, scope, server or team is refused; nothing is stored.
pub proof fn drifted_profiles_are_refused(
    no_activate: bool,
    desired: Profile,
    existing: Option<Profile>,
    m: SetupMove,
)
    requires
        moves(no_activate, SetupState::Loading { desired }, SetupEvent::Found(Ok(existing)), m),
    ensures
        m.action is RefuseDrift <==> existing is Some && (existing->0.role@ != desired.role@
            || existing->0.scope@ != desired.scope@ || existing->0.server_url@ != desired.server_url@
            || existing->0.team_name@ != desired.team_name@),
        !(m.action is RefuseDrift) ==> m.action is Validate,
        existing is None ==> (m.state matches SetupState::Validating { action, profile, .. }
            && action is Create && profile == desired),
{
    if existing is Some {
        match m.state {
            SetupState::Validating { action, .. } => {
                crate::cli::auto_setup::drift_and_refresh(desired, existing->0, action);
            },
            _ => {
                match m.action {
                    SetupAction::RefuseDrift(diff) => {
                        crate::cli::auto_setup::drift_and_refresh(
                            desired,
                            existing->0,
                            ProfileAction::IdentityDrift(diff),
                        );
                    },
                    _ => {},
                }
            },
        }
    }
}

/// A profile goes on under the name that its token belongs to.
pub proof fn accepted_profiles_are_of_their_bot(
    no_activate: bool,
    action: ProfileAction,
    profile: Profile,
    existing: Option<Profile>,
    identity: Identity,
    m: SetupMove,
)
    requires
        moves(
            no_activate,
            SetupState::Validating { action, profile, existing },
            SetupEvent::Validated(Ok(identity)),
            m,
        ),
    ensures
        carried(m.state) matches Some(a) && a.profile.bot_username == identity.username
            && a.profile.name == profile.name && a.profile.server_url == profile.server_url
            && a.identity == identity,
        action is Create || action is Refresh ==> m.action is Store,
        action is Reuse && existing->0.bot_username@ == identity.username@ ==> !(m.action is Store),
{
}

/// What was accepted is carried on unchanged to the report.
pub proof fn accepted_profiles_are_carried_on(
    no_activate: bool,
    state: SetupState,
    event: SetupEvent,
    m: SetupMove,
)
    requires
        moves(no_activate, state, event, m),
        carried(state) is Some,
    ensures
        carried(m.state) is Some ==> carried(m.state) == carried(state),
        m.action matches SetupAction::Report(report) ==> report.profile_name
            == carried(state)->0.profile.name && report.bot_username
            == carried(state)->0.profile.bot_username && report.refresh_diff
            == carried(state)->0.step.diff && report.profile_state == carried(state)->0.step.state,
        m.action is StopDaemon ==> carried(state)->0.step.stop_daemon,
        state is Storing && event is Stored && event->Stored_0 is Ok ==> (m.action is StopDaemon
            <==> carried(state)->0.step.stop_daemon),
{
}

/// A profile is active after a setup unless that was not wanted, and then only where it was.
pub proof fn profiles_become_active(
    no_activate: bool,
    accepted: Accepted,
    marker: Option<String>,
    m: SetupMove,
)
    requires
        moves(no_activate, SetupState::Marking { accepted }, SetupEvent::Marked(Ok(marker)), m),
    ensures
        m.state matches SetupState::Starting { is_active, .. } && (is_active <==> !no_activate || (
        marker is Some && marker->0@ == accepted.profile.name@)),
{
}

} // verus!
