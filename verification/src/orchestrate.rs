//! The activation orchestrator: the per-item plan (addresses, command lines,
//! password plumbing) and the state machine that drives the activate / wait /
//! confirm handshake with magic rollback. The machine is pure: the caller
//! performs each returned action (spawning SSH children, awaiting exits) and
//! feeds the observed outcome back as the next event.

use vstd::prelude::*;

use crate::command::activate_tail_view;
use crate::command::build_activate_command;
use crate::command::build_confirm_command;
use crate::command::build_revoke_command;
use crate::command::build_wait_command;
use crate::command::revoke_tail_view;
use crate::command::RevokeCommandData;
use crate::command::confirm_command_spec;
use crate::command::lock_path_spec;
use crate::command::make_lock_path;
use crate::command::profile_selector_spec;
use crate::command::sudo_prefix_spec;
use crate::command::wait_tail_view;
use crate::command::ActivateCommandData;
use crate::command::WaitCommandData;
use crate::data::clone_opt_string;
use crate::data::clone_vec_string;
use crate::data::opt_view;
use crate::data::profile_user_view;
use crate::data::sudo_stdin_payload;
use crate::data::sudo_stdin_view;
use crate::data::DeployData;
use crate::data::DeployDataDefsError;
use crate::data::DeployDefs;
use crate::data::SettingsView;

verus! {

/// Failure of the confirmation step; the target rolls back on its own.
#[derive(Debug, PartialEq, Eq)]
pub enum ConfirmProfileError {
    SSHConfirm(String),
    SSHConfirmExit(Option<i32>),
}

/// Failure of the activation handshake for one work item.
#[derive(Debug, PartialEq, Eq)]
pub enum DeployProfileError {
    SSHSpawnActivate(String),
    SSHActivate(String),
    SSHActivateExit(Option<i32>),
    SSHActivateTimeout(String),
    SSHWait(String),
    SSHWaitExit(Option<i32>),
    SSHActivatePipe(String),
    Confirm(ConfirmProfileError),
    InvalidDeployDataDefs(DeployDataDefsError),
}

/// The effective temporary path: the merged setting, defaulted to `/tmp`.
pub open spec fn eff_temp_path(m: SettingsView) -> Seq<char> {
    match m.temp_path {
        Some(t) => t,
        None => "/tmp"@,
    }
}

/// The effective confirm timeout in seconds, defaulted to 30.
pub open spec fn eff_confirm_timeout(m: SettingsView) -> u16 {
    match m.confirm_timeout {
        Some(t) => t,
        None => 30,
    }
}

/// The effective magic-rollback flag, defaulted to true.
pub open spec fn eff_magic_rollback(m: SettingsView) -> bool {
    match m.magic_rollback {
        Some(b) => b,
        None => true,
    }
}

/// The effective auto-rollback flag, defaulted to true.
pub open spec fn eff_auto_rollback(m: SettingsView) -> bool {
    match m.auto_rollback {
        Some(b) => b,
        None => true,
    }
}

/// The hostname the SSH connections use: the command-line override wins over
/// the descriptor.
pub open spec fn eff_hostname(d: DeployData) -> Seq<char> {
    match opt_view(d.hostname_override) {
        Some(h) => h,
        None => d.hostname@,
    }
}

/// The profile selector of a work item: its configured profile path, or the
/// derived (profile user, profile name) pair.
pub open spec fn data_selector_view(d: DeployData) -> Seq<char> {
    match opt_view(d.profile_path) {
        Some(p) => "--profile-path '"@ + p + "'"@,
        None => "--profile-user "@ + profile_user_view(d.merged_settings@).unwrap()
            + " --profile-name "@ + d.profile_name@,
    }
}

/// The effective ssh options: the merged list, or none.
pub open spec fn eff_ssh_opts(m: SettingsView) -> Seq<Seq<char>> {
    match m.ssh_opts {
        Some(o) => o,
        None => Seq::<Seq<char>>::empty(),
    }
}

/// Everything the caller needs to run one work item's activation: the SSH
/// address and options, the three command lines, the lock path, which path of
/// the state machine applies, and the password plumbing.
pub struct ActivationPlan {
    pub ssh_addr: String,
    pub ssh_opts: Vec<String>,
    pub activate_cmd: String,
    pub wait_cmd: String,
    pub confirm_cmd: String,
    pub lock_path: String,
    pub magic: bool,
    pub feed_sudo: bool,
    pub stdin_payload: String,
}

/// Computes the activation plan of one work item: the exact command lines of
/// the handshake, the SSH address, and whether the magic-rollback path runs.
/// Fails exactly when no profile selector can be derived.
pub fn make_activation_plan(
    data: &DeployData,
    defs: &DeployDefs,
    dry_activate: bool,
    boot: bool,
) -> (r: Result<ActivationPlan, DeployDataDefsError>)
    ensures
        match r {
            Ok(plan) => {
                &&& plan.ssh_addr@ == defs.ssh_user@ + "@"@ + eff_hostname(*data)
                &&& plan.ssh_opts.deep_view() == eff_ssh_opts(data.merged_settings@)
                &&& plan.activate_cmd@ == sudo_prefix_spec(opt_view(defs.sudo))
                    + activate_tail_view(
                    data.closure@,
                    data_selector_view(*data),
                    eff_temp_path(data.merged_settings@),
                    eff_confirm_timeout(data.merged_settings@) as nat,
                    eff_magic_rollback(data.merged_settings@),
                    eff_auto_rollback(data.merged_settings@),
                    dry_activate,
                    boot,
                    data.debug_logs,
                    opt_view(data.log_dir),
                )
                &&& plan.wait_cmd@ == sudo_prefix_spec(opt_view(defs.sudo)) + wait_tail_view(
                    data.closure@,
                    eff_temp_path(data.merged_settings@),
                    data.merged_settings@.activation_timeout,
                    data.debug_logs,
                    opt_view(data.log_dir),
                )
                &&& plan.lock_path@ == lock_path_spec(
                    eff_temp_path(data.merged_settings@),
                    data.closure@,
                )
                &&& plan.confirm_cmd@ == confirm_command_spec(
                    opt_view(defs.sudo),
                    lock_path_spec(eff_temp_path(data.merged_settings@), data.closure@),
                )
                &&& plan.magic == (eff_magic_rollback(data.merged_settings@) && !dry_activate
                    && !boot)
                &&& plan.feed_sudo == (data.merged_settings@.interactive_sudo == Some(true)
                    || data.merged_settings@.sudo_secret is Some)
                &&& plan.stdin_payload@ == sudo_stdin_view(opt_view(defs.sudo_password))
            },
            Err(e) => {
                &&& data.profile_path is None
                &&& profile_user_view(data.merged_settings@) is None
                &&& e matches DeployDataDefsError::NoProfileUser(n, p) && n@ == data.node_name@
                    && p@ == data.profile_name@
            },
        },
{
    let profile_info = match data.get_profile_info() {
        Ok(info) => info,
        Err(e) => {
            return Err(e);
        },
    };
    proof {
        assert(profile_selector_spec(profile_info) == data_selector_view(*data));
    }
    let temp_path: String = match &data.merged_settings.temp_path {
        Some(t) => t.clone(),
        None => "/tmp".to_owned(),
    };
    let confirm_timeout: u16 = match data.merged_settings.confirm_timeout {
        Some(t) => t,
        None => 30,
    };
    let magic_rollback: bool = match data.merged_settings.magic_rollback {
        Some(b) => b,
        None => true,
    };
    let auto_rollback: bool = match data.merged_settings.auto_rollback {
        Some(b) => b,
        None => true,
    };
    let activate_cmd = build_activate_command(
        &ActivateCommandData {
            sudo: clone_opt_string(&defs.sudo),
            profile_info,
            closure: data.closure.clone(),
            auto_rollback,
            temp_path: temp_path.clone(),
            confirm_timeout,
            magic_rollback,
            debug_logs: data.debug_logs,
            log_dir: clone_opt_string(&data.log_dir),
            dry_activate,
            boot,
        },
    );
    let wait_cmd = build_wait_command(
        &WaitCommandData {
            sudo: clone_opt_string(&defs.sudo),
            closure: data.closure.clone(),
            temp_path: temp_path.clone(),
            activation_timeout: data.merged_settings.activation_timeout,
            debug_logs: data.debug_logs,
            log_dir: clone_opt_string(&data.log_dir),
        },
    );
    let lock_path = make_lock_path(temp_path.as_str(), data.closure.as_str());
    let confirm_cmd = build_confirm_command(&defs.sudo, lock_path.as_str());
    let mut ssh_addr = defs.ssh_user.clone();
    ssh_addr.append("@");
    match &data.hostname_override {
        Some(h) => ssh_addr.append(h.as_str()),
        None => ssh_addr.append(data.hostname.as_str()),
    }
    let ssh_opts: Vec<String> = match &data.merged_settings.ssh_opts {
        Some(o) => clone_vec_string(o),
        None => Vec::new(),
    };
    proof {
        assert(ssh_addr@ =~= defs.ssh_user@ + "@"@ + eff_hostname(*data));
        assert(ssh_opts.deep_view() =~= eff_ssh_opts(data.merged_settings@));
    }
    let feed_sudo = data.wants_sudo_stdin();
    let stdin_payload = sudo_stdin_payload(defs);
    Ok(
        ActivationPlan {
            ssh_addr,
            ssh_opts,
            activate_cmd,
            wait_cmd,
            confirm_cmd,
            lock_path,
            magic: magic_rollback && !dry_activate && !boot,
            feed_sudo,
            stdin_payload,
        },
    )
}

/// Failure of a revocation issued during batch rollback.
#[derive(Debug, PartialEq, Eq)]
pub enum RevokeProfileError {
    SSHSpawnRevoke(String),
    SSHRevoke(String),
    SSHRevokeExit(Option<i32>),
    InvalidDeployDataDefs(DeployDataDefsError),
}

/// Everything the caller needs to revoke one previously activated profile.
pub struct RevokePlan {
    pub ssh_addr: String,
    pub ssh_opts: Vec<String>,
    pub revoke_cmd: String,
    pub feed_sudo: bool,
    pub stdin_payload: String,
}

/// Computes the revocation plan of one work item. Fails exactly when no
/// profile selector can be derived.
pub fn make_revoke_plan(data: &DeployData, defs: &DeployDefs) -> (r: Result<
    RevokePlan,
    DeployDataDefsError,
>)
    ensures
        match r {
            Ok(plan) => {
                &&& plan.ssh_addr@ == defs.ssh_user@ + "@"@ + eff_hostname(*data)
                &&& plan.ssh_opts.deep_view() == eff_ssh_opts(data.merged_settings@)
                &&& plan.revoke_cmd@ == sudo_prefix_spec(opt_view(defs.sudo)) + revoke_tail_view(
                    data.closure@,
                    data_selector_view(*data),
                    data.debug_logs,
                    opt_view(data.log_dir),
                )
                &&& plan.feed_sudo == (data.merged_settings@.interactive_sudo == Some(true)
                    || data.merged_settings@.sudo_secret is Some)
                &&& plan.stdin_payload@ == sudo_stdin_view(opt_view(defs.sudo_password))
            },
            Err(e) => {
                &&& data.profile_path is None
                &&& profile_user_view(data.merged_settings@) is None
                &&& e matches DeployDataDefsError::NoProfileUser(n, p) && n@ == data.node_name@
                    && p@ == data.profile_name@
            },
        },
{
    let profile_info = match data.get_profile_info() {
        Ok(info) => info,
        Err(e) => {
            return Err(e);
        },
    };
    proof {
        assert(profile_selector_spec(profile_info) == data_selector_view(*data));
    }
    let revoke_cmd = build_revoke_command(
        &RevokeCommandData {
            sudo: clone_opt_string(&defs.sudo),
            closure: data.closure.clone(),
            profile_info,
            debug_logs: data.debug_logs,
            log_dir: clone_opt_string(&data.log_dir),
        },
    );
    let mut ssh_addr = defs.ssh_user.clone();
    ssh_addr.append("@");
    match &data.hostname_override {
        Some(h) => ssh_addr.append(h.as_str()),
        None => ssh_addr.append(data.hostname.as_str()),
    }
    let ssh_opts: Vec<String> = match &data.merged_settings.ssh_opts {
        Some(o) => clone_vec_string(o),
        None => Vec::new(),
    };
    proof {
        assert(ssh_addr@ =~= defs.ssh_user@ + "@"@ + eff_hostname(*data));
        assert(ssh_opts.deep_view() =~= eff_ssh_opts(data.merged_settings@));
    }
    let feed_sudo = data.wants_sudo_stdin();
    let stdin_payload = sudo_stdin_payload(defs);
    Ok(RevokePlan { ssh_addr, ssh_opts, revoke_cmd, feed_sudo, stdin_payload })
}

/// The orchestrator's position inside one work item's activation.
#[derive(Debug, PartialEq, Eq)]
pub enum DeployState {
    /// Simple path (dry run, boot, or magic rollback off): the activate child
    /// is spawned and its exit decides the item.
    SimpleActivating,
    /// Magic path: the activate child is spawned; the wait child comes next.
    MagicActivating,
    /// Both children run; the wait exit races the activate failure.
    Racing,
    /// The wait child exited 0; the confirm child is spawned.
    Confirming,
    /// Confirmation finished; the background activate task is being joined.
    /// A confirmation failure is surfaced only after the join.
    Joining { pending: Option<ConfirmProfileError> },
    /// The item succeeded: the handshake completed and every child is joined.
    Done,
    /// The item failed with the first observed cause.
    Failed { error: DeployProfileError },
}

/// Outcome of the racing activate child, reported only when it ends before
/// the wait child and not cleanly.
#[derive(Debug, PartialEq, Eq)]
pub enum ActivateFailure {
    Io { message: String },
    Exit { code: Option<i32> },
}

/// What the caller observed since the last step.
#[derive(Debug, PartialEq, Eq)]
pub enum DeployEvent {
    /// Spawning the activate child failed.
    ActivateSpawnFailed { message: String },
    /// A child's stdin handle was missing while feeding the sudo password.
    SudoPipeMissing { message: String },
    /// Waiting for the activate child's exit failed (simple path).
    ActivateIoError { message: String },
    /// The activate child exited (simple path).
    ActivateExited { code: Option<i32> },
    /// The wait child was spawned and fed; the race is on.
    WaitSpawned,
    /// Spawning the wait child failed.
    WaitSpawnFailed { message: String },
    /// Waiting for the wait child's exit failed.
    WaitIoError { message: String },
    /// The wait child exited before the activate child failed.
    WaitExited { code: Option<i32> },
    /// The activate child ended with an error before the wait child exited.
    ActivateEndedFirst { failure: ActivateFailure },
    /// Spawning the confirm child failed.
    ConfirmSpawnFailed { message: String },
    /// Waiting for the confirm child's exit failed.
    ConfirmIoError { message: String },
    /// The confirm child exited.
    ConfirmExited { code: Option<i32> },
    /// The background activate task was joined cleanly.
    ActivateJoined,
    /// Joining the background activate task failed.
    ActivateJoinFailed { message: String },
}

/// What the caller must do after a step.
#[derive(Debug, PartialEq, Eq)]
pub enum DeployAction {
    /// Spawn the wait child, feed its stdin if owed, then report `WaitSpawned`.
    SpawnWait,
    /// Race the wait child's exit against an activate failure.
    AwaitRace,
    /// Spawn the confirm child, feed its stdin if owed, await its exit.
    SpawnConfirm,
    /// Join the background activate task.
    JoinActivate,
    /// The item succeeded; record it and move on.
    Succeed,
    /// The item failed; surface the error carried by the state.
    Fail,
    /// The event does not apply to the current state; keep waiting.
    Ignore,
}

/// The transition function of the activation handshake. Every failure maps to
/// the first observed cause; a confirmation failure is held back until the
/// activate task is joined, as the handshake requires.
pub open spec fn step_spec(s: DeployState, e: DeployEvent) -> (DeployState, DeployAction) {
    match s {
        DeployState::SimpleActivating => match e {
            DeployEvent::ActivateSpawnFailed { message } => (
                DeployState::Failed { error: DeployProfileError::SSHSpawnActivate(message) },
                DeployAction::Fail,
            ),
            DeployEvent::SudoPipeMissing { message } => (
                DeployState::Failed { error: DeployProfileError::SSHActivatePipe(message) },
                DeployAction::Fail,
            ),
            DeployEvent::ActivateIoError { message } => (
                DeployState::Failed { error: DeployProfileError::SSHActivate(message) },
                DeployAction::Fail,
            ),
            DeployEvent::ActivateExited { code } => if code == Some(0i32) {
                (DeployState::Done, DeployAction::Succeed)
            } else {
                (
                    DeployState::Failed { error: DeployProfileError::SSHActivateExit(code) },
                    DeployAction::Fail,
                )
            },
            _ => (DeployState::SimpleActivating, DeployAction::Ignore),
        },
        DeployState::MagicActivating => match e {
            DeployEvent::ActivateSpawnFailed { message } => (
                DeployState::Failed { error: DeployProfileError::SSHSpawnActivate(message) },
                DeployAction::Fail,
            ),
            DeployEvent::SudoPipeMissing { message } => (
                DeployState::Failed { error: DeployProfileError::SSHActivatePipe(message) },
                DeployAction::Fail,
            ),
            DeployEvent::WaitSpawnFailed { message } => (
                DeployState::Failed { error: DeployProfileError::SSHWait(message) },
                DeployAction::Fail,
            ),
            DeployEvent::WaitSpawned => (DeployState::Racing, DeployAction::AwaitRace),
            _ => (DeployState::MagicActivating, DeployAction::Ignore),
        },
        DeployState::Racing => match e {
            DeployEvent::WaitExited { code } => if code == Some(0i32) {
                (DeployState::Confirming, DeployAction::SpawnConfirm)
            } else {
                (
                    DeployState::Failed { error: DeployProfileError::SSHWaitExit(code) },
                    DeployAction::Fail,
                )
            },
            DeployEvent::WaitIoError { message } => (
                DeployState::Failed { error: DeployProfileError::SSHWait(message) },
                DeployAction::Fail,
            ),
            DeployEvent::ActivateEndedFirst { failure } => match failure {
                ActivateFailure::Io { message } => (
                    DeployState::Failed { error: DeployProfileError::SSHActivate(message) },
                    DeployAction::Fail,
                ),
                ActivateFailure::Exit { code } => if code == Some(0i32) {
                    (DeployState::Racing, DeployAction::Ignore)
                } else {
                    (
                        DeployState::Failed { error: DeployProfileError::SSHActivateExit(code) },
                        DeployAction::Fail,
                    )
                },
            },
            _ => (DeployState::Racing, DeployAction::Ignore),
        },
        DeployState::Confirming => match e {
            DeployEvent::ConfirmSpawnFailed { message } => (
                DeployState::Joining {
                    pending: Some(ConfirmProfileError::SSHConfirm(message)),
                },
                DeployAction::JoinActivate,
            ),
            DeployEvent::SudoPipeMissing { message } => (
                DeployState::Joining {
                    pending: Some(ConfirmProfileError::SSHConfirm(message)),
                },
                DeployAction::JoinActivate,
            ),
            DeployEvent::ConfirmIoError { message } => (
                DeployState::Joining {
                    pending: Some(ConfirmProfileError::SSHConfirm(message)),
                },
                DeployAction::JoinActivate,
            ),
            DeployEvent::ConfirmExited { code } => if code == Some(0i32) {
                (DeployState::Joining { pending: None }, DeployAction::JoinActivate)
            } else {
                (
                    DeployState::Joining {
                        pending: Some(ConfirmProfileError::SSHConfirmExit(code)),
                    },
                    DeployAction::JoinActivate,
                )
            },
            _ => (DeployState::Confirming, DeployAction::Ignore),
        },
        DeployState::Joining { pending } => match e {
            DeployEvent::ActivateJoined => match pending {
                None => (DeployState::Done, DeployAction::Succeed),
                Some(err) => (
                    DeployState::Failed { error: DeployProfileError::Confirm(err) },
                    DeployAction::Fail,
                ),
            },
            DeployEvent::ActivateJoinFailed { message } => (
                DeployState::Failed { error: DeployProfileError::SSHActivateTimeout(message) },
                DeployAction::Fail,
            ),
            _ => (DeployState::Joining { pending }, DeployAction::Ignore),
        },
        DeployState::Done => (DeployState::Done, DeployAction::Ignore),
        DeployState::Failed { error } => (DeployState::Failed { error }, DeployAction::Ignore),
    }
}

/// The state the machine starts in, decided by the plan: the magic-rollback
/// handshake, or the simple activate-and-wait path.
pub fn initial_state(magic: bool) -> (r: DeployState)
    ensures
        magic ==> r == DeployState::MagicActivating,
        !magic ==> r == DeployState::SimpleActivating,
{
    if magic {
        DeployState::MagicActivating
    } else {
        DeployState::SimpleActivating
    }
}

/// Advances the handshake by one observed event.
pub fn step(s: DeployState, e: DeployEvent) -> (r: (DeployState, DeployAction))
    ensures
        r == step_spec(s, e),
{
    match s {
        DeployState::SimpleActivating => match e {
            DeployEvent::ActivateSpawnFailed { message } => (
                DeployState::Failed { error: DeployProfileError::SSHSpawnActivate(message) },
                DeployAction::Fail,
            ),
            DeployEvent::SudoPipeMissing { message } => (
                DeployState::Failed { error: DeployProfileError::SSHActivatePipe(message) },
                DeployAction::Fail,
            ),
            DeployEvent::ActivateIoError { message } => (
                DeployState::Failed { error: DeployProfileError::SSHActivate(message) },
                DeployAction::Fail,
            ),
            DeployEvent::ActivateExited { code } => {
                if code == Some(0i32) {
                    (DeployState::Done, DeployAction::Succeed)
                } else {
                    (
                        DeployState::Failed { error: DeployProfileError::SSHActivateExit(code) },
                        DeployAction::Fail,
                    )
                }
            },
            _ => (DeployState::SimpleActivating, DeployAction::Ignore),
        },
        DeployState::MagicActivating => match e {
            DeployEvent::ActivateSpawnFailed { message } => (
                DeployState::Failed { error: DeployProfileError::SSHSpawnActivate(message) },
                DeployAction::Fail,
            ),
            DeployEvent::SudoPipeMissing { message } => (
                DeployState::Failed { error: DeployProfileError::SSHActivatePipe(message) },
                DeployAction::Fail,
            ),
            DeployEvent::WaitSpawnFailed { message } => (
                DeployState::Failed { error: DeployProfileError::SSHWait(message) },
                DeployAction::Fail,
            ),
            DeployEvent::WaitSpawned => (DeployState::Racing, DeployAction::AwaitRace),
            _ => (DeployState::MagicActivating, DeployAction::Ignore),
        },
        DeployState::Racing => match e {
            DeployEvent::WaitExited { code } => {
                if code == Some(0i32) {
                    (DeployState::Confirming, DeployAction::SpawnConfirm)
                } else {
                    (
                        DeployState::Failed { error: DeployProfileError::SSHWaitExit(code) },
                        DeployAction::Fail,
                    )
                }
            },
            DeployEvent::WaitIoError { message } => (
                DeployState::Failed { error: DeployProfileError::SSHWait(message) },
                DeployAction::Fail,
            ),
            DeployEvent::ActivateEndedFirst { failure } => match failure {
                ActivateFailure::Io { message } => (
                    DeployState::Failed { error: DeployProfileError::SSHActivate(message) },
                    DeployAction::Fail,
                ),
                ActivateFailure::Exit { code } => {
                    if code == Some(0i32) {
                        (DeployState::Racing, DeployAction::Ignore)
                    } else {
                        (
                            DeployState::Failed {
                                error: DeployProfileError::SSHActivateExit(code),
                            },
                            DeployAction::Fail,
                        )
                    }
                },
            },
            _ => (DeployState::Racing, DeployAction::Ignore),
        },
        DeployState::Confirming => match e {
            DeployEvent::ConfirmSpawnFailed { message } => (
                DeployState::Joining {
                    pending: Some(ConfirmProfileError::SSHConfirm(message)),
                },
                DeployAction::JoinActivate,
            ),
            DeployEvent::SudoPipeMissing { message } => (
                DeployState::Joining {
                    pending: Some(ConfirmProfileError::SSHConfirm(message)),
                },
                DeployAction::JoinActivate,
            ),
            DeployEvent::ConfirmIoError { message } => (
                DeployState::Joining {
                    pending: Some(ConfirmProfileError::SSHConfirm(message)),
                },
                DeployAction::JoinActivate,
            ),
            DeployEvent::ConfirmExited { code } => {
                if code == Some(0i32) {
                    (DeployState::Joining { pending: None }, DeployAction::JoinActivate)
                } else {
                    (
                        DeployState::Joining {
                            pending: Some(ConfirmProfileError::SSHConfirmExit(code)),
                        },
                        DeployAction::JoinActivate,
                    )
                }
            },
            _ => (DeployState::Confirming, DeployAction::Ignore),
        },
        DeployState::Joining { pending } => match e {
            DeployEvent::ActivateJoined => match pending {
                None => (DeployState::Done, DeployAction::Succeed),
                Some(err) => (
                    DeployState::Failed { error: DeployProfileError::Confirm(err) },
                    DeployAction::Fail,
                ),
            },
            DeployEvent::ActivateJoinFailed { message } => (
                DeployState::Failed { error: DeployProfileError::SSHActivateTimeout(message) },
                DeployAction::Fail,
            ),
            _ => (DeployState::Joining { pending }, DeployAction::Ignore),
        },
        DeployState::Done => (DeployState::Done, DeployAction::Ignore),
        DeployState::Failed { error } => (DeployState::Failed { error }, DeployAction::Ignore),
    }
}

/// The state after driving the machine through a sequence of events.
pub open spec fn run_events(s: DeployState, es: Seq<DeployEvent>) -> DeployState
    decreases es.len(),
{
    if es.len() == 0 {
        s
    } else {
        run_events(step_spec(s, es[0]).0, es.drop_first())
    }
}

proof fn lemma_contains_lift(es: Seq<DeployEvent>, x: DeployEvent)
    requires
        es.len() > 0,
        es.drop_first().contains(x),
    ensures
        es.contains(x),
{
    let i = choose|i: int| 0 <= i < es.drop_first().len() && es.drop_first()[i] == x;
    assert(es[i + 1] == x);
}

/// An item driven along the magic path is never treated as succeeded until
/// the wait child exited 0, the confirmation exited 0, and the background
/// activate task was joined: every event trace that ends in success contains
/// all three observations. A failed state never recovers into success.
pub proof fn lemma_magic_success_requires_handshake(s: DeployState, es: Seq<DeployEvent>)
    requires
        run_events(s, es) == DeployState::Done,
    ensures
        s == DeployState::MagicActivating || s == DeployState::Racing ==> es.contains(
            DeployEvent::WaitExited { code: Some(0i32) },
        ) && es.contains(DeployEvent::ConfirmExited { code: Some(0i32) }) && es.contains(
            DeployEvent::ActivateJoined,
        ),
        s == DeployState::Confirming ==> es.contains(
            DeployEvent::ConfirmExited { code: Some(0i32) },
        ) && es.contains(DeployEvent::ActivateJoined),
        s == (DeployState::Joining { pending: None }) ==> es.contains(DeployEvent::ActivateJoined),
        s matches DeployState::Joining { pending: Some(_) } ==> false,
        s is Failed ==> false,
    decreases es.len(),
{
    if es.len() == 0 {
    } else {
        let s1 = step_spec(s, es[0]).0;
        lemma_magic_success_requires_handshake(s1, es.drop_first());
        if es.drop_first().contains(DeployEvent::WaitExited { code: Some(0i32) }) {
            lemma_contains_lift(es, DeployEvent::WaitExited { code: Some(0i32) });
        }
        if es.drop_first().contains(DeployEvent::ConfirmExited { code: Some(0i32) }) {
            lemma_contains_lift(es, DeployEvent::ConfirmExited { code: Some(0i32) });
        }
        if es.drop_first().contains(DeployEvent::ActivateJoined) {
            lemma_contains_lift(es, DeployEvent::ActivateJoined);
        }
    }
}

/// The confirm child is spawned exactly when the wait child exits 0 during
/// the race; in particular, once an activate error has put the machine in a
/// failed state, no confirmation is ever issued.
pub proof fn lemma_confirm_only_after_wait_success(s: DeployState, e: DeployEvent)
    ensures
        (step_spec(s, e).1 == DeployAction::SpawnConfirm) <==> (s == DeployState::Racing
            && e == (DeployEvent::WaitExited { code: Some(0i32) })),
{
}

/// A failed item stays failed: no later event revives it or spawns anything.
pub proof fn lemma_failed_is_absorbing(s: DeployState, e: DeployEvent)
    requires
        s is Failed,
    ensures
        step_spec(s, e).0 == s,
        step_spec(s, e).1 == DeployAction::Ignore,
{
}

/// Success is reported exactly on a clean simple activation, or — on the
/// magic path — after the wait exited 0, the confirmation exited 0, and the
/// background activate task was joined.
pub proof fn lemma_success_requires_handshake(s: DeployState, e: DeployEvent)
    ensures
        (step_spec(s, e).0 == DeployState::Done && s != DeployState::Done) <==> ((s
            == DeployState::SimpleActivating && e == (DeployEvent::ActivateExited {
            code: Some(0i32),
        })) || (s == (DeployState::Joining { pending: None }) && e == DeployEvent::ActivateJoined)),
{
}

} // verus!
