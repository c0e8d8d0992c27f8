//! The command-line surface as plain data: the options record, the run-level
//! error kinds, and the small decisions the entry point makes — the target
//! list's default and the reshaping of options into overrides.

use vstd::prelude::*;

use crate::batch::RunDeployError;
use crate::data::clone_opt_string;
use crate::data::opt_view;
use crate::data::CmdOverrides;

verus! {

/// Every option of the command line, already parsed into plain values.
pub struct Opts {
    pub target: Option<String>,
    pub targets: Option<Vec<String>>,
    pub file: Option<String>,
    pub checksigs: bool,
    pub interactive: bool,
    pub extra_build_args: Vec<String>,
    pub debug_logs: bool,
    pub log_dir: Option<String>,
    pub keep_result: bool,
    pub result_path: Option<String>,
    pub skip_checks: bool,
    pub remote_build: bool,
    pub ssh_user: Option<String>,
    pub profile_user: Option<String>,
    pub ssh_opts: Option<String>,
    pub compress: Option<bool>,
    pub fast_connection: Option<bool>,
    pub auto_rollback: Option<bool>,
    pub hostname: Option<String>,
    pub magic_rollback: Option<bool>,
    pub confirm_timeout: Option<u16>,
    pub activation_timeout: Option<u16>,
    pub temp_path: Option<String>,
    pub dry_activate: bool,
    pub boot: bool,
    pub rollback_succeeded: Option<bool>,
    pub sudo: Option<String>,
    pub interactive_sudo: Option<bool>,
    pub sudo_file: Option<String>,
    pub sudo_secret: Option<String>,
}

/// Failure of the pre-deployment checks run against the repository.
#[derive(Debug)]
pub enum CheckDeploymentError {
    NixCheck(String),
    NixCheckExit(Option<i32>),
}

/// Failure while evaluating the deployment descriptor.
#[derive(Debug)]
pub enum GetDeploymentDataError {
    NixEval(String),
    NixEvalOut(String),
    NixEvalExit(Option<i32>),
    DecodeUtf8(String),
    DecodeJson(String),
    ProfileNoNode,
}

/// Failure of a whole run, from argument handling to deployment.
#[derive(Debug)]
pub enum RunError {
    DeployProfile(crate::orchestrate::DeployProfileError),
    FlakeTest(String),
    CheckDeployment(CheckDeploymentError),
    GetDeploymentData(GetDeploymentDataError),
    ParseArgs(String),
    Logger(String),
    RunDeploy(RunDeployError),
}

impl Opts {
    /// The targets to deploy: the `--targets` list when given, else the
    /// positional target, else the current directory.
    pub fn deploy_targets(&self) -> (r: Vec<String>)
        ensures
            match self.targets {
                Some(ts) => r.deep_view() == ts.deep_view(),
                None => match opt_view(self.target) {
                    Some(t) => r.deep_view() == seq![t],
                    None => r.deep_view() == seq!["."@],
                },
            },
    {
        match &self.targets {
            Some(ts) => crate::data::clone_vec_string(ts),
            None => {
                let one: String = match &self.target {
                    Some(t) => t.clone(),
                    None => ".".to_owned(),
                };
                let mut v: Vec<String> = Vec::new();
                v.push(one);
                proof {
                    match opt_view(self.target) {
                        Some(t) => assert(v.deep_view() =~= seq![t]),
                        None => assert(v.deep_view() =~= seq!["."@]),
                    }
                }
                v
            },
        }
    }

    /// The options that override descriptor settings, reshaped into the
    /// record the settings merge takes.
    pub fn to_cmd_overrides(&self) -> (r: CmdOverrides)
        ensures
            opt_view(r.ssh_user) == opt_view(self.ssh_user),
            opt_view(r.profile_user) == opt_view(self.profile_user),
            opt_view(r.ssh_opts) == opt_view(self.ssh_opts),
            r.fast_connection == self.fast_connection,
            r.compress == self.compress,
            r.auto_rollback == self.auto_rollback,
            opt_view(r.hostname) == opt_view(self.hostname),
            r.magic_rollback == self.magic_rollback,
            opt_view(r.temp_path) == opt_view(self.temp_path),
            r.confirm_timeout == self.confirm_timeout,
            r.activation_timeout == self.activation_timeout,
            r.dry_activate == self.dry_activate,
            r.remote_build == self.remote_build,
            opt_view(r.sudo) == opt_view(self.sudo),
            r.interactive_sudo == self.interactive_sudo,
            opt_view(r.sudo_file) == opt_view(self.sudo_file),
            opt_view(r.sudo_secret) == opt_view(self.sudo_secret),
    {
        CmdOverrides {
            ssh_user: clone_opt_string(&self.ssh_user),
            profile_user: clone_opt_string(&self.profile_user),
            ssh_opts: clone_opt_string(&self.ssh_opts),
            fast_connection: self.fast_connection,
            compress: self.compress,
            auto_rollback: self.auto_rollback,
            hostname: clone_opt_string(&self.hostname),
            magic_rollback: self.magic_rollback,
            temp_path: clone_opt_string(&self.temp_path),
            confirm_timeout: self.confirm_timeout,
            activation_timeout: self.activation_timeout,
            dry_activate: self.dry_activate,
            remote_build: self.remote_build,
            sudo: clone_opt_string(&self.sudo),
            interactive_sudo: self.interactive_sudo,
            sudo_file: clone_opt_string(&self.sudo_file),
            sudo_secret: clone_opt_string(&self.sudo_secret),
        }
    }
}

} // verus!
