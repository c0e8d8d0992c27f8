//! Deployment orchestration library: resolving deployment targets, merging
//! layered settings, building the remote activation command lines, walking a
//! decrypted secret store for sudo passwords, and driving the activate /
//! wait / confirm handshake with batch-level rollback.

mod batch;
mod command;
mod data;
mod flake;
mod opts;
mod orchestrate;
mod prompt;
mod resolve;
mod secret;
mod strutil;

pub use batch::decide_batch;
pub use batch::BatchDecision;
pub use batch::BatchItem;
pub use batch::ItemOutcome;
pub use batch::RunDeployError;

pub use command::build_activate_command;
pub use command::build_confirm_command;
pub use command::build_revoke_command;
pub use command::build_wait_command;
pub use command::make_lock_path;
pub use command::ActivateCommandData;
pub use command::RevokeCommandData;
pub use command::WaitCommandData;

pub use data::finalize_sudo;
pub use data::make_deploy_data;
pub use data::password_source;
pub use data::sudo_stdin_payload;
pub use data::CmdOverrides;
pub use data::Data;
pub use data::DeployData;
pub use data::DeployDataDefsError;
pub use data::DeployDefs;
pub use data::GenericSettings;
pub use data::Node;
pub use data::NodeEntry;
pub use data::NodeSettings;
pub use data::PasswordSource;
pub use data::Profile;
pub use data::ProfileEntry;
pub use data::ProfileInfo;
pub use data::ProfileSettings;

pub use flake::build_check_command;
pub use flake::build_eval_apply_expr;
pub use flake::build_eval_command;
pub use flake::parse_flake;
pub use flake::split_once_char;
pub use flake::DeployFlake;

pub use opts::CheckDeploymentError;
pub use opts::GetDeploymentDataError;
pub use opts::Opts;
pub use opts::RunError;

pub use orchestrate::initial_state;
pub use orchestrate::make_activation_plan;
pub use orchestrate::make_revoke_plan;
pub use orchestrate::step;
pub use orchestrate::ActivateFailure;
pub use orchestrate::ActivationPlan;
pub use orchestrate::ConfirmProfileError;
pub use orchestrate::DeployAction;
pub use orchestrate::DeployEvent;
pub use orchestrate::DeployProfileError;
pub use orchestrate::DeployState;
pub use orchestrate::RevokePlan;
pub use orchestrate::RevokeProfileError;

pub use prompt::first_answer_step;
pub use prompt::preview_row;
pub use prompt::second_answer_step;
pub use prompt::PreviewRow;
pub use prompt::PromptDeploymentError;
pub use prompt::PromptStep;

pub use resolve::resolve_targets;
pub use resolve::WorkTarget;

pub use secret::resolve_secret_password;
pub use secret::Json;
pub use secret::JsonMember;
pub use secret::SopsError;

pub use strutil::u16_to_string;
