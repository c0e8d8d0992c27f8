//! Builders for the three remote command lines handed to `ssh` as a single
//! argument — `activate`, `wait` and `revoke` — plus the confirmation command
//! and the lock-file path of the magic-rollback handshake. The exact shape of
//! each string, flag order included, is part of the contract with the
//! on-target `activate-rs` binary.

use vstd::prelude::*;

use crate::data::opt_view;
use crate::data::ProfileInfo;
use crate::strutil::dec_str;
use crate::strutil::sanitized;
use crate::strutil::u16_to_string;
use crate::strutil::sanitize;

verus! {

/// The `--profile-path '<p>'` or `--profile-user <u> --profile-name <n>`
/// selector handed to the on-target binary.
pub open spec fn profile_selector_spec(info: ProfileInfo) -> Seq<char> {
    match info {
        ProfileInfo::ProfilePath { profile_path } => "--profile-path '"@ + profile_path@ + "'"@,
        ProfileInfo::ProfileUserAndName { profile_user, profile_name } => "--profile-user "@
            + profile_user@ + " --profile-name "@ + profile_name@,
    }
}

/// `<closure>/activate-rs` with the shared logging flags.
pub open spec fn base_command_spec(
    closure: Seq<char>,
    debug_logs: bool,
    log_dir: Option<Seq<char>>,
) -> Seq<char> {
    closure + "/activate-rs"@ + (if debug_logs {
        " --debug-logs"@
    } else {
        Seq::<char>::empty()
    }) + (match log_dir {
        Some(d) => " --log-dir "@ + d,
        None => Seq::<char>::empty(),
    })
}

/// `<sudo> ` when a sudo prefix is set, nothing otherwise.
pub open spec fn sudo_prefix_spec(sudo: Option<Seq<char>>) -> Seq<char> {
    match sudo {
        Some(s) => s + " "@,
        None => Seq::<char>::empty(),
    }
}

/// ` <flag>` when `on` holds, nothing otherwise.
pub open spec fn flag_spec(on: bool, flag: Seq<char>) -> Seq<char> {
    if on {
        flag
    } else {
        Seq::<char>::empty()
    }
}

/// Everything the activate command line depends on.
pub struct ActivateCommandData {
    pub sudo: Option<String>,
    pub profile_info: ProfileInfo,
    pub closure: String,
    pub auto_rollback: bool,
    pub temp_path: String,
    pub confirm_timeout: u16,
    pub magic_rollback: bool,
    pub debug_logs: bool,
    pub log_dir: Option<String>,
    pub dry_activate: bool,
    pub boot: bool,
}

/// The activate command line without its sudo prefix, over the views of its
/// ingredients.
pub open spec fn activate_tail_view(
    closure: Seq<char>,
    selector: Seq<char>,
    temp_path: Seq<char>,
    confirm_timeout: nat,
    magic_rollback: bool,
    auto_rollback: bool,
    dry_activate: bool,
    boot: bool,
    debug_logs: bool,
    log_dir: Option<Seq<char>>,
) -> Seq<char> {
    base_command_spec(closure, debug_logs, log_dir) + " activate '"@ + closure + "' "@ + selector
        + " --temp-path '"@ + temp_path + "' --confirm-timeout "@ + dec_str(confirm_timeout)
        + flag_spec(magic_rollback, " --magic-rollback"@) + flag_spec(
        auto_rollback,
        " --auto-rollback"@,
    ) + flag_spec(dry_activate, " --dry-activate"@) + flag_spec(boot, " --boot"@)
}

/// The activate command line, exactly as sent to the target.
pub open spec fn activate_command_spec(d: ActivateCommandData) -> Seq<char> {
    sudo_prefix_spec(opt_view(d.sudo)) + activate_tail_view(
        d.closure@,
        profile_selector_spec(d.profile_info),
        d.temp_path@,
        d.confirm_timeout as nat,
        d.magic_rollback,
        d.auto_rollback,
        d.dry_activate,
        d.boot,
        d.debug_logs,
        opt_view(d.log_dir),
    )
}

fn append_base_command(cmd: &mut String, debug_logs: bool, log_dir: &Option<String>)
    ensures
        final(cmd)@ == old(cmd)@ + "/activate-rs"@ + (if debug_logs {
            " --debug-logs"@
        } else {
            Seq::<char>::empty()
        }) + (match opt_view(*log_dir) {
            Some(d) => " --log-dir "@ + d,
            None => Seq::<char>::empty(),
        }),
{
    cmd.append("/activate-rs");
    if debug_logs {
        cmd.append(" --debug-logs");
    }
    match log_dir {
        Some(d) => {
            cmd.append(" --log-dir ");
            cmd.append(d.as_str());
        },
        None => {},
    }
}

fn append_profile_selector(cmd: &mut String, info: &ProfileInfo)
    ensures
        final(cmd)@ == old(cmd)@ + profile_selector_spec(*info),
{
    match info {
        ProfileInfo::ProfilePath { profile_path } => {
            cmd.append("--profile-path '");
            cmd.append(profile_path.as_str());
            cmd.append("'");
        },
        ProfileInfo::ProfileUserAndName { profile_user, profile_name } => {
            cmd.append("--profile-user ");
            cmd.append(profile_user.as_str());
            cmd.append(" --profile-name ");
            cmd.append(profile_name.as_str());
        },
    }
}

fn append_flag(cmd: &mut String, on: bool, flag: &str)
    ensures
        final(cmd)@ == old(cmd)@ + flag_spec(on, flag@),
{
    if on {
        cmd.append(flag);
    } else {
        proof {
            assert(old(cmd)@ + flag_spec(on, flag@) =~= old(cmd)@);
        }
    }
}

fn prepend_sudo(sudo: &Option<String>, cmd: String) -> (r: String)
    ensures
        r@ == sudo_prefix_spec(opt_view(*sudo)) + cmd@,
{
    match sudo {
        Some(s) => {
            let mut full = s.clone();
            full.append(" ");
            full.append(cmd.as_str());
            full
        },
        None => cmd,
    }
}

/// Builds the remote `activate` command line: selector, temp path, confirm
/// timeout and the rollback/staging flags in their fixed order, with the sudo
/// prefix prepended last.
pub fn build_activate_command(data: &ActivateCommandData) -> (r: String)
    ensures
        r@ == activate_command_spec(*data),
{
    let mut cmd = data.closure.clone();
    append_base_command(&mut cmd, data.debug_logs, &data.log_dir);
    cmd.append(" activate '");
    cmd.append(data.closure.as_str());
    cmd.append("' ");
    append_profile_selector(&mut cmd, &data.profile_info);
    cmd.append(" --temp-path '");
    cmd.append(data.temp_path.as_str());
    cmd.append("' --confirm-timeout ");
    let ct = u16_to_string(data.confirm_timeout);
    cmd.append(ct.as_str());
    append_flag(&mut cmd, data.magic_rollback, " --magic-rollback");
    append_flag(&mut cmd, data.auto_rollback, " --auto-rollback");
    append_flag(&mut cmd, data.dry_activate, " --dry-activate");
    append_flag(&mut cmd, data.boot, " --boot");
    let r = prepend_sudo(&data.sudo, cmd);
    r
}

/// Everything the wait command line depends on.
pub struct WaitCommandData {
    pub sudo: Option<String>,
    pub closure: String,
    pub temp_path: String,
    pub activation_timeout: Option<u16>,
    pub debug_logs: bool,
    pub log_dir: Option<String>,
}

/// The wait command line without its sudo prefix, over the views of its
/// ingredients.
pub open spec fn wait_tail_view(
    closure: Seq<char>,
    temp_path: Seq<char>,
    activation_timeout: Option<u16>,
    debug_logs: bool,
    log_dir: Option<Seq<char>>,
) -> Seq<char> {
    base_command_spec(closure, debug_logs, log_dir) + " wait '"@ + closure + "' --temp-path '"@
        + temp_path + "'"@ + (match activation_timeout {
        Some(t) => " --activation-timeout "@ + dec_str(t as nat),
        None => Seq::<char>::empty(),
    })
}

/// The wait command line without its sudo prefix.
pub open spec fn wait_tail_spec(d: WaitCommandData) -> Seq<char> {
    wait_tail_view(d.closure@, d.temp_path@, d.activation_timeout, d.debug_logs, opt_view(d.log_dir))
}

/// The wait command line, exactly as sent to the target.
pub open spec fn wait_command_spec(d: WaitCommandData) -> Seq<char> {
    sudo_prefix_spec(opt_view(d.sudo)) + wait_tail_spec(d)
}

/// Builds the remote `wait` command line: the closure to watch, the temp path
/// holding the lock file, and the optional activation timeout.
pub fn build_wait_command(data: &WaitCommandData) -> (r: String)
    ensures
        r@ == wait_command_spec(*data),
{
    let mut cmd = data.closure.clone();
    append_base_command(&mut cmd, data.debug_logs, &data.log_dir);
    cmd.append(" wait '");
    cmd.append(data.closure.as_str());
    cmd.append("' --temp-path '");
    cmd.append(data.temp_path.as_str());
    cmd.append("'");
    match &data.activation_timeout {
        Some(t) => {
            cmd.append(" --activation-timeout ");
            let ts = u16_to_string(*t);
            cmd.append(ts.as_str());
        },
        None => {},
    }
    proof {
        assert(cmd@ =~= wait_tail_spec(*data));
    }
    let r = prepend_sudo(&data.sudo, cmd);
    r
}

/// Everything the revoke command line depends on.
pub struct RevokeCommandData {
    pub sudo: Option<String>,
    pub closure: String,
    pub profile_info: ProfileInfo,
    pub debug_logs: bool,
    pub log_dir: Option<String>,
}

/// The revoke command line without its sudo prefix, over the views of its
/// ingredients.
pub open spec fn revoke_tail_view(
    closure: Seq<char>,
    selector: Seq<char>,
    debug_logs: bool,
    log_dir: Option<Seq<char>>,
) -> Seq<char> {
    base_command_spec(closure, debug_logs, log_dir) + " revoke "@ + selector
}

/// The revoke command line without its sudo prefix.
pub open spec fn revoke_tail_spec(d: RevokeCommandData) -> Seq<char> {
    revoke_tail_view(
        d.closure@,
        profile_selector_spec(d.profile_info),
        d.debug_logs,
        opt_view(d.log_dir),
    )
}

/// The revoke command line, exactly as sent to the target.
pub open spec fn revoke_command_spec(d: RevokeCommandData) -> Seq<char> {
    sudo_prefix_spec(opt_view(d.sudo)) + revoke_tail_spec(d)
}

/// Builds the remote `revoke` command line for a previously activated profile.
pub fn build_revoke_command(data: &RevokeCommandData) -> (r: String)
    ensures
        r@ == revoke_command_spec(*data),
{
    let mut cmd = data.closure.clone();
    append_base_command(&mut cmd, data.debug_logs, &data.log_dir);
    cmd.append(" revoke ");
    append_profile_selector(&mut cmd, &data.profile_info);
    let r = prepend_sudo(&data.sudo, cmd);
    r
}

/// The lock-file path of the magic-rollback handshake:
/// `<tempPath>/deploy-rs-canary-<sanitized closure>`. Its presence on the
/// target means "activation in flight, awaiting confirmation".
pub open spec fn lock_path_spec(temp_path: Seq<char>, closure: Seq<char>) -> Seq<char> {
    temp_path + "/deploy-rs-canary-"@ + sanitized(closure)
}

/// Builds the lock-file path for a closure, sanitizing the closure path as
/// the on-target activator does.
pub fn make_lock_path(temp_path: &str, closure: &str) -> (r: String)
    ensures
        r@ == lock_path_spec(temp_path@, closure@),
{
    let mut p = temp_path.to_owned();
    p.append("/deploy-rs-canary-");
    let s = sanitize(closure);
    p.append(s.as_str());
    proof {
        assert(p@ =~= lock_path_spec(temp_path@, closure@));
    }
    p
}

/// The confirmation command: `[<sudo>] rm <lock path>`. Removing the lock
/// tells the target not to roll back.
pub open spec fn confirm_command_spec(sudo: Option<Seq<char>>, lock_path: Seq<char>) -> Seq<char> {
    sudo_prefix_spec(sudo) + "rm "@ + lock_path
}

/// Builds the confirmation command for a lock path.
pub fn build_confirm_command(sudo: &Option<String>, lock_path: &str) -> (r: String)
    ensures
        r@ == confirm_command_spec(opt_view(*sudo), lock_path@),
{
    let mut cmd = "rm ".to_owned();
    cmd.append(lock_path);
    let r = prepend_sudo(sudo, cmd);
    proof {
        assert(r@ =~= confirm_command_spec(opt_view(*sudo), lock_path@));
    }
    r
}

} // verus!
