//! The deployment data model: the descriptor tree (nodes, profiles, layered
//! settings), command-line overrides, and the per-work-item derived values
//! (`DeployDefs`), together with the settings merge and the sudo-prefix rules.

use vstd::prelude::*;

use crate::strutil::spec_split;
use crate::strutil::split_char;

verus! {

/// One level of the settings hierarchy. Every field is optional; an unset
/// field defers to the next level down.
pub struct GenericSettings {
    pub ssh_user: Option<String>,
    pub user: Option<String>,
    pub ssh_opts: Option<Vec<String>>,
    pub fast_connection: Option<bool>,
    pub auto_rollback: Option<bool>,
    pub magic_rollback: Option<bool>,
    pub confirm_timeout: Option<u16>,
    pub activation_timeout: Option<u16>,
    pub temp_path: Option<String>,
    pub sudo: Option<String>,
    pub interactive_sudo: Option<bool>,
    pub sudo_file: Option<String>,
    pub sudo_secret: Option<String>,
}

/// The mathematical content of a settings record: every textual field as a
/// character sequence.
pub ghost struct SettingsView {
    pub ssh_user: Option<Seq<char>>,
    pub user: Option<Seq<char>>,
    pub ssh_opts: Option<Seq<Seq<char>>>,
    pub fast_connection: Option<bool>,
    pub auto_rollback: Option<bool>,
    pub magic_rollback: Option<bool>,
    pub confirm_timeout: Option<u16>,
    pub activation_timeout: Option<u16>,
    pub temp_path: Option<Seq<char>>,
    pub sudo: Option<Seq<char>>,
    pub interactive_sudo: Option<bool>,
    pub sudo_file: Option<Seq<char>>,
    pub sudo_secret: Option<Seq<char>>,
}

/// The view of an optional string: the characters, if set.
pub open spec fn opt_view(o: Option<String>) -> Option<Seq<char>> {
    match o {
        Some(s) => Some(s@),
        None => None,
    }
}

/// The view of an optional string list.
pub open spec fn opt_list_view(o: Option<Vec<String>>) -> Option<Seq<Seq<char>>> {
    match o {
        Some(v) => Some(v.deep_view()),
        None => None,
    }
}

/// `a` if set, else `b`: the precedence rule applied to one field.
pub open spec fn opt_or<A>(a: Option<A>, b: Option<A>) -> Option<A> {
    match a {
        Some(x) => Some(x),
        None => b,
    }
}

impl View for GenericSettings {
    type V = SettingsView;

    open spec fn view(&self) -> SettingsView {
        SettingsView {
            ssh_user: opt_view(self.ssh_user),
            user: opt_view(self.user),
            ssh_opts: opt_list_view(self.ssh_opts),
            fast_connection: self.fast_connection,
            auto_rollback: self.auto_rollback,
            magic_rollback: self.magic_rollback,
            confirm_timeout: self.confirm_timeout,
            activation_timeout: self.activation_timeout,
            temp_path: opt_view(self.temp_path),
            sudo: opt_view(self.sudo),
            interactive_sudo: self.interactive_sudo,
            sudo_file: opt_view(self.sudo_file),
            sudo_secret: opt_view(self.sudo_secret),
        }
    }
}

impl SettingsView {
    /// Layers `over` on top of `self`: every field set in `over` wins.
    pub open spec fn overridden_by(self, over: SettingsView) -> SettingsView {
        SettingsView {
            ssh_user: opt_or(over.ssh_user, self.ssh_user),
            user: opt_or(over.user, self.user),
            ssh_opts: opt_or(over.ssh_opts, self.ssh_opts),
            fast_connection: opt_or(over.fast_connection, self.fast_connection),
            auto_rollback: opt_or(over.auto_rollback, self.auto_rollback),
            magic_rollback: opt_or(over.magic_rollback, self.magic_rollback),
            confirm_timeout: opt_or(over.confirm_timeout, self.confirm_timeout),
            activation_timeout: opt_or(over.activation_timeout, self.activation_timeout),
            temp_path: opt_or(over.temp_path, self.temp_path),
            sudo: opt_or(over.sudo, self.sudo),
            interactive_sudo: opt_or(over.interactive_sudo, self.interactive_sudo),
            sudo_file: opt_or(over.sudo_file, self.sudo_file),
            sudo_secret: opt_or(over.sudo_secret, self.sudo_secret),
        }
    }
}

/// Overrides given on the command line; these always win over the descriptor.
pub struct CmdOverrides {
    pub ssh_user: Option<String>,
    pub profile_user: Option<String>,
    pub ssh_opts: Option<String>,
    pub fast_connection: Option<bool>,
    pub compress: Option<bool>,
    pub auto_rollback: Option<bool>,
    pub hostname: Option<String>,
    pub magic_rollback: Option<bool>,
    pub temp_path: Option<String>,
    pub confirm_timeout: Option<u16>,
    pub activation_timeout: Option<u16>,
    pub dry_activate: bool,
    pub remote_build: bool,
    pub sudo: Option<String>,
    pub interactive_sudo: Option<bool>,
    pub sudo_file: Option<String>,
    pub sudo_secret: Option<String>,
}

/// Identifies the profile symlink the on-target activator updates: either a
/// filesystem path, or a (user, name) pair the activator resolves itself.
pub enum ProfileInfo {
    ProfilePath { profile_path: String },
    ProfileUserAndName { profile_user: String, profile_name: String },
}

/// Settings of one profile: the store path of the built closure, and
/// optionally the path of the profile symlink.
pub struct ProfileSettings {
    pub path: String,
    pub profile_path: Option<String>,
}

/// One profile of a node: its settings plus per-profile setting overrides.
pub struct Profile {
    pub profile_settings: ProfileSettings,
    pub generic_settings: GenericSettings,
}

/// A named profile, in declaration order inside its node.
pub struct ProfileEntry {
    pub name: String,
    pub profile: Profile,
}

/// Settings of one node: how to reach it and which profiles it carries.
pub struct NodeSettings {
    pub hostname: String,
    pub profiles: Vec<ProfileEntry>,
    pub profiles_order: Vec<String>,
}

/// One target machine of the deployment.
pub struct Node {
    pub node_settings: NodeSettings,
    pub generic_settings: GenericSettings,
}

/// A named node, in the descriptor's declaration order.
pub struct NodeEntry {
    pub name: String,
    pub node: Node,
}

/// A whole deployment descriptor: the top-level settings and the nodes.
pub struct Data {
    pub generic_settings: GenericSettings,
    pub nodes: Vec<NodeEntry>,
}

pub(crate) fn clone_opt_string(o: &Option<String>) -> (r: Option<String>)
    ensures
        opt_view(r) == opt_view(*o),
{
    match o {
        Some(s) => Some(s.clone()),
        None => None,
    }
}

pub(crate) fn clone_vec_string(v: &Vec<String>) -> (r: Vec<String>)
    ensures
        r.deep_view() == v.deep_view(),
{
    let mut r: Vec<String> = Vec::new();
    let mut i: usize = 0;
    while i < v.len()
        invariant
            i <= v.len(),
            r.len() == i,
            forall|j: int| 0 <= j < i ==> r.deep_view()[j] == v.deep_view()[j],
        decreases v.len() - i,
    {
        let s = v[i].clone();
        proof {
            assert(s@ == v.deep_view()[i as int]);
        }
        r.push(s);
        i = i + 1;
    }
    proof {
        assert(r.deep_view() =~= v.deep_view());
    }
    r
}

fn clone_opt_vec_string(o: &Option<Vec<String>>) -> (r: Option<Vec<String>>)
    ensures
        opt_list_view(r) == opt_list_view(*o),
{
    match o {
        Some(v) => Some(clone_vec_string(v)),
        None => None,
    }
}

impl GenericSettings {
    /// An all-unset settings record.
    pub fn unset() -> (r: GenericSettings)
        ensures
            r@ == (SettingsView {
                ssh_user: None,
                user: None,
                ssh_opts: None,
                fast_connection: None,
                auto_rollback: None,
                magic_rollback: None,
                confirm_timeout: None,
                activation_timeout: None,
                temp_path: None,
                sudo: None,
                interactive_sudo: None,
                sudo_file: None,
                sudo_secret: None,
            }),
    {
        GenericSettings {
            ssh_user: None,
            user: None,
            ssh_opts: None,
            fast_connection: None,
            auto_rollback: None,
            magic_rollback: None,
            confirm_timeout: None,
            activation_timeout: None,
            temp_path: None,
            sudo: None,
            interactive_sudo: None,
            sudo_file: None,
            sudo_secret: None,
        }
    }

    /// A copy of this record, equal at the view level.
    pub fn duplicate(&self) -> (r: GenericSettings)
        ensures
            r@ == self@,
    {
        GenericSettings {
            ssh_user: clone_opt_string(&self.ssh_user),
            user: clone_opt_string(&self.user),
            ssh_opts: clone_opt_vec_string(&self.ssh_opts),
            fast_connection: self.fast_connection,
            auto_rollback: self.auto_rollback,
            magic_rollback: self.magic_rollback,
            confirm_timeout: self.confirm_timeout,
            activation_timeout: self.activation_timeout,
            temp_path: clone_opt_string(&self.temp_path),
            sudo: clone_opt_string(&self.sudo),
            interactive_sudo: self.interactive_sudo,
            sudo_file: clone_opt_string(&self.sudo_file),
            sudo_secret: clone_opt_string(&self.sudo_secret),
        }
    }

    /// Layers `over` on top of `self`: every field set in `over` wins,
    /// `ssh_opts` wholesale.
    pub fn override_with(&self, over: &GenericSettings) -> (r: GenericSettings)
        ensures
            r@ == self@.overridden_by(over@),
    {
        GenericSettings {
            ssh_user: if over.ssh_user.is_some() {
                clone_opt_string(&over.ssh_user)
            } else {
                clone_opt_string(&self.ssh_user)
            },
            user: if over.user.is_some() {
                clone_opt_string(&over.user)
            } else {
                clone_opt_string(&self.user)
            },
            ssh_opts: if over.ssh_opts.is_some() {
                clone_opt_vec_string(&over.ssh_opts)
            } else {
                clone_opt_vec_string(&self.ssh_opts)
            },
            fast_connection: if over.fast_connection.is_some() {
                over.fast_connection
            } else {
                self.fast_connection
            },
            auto_rollback: if over.auto_rollback.is_some() {
                over.auto_rollback
            } else {
                self.auto_rollback
            },
            magic_rollback: if over.magic_rollback.is_some() {
                over.magic_rollback
            } else {
                self.magic_rollback
            },
            confirm_timeout: if over.confirm_timeout.is_some() {
                over.confirm_timeout
            } else {
                self.confirm_timeout
            },
            activation_timeout: if over.activation_timeout.is_some() {
                over.activation_timeout
            } else {
                self.activation_timeout
            },
            temp_path: if over.temp_path.is_some() {
                clone_opt_string(&over.temp_path)
            } else {
                clone_opt_string(&self.temp_path)
            },
            sudo: if over.sudo.is_some() {
                clone_opt_string(&over.sudo)
            } else {
                clone_opt_string(&self.sudo)
            },
            interactive_sudo: if over.interactive_sudo.is_some() {
                over.interactive_sudo
            } else {
                self.interactive_sudo
            },
            sudo_file: if over.sudo_file.is_some() {
                clone_opt_string(&over.sudo_file)
            } else {
                clone_opt_string(&self.sudo_file)
            },
            sudo_secret: if over.sudo_secret.is_some() {
                clone_opt_string(&over.sudo_secret)
            } else {
                clone_opt_string(&self.sudo_secret)
            },
        }
    }
}

/// The command-line overrides as a settings layer: the highest level of the
/// hierarchy. The `ssh_opts` string is cut at spaces into individual options.
pub open spec fn cmd_settings_view(o: CmdOverrides) -> SettingsView {
    SettingsView {
        ssh_user: opt_view(o.ssh_user),
        user: opt_view(o.profile_user),
        ssh_opts: match o.ssh_opts {
            Some(s) => Some(spec_split(s@, ' ')),
            None => None,
        },
        fast_connection: o.fast_connection,
        auto_rollback: o.auto_rollback,
        magic_rollback: o.magic_rollback,
        confirm_timeout: o.confirm_timeout,
        activation_timeout: o.activation_timeout,
        temp_path: opt_view(o.temp_path),
        sudo: opt_view(o.sudo),
        interactive_sudo: o.interactive_sudo,
        sudo_file: opt_view(o.sudo_file),
        sudo_secret: opt_view(o.sudo_secret),
    }
}

impl CmdOverrides {
    /// The overrides reshaped into a settings record, splitting `ssh_opts`
    /// at spaces.
    pub fn as_settings(&self) -> (r: GenericSettings)
        ensures
            r@ == cmd_settings_view(*self),
    {
        GenericSettings {
            ssh_user: clone_opt_string(&self.ssh_user),
            user: clone_opt_string(&self.profile_user),
            ssh_opts: match &self.ssh_opts {
                Some(s) => Some(split_char(s.as_str(), ' ')),
                None => None,
            },
            fast_connection: self.fast_connection,
            auto_rollback: self.auto_rollback,
            magic_rollback: self.magic_rollback,
            confirm_timeout: self.confirm_timeout,
            activation_timeout: self.activation_timeout,
            temp_path: clone_opt_string(&self.temp_path),
            sudo: clone_opt_string(&self.sudo),
            interactive_sudo: self.interactive_sudo,
            sudo_file: clone_opt_string(&self.sudo_file),
            sudo_secret: clone_opt_string(&self.sudo_secret),
        }
    }
}

/// The settings that govern one work item: the four levels collapsed, command
/// line on top.
pub open spec fn merged_settings_view(
    generic: SettingsView,
    node: SettingsView,
    profile: SettingsView,
    overrides: CmdOverrides,
) -> SettingsView {
    generic.overridden_by(node).overridden_by(profile).overridden_by(cmd_settings_view(overrides))
}

/// Every effective field obeys the same precedence: the command-line value if
/// set, else the profile's, else the node's, else the generic one; `ssh_opts`
/// is taken wholesale from the highest level that sets it.
pub proof fn lemma_effective_field_precedence(
    generic: SettingsView,
    node: SettingsView,
    profile: SettingsView,
    o: CmdOverrides,
)
    ensures
        merged_settings_view(generic, node, profile, o).ssh_user == opt_or(
            opt_view(o.ssh_user),
            opt_or(profile.ssh_user, opt_or(node.ssh_user, generic.ssh_user)),
        ),
        merged_settings_view(generic, node, profile, o).user == opt_or(
            opt_view(o.profile_user),
            opt_or(profile.user, opt_or(node.user, generic.user)),
        ),
        merged_settings_view(generic, node, profile, o).ssh_opts == opt_or(
            match o.ssh_opts {
                Some(s) => Some(spec_split(s@, ' ')),
                None => None,
            },
            opt_or(profile.ssh_opts, opt_or(node.ssh_opts, generic.ssh_opts)),
        ),
        merged_settings_view(generic, node, profile, o).fast_connection == opt_or(
            o.fast_connection,
            opt_or(profile.fast_connection, opt_or(node.fast_connection, generic.fast_connection)),
        ),
        merged_settings_view(generic, node, profile, o).auto_rollback == opt_or(
            o.auto_rollback,
            opt_or(profile.auto_rollback, opt_or(node.auto_rollback, generic.auto_rollback)),
        ),
        merged_settings_view(generic, node, profile, o).magic_rollback == opt_or(
            o.magic_rollback,
            opt_or(profile.magic_rollback, opt_or(node.magic_rollback, generic.magic_rollback)),
        ),
        merged_settings_view(generic, node, profile, o).confirm_timeout == opt_or(
            o.confirm_timeout,
            opt_or(
                profile.confirm_timeout,
                opt_or(node.confirm_timeout, generic.confirm_timeout),
            ),
        ),
        merged_settings_view(generic, node, profile, o).activation_timeout == opt_or(
            o.activation_timeout,
            opt_or(
                profile.activation_timeout,
                opt_or(node.activation_timeout, generic.activation_timeout),
            ),
        ),
        merged_settings_view(generic, node, profile, o).temp_path == opt_or(
            opt_view(o.temp_path),
            opt_or(profile.temp_path, opt_or(node.temp_path, generic.temp_path)),
        ),
        merged_settings_view(generic, node, profile, o).sudo == opt_or(
            opt_view(o.sudo),
            opt_or(profile.sudo, opt_or(node.sudo, generic.sudo)),
        ),
        merged_settings_view(generic, node, profile, o).interactive_sudo == opt_or(
            o.interactive_sudo,
            opt_or(
                profile.interactive_sudo,
                opt_or(node.interactive_sudo, generic.interactive_sudo),
            ),
        ),
        merged_settings_view(generic, node, profile, o).sudo_file == opt_or(
            opt_view(o.sudo_file),
            opt_or(profile.sudo_file, opt_or(node.sudo_file, generic.sudo_file)),
        ),
        merged_settings_view(generic, node, profile, o).sudo_secret == opt_or(
            opt_view(o.sudo_secret),
            opt_or(profile.sudo_secret, opt_or(node.sudo_secret, generic.sudo_secret)),
        ),
{
}

/// Everything one work item's deployment depends on, with the settings
/// hierarchy already collapsed.
pub struct DeployData {
    pub node_name: String,
    pub profile_name: String,
    pub hostname: String,
    pub closure: String,
    pub profile_path: Option<String>,
    pub merged_settings: GenericSettings,
    pub hostname_override: Option<String>,
    pub debug_logs: bool,
    pub log_dir: Option<String>,
}

/// Collapses the settings hierarchy for one (node, profile) work item and
/// gathers what its deployment needs.
pub fn make_deploy_data(
    generic: &GenericSettings,
    node: &Node,
    node_name: &str,
    profile: &Profile,
    profile_name: &str,
    overrides: &CmdOverrides,
    debug_logs: bool,
    log_dir: &Option<String>,
) -> (r: DeployData)
    ensures
        r.node_name@ == node_name@,
        r.profile_name@ == profile_name@,
        r.hostname@ == node.node_settings.hostname@,
        r.closure@ == profile.profile_settings.path@,
        opt_view(r.profile_path) == opt_view(profile.profile_settings.profile_path),
        r.merged_settings@ == merged_settings_view(
            generic@,
            node.generic_settings@,
            profile.generic_settings@,
            *overrides,
        ),
        opt_view(r.hostname_override) == opt_view(overrides.hostname),
        r.debug_logs == debug_logs,
        opt_view(r.log_dir) == opt_view(*log_dir),
{
    let merged = generic.override_with(&node.generic_settings).override_with(
        &profile.generic_settings,
    ).override_with(&overrides.as_settings());
    DeployData {
        node_name: node_name.to_owned(),
        profile_name: profile_name.to_owned(),
        hostname: node.node_settings.hostname.clone(),
        closure: profile.profile_settings.path.clone(),
        profile_path: clone_opt_string(&profile.profile_settings.profile_path),
        merged_settings: merged,
        hostname_override: clone_opt_string(&overrides.hostname),
        debug_logs,
        log_dir: clone_opt_string(log_dir),
    }
}

/// A work item is invalid when no profile user can be derived: neither a
/// profile `user` nor an `sshUser` is set anywhere in the hierarchy.
#[derive(Debug, PartialEq, Eq)]
pub enum DeployDataDefsError {
    NoProfileUser(String, String),
}

/// Values derived once per work item before pushing and activation.
pub struct DeployDefs {
    pub ssh_user: String,
    pub profile_user: String,
    pub sudo: Option<String>,
    pub sudo_password: Option<String>,
}

/// The profile user of a work item: the merged `user`, or failing that the
/// merged `sshUser`.
pub open spec fn profile_user_view(merged: SettingsView) -> Option<Seq<char>> {
    opt_or(merged.user, merged.ssh_user)
}

/// The user the SSH connection logs in as: the merged `sshUser`, defaulted
/// from the profile user.
pub open spec fn ssh_user_view(merged: SettingsView) -> Option<Seq<char>> {
    opt_or(merged.ssh_user, profile_user_view(merged))
}

/// The sudo prefix of a work item: when the profile user differs from the
/// SSH user, `<sudo command or "sudo"> -u <profile user>`; otherwise none.
pub open spec fn sudo_view(merged: SettingsView) -> Option<Seq<char>> {
    match (profile_user_view(merged), ssh_user_view(merged)) {
        (Some(pu), Some(su)) => if pu != su {
            Some(
                (match merged.sudo {
                    Some(c) => c,
                    None => "sudo"@,
                }) + " -u "@ + pu,
            )
        } else {
            None
        },
        _ => None,
    }
}

impl DeployData {
    /// Derives the per-item SSH user, profile user and sudo prefix. Fails
    /// exactly when neither a profile `user` nor an `sshUser` is set.
    pub fn defs(&self) -> (r: Result<DeployDefs, DeployDataDefsError>)
        ensures
            match r {
                Ok(defs) => {
                    &&& Some(defs.ssh_user@) == ssh_user_view(self.merged_settings@)
                    &&& Some(defs.profile_user@) == profile_user_view(self.merged_settings@)
                    &&& opt_view(defs.sudo) == sudo_view(self.merged_settings@)
                    &&& defs.sudo_password is None
                },
                Err(e) => {
                    &&& profile_user_view(self.merged_settings@) is None
                    &&& e matches DeployDataDefsError::NoProfileUser(n, p) && n@ == self.node_name@
                        && p@ == self.profile_name@
                },
            },
    {
        let profile_user: String = match &self.merged_settings.user {
            Some(u) => u.clone(),
            None => match &self.merged_settings.ssh_user {
                Some(u) => u.clone(),
                None => {
                    return Err(
                        DeployDataDefsError::NoProfileUser(
                            self.node_name.clone(),
                            self.profile_name.clone(),
                        ),
                    );
                },
            },
        };
        let ssh_user: String = match &self.merged_settings.ssh_user {
            Some(u) => u.clone(),
            None => profile_user.clone(),
        };
        let sudo: Option<String> = if !ssh_user.eq(&profile_user) {
            let mut c: String = match &self.merged_settings.sudo {
                Some(s) => s.clone(),
                None => "sudo".to_owned(),
            };
            c.append(" -u ");
            c.append(profile_user.as_str());
            Some(c)
        } else {
            None
        };
        Ok(DeployDefs { ssh_user, profile_user, sudo, sudo_password: None })
    }

    /// The profile selector for the on-target binary: the configured profile
    /// path when one is set, otherwise the (profile user, profile name) pair.
    pub fn get_profile_info(&self) -> (r: Result<ProfileInfo, DeployDataDefsError>)
        ensures
            match r {
                Ok(info) => match info {
                    ProfileInfo::ProfilePath { profile_path } => opt_view(self.profile_path)
                        == Some(profile_path@),
                    ProfileInfo::ProfileUserAndName { profile_user, profile_name } => {
                        &&& self.profile_path is None
                        &&& Some(profile_user@) == profile_user_view(self.merged_settings@)
                        &&& profile_name@ == self.profile_name@
                    },
                },
                Err(e) => {
                    &&& self.profile_path is None
                    &&& profile_user_view(self.merged_settings@) is None
                    &&& e matches DeployDataDefsError::NoProfileUser(n, p) && n@
                        == self.node_name@ && p@ == self.profile_name@
                },
            },
    {
        match &self.profile_path {
            Some(p) => Ok(ProfileInfo::ProfilePath { profile_path: p.clone() }),
            None => {
                let defs = self.defs()?;
                Ok(
                    ProfileInfo::ProfileUserAndName {
                        profile_user: defs.profile_user,
                        profile_name: self.profile_name.clone(),
                    },
                )
            },
        }
    }

    /// Whether the orchestrator must feed the sudo password to each spawned
    /// SSH child: interactive sudo is enabled or a sudo secret is configured.
    pub fn wants_sudo_stdin(&self) -> (r: bool)
        ensures
            r == (self.merged_settings@.interactive_sudo == Some(true)
                || self.merged_settings@.sudo_secret is Some),
    {
        let interactive = match &self.merged_settings.interactive_sudo {
            Some(b) => *b,
            None => false,
        };
        interactive || self.merged_settings.sudo_secret.is_some()
    }
}

/// Where the sudo password of a work item comes from.
#[derive(Debug, PartialEq, Eq)]
pub enum PasswordSource {
    /// Interactive sudo: ask on the controlling terminal.
    Prompt,
    /// Decrypt the file and walk the key path in the secret store.
    SopsFile(String, String),
    /// No password is configured.
    NoPassword,
}

/// Decides where the sudo password comes from: the interactive prompt when
/// interactive sudo is on, else the secret store when both its file and its
/// key are set, else nowhere.
pub fn password_source(merged: &GenericSettings) -> (r: PasswordSource)
    ensures
        merged@.interactive_sudo == Some(true) ==> r == PasswordSource::Prompt,
        merged@.interactive_sudo != Some(true) ==> match (
            merged@.sudo_file,
            merged@.sudo_secret,
        ) {
            (Some(f), Some(k)) => r matches PasswordSource::SopsFile(file, key) && file@ == f
                && key@ == k,
            _ => r == PasswordSource::NoPassword,
        },
{
    let interactive = match &merged.interactive_sudo {
        Some(b) => *b,
        None => false,
    };
    if interactive {
        PasswordSource::Prompt
    } else {
        match (&merged.sudo_file, &merged.sudo_secret) {
            (Some(f), Some(k)) => PasswordSource::SopsFile(f.clone(), k.clone()),
            _ => PasswordSource::NoPassword,
        }
    }
}

/// The sudo prefix after password plumbing is decided: a custom sudo command
/// combined with interactive sudo or a sudo secret is kept verbatim (the
/// caller warns); otherwise the prefix, defaulted to `sudo`, is extended with
/// `-S -p ""` so the target reads the password silently from stdin.
pub open spec fn final_sudo_view(defs_sudo: Option<Seq<char>>, merged: SettingsView) -> Option<
    Seq<char>,
> {
    if merged.sudo is Some && (merged.interactive_sudo is Some || merged.sudo_secret is Some) {
        defs_sudo
    } else {
        Some(
            (match defs_sudo {
                Some(s) => s,
                None => "sudo"@,
            }) + " -S -p \"\""@,
        )
    }
}

/// Applies the stdin-password wrapping to the derived sudo prefix; returns
/// true when a custom sudo command was kept verbatim and a warning is owed.
pub fn finalize_sudo(defs: &mut DeployDefs, merged: &GenericSettings) -> (warn: bool)
    ensures
        opt_view(final(defs).sudo) == final_sudo_view(opt_view(old(defs).sudo), merged@),
        final(defs).ssh_user@ == old(defs).ssh_user@,
        final(defs).profile_user@ == old(defs).profile_user@,
        final(defs).sudo_password == old(defs).sudo_password,
        warn == (merged@.sudo is Some && (merged@.interactive_sudo is Some
            || merged@.sudo_secret is Some)),
{
    if merged.sudo.is_some() && (merged.interactive_sudo.is_some() || merged.sudo_secret.is_some())
    {
        true
    } else {
        let mut c: String = match &defs.sudo {
            Some(s) => s.clone(),
            None => "sudo".to_owned(),
        };
        c.append(" -S -p \"\"");
        defs.sudo = Some(c);
        false
    }
}

/// The bytes fed to a spawned SSH child's stdin so the remote `sudo -S` can
/// read the password: the password, or nothing, followed by a newline.
pub open spec fn sudo_stdin_view(password: Option<Seq<char>>) -> Seq<char> {
    (match password {
        Some(p) => p,
        None => Seq::<char>::empty(),
    }) + "\n"@
}

/// Builds the stdin payload carrying the sudo password to a spawned child.
pub fn sudo_stdin_payload(defs: &DeployDefs) -> (r: String)
    ensures
        r@ == sudo_stdin_view(opt_view(defs.sudo_password)),
{
    let mut p: String = match &defs.sudo_password {
        Some(s) => s.clone(),
        None => String::new(),
    };
    p.append("\n");
    proof {
        assert(p@ =~= sudo_stdin_view(opt_view(defs.sudo_password)));
    }
    p
}

} // verus!
