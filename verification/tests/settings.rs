use deploy_rs::finalize_sudo;
use deploy_rs::make_deploy_data;
use deploy_rs::password_source;
use deploy_rs::PasswordSource;
use deploy_rs::sudo_stdin_payload;
use deploy_rs::CmdOverrides;
use deploy_rs::GenericSettings;
use deploy_rs::Node;
use deploy_rs::NodeSettings;
use deploy_rs::Profile;
use deploy_rs::ProfileSettings;

fn no_overrides() -> CmdOverrides {
    CmdOverrides {
        ssh_user: None,
        profile_user: None,
        ssh_opts: None,
        fast_connection: None,
        compress: None,
        auto_rollback: None,
        hostname: None,
        magic_rollback: None,
        temp_path: None,
        confirm_timeout: None,
        activation_timeout: None,
        dry_activate: false,
        remote_build: false,
        sudo: None,
        interactive_sudo: None,
        sudo_file: None,
        sudo_secret: None,
    }
}

fn bare_node(generic: GenericSettings) -> Node {
    Node {
        node_settings: NodeSettings {
            hostname: "host.example".to_string(),
            profiles: vec![],
            profiles_order: vec![],
        },
        generic_settings: generic,
    }
}

fn bare_profile(generic: GenericSettings) -> Profile {
    Profile {
        profile_settings: ProfileSettings {
            path: "/nix/store/xyz".to_string(),
            profile_path: None,
        },
        generic_settings: generic,
    }
}

fn merged_with(
    generic: GenericSettings,
    node_over: GenericSettings,
    profile_over: GenericSettings,
    overrides: &CmdOverrides,
) -> GenericSettings {
    let node = bare_node(node_over);
    let profile = bare_profile(profile_over);
    let data = make_deploy_data(
        &generic, &node, "n", &profile, "p", overrides, false, &None,
    );
    data.merged_settings
}

#[test]
fn each_level_overrides_the_one_below() {
    let mut generic = GenericSettings::unset();
    generic.ssh_user = Some("generic".to_string());
    generic.confirm_timeout = Some(10);
    generic.temp_path = Some("/g".to_string());

    let mut node_over = GenericSettings::unset();
    node_over.ssh_user = Some("node".to_string());
    node_over.confirm_timeout = Some(20);

    let mut profile_over = GenericSettings::unset();
    profile_over.ssh_user = Some("profile".to_string());

    let mut overrides = no_overrides();
    overrides.ssh_user = Some("cli".to_string());

    let merged = merged_with(generic, node_over, profile_over, &overrides);
    assert_eq!(merged.ssh_user.as_deref(), Some("cli"));
    assert_eq!(merged.confirm_timeout, Some(20));
    assert_eq!(merged.temp_path.as_deref(), Some("/g"));
}

#[test]
fn unset_levels_fall_through() {
    let mut generic = GenericSettings::unset();
    generic.user = Some("root".to_string());
    let merged = merged_with(
        generic,
        GenericSettings::unset(),
        GenericSettings::unset(),
        &no_overrides(),
    );
    assert_eq!(merged.user.as_deref(), Some("root"));
    assert_eq!(merged.ssh_user, None);
    assert_eq!(merged.magic_rollback, None);
}

#[test]
fn ssh_opts_taken_wholesale_and_split() {
    let mut generic = GenericSettings::unset();
    generic.ssh_opts = Some(vec!["-i".to_string(), "key".to_string()]);
    let mut node_over = GenericSettings::unset();
    node_over.ssh_opts = Some(vec!["-p".to_string(), "2222".to_string()]);

    let merged = merged_with(
        generic.duplicate(),
        node_over,
        GenericSettings::unset(),
        &no_overrides(),
    );
    assert_eq!(
        merged.ssh_opts,
        Some(vec!["-p".to_string(), "2222".to_string()])
    );

    let mut overrides = no_overrides();
    overrides.ssh_opts = Some("-o StrictHostKeyChecking=no".to_string());
    let merged = merged_with(
        generic,
        GenericSettings::unset(),
        GenericSettings::unset(),
        &overrides,
    );
    assert_eq!(
        merged.ssh_opts,
        Some(vec![
            "-o".to_string(),
            "StrictHostKeyChecking=no".to_string()
        ])
    );
}

#[test]
fn defs_derive_users_and_sudo() {
    let mut generic = GenericSettings::unset();
    generic.user = Some("root".to_string());
    generic.ssh_user = Some("admin".to_string());
    let node = bare_node(GenericSettings::unset());
    let profile = bare_profile(GenericSettings::unset());
    let data = make_deploy_data(
        &generic, &node, "n", &profile, "p", &no_overrides(), false, &None,
    );
    let defs = data.defs().unwrap();
    assert_eq!(defs.profile_user, "root");
    assert_eq!(defs.ssh_user, "admin");
    assert_eq!(defs.sudo.as_deref(), Some("sudo -u root"));
    assert_eq!(defs.sudo_password, None);
}

#[test]
fn defs_without_any_user_fail() {
    let node = bare_node(GenericSettings::unset());
    let profile = bare_profile(GenericSettings::unset());
    let data = make_deploy_data(
        &GenericSettings::unset(),
        &node,
        "n",
        &profile,
        "p",
        &no_overrides(),
        false,
        &None,
    );
    assert!(data.defs().is_err());
}

#[test]
fn matching_users_need_no_sudo() {
    let mut generic = GenericSettings::unset();
    generic.user = Some("admin".to_string());
    generic.ssh_user = Some("admin".to_string());
    let node = bare_node(GenericSettings::unset());
    let profile = bare_profile(GenericSettings::unset());
    let data = make_deploy_data(
        &generic, &node, "n", &profile, "p", &no_overrides(), false, &None,
    );
    let defs = data.defs().unwrap();
    assert_eq!(defs.sudo, None);
}

#[test]
fn sudo_wrapping_adds_stdin_flags() {
    let mut generic = GenericSettings::unset();
    generic.user = Some("root".to_string());
    generic.ssh_user = Some("admin".to_string());
    let node = bare_node(GenericSettings::unset());
    let profile = bare_profile(GenericSettings::unset());
    let data = make_deploy_data(
        &generic, &node, "n", &profile, "p", &no_overrides(), false, &None,
    );
    let mut defs = data.defs().unwrap();
    let warned = finalize_sudo(&mut defs, &data.merged_settings);
    assert!(!warned);
    assert_eq!(defs.sudo.as_deref(), Some("sudo -u root -S -p \"\""));
}

#[test]
fn custom_sudo_with_secret_stays_verbatim() {
    let mut generic = GenericSettings::unset();
    generic.user = Some("root".to_string());
    generic.ssh_user = Some("admin".to_string());
    generic.sudo = Some("doas".to_string());
    generic.sudo_secret = Some("a/b".to_string());
    let node = bare_node(GenericSettings::unset());
    let profile = bare_profile(GenericSettings::unset());
    let data = make_deploy_data(
        &generic, &node, "n", &profile, "p", &no_overrides(), false, &None,
    );
    let mut defs = data.defs().unwrap();
    let warned = finalize_sudo(&mut defs, &data.merged_settings);
    assert!(warned);
    assert_eq!(defs.sudo.as_deref(), Some("doas -u root"));
}

#[test]
fn stdin_payload_carries_password_and_newline() {
    let mut generic = GenericSettings::unset();
    generic.user = Some("root".to_string());
    let node = bare_node(GenericSettings::unset());
    let profile = bare_profile(GenericSettings::unset());
    let data = make_deploy_data(
        &generic, &node, "n", &profile, "p", &no_overrides(), false, &None,
    );
    let mut defs = data.defs().unwrap();
    assert_eq!(sudo_stdin_payload(&defs), "\n");
    defs.sudo_password = Some("hunter2".to_string());
    assert_eq!(sudo_stdin_payload(&defs), "hunter2\n");
}

#[test]
fn password_source_decision() {
    let mut s = GenericSettings::unset();
    assert_eq!(password_source(&s), PasswordSource::NoPassword);
    s.sudo_file = Some("/secrets.yaml".to_string());
    assert_eq!(password_source(&s), PasswordSource::NoPassword);
    s.sudo_secret = Some("a/b".to_string());
    assert_eq!(
        password_source(&s),
        PasswordSource::SopsFile("/secrets.yaml".to_string(), "a/b".to_string())
    );
    s.interactive_sudo = Some(true);
    assert_eq!(password_source(&s), PasswordSource::Prompt);
}
