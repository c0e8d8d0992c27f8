use deploy_rs::initial_state;
use deploy_rs::make_activation_plan;
use deploy_rs::make_deploy_data;
use deploy_rs::make_revoke_plan;
use deploy_rs::step;
use deploy_rs::ActivateFailure;
use deploy_rs::CmdOverrides;
use deploy_rs::DeployAction;
use deploy_rs::DeployEvent;
use deploy_rs::DeployProfileError;
use deploy_rs::DeployState;
use deploy_rs::GenericSettings;
use deploy_rs::Node;
use deploy_rs::NodeSettings;
use deploy_rs::Profile;
use deploy_rs::ProfileSettings;

fn no_overrides() -> CmdOverrides {
    CmdOverrides {
        ssh_user: None,
        profile_user: None,
        ssh_opts: None,
        fast_connection: None,
        compress: None,
        auto_rollback: None,
        hostname: None,
        magic_rollback: None,
        temp_path: None,
        confirm_timeout: None,
        activation_timeout: None,
        dry_activate: false,
        remote_build: false,
        sudo: None,
        interactive_sudo: None,
        sudo_file: None,
        sudo_secret: None,
    }
}

fn example_data() -> deploy_rs::DeployData {
    let mut generic = GenericSettings::unset();
    generic.ssh_user = Some("admin".to_string());
    let node = Node {
        node_settings: NodeSettings {
            hostname: "host.example".to_string(),
            profiles: vec![],
            profiles_order: vec![],
        },
        generic_settings: GenericSettings::unset(),
    };
    let profile = Profile {
        profile_settings: ProfileSettings {
            path: "/nix/store/abc-system".to_string(),
            profile_path: Some("/nix/var/nix/profiles/system".to_string()),
        },
        generic_settings: GenericSettings::unset(),
    };
    make_deploy_data(
        &generic,
        &node,
        "n",
        &profile,
        "system",
        &no_overrides(),
        false,
        &None,
    )
}

#[test]
fn magic_handshake_completes_and_confirm_removes_lock() {
    let data = example_data();
    let defs = data.defs().unwrap();
    let plan = make_activation_plan(&data, &defs, false, false).unwrap();
    assert!(plan.magic);
    assert_eq!(plan.ssh_addr, "admin@host.example");
    assert!(plan
        .confirm_cmd
        .contains("rm /tmp/deploy-rs-canary-_nix_store_abc-system"));

    let s0 = initial_state(plan.magic);
    assert_eq!(s0, DeployState::MagicActivating);
    let (s1, a1) = step(s0, DeployEvent::WaitSpawned);
    assert_eq!(s1, DeployState::Racing);
    assert_eq!(a1, DeployAction::AwaitRace);
    // The fake activate exits 0 first; the race goes on.
    let (s2, a2) = step(
        s1,
        DeployEvent::ActivateEndedFirst {
            failure: ActivateFailure::Exit { code: Some(0) },
        },
    );
    assert_eq!(s2, DeployState::Racing);
    assert_eq!(a2, DeployAction::Ignore);
    // The fake wait exits 0: confirm is spawned.
    let (s3, a3) = step(s2, DeployEvent::WaitExited { code: Some(0) });
    assert_eq!(s3, DeployState::Confirming);
    assert_eq!(a3, DeployAction::SpawnConfirm);
    let (s4, a4) = step(s3, DeployEvent::ConfirmExited { code: Some(0) });
    assert_eq!(s4, DeployState::Joining { pending: None });
    assert_eq!(a4, DeployAction::JoinActivate);
    let (s5, a5) = step(s4, DeployEvent::ActivateJoined);
    assert_eq!(s5, DeployState::Done);
    assert_eq!(a5, DeployAction::Succeed);
}

#[test]
fn activate_error_during_race_surfaces_and_never_confirms() {
    let s0 = DeployState::Racing;
    let (s1, a1) = step(
        s0,
        DeployEvent::ActivateEndedFirst {
            failure: ActivateFailure::Exit { code: Some(2) },
        },
    );
    assert_eq!(
        s1,
        DeployState::Failed {
            error: DeployProfileError::SSHActivateExit(Some(2))
        }
    );
    assert_eq!(a1, DeployAction::Fail);
    // Later events are ignored: no confirm is ever spawned.
    let (s2, a2) = step(s1, DeployEvent::WaitExited { code: Some(0) });
    assert_eq!(
        s2,
        DeployState::Failed {
            error: DeployProfileError::SSHActivateExit(Some(2))
        }
    );
    assert_eq!(a2, DeployAction::Ignore);
}

#[test]
fn simple_path_succeeds_on_exit_zero() {
    let data = example_data();
    let defs = data.defs().unwrap();
    // A dry activation takes the simple path.
    let plan = make_activation_plan(&data, &defs, true, false).unwrap();
    assert!(!plan.magic);
    assert!(plan.activate_cmd.contains(" --dry-activate"));
    let s0 = initial_state(plan.magic);
    assert_eq!(s0, DeployState::SimpleActivating);
    let (s1, a1) = step(s0, DeployEvent::ActivateExited { code: Some(0) });
    assert_eq!(s1, DeployState::Done);
    assert_eq!(a1, DeployAction::Succeed);
}

#[test]
fn simple_path_fails_on_bad_exit() {
    let (s1, a1) = step(
        DeployState::SimpleActivating,
        DeployEvent::ActivateExited { code: Some(3) },
    );
    assert_eq!(
        s1,
        DeployState::Failed {
            error: DeployProfileError::SSHActivateExit(Some(3))
        }
    );
    assert_eq!(a1, DeployAction::Fail);
}

#[test]
fn wait_failure_beats_confirmation() {
    let (s1, _) = step(DeployState::Racing, DeployEvent::WaitExited { code: None });
    assert_eq!(
        s1,
        DeployState::Failed {
            error: DeployProfileError::SSHWaitExit(None)
        }
    );
}

#[test]
fn confirm_failure_is_surfaced_after_join() {
    let (s1, a1) = step(
        DeployState::Confirming,
        DeployEvent::ConfirmExited { code: Some(1) },
    );
    assert_eq!(a1, DeployAction::JoinActivate);
    let (s2, a2) = step(s1, DeployEvent::ActivateJoined);
    assert_eq!(
        s2,
        DeployState::Failed {
            error: DeployProfileError::Confirm(deploy_rs::ConfirmProfileError::SSHConfirmExit(
                Some(1)
            ))
        }
    );
    assert_eq!(a2, DeployAction::Fail);
}

#[test]
fn plan_builds_exact_commands() {
    let data = example_data();
    let defs = data.defs().unwrap();
    let plan = make_activation_plan(&data, &defs, false, false).unwrap();
    assert_eq!(
        plan.activate_cmd,
        "/nix/store/abc-system/activate-rs activate '/nix/store/abc-system' --profile-path '/nix/var/nix/profiles/system' --temp-path '/tmp' --confirm-timeout 30 --magic-rollback --auto-rollback"
    );
    assert_eq!(
        plan.wait_cmd,
        "/nix/store/abc-system/activate-rs wait '/nix/store/abc-system' --temp-path '/tmp'"
    );
    assert!(!plan.feed_sudo);
    assert_eq!(plan.stdin_payload, "\n");

    let revoke = make_revoke_plan(&data, &defs).unwrap();
    assert_eq!(
        revoke.revoke_cmd,
        "/nix/store/abc-system/activate-rs revoke --profile-path '/nix/var/nix/profiles/system'"
    );
    assert_eq!(revoke.ssh_addr, "admin@host.example");
}

#[test]
fn hostname_override_wins() {
    let mut overrides = no_overrides();
    overrides.hostname = Some("10.0.0.1".to_string());
    let mut generic = GenericSettings::unset();
    generic.ssh_user = Some("admin".to_string());
    let node = Node {
        node_settings: NodeSettings {
            hostname: "host.example".to_string(),
            profiles: vec![],
            profiles_order: vec![],
        },
        generic_settings: GenericSettings::unset(),
    };
    let profile = Profile {
        profile_settings: ProfileSettings {
            path: "/nix/store/abc-system".to_string(),
            profile_path: Some("/p".to_string()),
        },
        generic_settings: GenericSettings::unset(),
    };
    let data = make_deploy_data(
        &generic, &node, "n", &profile, "system", &overrides, false, &None,
    );
    let defs = data.defs().unwrap();
    let plan = make_activation_plan(&data, &defs, false, false).unwrap();
    assert_eq!(plan.ssh_addr, "admin@10.0.0.1");
}
