use deploy_rs::build_activate_command;
use deploy_rs::build_confirm_command;
use deploy_rs::build_revoke_command;
use deploy_rs::build_wait_command;
use deploy_rs::make_lock_path;
use deploy_rs::ActivateCommandData;
use deploy_rs::ProfileInfo;
use deploy_rs::RevokeCommandData;
use deploy_rs::WaitCommandData;

#[test]
fn test_activation_command_builder() {
    let sudo = Some("sudo -u test".to_string());
    let profile_info = ProfileInfo::ProfilePath {
        profile_path: "/blah/profiles/test".to_string(),
    };
    let closure = "/nix/store/blah/etc".to_string();
    let auto_rollback = true;
    let dry_activate = false;
    let boot = false;
    let temp_path = "/tmp".to_string();
    let confirm_timeout = 30;
    let magic_rollback = true;
    let debug_logs = true;
    let log_dir = Some("/tmp/something.txt".to_string());

    assert_eq!(
        build_activate_command(&ActivateCommandData {
            sudo,
            profile_info,
            closure,
            auto_rollback,
            temp_path,
            confirm_timeout,
            magic_rollback,
            debug_logs,
            log_dir,
            dry_activate,
            boot,
        }),
        "sudo -u test /nix/store/blah/etc/activate-rs --debug-logs --log-dir /tmp/something.txt activate '/nix/store/blah/etc' --profile-path '/blah/profiles/test' --temp-path '/tmp' --confirm-timeout 30 --magic-rollback --auto-rollback"
            .to_string(),
    );
}

#[test]
fn test_wait_command_builder() {
    let sudo = Some("sudo -u test".to_string());
    let closure = "/nix/store/blah/etc".to_string();
    let temp_path = "/tmp".to_string();
    let activation_timeout = Some(600);
    let debug_logs = true;
    let log_dir = Some("/tmp/something.txt".to_string());

    assert_eq!(
        build_wait_command(&WaitCommandData {
            sudo,
            closure,
            temp_path,
            activation_timeout,
            debug_logs,
            log_dir,
        }),
        "sudo -u test /nix/store/blah/etc/activate-rs --debug-logs --log-dir /tmp/something.txt wait '/nix/store/blah/etc' --temp-path '/tmp' --activation-timeout 600"
            .to_string(),
    );
}

#[test]
fn test_revoke_command_builder() {
    let sudo = Some("sudo -u test".to_string());
    let closure = "/nix/store/blah/etc".to_string();
    let profile_info = ProfileInfo::ProfilePath {
        profile_path: "/nix/var/nix/per-user/user/profile".to_string(),
    };
    let debug_logs = true;
    let log_dir = Some("/tmp/something.txt".to_string());

    assert_eq!(
        build_revoke_command(&RevokeCommandData {
            sudo,
            closure,
            profile_info,
            debug_logs,
            log_dir,
        }),
        "sudo -u test /nix/store/blah/etc/activate-rs --debug-logs --log-dir /tmp/something.txt revoke --profile-path '/nix/var/nix/per-user/user/profile'"
            .to_string(),
    );
}

#[test]
fn lock_path_sanitizes_closure() {
    let lock = make_lock_path("/tmp", "/nix/store/abc123-etc");
    assert_eq!(lock, "/tmp/deploy-rs-canary-_nix_store_abc123-etc".to_string());
}

#[test]
fn confirm_command_removes_lock() {
    let lock = make_lock_path("/tmp", "/nix/store/abc123-etc");
    let cmd = build_confirm_command(&Some("sudo -u test -S -p \"\"".to_string()), &lock);
    assert_eq!(
        cmd,
        "sudo -u test -S -p \"\" rm /tmp/deploy-rs-canary-_nix_store_abc123-etc".to_string()
    );
    let plain = build_confirm_command(&None, &lock);
    assert_eq!(plain, "rm /tmp/deploy-rs-canary-_nix_store_abc123-etc".to_string());
}

#[test]
fn timeouts_render_in_decimal() {
    let cmd = build_wait_command(&WaitCommandData {
        sudo: None,
        closure: "/c".to_string(),
        temp_path: "/t".to_string(),
        activation_timeout: Some(65535),
        debug_logs: false,
        log_dir: None,
    });
    assert_eq!(
        cmd,
        "/c/activate-rs wait '/c' --temp-path '/t' --activation-timeout 65535".to_string()
    );
    let cmd = build_activate_command(&ActivateCommandData {
        sudo: None,
        profile_info: ProfileInfo::ProfileUserAndName {
            profile_user: "deploy".to_string(),
            profile_name: "system".to_string(),
        },
        closure: "/c".to_string(),
        auto_rollback: false,
        temp_path: "/t".to_string(),
        confirm_timeout: 0,
        magic_rollback: false,
        debug_logs: false,
        log_dir: None,
        dry_activate: false,
        boot: true,
    });
    assert_eq!(
        cmd,
        "/c/activate-rs activate '/c' --profile-user deploy --profile-name system --temp-path '/t' --confirm-timeout 0 --boot"
            .to_string()
    );
}
