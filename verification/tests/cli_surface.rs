use deploy_rs::first_answer_step;
use deploy_rs::parse_flake;
use deploy_rs::second_answer_step;
use deploy_rs::Opts;
use deploy_rs::PromptStep;

fn bare_opts() -> Opts {
    Opts {
        target: None,
        targets: None,
        file: None,
        checksigs: false,
        interactive: false,
        extra_build_args: vec![],
        debug_logs: false,
        log_dir: None,
        keep_result: false,
        result_path: None,
        skip_checks: false,
        remote_build: false,
        ssh_user: None,
        profile_user: None,
        ssh_opts: None,
        compress: None,
        fast_connection: None,
        auto_rollback: None,
        hostname: None,
        magic_rollback: None,
        confirm_timeout: None,
        activation_timeout: None,
        temp_path: None,
        dry_activate: false,
        boot: false,
        rollback_succeeded: None,
        sudo: None,
        interactive_sudo: None,
        sudo_file: None,
        sudo_secret: None,
    }
}

#[test]
fn flake_with_node_and_profile() {
    let f = parse_flake("github:owner/repo#mynode.myprofile");
    assert_eq!(f.repo, "github:owner/repo");
    assert_eq!(f.node.as_deref(), Some("mynode"));
    assert_eq!(f.profile.as_deref(), Some("myprofile"));
}

#[test]
fn flake_with_node_only() {
    let f = parse_flake(".#example");
    assert_eq!(f.repo, ".");
    assert_eq!(f.node.as_deref(), Some("example"));
    assert_eq!(f.profile, None);
}

#[test]
fn flake_without_fragment() {
    let f = parse_flake("../deploy/examples/system");
    assert_eq!(f.repo, "../deploy/examples/system");
    assert_eq!(f.node, None);
    assert_eq!(f.profile, None);
}

#[test]
fn target_list_defaults() {
    let mut opts = bare_opts();
    assert_eq!(opts.deploy_targets(), vec![".".to_string()]);
    opts.target = Some(".#node".to_string());
    assert_eq!(opts.deploy_targets(), vec![".#node".to_string()]);
    opts.targets = Some(vec!["a".to_string(), "b".to_string()]);
    assert_eq!(
        opts.deploy_targets(),
        vec!["a".to_string(), "b".to_string()]
    );
}

#[test]
fn overrides_carry_option_values() {
    let mut opts = bare_opts();
    opts.ssh_user = Some("admin".to_string());
    opts.confirm_timeout = Some(77);
    opts.dry_activate = true;
    let overrides = opts.to_cmd_overrides();
    assert_eq!(overrides.ssh_user.as_deref(), Some("admin"));
    assert_eq!(overrides.confirm_timeout, Some(77));
    assert!(overrides.dry_activate);
    assert_eq!(overrides.hostname, None);
}

#[test]
fn clear_yes_proceeds() {
    assert_eq!(first_answer_step("yes\n"), PromptStep::Proceed);
    assert_eq!(second_answer_step("yes\n"), PromptStep::Proceed);
}

#[test]
fn leaning_yes_is_asked_again() {
    assert_eq!(
        first_answer_step("this has a y so it is the word"),
        PromptStep::AskAgain
    );
}

#[test]
fn clear_no_cancels_without_hint() {
    assert_eq!(
        first_answer_step("no"),
        PromptStep::Cancel {
            unclear_hint: false
        }
    );
}

#[test]
fn unclear_answer_cancels_with_hint() {
    assert_eq!(
        first_answer_step("bananas"),
        PromptStep::Cancel { unclear_hint: true }
    );
}

#[test]
fn second_answer_never_reprompts() {
    assert_eq!(
        second_answer_step("this has a y so it is the word"),
        PromptStep::Cancel {
            unclear_hint: false
        }
    );
}

#[test]
fn fragment_splits_at_first_dot_only() {
    let f = parse_flake("repo#node.prof.extra");
    assert_eq!(f.repo, "repo");
    assert_eq!(f.node.as_deref(), Some("node"));
    assert_eq!(f.profile.as_deref(), Some("prof.extra"));
}

#[test]
fn empty_fragment_is_an_empty_node() {
    let f = parse_flake("repo#");
    assert_eq!(f.repo, "repo");
    assert_eq!(f.node.as_deref(), Some(""));
    assert_eq!(f.profile, None);
}
