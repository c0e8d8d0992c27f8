use deploy_rs::build_check_command;
use deploy_rs::build_eval_apply_expr;
use deploy_rs::build_eval_command;
use deploy_rs::step;
use deploy_rs::DeployEvent;
use deploy_rs::DeployProfileError;
use deploy_rs::DeployState;
use deploy_rs::GetDeploymentDataError;

#[test]
fn eval_expr_narrows_node_and_profile() {
    let expr = build_eval_apply_expr(&Some("web".to_string()), &Some("system".to_string()))
        .unwrap();
    assert!(expr.contains("\"web\" = deploy.nodes.\"web\" // {"));
    assert!(expr.contains("inherit (deploy.nodes.\"web\".profiles) \"system\";"));
}

#[test]
fn eval_expr_narrows_node_only() {
    let expr = build_eval_apply_expr(&Some("web".to_string()), &None).unwrap();
    assert!(expr.contains("inherit (deploy.nodes) \"web\";"));
}

#[test]
fn eval_expr_without_selector_is_identity() {
    let expr = build_eval_apply_expr(&None, &None).unwrap();
    assert_eq!(expr, "deploy: deploy");
}

#[test]
fn eval_expr_profile_without_node_is_refused() {
    let err = build_eval_apply_expr(&None, &Some("system".to_string())).unwrap_err();
    assert!(matches!(err, GetDeploymentDataError::ProfileNoNode));
}

#[test]
fn eval_command_with_flakes() {
    let args = build_eval_command(true, ".", &None, &None).unwrap();
    assert_eq!(args[0], "eval");
    assert_eq!(args[1], "--json");
    assert_eq!(args[2], ".#deploy");
    assert_eq!(args[3], "--apply");
    assert_eq!(args[4], "deploy: deploy");
}

#[test]
fn eval_command_without_flakes() {
    let args = build_eval_command(false, "./repo", &None, &None).unwrap();
    assert_eq!(
        args,
        vec![
            "--strict".to_string(),
            "--read-write-mode".to_string(),
            "--json".to_string(),
            "--eval".to_string(),
            "-E".to_string(),
            "let r = import ./repo/.; in if builtins.isFunction r then (r {}).deploy else r.deploy"
                .to_string(),
        ]
    );
}

#[test]
fn check_command_shapes() {
    assert_eq!(
        build_check_command(true, "."),
        vec!["flake".to_string(), "check".to_string(), ".".to_string()]
    );
    assert_eq!(
        build_check_command(false, "."),
        vec![
            "-E".to_string(),
            "--no-out-link".to_string(),
            "let r = import ./.; x = (if builtins.isFunction r then (r {}) else r); in if x ? checks then x.checks.${builtins.currentSystem} else {}"
                .to_string(),
        ]
    );
}

#[test]
fn missing_stdin_pipe_fails_activation() {
    let (s, _) = step(
        DeployState::SimpleActivating,
        DeployEvent::SudoPipeMissing {
            message: "Failed to open stdin for sudo command".to_string(),
        },
    );
    assert_eq!(
        s,
        DeployState::Failed {
            error: DeployProfileError::SSHActivatePipe(
                "Failed to open stdin for sudo command".to_string()
            )
        }
    );
}

#[test]
fn spawn_failure_is_surfaced() {
    let (s, _) = step(
        DeployState::MagicActivating,
        DeployEvent::ActivateSpawnFailed {
            message: "No such file or directory".to_string(),
        },
    );
    assert_eq!(
        s,
        DeployState::Failed {
            error: DeployProfileError::SSHSpawnActivate("No such file or directory".to_string())
        }
    );
}
