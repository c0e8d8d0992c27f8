use deploy_rs::decide_batch;
use deploy_rs::BatchItem;
use deploy_rs::DeployProfileError;
use deploy_rs::ItemOutcome;
use deploy_rs::RunDeployError;

fn item(node: &str, auto_rollback: bool) -> BatchItem {
    BatchItem {
        node_name: node.to_string(),
        auto_rollback,
    }
}

fn failure() -> ItemOutcome {
    ItemOutcome::Failed(DeployProfileError::SSHActivateExit(Some(1)))
}

#[test]
fn all_successes_keep_order_and_revoke_nothing() {
    let items = vec![item("i1", true), item("i2", true), item("i3", true)];
    let outcomes = vec![
        ItemOutcome::Succeeded,
        ItemOutcome::Succeeded,
        ItemOutcome::Succeeded,
    ];
    let decision = decide_batch(&items, outcomes, false, true, true);
    assert_eq!(decision.succeeded, vec![0, 1, 2]);
    assert!(decision.revoke.is_empty());
    assert!(decision.error.is_none());
}

#[test]
fn failure_revokes_succeeded_prefix_once() {
    let items = vec![item("i1", true), item("i2", true), item("i3", true)];
    let outcomes = vec![ItemOutcome::Succeeded, failure(), ItemOutcome::Succeeded];
    let decision = decide_batch(&items, outcomes, false, true, true);
    assert_eq!(decision.succeeded, vec![0]);
    assert_eq!(decision.revoke, vec![0]);
    match decision.error {
        Some(RunDeployError::Rollback(node)) => assert_eq!(node, "i2"),
        other => panic!("unexpected error: {:?}", other),
    }
}

#[test]
fn revoke_respects_per_item_auto_rollback() {
    let items = vec![
        item("i1", true),
        item("i2", false),
        item("i3", true),
        item("i4", true),
    ];
    let outcomes = vec![
        ItemOutcome::Succeeded,
        ItemOutcome::Succeeded,
        ItemOutcome::Succeeded,
        failure(),
    ];
    let decision = decide_batch(&items, outcomes, false, true, true);
    assert_eq!(decision.succeeded, vec![0, 1, 2]);
    assert_eq!(decision.revoke, vec![0, 2]);
}

#[test]
fn dry_activate_failure_never_revokes() {
    let items = vec![item("i1", true), item("i2", true)];
    let outcomes = vec![ItemOutcome::Succeeded, failure()];
    let decision = decide_batch(&items, outcomes, true, true, true);
    assert_eq!(decision.succeeded, vec![0]);
    assert!(decision.revoke.is_empty());
    match decision.error {
        Some(RunDeployError::DeployProfile(node, cause)) => {
            assert_eq!(node, "i2");
            assert_eq!(cause, DeployProfileError::SSHActivateExit(Some(1)));
        }
        other => panic!("unexpected error: {:?}", other),
    }
}

#[test]
fn disabled_rollback_propagates_the_cause() {
    let items = vec![item("i1", true), item("i2", true)];
    let outcomes = vec![ItemOutcome::Succeeded, failure()];
    let decision = decide_batch(&items, outcomes, false, false, true);
    assert!(decision.revoke.is_empty());
    match decision.error {
        Some(RunDeployError::DeployProfile(node, _)) => assert_eq!(node, "i2"),
        other => panic!("unexpected error: {:?}", other),
    }
    let items = vec![item("i1", true), item("i2", true)];
    let outcomes = vec![ItemOutcome::Succeeded, failure()];
    let decision = decide_batch(&items, outcomes, false, true, false);
    assert!(decision.revoke.is_empty());
    assert!(matches!(
        decision.error,
        Some(RunDeployError::DeployProfile(_, _))
    ));
}

#[test]
fn first_item_failure_leaves_nothing_to_revoke() {
    let items = vec![item("i1", true), item("i2", true)];
    let outcomes = vec![failure(), ItemOutcome::Succeeded];
    let decision = decide_batch(&items, outcomes, false, true, true);
    assert!(decision.succeeded.is_empty());
    assert!(decision.revoke.is_empty());
    match decision.error {
        Some(RunDeployError::Rollback(node)) => assert_eq!(node, "i1"),
        other => panic!("unexpected error: {:?}", other),
    }
}
