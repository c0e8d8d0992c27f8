//! The batch controller: work items run strictly in order; successes are
//! recorded; the first failure decides between plain propagation and a batch
//! rollback that revokes every previously succeeded item whose own
//! auto-rollback is enabled.

use vstd::prelude::*;

use crate::data::DeployDataDefsError;
use crate::orchestrate::DeployProfileError;
use crate::orchestrate::RevokeProfileError;
use crate::prompt::PromptDeploymentError;
use crate::secret::SopsError;

verus! {

/// A failure of one deployment run, tagged with the owning node where one
/// exists. Causes that arise outside the verified logic (the builder, the
/// store copy, TOML rendering) are carried as their rendered messages.
#[derive(Debug)]
pub enum RunDeployError {
    DeployProfile(String, DeployProfileError),
    BuildProfile(String, String),
    PushProfile(String, String),
    ProfileNotFound(String),
    NodeNotFound(String),
    ProfileWithoutNode,
    DeployDataDefs(DeployDataDefsError),
    TomlFormat(String),
    PromptDeployment(PromptDeploymentError),
    RevokeProfile(String, RevokeProfileError),
    Rollback(String),
    Sops(SopsError),
}

/// What the batch controller knows of one work item when deciding a rollback:
/// its node and its effective auto-rollback flag.
pub struct BatchItem {
    pub node_name: String,
    pub auto_rollback: bool,
}

/// How one item's activation ended.
#[derive(Debug, PartialEq, Eq)]
pub enum ItemOutcome {
    Succeeded,
    Failed(DeployProfileError),
}

/// The items to revoke when item `failed` of `items` fails: every earlier
/// item whose auto-rollback flag is set, in their success order.
pub open spec fn revoke_list(items: Seq<BatchItem>, failed: int) -> Seq<int>
    decreases failed,
{
    if failed <= 0 {
        Seq::<int>::empty()
    } else {
        let prefix = revoke_list(items, failed - 1);
        if items[failed - 1].auto_rollback {
            prefix.push(failed - 1)
        } else {
            prefix
        }
    }
}

/// The position of the first failed outcome, if any.
pub open spec fn first_failure(outcomes: Seq<ItemOutcome>) -> Option<int>
    decreases outcomes.len(),
{
    if outcomes.len() == 0 {
        None
    } else {
        match first_failure(outcomes.drop_last()) {
            Some(i) => Some(i),
            None => if outcomes.last() is Failed {
                Some(outcomes.len() - 1)
            } else {
                None
            },
        }
    }
}

/// `first_failure` names a failed outcome and everything before it succeeded;
/// when it names nothing, every outcome succeeded.
pub proof fn lemma_first_failure_characterizes(outcomes: Seq<ItemOutcome>)
    ensures
        match first_failure(outcomes) {
            Some(k) => 0 <= k < outcomes.len() && outcomes[k] is Failed && forall|j: int|
                0 <= j < k ==> !(outcomes[j] is Failed),
            None => forall|j: int| 0 <= j < outcomes.len() ==> !(outcomes[j] is Failed),
        },
    decreases outcomes.len(),
{
    if outcomes.len() > 0 {
        lemma_first_failure_characterizes(outcomes.drop_last());
        assert(forall|j: int|
            0 <= j < outcomes.len() - 1 ==> outcomes[j] == outcomes.drop_last()[j]);
    }
}

/// What a whole batch run decides: which items succeeded (in order), which
/// are to be revoked (in order), and the error to surface, if any.
pub struct BatchDecision {
    pub succeeded: Vec<usize>,
    pub revoke: Vec<usize>,
    pub error: Option<RunDeployError>,
}

proof fn lemma_first_failure_take(outcomes: Seq<ItemOutcome>, i: int)
    requires
        0 <= i <= outcomes.len(),
        forall|j: int| 0 <= j < i ==> !(outcomes[j] is Failed),
    ensures
        first_failure(outcomes.take(i)) is None,
    decreases i,
{
    if i > 0 {
        lemma_first_failure_take(outcomes, i - 1);
        assert(outcomes.take(i).drop_last() =~= outcomes.take(i - 1));
        assert(outcomes.take(i).last() == outcomes[i - 1]);
    }
}

proof fn lemma_first_failure_found(outcomes: Seq<ItemOutcome>, i: int)
    requires
        0 <= i < outcomes.len(),
        forall|j: int| 0 <= j < i ==> !(outcomes[j] is Failed),
        outcomes[i] is Failed,
    ensures
        first_failure(outcomes) == Some(i),
    decreases outcomes.len(),
{
    if outcomes.len() == i + 1 {
        lemma_first_failure_take(outcomes, i);
        assert(outcomes.drop_last() =~= outcomes.take(i));
    } else {
        lemma_first_failure_found(outcomes.drop_last(), i);
    }
}

/// Runs the batch decision over the outcomes the driver observed, one per
/// item, in order. Items after the first failure never run, so their
/// outcomes are ignored. On a failure: a dry run propagates the deployment
/// error and revokes nothing; with batch rollback enabled (the run's
/// rollback-succeeded setting and the command-line auto-rollback, both
/// defaulted to true) every previously succeeded item with auto-rollback set
/// is revoked and a rollback error names the failed node; otherwise the
/// deployment error is propagated unchanged.
pub fn decide_batch(
    items: &Vec<BatchItem>,
    outcomes: Vec<ItemOutcome>,
    dry_activate: bool,
    rollback_succeeded: bool,
    cli_auto_rollback: bool,
) -> (r: BatchDecision)
    requires
        items.len() == outcomes.len(),
    ensures
        match first_failure(outcomes@) {
            None => {
                &&& r.succeeded@.len() == items.len()
                &&& forall|j: int| 0 <= j < items.len() ==> r.succeeded@[j] as int == j
                &&& r.revoke@.len() == 0
                &&& r.error is None
            },
            Some(k) => {
                &&& r.succeeded@.len() == k
                &&& forall|j: int| 0 <= j < k ==> r.succeeded@[j] as int == j
                &&& (outcomes@[k] matches ItemOutcome::Failed(cause) ==> {
                    if dry_activate {
                        &&& r.revoke@.len() == 0
                        &&& r.error matches Some(RunDeployError::DeployProfile(n, c)) && n@
                            == items[k].node_name@ && c == cause
                    } else if rollback_succeeded && cli_auto_rollback {
                        &&& r.revoke@.map_values(|x: usize| x as int) == revoke_list(items@, k)
                        &&& r.error matches Some(RunDeployError::Rollback(n)) && n@
                            == items[k].node_name@
                    } else {
                        &&& r.revoke@.len() == 0
                        &&& r.error matches Some(RunDeployError::DeployProfile(n, c)) && n@
                            == items[k].node_name@ && c == cause
                    }
                })
            },
        },
{
    let ghost entry = outcomes@;
    let mut succeeded: Vec<usize> = Vec::new();
    let mut k: usize = 0;
    let n = items.len();
    let mut outs = outcomes;
    #[verifier::loop_isolation(false)]
    while k < n
        invariant
            k <= n,
            entry == outs@,
            n == items.len() == outs.len(),
            succeeded@.len() == k,
            forall|j: int| 0 <= j < k ==> succeeded@[j] as int == j,
            forall|j: int| 0 <= j < k ==> !(outs@[j] is Failed),
        decreases n - k,
    {
        let failed = match &outs[k] {
            ItemOutcome::Succeeded => false,
            ItemOutcome::Failed(_) => true,
        };
        if failed {
            proof {
                lemma_first_failure_found(outs@, k as int);
            }
            let outcome = outs.remove(k);
            let cause = match outcome {
                ItemOutcome::Failed(c) => c,
                ItemOutcome::Succeeded => vstd::pervasive::unreached(),
            };
            if dry_activate {
                return BatchDecision {
                    succeeded,
                    revoke: Vec::new(),
                    error: Some(
                        RunDeployError::DeployProfile(items[k].node_name.clone(), cause),
                    ),
                };
            }
            if rollback_succeeded && cli_auto_rollback {
                let mut revoke: Vec<usize> = Vec::new();
                let mut j: usize = 0;
                while j < k
                    invariant
                        j <= k <= items.len(),
                        revoke@.map_values(|x: usize| x as int) =~= revoke_list(items@, j as int),
                    decreases k - j,
                {
                    if items[j].auto_rollback {
                        revoke.push(j);
                    }
                    proof {
                        assert(revoke@.map_values(|x: usize| x as int) =~= revoke_list(
                            items@,
                            j + 1 as int,
                        ));
                    }
                    j = j + 1;
                }
                return BatchDecision {
                    succeeded,
                    revoke,
                    error: Some(RunDeployError::Rollback(items[k].node_name.clone())),
                };
            }
            return BatchDecision {
                succeeded,
                revoke: Vec::new(),
                error: Some(RunDeployError::DeployProfile(items[k].node_name.clone(), cause)),
            };
        }
        succeeded.push(k);
        k = k + 1;
    }
    proof {
        lemma_first_failure_take(outs@, n as int);
        assert(outs@.take(n as int) =~= outs@);
    }
    BatchDecision { succeeded, revoke: Vec::new(), error: None }
}

} // verus!
