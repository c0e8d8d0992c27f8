//! The pre-deployment confirmation: what the preview shows for each work
//! item, and how an operator's typed answer is read. The fuzzy yes/no
//! classification is the `yn` crate's; the decision around it is verified.

use vstd::prelude::*;

use crate::data::profile_user_view;
use crate::data::ssh_user_view;
use crate::data::DeployData;
use crate::data::DeployDefs;
use crate::data::clone_vec_string;

verus! {

/// Failures of the interactive confirmation step.
#[derive(Debug)]
pub enum PromptDeploymentError {
    TomlFormat(String),
    StdoutFlush(String),
    StdinRead(String),
    Cancelled,
}

/// What `yn::yes` answers for a text: whether it clearly reads as yes.
pub uninterp spec fn yn_yes(s: Seq<char>) -> bool;

/// What `yn::is_somewhat_yes` answers for a text: whether it leans yes.
pub uninterp spec fn yn_somewhat_yes(s: Seq<char>) -> bool;

/// What `yn::no` answers for a text: whether it clearly reads as no.
pub uninterp spec fn yn_no(s: Seq<char>) -> bool;

/// Relies on yn::yes: a pure classification of the characters alone.
#[verifier::external_body]
fn ask_is_yes(s: &str) -> (r: bool)
    ensures
        r == yn_yes(s@),
{
    yn::yes(s)
}

/// Relies on yn::is_somewhat_yes: a pure classification of the characters
/// alone.
#[verifier::external_body]
fn ask_is_somewhat_yes(s: &str) -> (r: bool)
    ensures
        r == yn_somewhat_yes(s@),
{
    yn::is_somewhat_yes(s)
}

/// Relies on yn::no: a pure classification of the characters alone.
#[verifier::external_body]
fn ask_is_no(s: &str) -> (r: bool)
    ensures
        r == yn_no(s@),
{
    yn::no(s)
}

/// What the prompt does after an answer.
#[derive(Debug, PartialEq, Eq)]
pub enum PromptStep {
    /// The operator agreed; deploy.
    Proceed,
    /// The answer leaned yes; ask once more for a clear yes.
    AskAgain,
    /// The deployment is cancelled; when the answer was neither a clear no,
    /// a hint asking for a clear yes or no is owed first.
    Cancel { unclear_hint: bool },
}

/// Classifies the first answer: a clear yes proceeds, a leaning yes is asked
/// again, everything else cancels — with a hint when it was not a clear no.
pub fn first_answer_step(answer: &str) -> (r: PromptStep)
    ensures
        yn_yes(answer@) ==> r == PromptStep::Proceed,
        !yn_yes(answer@) && yn_somewhat_yes(answer@) ==> r == PromptStep::AskAgain,
        !yn_yes(answer@) && !yn_somewhat_yes(answer@) ==> r == (PromptStep::Cancel {
            unclear_hint: !yn_no(answer@),
        }),
{
    if ask_is_yes(answer) {
        PromptStep::Proceed
    } else if ask_is_somewhat_yes(answer) {
        PromptStep::AskAgain
    } else {
        PromptStep::Cancel { unclear_hint: !ask_is_no(answer) }
    }
}

/// Classifies the answer to the repeated question: only a clear yes proceeds.
pub fn second_answer_step(answer: &str) -> (r: PromptStep)
    ensures
        yn_yes(answer@) ==> r == PromptStep::Proceed,
        !yn_yes(answer@) ==> r == (PromptStep::Cancel { unclear_hint: false }),
{
    if ask_is_yes(answer) {
        PromptStep::Proceed
    } else {
        PromptStep::Cancel { unclear_hint: false }
    }
}

/// One line of the pre-deployment preview: what will be deployed where, and
/// as whom.
pub struct PreviewRow {
    pub node_name: String,
    pub profile_name: String,
    pub user: String,
    pub ssh_user: String,
    pub path: String,
    pub hostname: String,
    pub ssh_opts: Vec<String>,
}

/// Gathers the preview line of one work item: its users, closure path,
/// descriptor hostname and SSH options.
pub fn preview_row(data: &DeployData, defs: &DeployDefs) -> (r: PreviewRow)
    requires
        Some(defs.profile_user@) == profile_user_view(data.merged_settings@),
        Some(defs.ssh_user@) == ssh_user_view(data.merged_settings@),
    ensures
        r.node_name@ == data.node_name@,
        r.profile_name@ == data.profile_name@,
        Some(r.user@) == profile_user_view(data.merged_settings@),
        Some(r.ssh_user@) == ssh_user_view(data.merged_settings@),
        r.path@ == data.closure@,
        r.hostname@ == data.hostname@,
        r.ssh_opts.deep_view() == crate::orchestrate::eff_ssh_opts(data.merged_settings@),
{
    let ssh_opts: Vec<String> = match &data.merged_settings.ssh_opts {
        Some(o) => clone_vec_string(o),
        None => Vec::new(),
    };
    proof {
        assert(ssh_opts.deep_view() =~= crate::orchestrate::eff_ssh_opts(data.merged_settings@));
    }
    PreviewRow {
        node_name: data.node_name.clone(),
        profile_name: data.profile_name.clone(),
        user: defs.profile_user.clone(),
        ssh_user: defs.ssh_user.clone(),
        path: data.closure.clone(),
        hostname: data.hostname.clone(),
        ssh_opts,
    }
}

} // verus!
