use vstd::prelude::*;

use std::collections::HashMap;

verus! {

/// A repository the user follows, with what is known of each branch.
#[derive(Debug)]
pub struct Project {
    pub vcs_url: String,
    pub following: bool,
    pub username: String,
    pub repo_name: String,
    pub branches: HashMap<String, Branch>,
}

/// The recent history of one branch.
#[derive(Debug)]
pub struct Branch {
    pub pusher_logins: Vec<String>,
    pub last_non_success: Option<Build>,
    pub last_success: Option<Build>,
    pub recent_builds: Vec<Build>,
    pub running_builds: Vec<Build>,
}

/// One run of a job on the legacy API.
#[derive(Debug)]
pub struct Build {
    pub pushed_at: String,
    pub vcs_revision: String,
    pub build_num: u32,
    pub outcome: String,
}

/// A file that a build produced.
#[derive(Debug)]
pub struct Artifact {
    pub path: String,
    pub pretty_path: String,
    pub node_index: u32,
    pub url: String,
}

/// The short form of a pipeline, as a trigger returns it.
#[derive(Debug)]
pub struct PipelineLight {
    pub id: String,
    pub state: String,
    pub number: u32,
    pub created_at: String,
}

/// One page of pipelines and the token of the next page.
#[derive(Debug)]
pub struct PipelineList {
    pub items: Vec<Pipeline>,
    pub next_page_token: String,
}

#[derive(Debug)]
pub struct Pipeline {
    pub id: String,
    pub errors: Vec<PipelineError>,
    pub project_slug: String,
    pub updated_at: String,
    pub number: u32,
    pub state: String,
    pub created_at: String,
    pub trigger: Trigger,
    pub vcs: VCS,
}

#[derive(Debug)]
pub struct PipelineError {
    pub error_type: String,
    pub message: String,
}

/// What started a pipeline, when, and who.
#[derive(Debug)]
pub struct Trigger {
    pub trigger_type: String,
    pub received_at: String,
    pub actor: Actor,
}

#[derive(Debug)]
pub struct Actor {
    pub login: String,
    pub avatar_url: String,
}

/// The revision a pipeline ran on.
#[derive(Debug)]
pub struct VCS {
    pub provider_name: String,
    pub origin_repository_url: String,
    pub target_repository_url: String,
    pub revision: String,
    pub branch: String,
    pub tag: String,
    pub commit: Commit,
}

#[derive(Debug)]
pub struct Commit {
    pub subject: String,
    pub body: String,
}

/// The pusher logins of a branch for which the response gives none.
pub fn empty_string_vec() -> (r: Vec<String>)
    ensures
        r@.len() == 0,
{
    Vec::new()
}

/// The builds of a branch for which the response gives none.
pub fn empty_build_vec() -> (r: Vec<Build>)
    ensures
        r@.len() == 0,
{
    Vec::new()
}

} // verus!
