use vstd::prelude::*;

use crate::client::{
    artifacts_request, me_request, pipelines_request, projects_request, trigger_request,
    ApiRequest, CircleCiClient, RequestView,
};
use crate::config::{Config, ConfigView};
use crate::task::Task;

verus! {

/// A setting that the chosen task needs and the configuration lacks.
#[derive(Debug, Clone, Copy, PartialEq, Eq, Structural)]
pub enum MissingField {
    Project,
    Branch,
}

/// The one request that each task makes, or the first setting it lacks.
pub open spec fn task_request(task: Task, token: Seq<char>, c: ConfigView) -> Result<
    RequestView,
    MissingField,
> {
    match task {
        Task::GetAllPipelines => match c.project {
            Some(p) => Ok(pipelines_request(token, p)),
            None => Err(MissingField::Project),
        },
        Task::GetLatestArtifacts => match c.project {
            Some(p) => match c.branch {
                Some(b) => Ok(artifacts_request(token, p, b)),
                None => Err(MissingField::Branch),
            },
            None => Err(MissingField::Project),
        },
        Task::GetMe => Ok(me_request(token)),
        Task::Trigger => match c.project {
            Some(p) => Ok(trigger_request(token, p, c.branch, c.tag)),
            None => Err(MissingField::Project),
        },
        Task::ListAll => Ok(projects_request(token)),
    }
}

/// Chooses the client operation for a task and fills in its arguments from
/// the settings in effect.
pub fn request_for_task(task: Task, config: &Config, client: &CircleCiClient) -> (r: Result<
    ApiRequest,
    MissingField,
>)
    ensures
        match r {
            Ok(req) => task_request(task, client@, config@) == Ok::<RequestView, MissingField>(
                req@,
            ),
            Err(e) => task_request(task, client@, config@) == Err::<RequestView, MissingField>(e),
        },
{
    match task {
        Task::GetAllPipelines => match &config.project {
            Some(p) => Ok(client.get_all_pipelines(p.as_str())),
            None => Err(MissingField::Project),
        },
        Task::GetLatestArtifacts => match &config.project {
            Some(p) => match &config.branch {
                Some(b) => Ok(client.get_latest_artifacts(p.as_str(), b.as_str())),
                None => Err(MissingField::Branch),
            },
            None => Err(MissingField::Project),
        },
        Task::GetMe => Ok(client.get_me()),
        Task::Trigger => match &config.project {
            Some(p) => Ok(client.trigger_build_for(p.as_str(), &config.branch, &config.tag)),
            None => Err(MissingField::Project),
        },
        Task::ListAll => Ok(client.get_all_projects()),
    }
}

} // verus!
