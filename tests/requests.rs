use circleci_cli::client::{CircleCiClient, HttpMethod};
use circleci_cli::config::{merge, Cli, Config};
use circleci_cli::dispatch::{request_for_task, MissingField};
use circleci_cli::model::{empty_build_vec, empty_string_vec};
use circleci_cli::task::Task;
use circleci_cli::url::create_url;

fn s(v: &str) -> Option<String> {
    Some(v.to_string())
}

fn pairs(ps: &[(&str, &str)]) -> Vec<(String, String)> {
    ps.iter().map(|(k, v)| (k.to_string(), v.to_string())).collect()
}

#[test]
fn file_and_branch_argument_select_artifacts() {
    let config = Config { circleci_token: "abc".to_string(), project: s("repoA"), tag: None, branch: None };
    let args = Cli { task: Task::GetLatestArtifacts, project: None, tag: None, branch: s("main") };
    let m = merge(&config, &args);
    assert_eq!(m.circleci_token, "abc");
    assert_eq!(m.project, s("repoA"));
    assert_eq!(m.branch, s("main"));
    assert_eq!(m.tag, None);
    let client = CircleCiClient::new(m.circleci_token.clone());
    let req = request_for_task(args.task, &m, &client).ok().unwrap();
    assert_eq!(req.method, HttpMethod::Get);
    assert_eq!(
        req.url,
        "https://circleci.com/api/v1.1/project/github/MeinDach/repoA/latest/artifacts?circle-token=abc&branch=main"
    );
    assert!(req.headers.is_empty());
    assert!(req.body.is_none());
}

#[test]
fn create_url_joins_in_order_unescaped() {
    let ps = pairs(&[("b", "2"), ("a", "x&y=z"), ("c", "")]);
    assert_eq!(create_url("http://h", "/p", &ps), "http://h/p?b=2&a=x&y=z&c=");
    assert_eq!(create_url("http://h", "/p", &Vec::new()), "http://h/p?");
}

#[test]
fn legacy_url_puts_token_first() {
    let client = CircleCiClient::new("tok".to_string());
    let ps = pairs(&[("z", "1"), ("a", "2")]);
    assert_eq!(
        client.create_url_v1_1("/x", &ps),
        "https://circleci.com/api/v1.1/x?circle-token=tok&z=1&a=2"
    );
    assert_eq!(client.create_url_v1_1("/x", &Vec::new()), "https://circleci.com/api/v1.1/x?circle-token=tok");
}

#[test]
fn current_url_has_no_token() {
    let client = CircleCiClient::new("tok".to_string());
    assert_eq!(client.create_url_v2("/x", &pairs(&[("k", "v")])), "https://circleci.com/api/v2/x?k=v");
}

#[test]
fn me_and_projects_use_legacy_path() {
    let client = CircleCiClient::new("tok".to_string());
    let me = client.get_me();
    assert_eq!(me.method, HttpMethod::Get);
    assert_eq!(me.url, "https://circleci.com/api/v1.1/me?circle-token=tok");
    let all = client.get_all_projects();
    assert_eq!(all.url, "https://circleci.com/api/v1.1/projects?circle-token=tok");
    assert!(all.headers.is_empty());
}

#[test]
fn pipelines_use_current_path_and_header() {
    let client = CircleCiClient::new("tok".to_string());
    let req = client.get_all_pipelines("repo");
    assert_eq!(req.method, HttpMethod::Get);
    assert_eq!(req.url, "https://circleci.com/api/v2/project/github/MeinDach/repo/pipeline?");
    assert_eq!(req.headers, pairs(&[("Circle-Token", "tok")]));
    assert!(req.body.is_none());
}

#[test]
fn trigger_without_branch_or_tag_has_empty_body() {
    let client = CircleCiClient::new("tok".to_string());
    let req = client.trigger_build_for("repo", &None, &None);
    assert_eq!(req.method, HttpMethod::Post);
    assert_eq!(req.url, "https://circleci.com/api/v2/project/github/MeinDach/repo/pipeline?");
    assert_eq!(req.headers, pairs(&[("Circle-Token", "tok")]));
    assert_eq!(req.body, Some(Vec::new()));
}

#[test]
fn trigger_body_holds_given_fields() {
    let client = CircleCiClient::new("tok".to_string());
    let both = client.trigger_build_for("repo", &s("main"), &s("v1"));
    assert_eq!(both.body, Some(pairs(&[("branch", "main"), ("tag", "v1")])));
    let tag_only = client.trigger_build_for("repo", &None, &s("v1"));
    assert_eq!(tag_only.body, Some(pairs(&[("tag", "v1")])));
}

#[test]
fn dispatch_reports_missing_fields() {
    let client = CircleCiClient::new("tok".to_string());
    let none = Config { circleci_token: "tok".to_string(), project: None, tag: None, branch: None };
    assert_eq!(request_for_task(Task::GetAllPipelines, &none, &client).err(), Some(MissingField::Project));
    assert_eq!(request_for_task(Task::Trigger, &none, &client).err(), Some(MissingField::Project));
    assert_eq!(request_for_task(Task::GetLatestArtifacts, &none, &client).err(), Some(MissingField::Project));
    let project = Config { circleci_token: "tok".to_string(), project: s("r"), tag: None, branch: None };
    assert_eq!(request_for_task(Task::GetLatestArtifacts, &project, &client).err(), Some(MissingField::Branch));
    assert!(request_for_task(Task::GetMe, &none, &client).is_ok());
    assert!(request_for_task(Task::ListAll, &none, &client).is_ok());
}

#[test]
fn dispatch_trigger_passes_branch_and_tag() {
    let client = CircleCiClient::new("tok".to_string());
    let c = Config { circleci_token: "tok".to_string(), project: s("r"), tag: s("t"), branch: None };
    let req = request_for_task(Task::Trigger, &c, &client).ok().unwrap();
    assert_eq!(req.body, Some(pairs(&[("tag", "t")])));
}

#[test]
fn missing_branch_lists_default_to_empty() {
    assert!(empty_string_vec().is_empty());
    assert!(empty_build_vec().is_empty());
}
