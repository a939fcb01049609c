use circleci_cli::task::Task;

#[test]
fn upper_case_trigger_parses() {
    assert!(matches!(Task::from_str("TRIGGER"), Ok(Task::Trigger)));
}

#[test]
fn unknown_task_is_rejected_with_its_name() {
    match Task::from_str("build") {
        Ok(_) => panic!("build is no task"),
        Err(e) => {
            assert_eq!(e.to_string(), "Unknown Task \"build\"");
            assert!(e.message.contains("build"));
        }
    }
}

#[test]
fn every_keyword_parses() {
    assert!(matches!(Task::from_str("get_all_pipelines"), Ok(Task::GetAllPipelines)));
    assert!(matches!(Task::from_str("get_latest_artifacts"), Ok(Task::GetLatestArtifacts)));
    assert!(matches!(Task::from_str("get_me"), Ok(Task::GetMe)));
    assert!(matches!(Task::from_str("list_all"), Ok(Task::ListAll)));
    assert!(matches!(Task::from_str("trigger"), Ok(Task::Trigger)));
}

#[test]
fn mixed_case_keywords_parse() {
    assert!(matches!(Task::from_str("Get_All_Pipelines"), Ok(Task::GetAllPipelines)));
    assert!(matches!(Task::from_str("GET_LATEST_ARTIFACTS"), Ok(Task::GetLatestArtifacts)));
    assert!(matches!(Task::from_str("gEt_Me"), Ok(Task::GetMe)));
    assert!(matches!(Task::from_str("List_All"), Ok(Task::ListAll)));
}

#[test]
fn empty_and_near_names_are_rejected() {
    assert!(Task::from_str("").is_err());
    assert!(Task::from_str("trigger ").is_err());
    assert!(Task::from_str("get-me").is_err());
    match Task::from_str("") {
        Err(e) => assert_eq!(e.message, "Unknown Task \"\""),
        Ok(_) => panic!("empty name is no task"),
    }
}

#[test]
fn error_message_escapes_quotes() {
    match Task::from_str("a\"b") {
        Err(e) => assert_eq!(e.message, "Unknown Task \"a\\\"b\""),
        Ok(_) => panic!("no such task"),
    }
}

#[test]
fn from_keyword_uses_lowered_form_and_quotes_original() {
    assert!(matches!(Task::from_keyword("get_me", "GET_ME"), Ok(Task::GetMe)));
    match Task::from_keyword("nope", "NOPE") {
        Err(e) => assert_eq!(e.message, "Unknown Task \"NOPE\""),
        Ok(_) => panic!("no such task"),
    }
}
