use pipeline_status::datapipelines::pipeline_task_status::PipelineTaskStatus;

#[test]
fn pipeline_task_status_can_convert_to_the_expected_string() {
    assert_eq!(PipelineTaskStatus::Creating.as_str(), "CREATING");
    assert_eq!(PipelineTaskStatus::Failed.as_str(), "FAILED");
}

#[test]
fn string_converts_to_pipeline_tsak_status() {
    assert_eq!(PipelineTaskStatus::value("CREATING").unwrap(), PipelineTaskStatus::Creating);
    assert_eq!(PipelineTaskStatus::value("FAILED").unwrap(), PipelineTaskStatus::Failed);
}

#[test]
fn status_that_is_building_identified_correctly() {
    assert!(PipelineTaskStatus::is_building(PipelineTaskStatus::Creating.as_str()));
    assert!(PipelineTaskStatus::is_building(PipelineTaskStatus::WaitingForRunner.as_str()));
    assert!(PipelineTaskStatus::is_building(PipelineTaskStatus::Running.as_str()));
    assert!(PipelineTaskStatus::is_building(PipelineTaskStatus::WaitingOnDependencies.as_str()));
}

#[test]
fn status_that_is_inactive_identified_correctly() {
    assert!(!PipelineTaskStatus::is_building(PipelineTaskStatus::Failed.as_str()));
    assert!(!PipelineTaskStatus::is_building(PipelineTaskStatus::Finished.as_str()));
}

#[test]
fn every_status_has_its_own_token() {
    assert_eq!(PipelineTaskStatus::Creating.as_str(), "CREATING");
    assert_eq!(PipelineTaskStatus::Failed.as_str(), "FAILED");
    assert_eq!(PipelineTaskStatus::Finished.as_str(), "FINISHED");
    assert_eq!(PipelineTaskStatus::Running.as_str(), "RUNNING");
    assert_eq!(PipelineTaskStatus::WaitingForRunner.as_str(), "WAITING_FOR_RUNNER");
    assert_eq!(PipelineTaskStatus::WaitingOnDependencies.as_str(), "WAITING_ON_DEPENDENCIES");
}

#[test]
fn reading_a_written_status_gives_it_back() {
    let all = vec![
        PipelineTaskStatus::Creating,
        PipelineTaskStatus::Failed,
        PipelineTaskStatus::Finished,
        PipelineTaskStatus::Running,
        PipelineTaskStatus::WaitingForRunner,
        PipelineTaskStatus::WaitingOnDependencies,
    ];
    for status in all {
        assert_eq!(PipelineTaskStatus::value(status.as_str()), Some(status));
    }
}

#[test]
fn text_outside_the_canonical_set_reads_as_no_status() {
    assert_eq!(PipelineTaskStatus::value(""), None);
    assert_eq!(PipelineTaskStatus::value("running"), None);
    assert_eq!(PipelineTaskStatus::value("RUNNING "), None);
    assert_eq!(PipelineTaskStatus::value("WAITING"), None);
    assert_eq!(PipelineTaskStatus::value("CANCELED"), None);
}

#[test]
fn text_that_is_no_status_is_never_building() {
    assert!(!PipelineTaskStatus::is_building(""));
    assert!(!PipelineTaskStatus::is_building("creating"));
    assert!(!PipelineTaskStatus::is_building("BUILDING"));
    assert!(!PipelineTaskStatus::is_building("RUNNING\n"));
}

#[test]
fn building_states_are_the_four_tokens_in_progress() {
    assert_eq!(
        PipelineTaskStatus::building_states(),
        vec!["RUNNING", "CREATING", "WAITING_FOR_RUNNER", "WAITING_ON_DEPENDENCIES"]
    );
}
