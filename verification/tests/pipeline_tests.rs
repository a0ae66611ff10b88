use chrono::{TimeZone, Utc};
use pipeline_status::datapipelines::pipeline::Pipeline;
use pipeline_status::datapipelines::pipeline_tasks::PipelineTasks;
use pipeline_status::datapipelines::run_time::{
    convert_to_date_time, seconds_ago, seconds_between, Timestamp,
};
use pipeline_status::datapipelines::service::{convert, Field};

fn backfill_pipeline(health_status: &str) -> Pipeline {
    Pipeline {
        id: "df-0977100BVBIK29Y9RF6".to_string(),
        name: "Scopus Author Profile Backfill Pipeline".to_string(),
        account_id: "242194143705".to_string(),
        health_status: health_status.to_string(),
        pipeline_state: "FINISHED".to_string(),
        latest_run_time: convert_to_date_time(&"2017-08-31T14:58:04"),
        next_run_time: convert_to_date_time(&"2017-08-31T14:58:04"),
        scheduled_period: "24 hours".to_string(),
        since_last_run_time: Some("48448299".to_string()),
        tasks: vec![],
    }
}

fn text_field(key: &str, value: &str) -> Field {
    Field { key: key.to_string(), string_value: Some(value.to_string()) }
}

fn task_in(status: &str) -> PipelineTasks {
    PipelineTasks {
        pipeline_id: "df-1".to_string(),
        task_id: "@Activity_2020".to_string(),
        task_name: "Activity".to_string(),
        status: status.to_string(),
        attempt_status: "".to_string(),
    }
}

#[test]
fn healthy_pipeline_is_identified_correctly() {
    let healthy_pipeline = Pipeline {
        id: "df-0977100BVBIK29Y9RF6".to_string(),
        name: "Scopus Author Profile Backfill Pipeline".to_string(),
        account_id: "242194143705".to_string(),
        health_status: "HEALTHY".to_string(),
        pipeline_state: "FINISHED".to_string(),
        latest_run_time: convert_to_date_time(&"2017-08-31T14:58:04"),
        next_run_time: convert_to_date_time(&"2017-08-31T14:58:04"),
        scheduled_period: "24 hours".to_string(),
        since_last_run_time: Some("48448299".to_string()),
        tasks: vec![],
    };

    assert_eq!(true, healthy_pipeline.is_healthy());
}

#[test]
fn broken_pipeline_is_identified_correctly() {
    let broken_pipeline = Pipeline {
        id: "df-0977100BVBIK29Y9RF6".to_string(),
        name: "Scopus Author Profile Backfill Pipeline".to_string(),
        account_id: "242194143705".to_string(),
        health_status: "ERROR".to_string(),
        pipeline_state: "FINISHED".to_string(),
        latest_run_time: convert_to_date_time(&"2017-08-31T14:58:04"),
        next_run_time: convert_to_date_time(&"2017-08-31T14:58:04"),
        scheduled_period: "24 hours".to_string(),
        since_last_run_time: Some("48448299".to_string()),
        tasks: vec![],
    };

    assert_eq!(false, broken_pipeline.is_healthy());
}

#[test]
fn building_healthy_pipeline_is_identified_correctly() {
    let building_healthy_pipeline = Pipeline {
        id: "df-0977100BVBIK29Y9RF6".to_string(),
        name: "Scopus Author Profile Backfill Pipeline".to_string(),
        account_id: "242194143705".to_string(),
        health_status: "HEALTHY".to_string(),
        pipeline_state: "FINISHED".to_string(),
        latest_run_time: convert_to_date_time(&"2017-08-31T14:58:04"),
        next_run_time: convert_to_date_time(&"2017-08-31T14:58:04"),
        scheduled_period: "24 hours".to_string(),
        since_last_run_time: Some("48448299".to_string()),
        tasks: vec![],
    };

    assert_eq!(false, building_healthy_pipeline.is_building());
}

#[test]
fn seconds_ago_should_be_positive_for_historic_time() {
    let now = convert_to_date_time("2012-02-14T09:00:00");
    let actual: Option<String> = seconds_ago(&now.unwrap(), "2012-02-13T07:30:00");
    assert!(actual.is_some());
    assert_eq!("91800", actual.unwrap());
}

#[test]
fn seconds_ago_should_be_negative_for_future_time() {
    let now = convert_to_date_time("2012-02-14T09:00:00");
    let actual: Option<String> = seconds_ago(&now.unwrap(), "2012-02-15T07:30:00");
    assert!(actual.is_some());
    assert_eq!("-81000", actual.unwrap());
}

#[test]
fn seconds_ago_should_be_zero_for_now_time() {
    let now = convert_to_date_time("2012-02-14T09:00:00");
    let actual: Option<String> = seconds_ago(&now.unwrap(), "2012-02-14T09:00:00");
    assert!(actual.is_some());
    assert_eq!("0", actual.unwrap());
}

#[test]
#[allow(deprecated)]
fn convert_to_date_time_validates_and_converts_datetime_string() {
    assert_eq!(
        convert_to_date_time("2010-10-10T10:10:10").unwrap(),
        Timestamp {
            unix_seconds: Utc
                .datetime_from_str("2010-10-10T10:10:10", "%Y-%m-%dT%H:%M:%S")
                .unwrap()
                .timestamp()
        }
    );
    assert_eq!(
        convert_to_date_time("2020-12-12T12:12:12").unwrap(),
        Timestamp {
            unix_seconds: Utc
                .datetime_from_str("2020-12-12T12:12:12", "%Y-%m-%dT%H:%M:%S")
                .unwrap()
                .timestamp()
        }
    );
}

#[test]
fn convert_to_date_time_invalidates_incorrect_datetime_string() {
    assert!(convert_to_date_time("2010-10-10T10").is_none());
    assert!(convert_to_date_time("").is_none());
    assert!(convert_to_date_time("2010-10-10T10:1010").is_none());
}

#[test]
fn convert_to_date_time_counts_seconds_from_the_epoch() {
    assert_eq!(convert_to_date_time("1970-01-01T00:00:00"), Some(Timestamp { unix_seconds: 0 }));
    assert_eq!(
        convert_to_date_time("2012-02-14T09:00:00"),
        Some(Timestamp { unix_seconds: 1329210000 })
    );
    assert_eq!(
        convert_to_date_time("2017-08-31T14:58:04"),
        Some(Timestamp { unix_seconds: 1504191484 })
    );
    assert_eq!(
        convert_to_date_time("1969-12-31T23:59:59"),
        Some(Timestamp { unix_seconds: -1 })
    );
}

#[test]
fn convert_to_date_time_rejects_what_is_no_timestamp() {
    assert!(convert_to_date_time("2010-10-10 10:10:10").is_none());
    assert!(convert_to_date_time("2010/10/10T10:10:10").is_none());
    assert!(convert_to_date_time("2010-13-10T10:10:10").is_none());
    assert!(convert_to_date_time("2010-02-30T10:10:10").is_none());
    assert!(convert_to_date_time("2010-10-10T10:10:10Z").is_none());
    assert!(convert_to_date_time("yesterday").is_none());
}

#[test]
fn seconds_ago_is_absent_for_a_malformed_timestamp() {
    let now = Timestamp { unix_seconds: 1329210000 };
    assert_eq!(seconds_ago(&now, "2012-02-13T07"), None);
    assert_eq!(seconds_ago(&now, ""), None);
}

#[test]
fn seconds_between_is_the_difference_in_base_ten() {
    let now = Timestamp { unix_seconds: 1329210000 };
    assert_eq!(
        seconds_between(&now, Some(Timestamp { unix_seconds: 1329118200 })),
        Some("91800".to_string())
    );
    assert_eq!(
        seconds_between(&now, Some(Timestamp { unix_seconds: 1329291000 })),
        Some("-81000".to_string())
    );
    assert_eq!(seconds_between(&now, None), None);
    assert_eq!(
        seconds_between(
            &Timestamp { unix_seconds: i64::MAX },
            Some(Timestamp { unix_seconds: i64::MIN })
        ),
        Some("18446744073709551615".to_string())
    );
    assert_eq!(
        seconds_between(
            &Timestamp { unix_seconds: i64::MIN },
            Some(Timestamp { unix_seconds: i64::MAX })
        ),
        Some("-18446744073709551615".to_string())
    );
}

#[test]
fn create_builds_the_record_of_a_scheduled_pipeline() {
    let fields = convert(&vec![
        text_field("@id", "df-0977100BVBIK29Y9RF6"),
        text_field("name", "Scopus Author Profile Backfill Pipeline"),
        text_field("@accountId", "242194143705"),
        text_field("@healthStatus", "HEALTHY"),
        text_field("@pipelineState", "SCHEDULED"),
        text_field("@latestRunTime", "2012-02-13T07:30:00"),
        text_field("@nextRunTime", "2012-02-14T07:30:00"),
        text_field("@scheduledPeriod", "24 hours"),
    ]);
    let query_time = convert_to_date_time("2012-02-14T09:00:00").unwrap();
    let pipeline = Pipeline::create(vec![task_in("RUNNING")], fields, query_time).unwrap();

    assert_eq!(pipeline.id, "df-0977100BVBIK29Y9RF6");
    assert_eq!(pipeline.name, "Scopus Author Profile Backfill Pipeline");
    assert_eq!(pipeline.account_id, "242194143705");
    assert_eq!(pipeline.health_status, "HEALTHY");
    assert_eq!(pipeline.pipeline_state, "SCHEDULED");
    assert_eq!(pipeline.latest_run_time, Some(Timestamp { unix_seconds: 1329118200 }));
    assert_eq!(pipeline.next_run_time, Some(Timestamp { unix_seconds: 1329204600 }));
    assert_eq!(pipeline.scheduled_period, "24 hours");
    assert_eq!(pipeline.since_last_run_time, Some("91800".to_string()));
    assert_eq!(pipeline.tasks.len(), 1);
    assert_eq!(pipeline.tasks[0].status, "RUNNING");
    assert!(pipeline.is_healthy());
    assert!(pipeline.is_building());
}

#[test]
fn create_reports_a_negative_count_for_a_last_run_in_the_future() {
    let fields = convert(&vec![
        text_field("@id", "df-1"),
        text_field("name", "ahead"),
        text_field("@healthStatus", "HEALTHY"),
        text_field("@pipelineState", "SCHEDULED"),
        text_field("@latestRunTime", "2012-02-15T07:30:00"),
    ]);
    let query_time = convert_to_date_time("2012-02-14T09:00:00").unwrap();
    let pipeline = Pipeline::create(vec![], fields, query_time).unwrap();
    assert_eq!(pipeline.since_last_run_time, Some("-81000".to_string()));
}

#[test]
fn create_counts_no_seconds_for_a_pipeline_that_is_not_scheduled() {
    let fields = convert(&vec![
        text_field("@id", "df-1"),
        text_field("name", "done"),
        text_field("@healthStatus", "HEALTHY"),
        text_field("@pipelineState", "FINISHED"),
        text_field("@latestRunTime", "2012-02-13T07:30:00"),
    ]);
    let query_time = convert_to_date_time("2012-02-14T09:00:00").unwrap();
    let pipeline = Pipeline::create(vec![], fields, query_time).unwrap();
    assert_eq!(pipeline.latest_run_time, Some(Timestamp { unix_seconds: 1329118200 }));
    assert_eq!(pipeline.since_last_run_time, None);
}

#[test]
fn create_counts_no_seconds_from_a_malformed_last_run_time() {
    let fields = convert(&vec![
        text_field("@id", "df-1"),
        text_field("name", "odd"),
        text_field("@healthStatus", "ERROR"),
        text_field("@pipelineState", "SCHEDULED"),
        text_field("@latestRunTime", "2010-10-10T10"),
        text_field("@nextRunTime", ""),
    ]);
    let query_time = convert_to_date_time("2012-02-14T09:00:00").unwrap();
    let pipeline = Pipeline::create(vec![], fields, query_time).unwrap();
    assert_eq!(pipeline.latest_run_time, None);
    assert_eq!(pipeline.next_run_time, None);
    assert_eq!(pipeline.since_last_run_time, None);
    assert_eq!(pipeline.account_id, "");
    assert_eq!(pipeline.scheduled_period, "");
    assert!(!pipeline.is_healthy());
}

#[test]
fn create_yields_nothing_without_identifier_name_or_health_status() {
    let query_time = Timestamp { unix_seconds: 1329210000 };
    let whole = vec![
        text_field("@id", "df-1"),
        text_field("name", "whole"),
        text_field("@healthStatus", "HEALTHY"),
    ];
    assert!(Pipeline::create(vec![], convert(&whole), query_time).is_some());
    for missing in 0..3 {
        let mut fields = whole.clone();
        fields.remove(missing);
        assert!(Pipeline::create(vec![], convert(&fields), query_time).is_none());
    }
    for blank in 0..3 {
        let mut fields = whole.clone();
        fields[blank].string_value = Some("".to_string());
        assert!(Pipeline::create(vec![], convert(&fields), query_time).is_none());
    }
    for untexted in 0..3 {
        let mut fields = whole.clone();
        fields[untexted].string_value = None;
        assert!(Pipeline::create(vec![], convert(&fields), query_time).is_none());
    }
    assert!(Pipeline::create(vec![], convert(&vec![]), query_time).is_none());
}

#[test]
fn assemble_takes_the_run_times_as_given() {
    let fields = convert(&vec![
        text_field("@id", "df-1"),
        text_field("name", "given"),
        text_field("@healthStatus", "HEALTHY"),
        text_field("@pipelineState", "SCHEDULED"),
        text_field("@latestRunTime", "not read here"),
    ]);
    let pipeline = Pipeline::assemble(
        vec![],
        &fields,
        Some(Timestamp { unix_seconds: 100 }),
        None,
        Timestamp { unix_seconds: 160 },
    )
    .unwrap();
    assert_eq!(pipeline.latest_run_time, Some(Timestamp { unix_seconds: 100 }));
    assert_eq!(pipeline.next_run_time, None);
    assert_eq!(pipeline.since_last_run_time, Some("60".to_string()));
}

#[test]
fn a_pipeline_is_building_when_one_task_is_in_progress() {
    let mut pipeline = backfill_pipeline("HEALTHY");
    pipeline.tasks = vec![task_in("FINISHED"), task_in("FAILED"), task_in("")];
    assert!(!pipeline.is_building());
    pipeline.tasks.push(task_in("WAITING_ON_DEPENDENCIES"));
    assert!(pipeline.is_building());
    pipeline.tasks = vec![task_in("CREATING")];
    assert!(pipeline.is_building());
    pipeline.tasks = vec![task_in("creating")];
    assert!(!pipeline.is_building());
}

#[test]
fn health_goes_by_the_exact_token() {
    assert!(backfill_pipeline("HEALTHY").is_healthy());
    assert!(!backfill_pipeline("ERROR").is_healthy());
    assert!(!backfill_pipeline("healthy").is_healthy());
    assert!(!backfill_pipeline("").is_healthy());
}
