use pipeline_status::errors::ErrorResponse;
use pipeline_status::s3::listing::{ls, ListObjectsRequest, ListReply, Progress};
use pipeline_status::s3::s3_list_object::{Object, S3ListObject};
use pipeline_status::s3::s3_location::S3Location;

fn reported(key: &str, size: i64) -> Object {
    Object {
        key: Some(key.to_string()),
        last_modified: Some("2020-01-02T03:04:05.000Z".to_string()),
        size: Some(size),
    }
}

#[test]
fn test_valid_s3_locations() {
    let test_cases = vec![
        ("this-is-the-bucket", "here-is/the-key", "s3://this-is-the-bucket/here-is/the-key"),
        ("this-is-the-bucket", "here-is/the-key", "s3a://this-is-the-bucket/here-is/the-key"),
        ("this-is-the-bucket", "here-is/the-key", "s3n://this-is-the-bucket/here-is/the-key"),
        ("this_is_the_bucket", "here_is/the_key", "s3://this_is_the_bucket/here_is/the_key"),
        ("this_is_the_bucket", "", "s3://this_is_the_bucket/"),
    ];
    test_cases.iter().for_each(|(b, k, p)| {
        let actual = S3Location::from(p);
        let expected = S3Location { bucket: b.to_string(), key: k.to_string() };
        assert!(actual.is_ok());
        assert_eq!(expected, actual.unwrap());
    });
}

#[test]
fn test_invalid_s3_locations() {
    let test_cases = vec![
        "s://this-is-the-bucket/",
        "s3://this-is-the-bucket",
        "s3d://this-is-the-bucket/here-is/the-key",
    ];
    test_cases.iter().for_each(|p| {
        let actual = S3Location::from(p);
        assert!(actual.is_err());
    });
}

#[test]
fn a_path_without_a_location_has_no_results() {
    assert_eq!(S3Location::from("s3://this-is-the-bucket"), Err("No results!".to_string()));
    assert_eq!(S3Location::from(""), Err("No results!".to_string()));
}

#[test]
fn a_path_with_two_locations_has_too_many_results() {
    assert_eq!(
        S3Location::from("s3://one/first\ns3a://two/second"),
        Err("Too many results!".to_string())
    );
}

#[test]
fn from_captures_chooses_the_single_match() {
    assert_eq!(
        S3Location::from_captures(vec![("bucket".to_string(), "a/key".to_string())]),
        Ok(S3Location { bucket: "bucket".to_string(), key: "a/key".to_string() })
    );
    assert_eq!(S3Location::from_captures(vec![]), Err("No results!".to_string()));
    assert_eq!(
        S3Location::from_captures(vec![
            ("one".to_string(), "first".to_string()),
            ("two".to_string(), "second".to_string()),
        ]),
        Err("Too many results!".to_string())
    );
}

#[test]
fn error_response_is_an_object_with_the_message() {
    assert_eq!(ErrorResponse::json("boom"), "{\"message\":\"boom\"}");
    assert_eq!(ErrorResponse::json(""), "{\"message\":\"\"}");
}

#[test]
fn error_response_escapes_the_message() {
    assert_eq!(
        ErrorResponse::json("no \"bucket\"\nat a\\b"),
        "{\"message\":\"no \\\"bucket\\\"\\nat a\\\\b\"}"
    );
}

#[test]
fn object_around_frames_a_literal() {
    assert_eq!(ErrorResponse::object_around("\"x\""), "{\"message\":\"x\"}");
}

#[test]
fn list_object_takes_over_what_was_reported() {
    let object = reported("logs/2020/01.gz", 1234);
    assert!(object.is_complete());
    let entry = S3ListObject::from(&object);
    assert_eq!(entry.key, "logs/2020/01.gz");
    assert_eq!(entry.size, 1234);
    assert_eq!(entry.last_modified, "2020-01-02T03:04:05.000Z");
}

#[test]
fn an_object_with_a_part_left_out_is_not_complete() {
    let mut object = reported("k", 1);
    object.size = None;
    assert!(!object.is_complete());
    let mut object = reported("k", 1);
    object.key = None;
    assert!(!object.is_complete());
    let mut object = reported("k", 1);
    object.last_modified = None;
    assert!(!object.is_complete());
}

fn asked(listing_request: Option<ListObjectsRequest>) -> (String, String, Option<String>) {
    let request = listing_request.unwrap();
    (request.bucket, request.prefix, request.continuation_token)
}

#[test]
fn ls_reads_every_page_in_order() {
    let listing = ls("bucket", "logs/");
    assert_eq!(asked(listing.request()), ("bucket".to_string(), "logs/".to_string(), None));

    let listing = listing.receive(ListReply::Page {
        contents: Some(vec![reported("logs/a", 1), reported("logs/b", 2)]),
        next_continuation_token: Some("token-1".to_string()),
    });
    assert_eq!(
        asked(listing.request()),
        ("bucket".to_string(), "logs/".to_string(), Some("token-1".to_string()))
    );

    let listing = listing.receive(ListReply::Page {
        contents: Some(vec![reported("logs/c", 3)]),
        next_continuation_token: None,
    });
    assert!(listing.request().is_none());

    let keys: Vec<String> =
        listing.into_result().unwrap().into_iter().map(|entry| entry.key).collect();
    assert_eq!(keys, vec!["logs/a".to_string(), "logs/b".to_string(), "logs/c".to_string()]);
}

#[test]
fn ls_ends_on_a_page_without_objects() {
    let listing = ls("bucket", "none/").receive(ListReply::Page {
        contents: None,
        next_continuation_token: Some("ignored".to_string()),
    });
    assert!(listing.request().is_none());
    assert!(listing.into_result().unwrap().is_empty());
}

#[test]
fn ls_fails_with_the_error_as_json() {
    let listing = ls("bucket", "logs/").receive(ListReply::Page {
        contents: Some(vec![reported("logs/a", 1)]),
        next_continuation_token: Some("token-1".to_string()),
    });
    let listing = listing.receive(ListReply::Failed("Access \"denied\"".to_string()));
    assert!(listing.request().is_none());
    assert_eq!(
        listing.into_result().unwrap_err(),
        "{\"message\":\"Access \\\"denied\\\"\"}"
    );
}

#[test]
fn ls_stays_as_it_is_once_ended() {
    let listing = ls("bucket", "logs/").receive(ListReply::Failed("first".to_string()));
    let listing = listing.receive(ListReply::Page {
        contents: Some(vec![reported("logs/late", 9)]),
        next_continuation_token: None,
    });
    assert!(matches!(&listing.progress, Progress::Failed(error) if error == "{\"message\":\"first\"}"));
    assert!(listing.list.is_empty());
    assert_eq!(listing.into_result().unwrap_err(), "{\"message\":\"first\"}");
}
