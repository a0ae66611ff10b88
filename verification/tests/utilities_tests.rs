use pipeline_status::datapipelines::service::{convert, Field};
use pipeline_status::text::{copy_texts, render_decimal, same_text};
use pipeline_status::utilities::get_or_blank;

fn entry(key: &str, value: &str) -> Field {
    Field { key: key.to_string(), string_value: Some(value.to_string()) }
}

#[test]
fn get_or_blank_value_returned_when_contains_field_name() {
    let fields = convert(&vec![entry("a", "b"), entry("c", "d"), entry("e", "f")]);

    assert_eq!(get_or_blank("a", &fields), "b".to_string());
    assert_eq!(get_or_blank("c", &fields), "d".to_string());
    assert_eq!(get_or_blank("e", &fields), "f".to_string());
}

#[test]
fn get_or_blank_empty_string_returned_when_field_name_not_there() {
    let fields = convert(&vec![entry("a", "b"), entry("c", "d"), entry("e", "f")]);
    assert_eq!(get_or_blank("r", &fields), "".to_string());
}

#[test]
fn convert_skips_entries_without_text_and_lets_the_later_entry_stand() {
    let fields = convert(&vec![
        entry("@id", "df-1"),
        Field { key: "schedule".to_string(), string_value: None },
        entry("name", "first"),
        entry("name", "second"),
    ]);
    assert_eq!(get_or_blank("@id", &fields), "df-1");
    assert_eq!(get_or_blank("schedule", &fields), "");
    assert_eq!(get_or_blank("name", &fields), "second");
    assert_eq!(fields.len(), 2);
}

#[test]
fn convert_of_no_fields_is_empty() {
    let fields = convert(&vec![]);
    assert!(fields.is_empty());
    assert_eq!(get_or_blank("", &fields), "");
}

#[test]
fn same_text_compares_character_by_character() {
    assert!(same_text("", ""));
    assert!(same_text("SCHEDULED", "SCHEDULED"));
    assert!(!same_text("SCHEDULED", "SCHEDULE"));
    assert!(!same_text("SCHEDULED", "SCHEDULEd"));
    assert!(!same_text("", " "));
    assert!(same_text("p\u{00e9}riode", "p\u{00e9}riode"));
    assert!(!same_text("p\u{00e9}riode", "periode"));
}

#[test]
fn render_decimal_writes_base_ten() {
    assert_eq!(render_decimal(0), "0");
    assert_eq!(render_decimal(7), "7");
    assert_eq!(render_decimal(10), "10");
    assert_eq!(render_decimal(91800), "91800");
    assert_eq!(render_decimal(-81000), "-81000");
    assert_eq!(render_decimal(-1), "-1");
    assert_eq!(render_decimal(1234567890123456789), "1234567890123456789");
    assert_eq!(render_decimal(i64::MAX as i128 - i64::MIN as i128), "18446744073709551615");
    assert_eq!(render_decimal(i64::MIN as i128 - i64::MAX as i128), "-18446744073709551615");
    assert_eq!(render_decimal(i128::MAX), i128::MAX.to_string());
    assert_eq!(render_decimal(i128::MIN), i128::MIN.to_string());
}

#[test]
fn copy_texts_copies_the_places_asked_for() {
    let texts = vec!["a".to_string(), "b".to_string(), "c".to_string(), "d".to_string()];
    assert_eq!(copy_texts(&texts, 1, 3), vec!["b".to_string(), "c".to_string()]);
    assert_eq!(copy_texts(&texts, 0, 4), texts);
    assert_eq!(copy_texts(&texts, 2, 2), Vec::<String>::new());
}
