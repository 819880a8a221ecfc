use config_creator::coercion::{coerce_count, coerce_threshold};
use config_creator::json::{frame_document, frame_record};
use config_creator::record_set::{ContractViolation, RecordSet, RowField, Snapshot};
use config_creator::serializer::{to_bytes, to_config, write_to_json, ComponentRecord, SerializedConfig};

/// What the floating-point side reads in a threshold text: the JSON number of
/// the value it parses, if it parses.
fn read_threshold(text: &str) -> Option<String> {
    match text.parse::<f64>() {
        Ok(value) if value.is_finite() => Some(serde_json::to_string(&value).unwrap()),
        _ => None,
    }
}

fn read_thresholds(snapshot: &Snapshot) -> Vec<Option<String>> {
    snapshot.rows.iter().map(|row| read_threshold(&row.threshold_text)).collect()
}

fn one_row(image_path: &str, threshold_text: &str, count_text: &str) -> RecordSet {
    let mut set = RecordSet::new();
    set.add_row();
    fill_row(&mut set, 0, image_path, threshold_text, count_text);
    set
}

fn fill_row(set: &mut RecordSet, index: usize, image_path: &str, threshold_text: &str, count_text: &str) {
    assert_eq!(set.set_row_field(index, RowField::ImagePath, String::from(image_path)), Ok(()));
    assert_eq!(set.set_row_field(index, RowField::ThresholdText, String::from(threshold_text)), Ok(()));
    assert_eq!(set.set_row_field(index, RowField::CountText, String::from(count_text)), Ok(()));
}

fn config_of(set: &RecordSet) -> SerializedConfig {
    let snapshot = set.snapshot();
    to_config(&snapshot, &read_thresholds(&snapshot)).unwrap()
}

fn threshold_value(record: &ComponentRecord) -> f64 {
    record.threshold.parse::<f64>().unwrap()
}

fn text_of(bytes: Vec<u8>) -> String {
    String::from_utf8(bytes).unwrap()
}

#[test]
fn numeric_texts_become_numbers() {
    let config = config_of(&one_row("cap1.png", "12.5", "3"));
    assert_eq!(config.components.len(), 1);
    assert_eq!(threshold_value(&config.components[0]), 12.5);
    assert_eq!(config.components[0].threshold, "12.5");
    assert_eq!(config.components[0].count, 3);
    assert_eq!(config.components[0].filename, "cap1.png");
}

#[test]
fn threshold_that_is_no_number_becomes_zero() {
    for text in ["", "abc", "12,5", "1.2.3", "--1", "1e999", "-1e999", "inf", "NaN"] {
        let config = config_of(&one_row("cap1.png", text, "3"));
        assert_eq!(threshold_value(&config.components[0]), 0.0);
        assert_eq!(config.components[0].threshold, "0.0");
        assert_eq!(config.components[0].count, 3);
    }
}

#[test]
fn count_that_is_no_number_becomes_zero() {
    for text in ["", "xyz", "3.0", "1e3", "0x10"] {
        let config = config_of(&one_row("cap1.png", "12.5", text));
        assert_eq!(config.components[0].count, 0);
        assert_eq!(threshold_value(&config.components[0]), 12.5);
    }
}

#[test]
fn coerce_count_reads_signed_decimal_integers() {
    assert_eq!(coerce_count("3"), 3);
    assert_eq!(coerce_count("0"), 0);
    assert_eq!(coerce_count("007"), 7);
    assert_eq!(coerce_count("+5"), 5);
    assert_eq!(coerce_count("-5"), -5);
    assert_eq!(coerce_count("-0"), 0);
    assert_eq!(coerce_count("2147483647"), 2147483647);
    assert_eq!(coerce_count("-2147483648"), -2147483648);
    assert_eq!(coerce_count("00000000000000000000012"), 12);
}

#[test]
fn coerce_count_gives_zero_for_anything_else() {
    for text in [
        "", "+", "-", "xyz", " 3", "3 ", "1_000", "1,000", "3.0", "+-3", "--3", "3-", "2147483648",
        "-2147483649", "99999999999999999999", "\u{663}", "\u{ff13}", "3\n",
    ] {
        assert_eq!(coerce_count(text), 0, "{:?}", text);
    }
}

#[test]
fn coerce_threshold_keeps_a_reading_and_fills_in_zero() {
    assert_eq!(coerce_threshold(&Some(String::from("12.5"))), "12.5");
    assert_eq!(coerce_threshold(&Some(String::from("1e300"))), "1e300");
    assert_eq!(coerce_threshold(&None), "0.0");
    assert_eq!(coerce_threshold(&None), serde_json::to_string(&0.0f64).unwrap());
}

#[test]
fn reference_image_path_is_not_persisted() {
    let mut set = one_row("cap1.png", "12.5", "3");
    set.set_descriptor_name(String::from("Board"));
    let without = text_of(to_bytes(&config_of(&set)));
    set.set_descriptor_image(String::from("golden.png"));
    let with = text_of(to_bytes(&config_of(&set)));
    assert_eq!(with, without);
    assert!(!with.contains("golden.png"));
}

#[test]
fn rows_are_persisted_in_the_order_they_were_added() {
    let mut set = RecordSet::new();
    set.add_row();
    set.add_row();
    set.add_row();
    fill_row(&mut set, 2, "c.png", "3.5", "3");
    fill_row(&mut set, 0, "a.png", "1.5", "1");
    fill_row(&mut set, 1, "b.png", "2.5", "2");
    assert_eq!(set.set_row_field(0, RowField::CountText, String::from("10")), Ok(()));
    let config = config_of(&set);
    let filenames: Vec<&str> = config.components.iter().map(|r| r.filename.as_str()).collect();
    assert_eq!(filenames, vec!["a.png", "b.png", "c.png"]);
    let counts: Vec<i32> = config.components.iter().map(|r| r.count).collect();
    assert_eq!(counts, vec![10, 2, 3]);
    let thresholds: Vec<f64> = config.components.iter().map(threshold_value).collect();
    assert_eq!(thresholds, vec![1.5, 2.5, 3.5]);
    assert_eq!(
        text_of(to_bytes(&config)),
        "{\"name\":\"\",\"components\":[\
         {\"threshold\":1.5,\"count\":10,\"filename\":\"a.png\"},\
         {\"threshold\":2.5,\"count\":2,\"filename\":\"b.png\"},\
         {\"threshold\":3.5,\"count\":3,\"filename\":\"c.png\"}]}"
    );
}

#[test]
fn empty_record_set_is_written_with_an_empty_array() {
    let mut set = RecordSet::new();
    set.set_descriptor_name(String::from("MainBoard"));
    let config = config_of(&set);
    assert_eq!(config.name, "MainBoard");
    assert!(config.components.is_empty());
    let text = text_of(to_bytes(&config));
    assert_eq!(text, "{\"name\":\"MainBoard\",\"components\":[]}");
    let parsed: serde_json::Value = serde_json::from_str(&text).unwrap();
    let expected: serde_json::Value =
        serde_json::from_str("{\"name\": \"MainBoard\", \"components\": []}").unwrap();
    assert_eq!(parsed, expected);
}

#[test]
fn two_rows_end_to_end() {
    let mut set = RecordSet::new();
    set.set_descriptor_name(String::from("MainBoard"));
    set.add_row();
    set.add_row();
    assert_eq!(set.set_row_field(0, RowField::ImagePath, String::from("r1.png")), Ok(()));
    assert_eq!(set.set_row_field(0, RowField::ThresholdText, String::from("90")), Ok(()));
    assert_eq!(set.set_row_field(0, RowField::CountText, String::from("4")), Ok(()));
    assert_eq!(set.set_row_field(1, RowField::ImagePath, String::from("r2.png")), Ok(()));
    assert_eq!(set.set_row_field(1, RowField::ThresholdText, String::from("bad")), Ok(()));
    assert_eq!(set.set_row_field(1, RowField::CountText, String::from("2")), Ok(()));

    let config = config_of(&set);
    assert_eq!(config.name, "MainBoard");
    assert_eq!(config.components.len(), 2);
    assert_eq!(threshold_value(&config.components[0]), 90.0);
    assert_eq!(config.components[0].count, 4);
    assert_eq!(config.components[0].filename, "r1.png");
    assert_eq!(threshold_value(&config.components[1]), 0.0);
    assert_eq!(config.components[1].count, 2);
    assert_eq!(config.components[1].filename, "r2.png");

    let snapshot = set.snapshot();
    let bytes = write_to_json(&snapshot, &read_thresholds(&snapshot)).unwrap();
    assert_eq!(bytes, to_bytes(&config));
    assert_eq!(
        text_of(bytes),
        "{\"name\":\"MainBoard\",\"components\":[\
         {\"threshold\":90.0,\"count\":4,\"filename\":\"r1.png\"},\
         {\"threshold\":0.0,\"count\":2,\"filename\":\"r2.png\"}]}"
    );
}

#[test]
fn written_text_reads_back_as_json() {
    let mut set = RecordSet::new();
    set.set_descriptor_name(String::from("Main \"Board\" \\ 1\n\u{e9}\u{1}"));
    set.add_row();
    set.add_row();
    fill_row(&mut set, 0, "dir\\cap \"1\".png\t", "0.25", "-7");
    fill_row(&mut set, 1, "", "1e2", "2147483647");
    let text = text_of(to_bytes(&config_of(&set)));
    assert_eq!(
        text,
        "{\"name\":\"Main \\\"Board\\\" \\\\ 1\\n\u{e9}\\u0001\",\"components\":[\
         {\"threshold\":0.25,\"count\":-7,\"filename\":\"dir\\\\cap \\\"1\\\".png\\t\"},\
         {\"threshold\":100.0,\"count\":2147483647,\"filename\":\"\"}]}"
    );
    let parsed: serde_json::Value = serde_json::from_str(&text).unwrap();
    assert_eq!(parsed["name"].as_str(), Some("Main \"Board\" \\ 1\n\u{e9}\u{1}"));
    let components = parsed["components"].as_array().unwrap();
    assert_eq!(components.len(), 2);
    assert_eq!(components[0]["threshold"].as_f64(), Some(0.25));
    assert_eq!(components[0]["count"].as_i64(), Some(-7));
    assert_eq!(components[0]["filename"].as_str(), Some("dir\\cap \"1\".png\t"));
    assert_eq!(components[1]["threshold"].as_f64(), Some(100.0));
    assert_eq!(components[1]["count"].as_i64(), Some(2147483647));
    assert_eq!(components[1]["filename"].as_str(), Some(""));
}

#[test]
fn smallest_count_is_written_in_full() {
    let config = SerializedConfig {
        name: String::from("n"),
        components: vec![ComponentRecord {
            threshold: String::from("0.0"),
            count: i32::MIN,
            filename: String::from("f"),
        }],
    };
    assert_eq!(
        text_of(to_bytes(&config)),
        "{\"name\":\"n\",\"components\":[{\"threshold\":0.0,\"count\":-2147483648,\"filename\":\"f\"}]}"
    );
}

#[test]
fn name_stands_before_components() {
    let text = text_of(to_bytes(&config_of(&one_row("cap1.png", "12.5", "3"))));
    let name_at = text.find("\"name\"").unwrap();
    let components_at = text.find("\"components\"").unwrap();
    assert!(name_at < components_at);
    assert!(!text.ends_with('\n'));
}

#[test]
fn readings_must_be_one_per_row() {
    let mut set = RecordSet::new();
    set.add_row();
    set.add_row();
    let snapshot = set.snapshot();
    for readings in [vec![], vec![None], vec![None, Some(String::from("1.0")), None]] {
        assert_eq!(to_config(&snapshot, &readings), Err(ContractViolation::ReadingCountMismatch));
        assert_eq!(write_to_json(&snapshot, &readings), Err(ContractViolation::ReadingCountMismatch));
    }
    assert!(to_config(&snapshot, &vec![None, None]).is_ok());
    assert_eq!(
        to_config(&RecordSet::new().snapshot(), &vec![None]),
        Err(ContractViolation::ReadingCountMismatch)
    );
}

#[test]
fn frame_record_joins_three_values() {
    assert_eq!(
        frame_record("12.5", "3", "\"cap1.png\""),
        "{\"threshold\":12.5,\"count\":3,\"filename\":\"cap1.png\"}"
    );
    assert_eq!(frame_record("", "", ""), "{\"threshold\":,\"count\":,\"filename\":}");
}

#[test]
fn frame_document_separates_records_with_commas() {
    assert_eq!(frame_document("\"B\"", &vec![]), "{\"name\":\"B\",\"components\":[]}");
    assert_eq!(
        frame_document("\"B\"", &vec![String::from("{}")]),
        "{\"name\":\"B\",\"components\":[{}]}"
    );
    assert_eq!(
        frame_document("\"B\"", &vec![String::from("1"), String::from("2"), String::from("3")]),
        "{\"name\":\"B\",\"components\":[1,2,3]}"
    );
}
