use remote_pi_monitor::models::{SensorData, ValidationFunction};
use remote_pi_monitor::validation::{
    find_sensor_data_by_id, parse_validation_function, validate_sensor_data, Verdict,
};

fn reading(id: &str, name: &str, value: i64) -> SensorData {
    SensorData { id: id.to_string(), sensor_name: name.to_string(), value }
}

#[test]
fn greater_than_band() {
    let f = ValidationFunction::GreaterThan;
    assert_eq!(validate_sensor_data(&f, Some(10000), None, 10051).0, Verdict::Pass);
    assert_eq!(validate_sensor_data(&f, Some(10000), None, 9949).0, Verdict::Fail);
    assert_eq!(validate_sensor_data(&f, Some(10000), None, 10050).0, Verdict::Indeterminate);
    assert_eq!(validate_sensor_data(&f, Some(10000), None, 9950).0, Verdict::Indeterminate);
    assert_eq!(validate_sensor_data(&f, Some(10000), None, 10000).0, Verdict::Indeterminate);
}

#[test]
fn less_than_band() {
    let f = ValidationFunction::LessThan;
    assert_eq!(validate_sensor_data(&f, Some(10000), None, 9949).0, Verdict::Pass);
    assert_eq!(validate_sensor_data(&f, Some(10000), None, 10051).0, Verdict::Fail);
    assert_eq!(validate_sensor_data(&f, Some(10000), None, 10050).0, Verdict::Indeterminate);
    assert_eq!(validate_sensor_data(&f, Some(10000), None, 9950).0, Verdict::Indeterminate);
}

#[test]
fn equality_is_exact() {
    let eq = ValidationFunction::Equal;
    let ne = ValidationFunction::NotEqual;
    assert_eq!(validate_sensor_data(&eq, Some(10000), None, 10000).0, Verdict::Pass);
    assert_eq!(validate_sensor_data(&eq, Some(10000), None, 10001).0, Verdict::Fail);
    assert_eq!(validate_sensor_data(&eq, Some(10000), None, 9999).0, Verdict::Fail);
    assert_eq!(validate_sensor_data(&ne, Some(10000), None, 10001).0, Verdict::Pass);
    assert_eq!(validate_sensor_data(&ne, Some(10000), None, 10000).0, Verdict::Fail);
}

#[test]
fn band_scenario() {
    let b = ValidationFunction::Between;
    assert_eq!(validate_sensor_data(&b, Some(10000), Some(20000), 15000).0, Verdict::Pass);
    assert_eq!(validate_sensor_data(&b, Some(10000), Some(20000), 9000).0, Verdict::Fail);
    assert_eq!(validate_sensor_data(&b, Some(10000), Some(20000), 10020).0, Verdict::Indeterminate);
    assert_eq!(validate_sensor_data(&b, Some(10000), Some(20000), 20100).0, Verdict::Fail);
    assert_eq!(validate_sensor_data(&b, Some(10000), Some(20000), 19980).0, Verdict::Indeterminate);
}

#[test]
fn messages() {
    let (v, m) = validate_sensor_data(&ValidationFunction::GreaterThan, Some(10000), None, 12000);
    assert_eq!(v, Verdict::Pass);
    assert_eq!(m, "expected sensor value > 10.050. Got sensor value = 12.000");
    let (_, m) = validate_sensor_data(&ValidationFunction::GreaterThan, Some(10000), None, -1500);
    assert_eq!(m, "expected sensor value > 9.950. Got sensor value = -1.500");
    let (_, m) = validate_sensor_data(&ValidationFunction::Equal, Some(7), None, 8);
    assert_eq!(m, "expected value == 0.007. Got 0.008");
    let (_, m) = validate_sensor_data(&ValidationFunction::LessThan, Some(10000), None, 10010);
    assert_eq!(m, "sensor value 10.010 is within the tolerance band of 10.000");
    let (_, m) = validate_sensor_data(&ValidationFunction::Between, Some(10000), Some(20000), 9000);
    assert_eq!(m, "sensor value 9.000 is < 9.950 or > 20.050");
    let (_, m) = validate_sensor_data(&ValidationFunction::Between, Some(10000), Some(20000), 15000);
    assert_eq!(m, "expected 10.050 < sensor value < 19.950. Got sensor value = 15.000");
}

#[test]
fn missing_parameters_and_unknown_function() {
    let (v, m) = validate_sensor_data(&ValidationFunction::GreaterThan, None, None, 1);
    assert_eq!(v, Verdict::Indeterminate);
    assert_eq!(m, "can not validate: parameter missing");
    let (v, _) = validate_sensor_data(&ValidationFunction::Between, Some(1), None, 1);
    assert_eq!(v, Verdict::Indeterminate);
    let f = ValidationFunction::Unknown(">=".to_string());
    let (v, m) = validate_sensor_data(&f, Some(1), Some(2), 100);
    assert_eq!(v, Verdict::Indeterminate);
    assert_eq!(m, "validation function unknown: >=");
}

#[test]
fn parses_function_names() {
    assert!(matches!(parse_validation_function(">"), ValidationFunction::GreaterThan));
    assert!(matches!(parse_validation_function("<"), ValidationFunction::LessThan));
    assert!(matches!(parse_validation_function("=="), ValidationFunction::Equal));
    assert!(matches!(parse_validation_function("!="), ValidationFunction::NotEqual));
    assert!(matches!(parse_validation_function("b"), ValidationFunction::Between));
    match parse_validation_function("=") {
        ValidationFunction::Unknown(name) => assert_eq!(name, "="),
        _ => panic!("expected an unknown function"),
    }
}

#[test]
fn first_matching_reading_wins() {
    let data = Some(vec![reading("t1", "first", 1), reading("t2", "second", 2), reading("t1", "third", 3)]);
    let found = find_sensor_data_by_id(&"t1".to_string(), &data).unwrap();
    assert_eq!(found.sensor_name, "first");
    assert_eq!(found.value, 1);
    assert!(find_sensor_data_by_id(&"t3".to_string(), &data).is_none());
    assert!(find_sensor_data_by_id(&"t1".to_string(), &None).is_none());
}
