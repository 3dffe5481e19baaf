use remote_pi_monitor::alerting::{debounce, evaluate_trigger, Transition};
use remote_pi_monitor::models::{
    ApiKey, CheckinData, Nodes, SensorData, SensorTrigger, ValidationFunction,
};
use remote_pi_monitor::notice::NoticeKind;
use remote_pi_monitor::store::Store;
use remote_pi_monitor::validation::Verdict;

fn trigger(id: u64, node_id: u64, sensor: &str, f: ValidationFunction, p1: i64) -> SensorTrigger {
    SensorTrigger {
        sensor_triggers_id: id,
        node_id,
        sensor_id: sensor.to_string(),
        monitoring_enabled: true,
        trigger_notification_sent: false,
        validation_function: f,
        validation_parameter_1: Some(p1),
        validation_parameter_2: None,
    }
}

fn checkin(key: &str, node: &str, readings: Option<Vec<SensorData>>) -> CheckinData {
    CheckinData { api_key: key.to_string(), node_id: node.to_string(), sensor_data: readings }
}

fn temp(value: i64) -> Option<Vec<SensorData>> {
    Some(vec![SensorData { id: "temp".to_string(), sensor_name: "Temperature".to_string(), value }])
}

fn store_with_key() -> Store {
    let mut s = Store::new();
    s.api_keys.push(ApiKey { id: 7, api_key: "secret-key".to_string() });
    s
}

#[test]
fn debounce_transitions() {
    assert_eq!(debounce(false, Verdict::Fail), Transition::Fail);
    assert_eq!(debounce(true, Verdict::Fail), Transition::Stay);
    assert_eq!(debounce(true, Verdict::Pass), Transition::Recover);
    assert_eq!(debounce(false, Verdict::Pass), Transition::Stay);
    assert_eq!(debounce(false, Verdict::Indeterminate), Transition::Stay);
    assert_eq!(debounce(true, Verdict::Indeterminate), Transition::Stay);
}

#[test]
fn missing_reading_evaluation() {
    let mut t = trigger(1, 0, "temp", ValidationFunction::GreaterThan, 10000);
    let e = evaluate_trigger(&t, &None).unwrap();
    assert_eq!(e.0, Verdict::Fail);
    assert_eq!(e.1, "sensor value is missing");
    assert_eq!(e.2, "");
    t.trigger_notification_sent = true;
    assert!(evaluate_trigger(&t, &None).is_none());
    let e = evaluate_trigger(&t, &temp(20000)).unwrap();
    assert_eq!(e.0, Verdict::Pass);
    assert_eq!(e.2, "Temperature");
}

fn node_with_trigger(recipients: &str) -> Store {
    let mut s = store_with_key();
    let r = s.checkin_node(&checkin("secret-key", "pi-1", None), 1000);
    assert!(r.node_created);
    s.nodes[0].notification_email_list = recipients.to_string();
    s.triggers.push(trigger(1, 0, "temp", ValidationFunction::GreaterThan, 10000));
    s
}

#[test]
fn repeated_failure_notifies_once() {
    let mut s = node_with_trigger("ops@example.com");
    let r = s.checkin_node(&checkin("secret-key", "pi-1", temp(5000)), 1060);
    assert_eq!(r.notices.len(), 1);
    assert_eq!(r.notices[0].kind, NoticeKind::ValidationFailed);
    assert_eq!(r.notices[0].sensor_name, "Temperature");
    assert!(s.triggers[0].trigger_notification_sent);
    let r = s.checkin_node(&checkin("secret-key", "pi-1", temp(5000)), 1120);
    assert_eq!(r.notices.len(), 0);
    assert!(s.triggers[0].trigger_notification_sent);
}

#[test]
fn recovery_notifies_once() {
    let mut s = node_with_trigger("ops@example.com");
    s.triggers[0].trigger_notification_sent = true;
    let r = s.checkin_node(&checkin("secret-key", "pi-1", temp(12000)), 1060);
    assert_eq!(r.notices.len(), 1);
    assert_eq!(r.notices[0].kind, NoticeKind::ValidationOk);
    assert_eq!(r.notices[0].validation_message, "expected sensor value > 10.050. Got sensor value = 12.000");
    assert!(!s.triggers[0].trigger_notification_sent);
    let r = s.checkin_node(&checkin("secret-key", "pi-1", temp(12000)), 1120);
    assert_eq!(r.notices.len(), 0);
    assert!(!s.triggers[0].trigger_notification_sent);
}

#[test]
fn indeterminate_reading_changes_nothing() {
    let mut s = node_with_trigger("ops@example.com");
    let r = s.checkin_node(&checkin("secret-key", "pi-1", temp(10030)), 1060);
    assert_eq!(r.notices.len(), 0);
    assert!(!s.triggers[0].trigger_notification_sent);
}

#[test]
fn missing_reading_reported_once() {
    let mut s = node_with_trigger("ops@example.com");
    let r = s.checkin_node(&checkin("secret-key", "pi-1", None), 1060);
    assert_eq!(r.notices.len(), 1);
    assert_eq!(r.notices[0].kind, NoticeKind::ValidationFailed);
    assert_eq!(r.notices[0].validation_message, "sensor value is missing");
    assert!(s.triggers[0].trigger_notification_sent);
    let r = s.checkin_node(&checkin("secret-key", "pi-1", Some(vec![])), 1120);
    assert_eq!(r.notices.len(), 0);
    assert!(s.triggers[0].trigger_notification_sent);
}

#[test]
fn disabled_and_foreign_triggers_are_skipped() {
    let mut s = node_with_trigger("ops@example.com");
    s.triggers[0].monitoring_enabled = false;
    s.triggers.push(trigger(2, 5, "temp", ValidationFunction::GreaterThan, 10000));
    let r = s.checkin_node(&checkin("secret-key", "pi-1", temp(0)), 1060);
    assert_eq!(r.notices.len(), 0);
    assert!(!s.triggers[0].trigger_notification_sent);
    assert!(!s.triggers[1].trigger_notification_sent);
}

#[test]
fn empty_recipients_defer_the_notice() {
    let mut s = node_with_trigger("");
    let r = s.checkin_node(&checkin("secret-key", "pi-1", temp(5000)), 1060);
    assert_eq!(r.notices.len(), 0);
    assert_eq!(r.suppressed.len(), 1);
    assert!(!s.triggers[0].trigger_notification_sent);
    s.nodes[0].notification_email_list = "ops@example.com".to_string();
    let r = s.checkin_node(&checkin("secret-key", "pi-1", temp(5000)), 1120);
    assert_eq!(r.notices.len(), 1);
    assert_eq!(r.suppressed.len(), 0);
    assert_eq!(r.notices[0].notification_email_list, "ops@example.com");
    assert!(s.triggers[0].trigger_notification_sent);
}

#[test]
fn unknown_key_touches_nothing() {
    let mut s = store_with_key();
    let r = s.checkin_node(&checkin("wrong-key", "pi-1", temp(1)), 1000);
    assert!(r.api_key_id.is_none());
    assert!(!r.node_created);
    assert!(r.notices.is_empty());
    assert!(s.nodes.is_empty());
}

#[test]
fn node_lifecycle() {
    let mut s = store_with_key();
    let r = s.checkin_node(&checkin("secret-key", "pi-1", None), 1000);
    assert_eq!(r.api_key_id, Some(7));
    assert!(r.node_created);
    assert!(r.notices.is_empty());
    assert_eq!(s.nodes.len(), 1);
    let n: &Nodes = &s.nodes[0];
    assert_eq!(n.id, 0);
    assert_eq!(n.node_id_external, "pi-1");
    assert_eq!(n.fk_api_key_id, 7);
    assert_eq!(n.last_checkin_timestamp, 1000);
    assert_eq!(n.notification_email_list, "");
    assert!(!n.offline_notification_sent);

    let r = s.checkin_node(&checkin("secret-key", "pi-1", None), 1100);
    assert!(!r.node_created);
    assert!(r.notices.is_empty());
    assert_eq!(s.nodes.len(), 1);
    assert_eq!(s.nodes[0].last_checkin_timestamp, 1100);
    assert!(!s.nodes[0].offline_notification_sent);

    s.nodes[0].notification_email_list = "ops@example.com".to_string();
    assert!(s.alert_sender(1400).is_empty());
    assert!(!s.nodes[0].offline_notification_sent);

    let out = s.alert_sender(1401);
    assert_eq!(out.len(), 1);
    assert_eq!(out[0].kind, NoticeKind::NodeOffline);
    assert_eq!(out[0].last_checkin_timestamp, 1100);
    assert!(s.nodes[0].offline_notification_sent);
    assert!(s.alert_sender(2000).is_empty());

    let r = s.checkin_node(&checkin("secret-key", "pi-1", None), 2500);
    assert_eq!(r.notices.len(), 1);
    assert_eq!(r.notices[0].kind, NoticeKind::NodeOnline);
    assert_eq!(r.notices[0].checkin_timestamp, 2500);
    assert_eq!(r.notices[0].last_checkin_timestamp, 1100);
    assert!(!s.nodes[0].offline_notification_sent);
    assert_eq!(s.nodes[0].last_checkin_timestamp, 2500);
}

#[test]
fn sweep_skips_unmonitored_and_unaddressed_nodes() {
    let mut s = store_with_key();
    s.checkin_node(&checkin("secret-key", "a", None), 0);
    s.checkin_node(&checkin("secret-key", "b", None), 0);
    s.checkin_node(&checkin("secret-key", "c", None), 0);
    s.nodes[0].notification_email_list = "x@example.com".to_string();
    s.nodes[0].monitoring_enabled = false;
    s.nodes[2].notification_email_list = "y@example.com".to_string();
    let out = s.alert_sender(10000);
    assert_eq!(out.len(), 1);
    assert_eq!(out[0].node_id_external, "c");
    assert!(!s.nodes[0].offline_notification_sent);
    assert!(!s.nodes[1].offline_notification_sent);
    assert!(s.nodes[2].offline_notification_sent);
}

#[test]
fn online_notice_without_recipients_is_held_back() {
    let mut s = store_with_key();
    s.checkin_node(&checkin("secret-key", "pi-1", None), 0);
    s.nodes[0].offline_notification_sent = true;
    let r = s.checkin_node(&checkin("secret-key", "pi-1", None), 900);
    assert!(r.notices.is_empty());
    assert_eq!(r.suppressed.len(), 1);
    assert_eq!(r.suppressed[0].kind, NoticeKind::NodeOnline);
    assert!(!s.nodes[0].offline_notification_sent);
}

#[test]
fn same_node_name_under_two_keys() {
    let mut s = store_with_key();
    s.api_keys.push(ApiKey { id: 8, api_key: "other-key".to_string() });
    s.checkin_node(&checkin("secret-key", "pi-1", None), 0);
    let r = s.checkin_node(&checkin("other-key", "pi-1", None), 10);
    assert!(r.node_created);
    assert_eq!(s.nodes.len(), 2);
    assert_eq!(s.nodes[1].fk_api_key_id, 8);
    assert_eq!(s.nodes[1].id, 1);
}
