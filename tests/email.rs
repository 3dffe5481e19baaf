use remote_pi_monitor::email::{notification_email, split_recipients};
use remote_pi_monitor::notice::{Notice, NoticeKind};

fn notice(kind: NoticeKind, now: i64, last: i64) -> Notice {
    Notice {
        kind,
        node_id_external: "pi-1".to_string(),
        notification_email_list: "ops@example.com".to_string(),
        checkin_timestamp: now,
        last_checkin_timestamp: last,
        sensor_id: "temp".to_string(),
        sensor_name: "Temperature".to_string(),
        validation_message: "sensor value is missing".to_string(),
    }
}

#[test]
fn online_email_text() {
    // 2015-05-15 00:00:00 UTC is 03:00 in Riga (summer time)
    let m = notification_email(&notice(NoticeKind::NodeOnline, 1431648000, 1431648000 - 7259));
    assert_eq!(m.subject, "Node ON-line: pi-1");
    assert_eq!(m.body_plain, "Node - pi-1 - is ON-line since 2015-05-15 03:00:00. It was offline for 2h59s.");
    assert_eq!(
        m.body_html,
        "Node - <b>pi-1</b> - is <span style='color:green'><b>ON-line</b></span> since 2015-05-15 03:00:00. It was offline for 2h59s."
    );
}

#[test]
fn offline_email_text() {
    // 2021-01-01 00:00:00 UTC is 02:00 in Riga (winter time)
    let m = notification_email(&notice(NoticeKind::NodeOffline, 1609459200, 1609459200 - 6000000));
    assert_eq!(m.subject, "Node OFF-line: pi-1");
    assert_eq!(
        m.body_plain,
        "Node - pi-1 - is OFF-line. It was last seen 69d10h40m minutes ago on 2021-01-01 02:00:00."
    );
}

#[test]
fn elapsed_time_never_negative() {
    let m = notification_email(&notice(NoticeKind::NodeOnline, 1609459200, 1609459300));
    assert_eq!(m.body_plain, "Node - pi-1 - is ON-line since 2021-01-01 02:00:00. It was offline for 0s.");
}

#[test]
fn validation_email_text() {
    let m = notification_email(&notice(NoticeKind::ValidationFailed, 1609459200, 1609459200));
    assert_eq!(m.subject, "sensor validation FAILED: pi-1-Temperature");
    assert_eq!(
        m.body_plain,
        "Sensor validation FAILED:\n Node ID:pi-1\n Sensor Name: Temperature\n Sensor ID: temp\n Timestamp: 2021-01-01 02:00:00\n Validation: sensor value is missing"
    );
    assert_eq!(
        m.body_html,
        "Sensor validation <span style='color:red'>FAILED</span>.<br> Node ID:pi-1<br>Sensor Name: Temperature<br> Sensor ID: temp<br> Timestamp: 2021-01-01 02:00:00<br> Validation: <b>sensor value is missing</b>"
    );
    let m = notification_email(&notice(NoticeKind::ValidationOk, 1609459200, 1609459200));
    assert_eq!(m.subject, "Sensor validation OK: pi-1-Temperature");
    assert!(m.body_plain.starts_with("Sensor validation SUCCESSFUL:\n Node ID:pi-1"));
}

#[test]
fn recipients_split() {
    assert_eq!(split_recipients("a@x.lv;b@y.lv"), vec!["a@x.lv".to_string(), "b@y.lv".to_string()]);
    assert_eq!(split_recipients("a@x.lv"), vec!["a@x.lv".to_string()]);
    assert_eq!(split_recipients(""), vec!["".to_string()]);
    assert_eq!(split_recipients("a;"), vec!["a".to_string(), "".to_string()]);
    assert_eq!(split_recipients(";;"), vec!["".to_string(), "".to_string(), "".to_string()]);
}
