//! The e-mail that tells recipients of a notice.
use crate::notice::{Notice, NoticeKind, NoticeView};
use crate::text::decimal_text;
use vstd::prelude::*;

verus! {

/// The last second of the year 9999 in Unix time: notices are dated no later.
pub const MAX_TIMESTAMP: i64 = 253402300799;

/// The local time in Riga of a Unix timestamp, written "%Y-%m-%d %H:%M:%S".
pub uninterp spec fn riga_time_text(ts: int) -> Seq<char>;

/// Relies on chrono's `DateTime::from_timestamp` (a `DateTime<Utc>` for every
/// timestamp in range), chrono-tz's `Europe::Riga` zone and chrono's
/// `with_timezone` and `format`: the text depends on the timestamp alone.
#[verifier::external_body]
fn riga_local_time(ts: i64) -> (r: String)
    requires
        0 <= ts <= MAX_TIMESTAMP,
    ensures
        r@ == riga_time_text(ts as int),
{
    let utc = chrono::DateTime::from_timestamp(ts, 0).unwrap();
    utc.with_timezone(&chrono_tz::Europe::Riga).format("%Y-%m-%d %H:%M:%S").to_string()
}

/// One unit of a compound duration: the count and the unit's letter, or
/// nothing when the count is zero.
pub open spec fn duration_part(count: nat, unit: char) -> Seq<char> {
    if count == 0 {
        Seq::empty()
    } else {
        decimal_text(count) + seq![unit]
    }
}

/// A number of seconds as days, hours, minutes and seconds ("2h59s").
pub open spec fn duration_text(secs: nat) -> Seq<char> {
    if secs == 0 {
        "0s"@
    } else {
        duration_part(secs / 86400, 'd') + duration_part(secs % 86400 / 3600, 'h')
            + duration_part(secs % 3600 / 60, 'm') + duration_part(secs % 60, 's')
    }
}

/// Relies on compound_duration::format_dhms: the days, hours, minutes and
/// seconds of a count of seconds, each in decimal with its letter and left out
/// when zero; "0s" for no time at all.
#[verifier::external_body]
fn format_duration(secs: u64) -> (r: String)
    ensures
        r@ == duration_text(secs as nat),
{
    compound_duration::format_dhms(secs)
}

/// The time between the previous check-in and the event, none if the clock
/// went backwards.
pub open spec fn elapsed_seconds(n: NoticeView) -> nat {
    if n.checkin >= n.last_checkin {
        (n.checkin - n.last_checkin) as nat
    } else {
        0
    }
}

/// A message to send, with both bodies.
pub struct EmailMessage {
    pub subject: String,
    pub body_plain: String,
    pub body_html: String,
}

pub open spec fn offline_subject(n: NoticeView) -> Seq<char> {
    "Node OFF-line: "@ + n.node
}

pub open spec fn offline_plain(n: NoticeView) -> Seq<char> {
    "Node - "@ + n.node + " - is OFF-line. It was last seen "@ + duration_text(elapsed_seconds(n))
        + " minutes ago on "@ + riga_time_text(n.checkin) + "."@
}

pub open spec fn offline_html(n: NoticeView) -> Seq<char> {
    "Node - <b>"@ + n.node + "</b> - is <span style='color:red'><b>OFF-line</b></span>. It was last seen "@
        + duration_text(elapsed_seconds(n)) + " minutes ago on "@ + riga_time_text(n.checkin)
        + "."@
}

pub open spec fn online_subject(n: NoticeView) -> Seq<char> {
    "Node ON-line: "@ + n.node
}

pub open spec fn online_plain(n: NoticeView) -> Seq<char> {
    "Node - "@ + n.node + " - is ON-line since "@ + riga_time_text(n.checkin)
        + ". It was offline for "@ + duration_text(elapsed_seconds(n)) + "."@
}

pub open spec fn online_html(n: NoticeView) -> Seq<char> {
    "Node - <b>"@ + n.node + "</b> - is <span style='color:green'><b>ON-line</b></span> since "@
        + riga_time_text(n.checkin) + ". It was offline for "@ + duration_text(elapsed_seconds(n))
        + "."@
}

pub open spec fn failed_subject(n: NoticeView) -> Seq<char> {
    "sensor validation FAILED: "@ + n.node + "-"@ + n.sensor_name
}

pub open spec fn failed_plain(n: NoticeView) -> Seq<char> {
    "Sensor validation FAILED:\n Node ID:"@ + n.node + "\n Sensor Name: "@ + n.sensor_name
        + "\n Sensor ID: "@ + n.sensor_id + "\n Timestamp: "@ + riga_time_text(n.checkin)
        + "\n Validation: "@ + n.message
}

pub open spec fn failed_html(n: NoticeView) -> Seq<char> {
    "Sensor validation <span style='color:red'>FAILED</span>.<br> Node ID:"@ + n.node
        + "<br>Sensor Name: "@ + n.sensor_name + "<br> Sensor ID: "@ + n.sensor_id
        + "<br> Timestamp: "@ + riga_time_text(n.checkin) + "<br> Validation: <b>"@ + n.message
        + "</b>"@
}

pub open spec fn ok_subject(n: NoticeView) -> Seq<char> {
    "Sensor validation OK: "@ + n.node + "-"@ + n.sensor_name
}

pub open spec fn ok_plain(n: NoticeView) -> Seq<char> {
    "Sensor validation SUCCESSFUL:\n Node ID:"@ + n.node + "\n Sensor Name: "@ + n.sensor_name
        + "\n Sensor ID: "@ + n.sensor_id + "\n Timestamp: "@ + riga_time_text(n.checkin)
        + "\n Validation: "@ + n.message
}

pub open spec fn ok_html(n: NoticeView) -> Seq<char> {
    "Sensor validation <span style='color:green'>SUCCESSFUL</span>.<br> Node ID:"@ + n.node
        + "<br>Sensor Name: "@ + n.sensor_name + " <br> Sensor ID: "@ + n.sensor_id
        + "<br> Timestamp: "@ + riga_time_text(n.checkin) + "<br> Validation: <b>"@ + n.message
        + "</b>"@
}

/// A notice's timestamps admit a message.
pub open spec fn dated(n: NoticeView) -> bool {
    0 <= n.checkin <= MAX_TIMESTAMP
}

fn elapsed(notice: &Notice) -> (r: String)
    ensures
        r@ == duration_text(elapsed_seconds(notice@)),
{
    let d: i128 = notice.checkin_timestamp as i128 - notice.last_checkin_timestamp as i128;
    if d >= 0 {
        format_duration(d as u64)
    } else {
        format_duration(0)
    }
}

/// The message that tells of a node gone offline.
pub fn node_offline_notification_email(notice: &Notice) -> (r: EmailMessage)
    requires
        dated(notice@),
    ensures
        r.subject@ == offline_subject(notice@),
        r.body_plain@ == offline_plain(notice@),
        r.body_html@ == offline_html(notice@),
{
    let duration = elapsed(notice);
    let time = riga_local_time(notice.checkin_timestamp);
    let node = notice.node_id_external.as_str();
    let mut subject = String::from_str("Node OFF-line: ");
    subject.append(node);
    let mut plain = String::from_str("Node - ");
    plain.append(node);
    plain.append(" - is OFF-line. It was last seen ");
    plain.append(duration.as_str());
    plain.append(" minutes ago on ");
    plain.append(time.as_str());
    plain.append(".");
    let mut html = String::from_str("Node - <b>");
    html.append(node);
    html.append("</b> - is <span style='color:red'><b>OFF-line</b></span>. It was last seen ");
    html.append(duration.as_str());
    html.append(" minutes ago on ");
    html.append(time.as_str());
    html.append(".");
    EmailMessage { subject, body_plain: plain, body_html: html }
}

/// The message that tells of a node back online.
pub fn node_online_notification_email(notice: &Notice) -> (r: EmailMessage)
    requires
        dated(notice@),
    ensures
        r.subject@ == online_subject(notice@),
        r.body_plain@ == online_plain(notice@),
        r.body_html@ == online_html(notice@),
{
    let duration = elapsed(notice);
    let time = riga_local_time(notice.checkin_timestamp);
    let node = notice.node_id_external.as_str();
    let mut subject = String::from_str("Node ON-line: ");
    subject.append(node);
    let mut plain = String::from_str("Node - ");
    plain.append(node);
    plain.append(" - is ON-line since ");
    plain.append(time.as_str());
    plain.append(". It was offline for ");
    plain.append(duration.as_str());
    plain.append(".");
    let mut html = String::from_str("Node - <b>");
    html.append(node);
    html.append("</b> - is <span style='color:green'><b>ON-line</b></span> since ");
    html.append(time.as_str());
    html.append(". It was offline for ");
    html.append(duration.as_str());
    html.append(".");
    EmailMessage { subject, body_plain: plain, body_html: html }
}

/// The message that tells of a failed sensor validation.
pub fn sensor_validation_failed_email(notice: &Notice) -> (r: EmailMessage)
    requires
        dated(notice@),
    ensures
        r.subject@ == failed_subject(notice@),
        r.body_plain@ == failed_plain(notice@),
        r.body_html@ == failed_html(notice@),
{
    let time = riga_local_time(notice.checkin_timestamp);
    let node = notice.node_id_external.as_str();
    let name = notice.sensor_name.as_str();
    let id = notice.sensor_id.as_str();
    let message = notice.validation_message.as_str();
    let mut subject = String::from_str("sensor validation FAILED: ");
    subject.append(node);
    subject.append("-");
    subject.append(name);
    let mut plain = String::from_str("Sensor validation FAILED:\n Node ID:");
    plain.append(node);
    plain.append("\n Sensor Name: ");
    plain.append(name);
    plain.append("\n Sensor ID: ");
    plain.append(id);
    plain.append("\n Timestamp: ");
    plain.append(time.as_str());
    plain.append("\n Validation: ");
    plain.append(message);
    let mut html = String::from_str(
        "Sensor validation <span style='color:red'>FAILED</span>.<br> Node ID:",
    );
    html.append(node);
    html.append("<br>Sensor Name: ");
    html.append(name);
    html.append("<br> Sensor ID: ");
    html.append(id);
    html.append("<br> Timestamp: ");
    html.append(time.as_str());
    html.append("<br> Validation: <b>");
    html.append(message);
    html.append("</b>");
    EmailMessage { subject, body_plain: plain, body_html: html }
}

/// The message that tells of a sensor validation that passes again.
pub fn sensor_validation_ok_email(notice: &Notice) -> (r: EmailMessage)
    requires
        dated(notice@),
    ensures
        r.subject@ == ok_subject(notice@),
        r.body_plain@ == ok_plain(notice@),
        r.body_html@ == ok_html(notice@),
{
    let time = riga_local_time(notice.checkin_timestamp);
    let node = notice.node_id_external.as_str();
    let name = notice.sensor_name.as_str();
    let id = notice.sensor_id.as_str();
    let message = notice.validation_message.as_str();
    let mut subject = String::from_str("Sensor validation OK: ");
    subject.append(node);
    subject.append("-");
    subject.append(name);
    let mut plain = String::from_str("Sensor validation SUCCESSFUL:\n Node ID:");
    plain.append(node);
    plain.append("\n Sensor Name: ");
    plain.append(name);
    plain.append("\n Sensor ID: ");
    plain.append(id);
    plain.append("\n Timestamp: ");
    plain.append(time.as_str());
    plain.append("\n Validation: ");
    plain.append(message);
    let mut html = String::from_str(
        "Sensor validation <span style='color:green'>SUCCESSFUL</span>.<br> Node ID:",
    );
    html.append(node);
    html.append("<br>Sensor Name: ");
    html.append(name);
    html.append(" <br> Sensor ID: ");
    html.append(id);
    html.append("<br> Timestamp: ");
    html.append(time.as_str());
    html.append("<br> Validation: <b>");
    html.append(message);
    html.append("</b>");
    EmailMessage { subject, body_plain: plain, body_html: html }
}

/// The message for a notice, by its kind.
pub open spec fn email_matches(n: NoticeView, r: EmailMessage) -> bool {
    match n.kind {
        NoticeKind::NodeOffline => r.subject@ == offline_subject(n) && r.body_plain@
            == offline_plain(n) && r.body_html@ == offline_html(n),
        NoticeKind::NodeOnline => r.subject@ == online_subject(n) && r.body_plain@ == online_plain(
            n,
        ) && r.body_html@ == online_html(n),
        NoticeKind::ValidationFailed => r.subject@ == failed_subject(n) && r.body_plain@
            == failed_plain(n) && r.body_html@ == failed_html(n),
        NoticeKind::ValidationOk => r.subject@ == ok_subject(n) && r.body_plain@ == ok_plain(n)
            && r.body_html@ == ok_html(n),
    }
}

/// Writes the message that a notice calls for.
pub fn notification_email(notice: &Notice) -> (r: EmailMessage)
    requires
        dated(notice@),
    ensures
        email_matches(notice@, r),
{
    match notice.kind {
        NoticeKind::NodeOffline => node_offline_notification_email(notice),
        NoticeKind::NodeOnline => node_online_notification_email(notice),
        NoticeKind::ValidationFailed => sensor_validation_failed_email(notice),
        NoticeKind::ValidationOk => sensor_validation_ok_email(notice),
    }
}

/// The fields of a list separated by `;`, in order: `k` separators make
/// `k + 1` fields, empty ones included.
pub open spec fn recipient_fields(s: Seq<char>) -> Seq<Seq<char>>
    decreases s.len(),
{
    if s.len() == 0 {
        seq![Seq::empty()]
    } else {
        let prev = recipient_fields(s.drop_last());
        if s.last() == ';' {
            prev.push(Seq::empty())
        } else {
            prev.update(prev.len() - 1, prev.last().push(s.last()))
        }
    }
}

proof fn lemma_recipient_fields_nonempty(s: Seq<char>)
    ensures
        recipient_fields(s).len() >= 1,
    decreases s.len(),
{
    if s.len() > 0 {
        lemma_recipient_fields_nonempty(s.drop_last());
    }
}

/// The values of a list of strings, in order.
pub open spec fn strings_view(v: Seq<String>) -> Seq<Seq<char>> {
    v.map_values(|x: String| x@)
}

/// Splits a node's recipient list at each `;`.
pub fn split_recipients(list: &str) -> (r: Vec<String>)
    ensures
        strings_view(r@) == recipient_fields(list@),
{
    let n = list.unicode_len();
    let mut out: Vec<String> = Vec::new();
    let mut start: usize = 0;
    let mut i: usize = 0;
    assert(list@.take(0) =~= Seq::<char>::empty());
    assert(strings_view(out@).push(list@.subrange(0, 0)) =~= recipient_fields(list@.take(0)));
    while i < n
        invariant
            start <= i <= n,
            n == list@.len(),
            strings_view(out@).push(list@.subrange(start as int, i as int)) == recipient_fields(
                list@.take(i as int),
            ),
        decreases n - i,
    {
        let c = list.get_char(i);
        let ghost prev = recipient_fields(list@.take(i as int));
        assert(list@.take(i + 1).drop_last() =~= list@.take(i as int));
        assert(list@.take(i + 1).last() == c);
        proof {
            lemma_recipient_fields_nonempty(list@.take(i as int));
        }
        if c == ';' {
            let ghost out0 = out@;
            let field = list.substring_char(start, i).to_owned();
            out.push(field);
            assert(strings_view(out@) =~= strings_view(out0).push(list@.subrange(start as int, i as int)));
            start = i + 1;
            assert(list@.subrange(start as int, i + 1) =~= Seq::<char>::empty());
            assert(strings_view(out@).push(list@.subrange(start as int, i + 1)) =~= prev.push(
                Seq::empty(),
            ));
        } else {
            assert(list@.subrange(start as int, i + 1) =~= list@.subrange(start as int, i as int).push(c));
            assert(strings_view(out@).push(list@.subrange(start as int, i + 1)) =~= prev.update(
                prev.len() - 1,
                prev.last().push(c),
            ));
        }
        i = i + 1;
    }
    let last = list.substring_char(start, n).to_owned();
    out.push(last);
    assert(list@.take(n as int) =~= list@);
    assert(strings_view(out@) =~= recipient_fields(list@));
    out
}

} // verus!
