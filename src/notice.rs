//! The notices that the check-in and the offline sweep hand to the transports.
use vstd::prelude::*;

verus! {

/// Which change a notice reports.
#[derive(PartialEq, Eq, Structural, Clone, Copy, Debug)]
pub enum NoticeKind {
    /// The node fell silent.
    NodeOffline,
    /// The node checked in again after an offline notice.
    NodeOnline,
    /// A sensor reading failed its trigger, or went missing.
    ValidationFailed,
    /// A sensor reading passes its trigger again.
    ValidationOk,
}

/// A notice with everything its message is made from.
pub struct Notice {
    pub kind: NoticeKind,
    pub node_id_external: String,
    /// The node's recipients, separated by `;`.
    pub notification_email_list: String,
    /// When the event was seen, in seconds since the Unix epoch.
    pub checkin_timestamp: i64,
    /// The node's check-in before this event, in seconds since the Unix epoch.
    pub last_checkin_timestamp: i64,
    /// The sensor concerned; empty for node notices.
    pub sensor_id: String,
    /// The name the reading gave its sensor; empty when there was no reading.
    pub sensor_name: String,
    /// Why the validation came out as it did; empty for node notices.
    pub validation_message: String,
}

/// A notice as values.
pub struct NoticeView {
    pub kind: NoticeKind,
    pub node: Seq<char>,
    pub recipients: Seq<char>,
    pub checkin: int,
    pub last_checkin: int,
    pub sensor_id: Seq<char>,
    pub sensor_name: Seq<char>,
    pub message: Seq<char>,
}

impl View for Notice {
    type V = NoticeView;

    open spec fn view(&self) -> NoticeView {
        NoticeView {
            kind: self.kind,
            node: self.node_id_external@,
            recipients: self.notification_email_list@,
            checkin: self.checkin_timestamp as int,
            last_checkin: self.last_checkin_timestamp as int,
            sensor_id: self.sensor_id@,
            sensor_name: self.sensor_name@,
            message: self.validation_message@,
        }
    }
}

/// The values of a list of notices, in order.
pub open spec fn notices_view(v: Seq<Notice>) -> Seq<NoticeView> {
    v.map_values(|n: Notice| n@)
}

} // verus!
