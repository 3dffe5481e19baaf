//! The records that check-ins, the store and the notifier exchange.
//!
//! Sensor values and validation parameters are fixed-point numbers counted in
//! thousandths (`12.5` is `12500`); timestamps are whole seconds since the Unix
//! epoch.
use vstd::prelude::*;

verus! {

/// One sensor reading carried by a check-in.
pub struct SensorData {
    pub id: String,
    pub sensor_name: String,
    /// The reading, in thousandths.
    pub value: i64,
}

/// An inbound check-in report of a node.
pub struct CheckinData {
    pub api_key: String,
    pub node_id: String,
    pub sensor_data: Option<Vec<SensorData>>,
}

/// The rule that a trigger applies to its sensor's reading.
pub enum ValidationFunction {
    /// `>`: the reading must lie above the first parameter.
    GreaterThan,
    /// `<`: the reading must lie below the first parameter.
    LessThan,
    /// `==`: the reading must equal the first parameter exactly.
    Equal,
    /// `!=`: the reading must differ from the first parameter.
    NotEqual,
    /// `b`: the reading must lie strictly between the two parameters.
    Between,
    /// Any other name; such a trigger never passes nor fails.
    Unknown(String),
}

/// A configured rule binding one sensor of one node to a validation function.
pub struct SensorTrigger {
    pub sensor_triggers_id: u64,
    pub node_id: u64,
    pub sensor_id: String,
    pub monitoring_enabled: bool,
    /// Set while a failure notice stands unanswered by a recovery notice.
    pub trigger_notification_sent: bool,
    pub validation_function: ValidationFunction,
    /// First parameter, in thousandths.
    pub validation_parameter_1: Option<i64>,
    /// Second parameter, in thousandths.
    pub validation_parameter_2: Option<i64>,
}

/// A monitored node.
pub struct Nodes {
    pub id: u64,
    pub node_id_external: String,
    pub fk_api_key_id: u64,
    pub monitoring_enabled: bool,
    /// Seconds since the Unix epoch.
    pub last_checkin_timestamp: i64,
    /// Recipients, separated by `;`; empty when nobody is to be told.
    pub notification_email_list: String,
    /// Set while an offline notice stands unanswered by an online notice.
    pub offline_notification_sent: bool,
}

/// A key that authenticates the owner of nodes.
pub struct ApiKey {
    pub id: u64,
    pub api_key: String,
}

/// Settings of the mail transport.
#[derive(Debug, Default, Clone)]
pub struct Email {
    pub smtp_server: String,
    pub username: String,
    pub password: String,
}

/// Settings of the chat transport.
#[derive(Debug, Default, Clone)]
pub struct TelegramConfig {
    pub bot_token: String,
    pub channel_id: String,
}

} // verus!
