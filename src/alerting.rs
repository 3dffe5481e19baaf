//! Edge detection of alerts: a notice goes out when a flag changes, never
//! while it stays as it is.
use crate::models::{SensorData, SensorTrigger};
use crate::validation::{
    Verdict, find_sensor_data_by_id, matching_reading, message_of, validate_sensor_data,
    verdict_of,
};
use vstd::prelude::*;

verus! {

/// The change that one verdict brings to a "notified" flag.
#[derive(PartialEq, Eq, Structural, Clone, Copy, Debug)]
pub enum Transition {
    /// No notice is warranted and the flag keeps its value.
    Stay,
    /// The flag is clear and the verdict failed: a failure notice is due.
    Fail,
    /// The flag is set and the verdict passed: a recovery notice is due.
    Recover,
}

pub open spec fn transition_of(notified: bool, verdict: Verdict) -> Transition {
    if !notified && verdict == Verdict::Fail {
        Transition::Fail
    } else if notified && verdict == Verdict::Pass {
        Transition::Recover
    } else {
        Transition::Stay
    }
}

/// Decides, from the current flag and a new verdict, which notice is due.
pub fn debounce(notified: bool, verdict: Verdict) -> (r: Transition)
    ensures
        r == transition_of(notified, verdict),
{
    if !notified && verdict == Verdict::Fail {
        Transition::Fail
    } else if notified && verdict == Verdict::Pass {
        Transition::Recover
    } else {
        Transition::Stay
    }
}

/// The flag after a transition. A due notice that nobody can receive leaves
/// the flag as it was, so that the condition is reported once someone can.
pub open spec fn flag_after(notified: bool, t: Transition, has_recipients: bool) -> bool {
    match t {
        Transition::Stay => notified,
        Transition::Fail => if has_recipients {
            true
        } else {
            notified
        },
        Transition::Recover => if has_recipients {
            false
        } else {
            notified
        },
    }
}

/// A notice goes out for a transition exactly when it is due and has recipients.
pub open spec fn notice_sent(t: Transition, has_recipients: bool) -> bool {
    t != Transition::Stay && has_recipients
}

/// The message of a trigger whose sensor sent no reading.
pub open spec fn missing_reading_text() -> Seq<char> {
    "sensor value is missing"@
}

/// What a check-in tells about one trigger: its verdict, the message that
/// explains it and the name of the sensor read; nothing when the reading is
/// missing and its absence has been reported already.
pub open spec fn evaluation_of(t: SensorTrigger, readings: Option<Vec<SensorData>>) -> Option<
    (Verdict, Seq<char>, Seq<char>),
> {
    match matching_reading(readings, t.sensor_id@) {
        None => if t.trigger_notification_sent {
            None
        } else {
            Some((Verdict::Fail, missing_reading_text(), Seq::empty()))
        },
        Some(r) => Some(
            (
                verdict_of(
                    t.validation_function,
                    t.validation_parameter_1,
                    t.validation_parameter_2,
                    r.value as int,
                ),
                message_of(
                    t.validation_function,
                    t.validation_parameter_1,
                    t.validation_parameter_2,
                    r.value as int,
                ),
                r.sensor_name@,
            ),
        ),
    }
}

/// The transition that a check-in brings to a trigger.
pub open spec fn trigger_transition(t: SensorTrigger, readings: Option<Vec<SensorData>>) -> Transition {
    match evaluation_of(t, readings) {
        None => Transition::Stay,
        Some(e) => transition_of(t.trigger_notification_sent, e.0),
    }
}

/// Judges the reading that a check-in carries for the trigger's sensor.
pub fn evaluate_trigger(trigger: &SensorTrigger, readings: &Option<Vec<SensorData>>) -> (r: Option<
    (Verdict, String, String),
>)
    ensures
        match r {
            None => evaluation_of(*trigger, *readings) is None,
            Some(e) => evaluation_of(*trigger, *readings) == Some((e.0, e.1@, e.2@)),
        },
{
    match find_sensor_data_by_id(&trigger.sensor_id, readings) {
        None => {
            if trigger.trigger_notification_sent {
                None
            } else {
                Some((Verdict::Fail, String::from_str("sensor value is missing"), String::new()))
            }
        },
        Some(x) => {
            let (verdict, message) = validate_sensor_data(
                &trigger.validation_function,
                trigger.validation_parameter_1,
                trigger.validation_parameter_2,
                x.value,
            );
            Some((verdict, message, x.sensor_name.clone()))
        },
    }
}

/// Two failures in a row from a clear flag give one failure notice, and the
/// flag stays set after both.
pub proof fn lemma_repeated_failure_notifies_once()
    ensures
        ({
            let t1 = transition_of(false, Verdict::Fail);
            let f1 = flag_after(false, t1, true);
            let t2 = transition_of(f1, Verdict::Fail);
            let f2 = flag_after(f1, t2, true);
            notice_sent(t1, true) && t1 == Transition::Fail && !notice_sent(t2, true) && f1
                && f2
        }),
{
}

/// A pass on a set flag gives one recovery notice and clears the flag; a
/// second pass gives none.
pub proof fn lemma_recovery_notifies_once()
    ensures
        ({
            let t1 = transition_of(true, Verdict::Pass);
            let f1 = flag_after(true, t1, true);
            let t2 = transition_of(f1, Verdict::Pass);
            let f2 = flag_after(f1, t2, true);
            notice_sent(t1, true) && t1 == Transition::Recover && !notice_sent(t2, true) && !f1
                && !f2
        }),
{
}

/// A trigger whose reading is missing fails once, with a notice, and stays
/// silent on later check-ins that still miss the reading.
pub proof fn lemma_missing_reading_reported_once(
    t: SensorTrigger,
    readings: Option<Vec<SensorData>>,
    later: Option<Vec<SensorData>>,
)
    requires
        !t.trigger_notification_sent,
        matching_reading(readings, t.sensor_id@) is None,
        matching_reading(later, t.sensor_id@) is None,
    ensures
        evaluation_of(t, readings) == Some((Verdict::Fail, missing_reading_text(), Seq::<char>::empty())),
        trigger_transition(t, readings) == Transition::Fail,
        notice_sent(trigger_transition(t, readings), true),
        flag_after(false, trigger_transition(t, readings), true),
        ({
            let t2 = SensorTrigger { trigger_notification_sent: true, ..t };
            evaluation_of(t2, later) is None && trigger_transition(t2, later) == Transition::Stay
        }),
{
}

/// A due notice without recipients is not sent and leaves the flag as it was;
/// the same verdict, once recipients are there, sends it and moves the flag.
pub proof fn lemma_no_recipients_defers(notified: bool, verdict: Verdict)
    requires
        transition_of(notified, verdict) != Transition::Stay,
    ensures
        !notice_sent(transition_of(notified, verdict), false),
        flag_after(notified, transition_of(notified, verdict), false) == notified,
        notice_sent(transition_of(notified, verdict), true),
        flag_after(notified, transition_of(notified, verdict), true) != notified,
{
}

} // verus!
