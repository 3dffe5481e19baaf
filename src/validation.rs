//! Judging one sensor reading against one trigger rule.
use crate::models::{SensorData, ValidationFunction};
use crate::text::{append_fixed, fixed_text};
use vstd::prelude::*;

verus! {

/// Half-width of the band around a threshold inside which a reading is
/// neither passing nor failing: 0.05 in thousandths.
pub const TOLERANCE: i64 = 50;

/// The outcome of validating one reading.
#[derive(PartialEq, Eq, Structural, Clone, Copy, Debug)]
pub enum Verdict {
    Pass,
    Fail,
    Indeterminate,
}

/// Maps a function name to its rule; a name outside the five known ones is kept.
pub open spec fn function_named(f: ValidationFunction, name: Seq<char>) -> bool {
    if name == seq!['>'] {
        f is GreaterThan
    } else if name == seq!['<'] {
        f is LessThan
    } else if name == seq!['=', '='] {
        f is Equal
    } else if name == seq!['!', '='] {
        f is NotEqual
    } else if name == seq!['b'] {
        f is Between
    } else {
        f is Unknown && f->Unknown_0@ == name
    }
}

/// Reads the name of a validation function: `>`, `<`, `==`, `!=` or `b`.
pub fn parse_validation_function(name: &str) -> (r: ValidationFunction)
    ensures
        function_named(r, name@),
{
    let n = name.unicode_len();
    if n == 1 {
        let c = name.get_char(0);
        if c == '>' {
            assert(name@ =~= seq!['>']);
            return ValidationFunction::GreaterThan;
        } else if c == '<' {
            assert(name@ =~= seq!['<']);
            return ValidationFunction::LessThan;
        } else if c == 'b' {
            assert(name@ =~= seq!['b']);
            return ValidationFunction::Between;
        }
    } else if n == 2 {
        let c0 = name.get_char(0);
        let c1 = name.get_char(1);
        if c0 == '=' && c1 == '=' {
            assert(name@ =~= seq!['=', '=']);
            return ValidationFunction::Equal;
        } else if c0 == '!' && c1 == '=' {
            assert(name@ =~= seq!['!', '=']);
            return ValidationFunction::NotEqual;
        }
    }
    ValidationFunction::Unknown(name.to_owned())
}

/// The verdict of a rule with its parameters on a reading (all in thousandths).
pub open spec fn verdict_of(
    f: ValidationFunction,
    p1: Option<i64>,
    p2: Option<i64>,
    v: int,
) -> Verdict {
    let d = TOLERANCE as int;
    match f {
        ValidationFunction::GreaterThan => match p1 {
            Some(x) => if v > x + d {
                Verdict::Pass
            } else if v < x - d {
                Verdict::Fail
            } else {
                Verdict::Indeterminate
            },
            None => Verdict::Indeterminate,
        },
        ValidationFunction::LessThan => match p1 {
            Some(x) => if v < x - d {
                Verdict::Pass
            } else if v > x + d {
                Verdict::Fail
            } else {
                Verdict::Indeterminate
            },
            None => Verdict::Indeterminate,
        },
        ValidationFunction::Equal => match p1 {
            Some(x) => if v == x {
                Verdict::Pass
            } else {
                Verdict::Fail
            },
            None => Verdict::Indeterminate,
        },
        ValidationFunction::NotEqual => match p1 {
            Some(x) => if v != x {
                Verdict::Pass
            } else {
                Verdict::Fail
            },
            None => Verdict::Indeterminate,
        },
        ValidationFunction::Between => match (p1, p2) {
            (Some(x), Some(y)) => if x + d < v && v < y - d {
                Verdict::Pass
            } else if v < x - d || v > y + d {
                Verdict::Fail
            } else {
                Verdict::Indeterminate
            },
            _ => Verdict::Indeterminate,
        },
        ValidationFunction::Unknown(_) => Verdict::Indeterminate,
    }
}

/// "expected sensor value <op> <bound>. Got sensor value = <v>"
pub open spec fn expectation_text(op: Seq<char>, bound: int, v: int) -> Seq<char> {
    "expected sensor value "@ + op + " "@ + fixed_text(bound) + ". Got sensor value = "@
        + fixed_text(v)
}

/// "expected value <op> <x>. Got <v>"
pub open spec fn exact_text(op: Seq<char>, x: int, v: int) -> Seq<char> {
    "expected value "@ + op + " "@ + fixed_text(x) + ". Got "@ + fixed_text(v)
}

/// "sensor value <v> is within the tolerance band of <x>"
pub open spec fn band_text(v: int, x: int) -> Seq<char> {
    "sensor value "@ + fixed_text(v) + " is within the tolerance band of "@ + fixed_text(x)
}

pub open spec fn missing_parameter_text() -> Seq<char> {
    "can not validate: parameter missing"@
}

/// The message that explains a verdict; there is one for every verdict.
pub open spec fn message_of(f: ValidationFunction, p1: Option<i64>, p2: Option<i64>, v: int) -> Seq<
    char,
> {
    let d = TOLERANCE as int;
    match f {
        ValidationFunction::GreaterThan => match p1 {
            Some(x) => if v > x + d {
                expectation_text(">"@, x + d, v)
            } else if v < x - d {
                expectation_text(">"@, x - d, v)
            } else {
                band_text(v, x as int)
            },
            None => missing_parameter_text(),
        },
        ValidationFunction::LessThan => match p1 {
            Some(x) => if v < x - d {
                expectation_text("<"@, x - d, v)
            } else if v > x + d {
                expectation_text("<"@, x + d, v)
            } else {
                band_text(v, x as int)
            },
            None => missing_parameter_text(),
        },
        ValidationFunction::Equal => match p1 {
            Some(x) => exact_text("=="@, x as int, v),
            None => missing_parameter_text(),
        },
        ValidationFunction::NotEqual => match p1 {
            Some(x) => exact_text("!="@, x as int, v),
            None => missing_parameter_text(),
        },
        ValidationFunction::Between => match (p1, p2) {
            (Some(x), Some(y)) => if x + d < v && v < y - d {
                "expected "@ + fixed_text(x + d) + " < sensor value < "@ + fixed_text(y - d)
                    + ". Got sensor value = "@ + fixed_text(v)
            } else if v < x - d || v > y + d {
                "sensor value "@ + fixed_text(v) + " is < "@ + fixed_text(x - d) + " or > "@
                    + fixed_text(y + d)
            } else {
                band_text(v, x as int) + " .. "@ + fixed_text(y as int)
            },
            _ => missing_parameter_text(),
        },
        ValidationFunction::Unknown(name) => "validation function unknown: "@ + name@,
    }
}

fn expectation(op: &str, bound: i128, v: i64) -> (r: String)
    requires
        bound > i128::MIN,
    ensures
        r@ == expectation_text(op@, bound as int, v as int),
{
    let mut s = String::new();
    s.append("expected sensor value ");
    s.append(op);
    s.append(" ");
    append_fixed(&mut s, bound);
    s.append(". Got sensor value = ");
    append_fixed(&mut s, v as i128);
    s
}

fn exact(op: &str, x: i64, v: i64) -> (r: String)
    ensures
        r@ == exact_text(op@, x as int, v as int),
{
    let mut s = String::new();
    s.append("expected value ");
    s.append(op);
    s.append(" ");
    append_fixed(&mut s, x as i128);
    s.append(". Got ");
    append_fixed(&mut s, v as i128);
    s
}

fn band(v: i64, x: i64) -> (r: String)
    ensures
        r@ == band_text(v as int, x as int),
{
    let mut s = String::new();
    s.append("sensor value ");
    append_fixed(&mut s, v as i128);
    s.append(" is within the tolerance band of ");
    append_fixed(&mut s, x as i128);
    s
}

fn missing_parameter() -> (r: String)
    ensures
        r@ == missing_parameter_text(),
{
    String::from_str("can not validate: parameter missing")
}

/// Judges `sensor_value` by the rule and its parameters, with a message that
/// explains the verdict.
pub fn validate_sensor_data(
    validation_function: &ValidationFunction,
    validation_parameter_1: Option<i64>,
    validation_parameter_2: Option<i64>,
    sensor_value: i64,
) -> (r: (Verdict, String))
    ensures
        r.0 == verdict_of(
            *validation_function,
            validation_parameter_1,
            validation_parameter_2,
            sensor_value as int,
        ),
        r.1@ == message_of(
            *validation_function,
            validation_parameter_1,
            validation_parameter_2,
            sensor_value as int,
        ),
{
    let d = TOLERANCE as i128;
    let v = sensor_value as i128;
    match validation_function {
        ValidationFunction::GreaterThan => match validation_parameter_1 {
            Some(x) => {
                let x = x as i128;
                if v > x + d {
                    (Verdict::Pass, expectation(">", x + d, sensor_value))
                } else if v < x - d {
                    (Verdict::Fail, expectation(">", x - d, sensor_value))
                } else {
                    (Verdict::Indeterminate, band(sensor_value, x as i64))
                }
            },
            None => (Verdict::Indeterminate, missing_parameter()),
        },
        ValidationFunction::LessThan => match validation_parameter_1 {
            Some(x) => {
                let x = x as i128;
                if v < x - d {
                    (Verdict::Pass, expectation("<", x - d, sensor_value))
                } else if v > x + d {
                    (Verdict::Fail, expectation("<", x + d, sensor_value))
                } else {
                    (Verdict::Indeterminate, band(sensor_value, x as i64))
                }
            },
            None => (Verdict::Indeterminate, missing_parameter()),
        },
        ValidationFunction::Equal => match validation_parameter_1 {
            Some(x) => if sensor_value == x {
                (Verdict::Pass, exact("==", x, sensor_value))
            } else {
                (Verdict::Fail, exact("==", x, sensor_value))
            },
            None => (Verdict::Indeterminate, missing_parameter()),
        },
        ValidationFunction::NotEqual => match validation_parameter_1 {
            Some(x) => if sensor_value != x {
                (Verdict::Pass, exact("!=", x, sensor_value))
            } else {
                (Verdict::Fail, exact("!=", x, sensor_value))
            },
            None => (Verdict::Indeterminate, missing_parameter()),
        },
        ValidationFunction::Between => match (validation_parameter_1, validation_parameter_2) {
            (Some(x), Some(y)) => {
                let lo = x as i128;
                let hi = y as i128;
                let mut s = String::new();
                if lo + d < v && v < hi - d {
                    s.append("expected ");
                    append_fixed(&mut s, lo + d);
                    s.append(" < sensor value < ");
                    append_fixed(&mut s, hi - d);
                    s.append(". Got sensor value = ");
                    append_fixed(&mut s, v);
                    (Verdict::Pass, s)
                } else if v < lo - d || v > hi + d {
                    s.append("sensor value ");
                    append_fixed(&mut s, v);
                    s.append(" is < ");
                    append_fixed(&mut s, lo - d);
                    s.append(" or > ");
                    append_fixed(&mut s, hi + d);
                    (Verdict::Fail, s)
                } else {
                    let mut s = band(sensor_value, x);
                    s.append(" .. ");
                    append_fixed(&mut s, hi);
                    (Verdict::Indeterminate, s)
                }
            },
            _ => (Verdict::Indeterminate, missing_parameter()),
        },
        ValidationFunction::Unknown(name) => {
            let mut s = String::from_str("validation function unknown: ");
            s.append(name.as_str());
            (Verdict::Indeterminate, s)
        },
    }
}

/// `i` is the first position in `rs` of a reading with the sensor id `id`.
pub open spec fn is_first_match(rs: Seq<SensorData>, id: Seq<char>, i: int) -> bool {
    0 <= i < rs.len() && rs[i].id@ == id && forall|j: int| 0 <= j < i ==> rs[j].id@ != id
}

/// Some reading in `rs` carries the sensor id `id`.
pub open spec fn has_match(rs: Seq<SensorData>, id: Seq<char>) -> bool {
    exists|i: int| 0 <= i < rs.len() && rs[i].id@ == id
}

/// The position of the first reading with the sensor id `id`.
pub open spec fn first_match(rs: Seq<SensorData>, id: Seq<char>) -> int {
    choose|i: int| is_first_match(rs, id, i)
}

/// The reading that a trigger on sensor `id` judges: the first one that
/// carries its id, if the check-in has readings and one of them does.
pub open spec fn matching_reading(readings: Option<Vec<SensorData>>, id: Seq<char>) -> Option<
    SensorData,
> {
    match readings {
        Some(rs) => if has_match(rs@, id) {
            Some(rs@[first_match(rs@, id)])
        } else {
            None
        },
        None => None,
    }
}

/// There is only one first match.
pub proof fn lemma_first_match_unique(rs: Seq<SensorData>, id: Seq<char>, i: int)
    requires
        is_first_match(rs, id, i),
    ensures
        has_match(rs, id),
        first_match(rs, id) == i,
{
    let k = first_match(rs, id);
    assert(is_first_match(rs, id, k));
    if k < i {
        assert(rs[k].id@ != id);
    } else if i < k {
        assert(rs[i].id@ != id);
    }
}

/// Finds the first reading that carries the trigger's sensor id.
pub fn find_sensor_data_by_id<'a>(
    trigger_sensor_id: &String,
    sensor_data: &'a Option<Vec<SensorData>>,
) -> (r: Option<&'a SensorData>)
    ensures
        match r {
            Some(x) => matching_reading(*sensor_data, trigger_sensor_id@) == Some(*x),
            None => matching_reading(*sensor_data, trigger_sensor_id@) is None,
        },
{
    match sensor_data {
        Some(rs) => {
            let mut i: usize = 0;
            while i < rs.len()
                invariant
                    *sensor_data == Some(*rs),
                    i <= rs@.len(),
                    forall|j: int| 0 <= j < i ==> rs@[j].id@ != trigger_sensor_id@,
                decreases rs.len() - i,
            {
                if rs[i].id == *trigger_sensor_id {
                    proof {
                        lemma_first_match_unique(rs@, trigger_sensor_id@, i as int);
                    }
                    return Some(&rs[i]);
                }
                i = i + 1;
            }
            None
        },
        None => None,
    }
}

} // verus!

verus! {

/// Above and below a threshold, a reading passes or fails only beyond the
/// tolerance band; inside the band, its edges included, it is indeterminate.
pub proof fn lemma_threshold_band(param1: i64, value: i64, param2: Option<i64>)
    ensures
        value > param1 + TOLERANCE ==> verdict_of(
            ValidationFunction::GreaterThan,
            Some(param1),
            param2,
            value as int,
        ) == Verdict::Pass,
        value < param1 - TOLERANCE ==> verdict_of(
            ValidationFunction::GreaterThan,
            Some(param1),
            param2,
            value as int,
        ) == Verdict::Fail,
        param1 - TOLERANCE <= value <= param1 + TOLERANCE ==> verdict_of(
            ValidationFunction::GreaterThan,
            Some(param1),
            param2,
            value as int,
        ) == Verdict::Indeterminate,
        value < param1 - TOLERANCE ==> verdict_of(
            ValidationFunction::LessThan,
            Some(param1),
            param2,
            value as int,
        ) == Verdict::Pass,
        value > param1 + TOLERANCE ==> verdict_of(
            ValidationFunction::LessThan,
            Some(param1),
            param2,
            value as int,
        ) == Verdict::Fail,
        param1 - TOLERANCE <= value <= param1 + TOLERANCE ==> verdict_of(
            ValidationFunction::LessThan,
            Some(param1),
            param2,
            value as int,
        ) == Verdict::Indeterminate,
{
}

/// Equality and inequality compare exactly: they never fall in a band, and a
/// reading that differs from the parameter by the least amount is told apart.
pub proof fn lemma_exact_comparisons(param1: i64, value: i64, param2: Option<i64>)
    ensures
        verdict_of(ValidationFunction::Equal, Some(param1), param2, value as int) == (if value
            == param1 {
            Verdict::Pass
        } else {
            Verdict::Fail
        }),
        verdict_of(ValidationFunction::NotEqual, Some(param1), param2, value as int) == (if value
            != param1 {
            Verdict::Pass
        } else {
            Verdict::Fail
        }),
{
}

} // verus!
