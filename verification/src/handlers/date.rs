//! The date module: reads the local wall-clock once per probe and lays
//! the parts out as fields; the renderer joins them into one line.

use vstd::prelude::*;

use chrono::Datelike;
use chrono::Timelike;

use crate::fields::{field_or, FieldMap};
use crate::numfmt::{num2, pad2, spec_num2, spec_pad2};

verus! {

/// Relies on chrono::Local::now and its Datelike/Timelike accessors: the
/// weekday text, and the month, day, hour, minute and second numbers,
/// each within its documented range.
#[verifier::external_body]
fn now_local_parts() -> (r: (String, u32, u32, u32, u32, u32))
    ensures
        1 <= r.1 <= 12,
        1 <= r.2 <= 31,
        r.3 <= 23,
        r.4 <= 59,
        r.5 <= 59,
{
    let now = chrono::Local::now();
    (
        now.weekday().to_string(),
        now.month(),
        now.day(),
        now.hour(),
        now.minute(),
        now.second(),
    )
}

pub open spec fn spec_month_abbr(n: u32) -> Seq<char> {
    if n == 1 {
        "Jan"@
    } else if n == 2 {
        "Feb"@
    } else if n == 3 {
        "Mar"@
    } else if n == 4 {
        "Apr"@
    } else if n == 5 {
        "May"@
    } else if n == 6 {
        "Jun"@
    } else if n == 7 {
        "Jul"@
    } else if n == 8 {
        "Aug"@
    } else if n == 9 {
        "Sep"@
    } else if n == 10 {
        "Oct"@
    } else if n == 11 {
        "Nov"@
    } else {
        "Dec"@
    }
}

/// The three-letter abbreviation of a month number.
pub fn month_abbr(n: u32) -> (r: &'static str)
    requires
        1 <= n <= 12,
    ensures
        r@ == spec_month_abbr(n),
{
    match n {
        1 => "Jan",
        2 => "Feb",
        3 => "Mar",
        4 => "Apr",
        5 => "May",
        6 => "Jun",
        7 => "Jul",
        8 => "Aug",
        9 => "Sep",
        10 => "Oct",
        11 => "Nov",
        _ => "Dec",
    }
}

/// The hour on a twelve-hour clock: noon and midnight read as twelve.
pub open spec fn spec_mod_hour(hour: u32) -> u32 {
    if hour % 12 == 0 {
        12
    } else {
        hour % 12
    }
}

/// The fields one clock reading produces.
pub open spec fn fields_spec(
    weekday: Seq<char>,
    month: u32,
    day: u32,
    hour: u32,
    minute: u32,
    second: u32,
) -> Map<Seq<char>, Seq<char>> {
    Map::empty().insert("weekday"@, weekday).insert("day"@, spec_num2(day as int)).insert(
        "month"@,
        spec_month_abbr(month),
    ).insert("seconds"@, spec_pad2(second as int)).insert(
        "minutes"@,
        spec_pad2(minute as int),
    ).insert("hour"@, spec_pad2(spec_mod_hour(hour) as int))
}

/// Lays one clock reading out as the module's fields: the weekday text,
/// the unpadded day, the month abbreviation, and the zero-padded hour
/// (twelve-hour clock), minute and second.
pub fn date_fields(weekday: &str, month: u32, day: u32, hour: u32, minute: u32, second: u32) -> (r:
    FieldMap)
    requires
        1 <= month <= 12,
        1 <= day <= 31,
        hour <= 23,
        minute <= 59,
        second <= 59,
    ensures
        r.wf(),
        r@ == fields_spec(weekday@, month, day, hour, minute, second),
{
    let mod_hour = if hour % 12 == 0 {
        12
    } else {
        hour % 12
    };
    let mut out = FieldMap::new();
    out.insert(String::from_str("weekday"), String::from_str(weekday));
    out.insert(String::from_str("day"), num2(day));
    out.insert(String::from_str("month"), String::from_str(month_abbr(month)));
    out.insert(String::from_str("seconds"), pad2(second));
    out.insert(String::from_str("minutes"), pad2(minute));
    out.insert(String::from_str("hour"), pad2(mod_hour));
    out
}

/// Reads the local clock and reports its parts as fields.  The clock
/// decides the values; whatever it read, the fields are laid out as
/// `fields_spec` says.
pub fn handle() -> (r: FieldMap)
    ensures
        r.wf(),
        exists|w: Seq<char>, mo: u32, d: u32, h: u32, mi: u32, s: u32|
            {
                &&& 1 <= mo <= 12
                &&& 1 <= d <= 31
                &&& h <= 23
                &&& mi <= 59
                &&& s <= 59
                &&& r@ == fields_spec(w, mo, d, h, mi, s)
            },
{
    let parts = now_local_parts();
    let r = date_fields(parts.0.as_str(), parts.1, parts.2, parts.3, parts.4, parts.5);
    proof {
        assert(r@ == fields_spec(parts.0@, parts.1, parts.2, parts.3, parts.4, parts.5));
    }
    r
}

/// The exact text of the date module: weekday, month, day, then the
/// hour, minute and second; missing fields read as empty.
pub open spec fn render_spec(m: Map<Seq<char>, Seq<char>>) -> Seq<char> {
    field_or(m, "weekday"@, Seq::empty()) + " "@ + field_or(m, "month"@, Seq::empty()) + " "@
        + field_or(m, "day"@, Seq::empty()) + " "@ + field_or(m, "hour"@, Seq::empty()) + ":"@
        + field_or(m, "minutes"@, Seq::empty()) + " "@ + field_or(m, "seconds"@, Seq::empty())
}

pub fn render(i: &FieldMap) -> (r: String)
    requires
        i.wf(),
    ensures
        r@ == render_spec(i@),
{
    let empty = String::new();
    let hour = match i.get("hour") {
        Some(v) => v,
        None => &empty,
    };
    let minute = match i.get("minutes") {
        Some(v) => v,
        None => &empty,
    };
    let day = match i.get("day") {
        Some(v) => v,
        None => &empty,
    };
    let month = match i.get("month") {
        Some(v) => v,
        None => &empty,
    };
    let weekday = match i.get("weekday") {
        Some(v) => v,
        None => &empty,
    };
    let seconds = match i.get("seconds") {
        Some(v) => v,
        None => &empty,
    };
    let mut out = String::from_str(weekday.as_str());
    out.append(" ");
    out.append(month.as_str());
    out.append(" ");
    out.append(day.as_str());
    out.append(" ");
    out.append(hour.as_str());
    out.append(":");
    out.append(minute.as_str());
    out.append(" ");
    out.append(seconds.as_str());
    out
}

} // verus!
