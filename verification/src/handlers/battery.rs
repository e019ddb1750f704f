//! The battery module: renders the charge state icon and the capacity
//! read from the power-supply fields.

use vstd::prelude::*;

use crate::fields::{field_or, FieldMap};
use crate::strutil::{lower_of, remove_char, spec_trim, str_eq, to_lowercase, trim_spaces,
    without_char};

verus! {

/// The fields one reading of the power-supply files yields: the
/// capacity trimmed with quotes removed, and the status trimmed,
/// lowercased and with spaces removed.
pub open spec fn probe_fields_spec(cap_raw: Seq<char>, stat_raw: Seq<char>) -> Map<
    Seq<char>,
    Seq<char>,
> {
    Map::empty().insert("capacity"@, without_char(spec_trim(cap_raw), '"')).insert(
        "status"@,
        without_char(lower_of(spec_trim(stat_raw)), ' '),
    )
}

/// Cleans the raw capacity and status texts into this module's fields.
pub fn probe_fields(cap_raw: &str, stat_raw: &str) -> (r: FieldMap)
    ensures
        r.wf(),
        r@ == probe_fields_spec(cap_raw@, stat_raw@),
{
    let cap = remove_char(trim_spaces(cap_raw), '"');
    let lowered = to_lowercase(trim_spaces(stat_raw));
    let stat = remove_char(lowered.as_str(), ' ');
    let mut out = FieldMap::new();
    out.insert(String::from_str("capacity"), cap);
    out.insert(String::from_str("status"), stat);
    out
}

pub open spec fn spec_bat_status_icons(n: Seq<char>) -> Seq<char> {
    if n == "full"@ {
        "\u{1f7e2}"@
    } else if n == "charging"@ {
        "\u{26a1}"@
    } else if n == "notcharging"@ {
        "\u{1f50c}"@
    } else if n == "discharging"@ {
        "\u{1f50b}"@
    } else {
        Seq::empty()
    }
}

/// The icon shown for a battery status value.
pub fn bat_status_icons(n: &str) -> (r: &'static str)
    ensures
        r@ == spec_bat_status_icons(n@),
{
    if str_eq(n, "full") {
        "\u{1f7e2}"
    } else if str_eq(n, "charging") {
        "\u{26a1}"
    } else if str_eq(n, "notcharging") {
        "\u{1f50c}"
    } else if str_eq(n, "discharging") {
        "\u{1f50b}"
    } else {
        proof {
            reveal_strlit("");
            assert(""@ =~= Seq::<char>::empty());
        }
        ""
    }
}

/// The exact text of the battery module: the status icon, a space, the
/// capacity and a percent sign; missing fields read as empty.
pub open spec fn render_spec(m: Map<Seq<char>, Seq<char>>) -> Seq<char> {
    spec_bat_status_icons(field_or(m, "status"@, Seq::empty())) + " "@ + field_or(
        m,
        "capacity"@,
        Seq::empty(),
    ) + "%"@
}

pub fn render(i: &FieldMap) -> (r: String)
    requires
        i.wf(),
    ensures
        r@ == render_spec(i@),
{
    let empty = String::new();
    let cap = match i.get("capacity") {
        Some(v) => v,
        None => &empty,
    };
    let stat = match i.get("status") {
        Some(v) => v,
        None => &empty,
    };
    let mut out = String::from_str(bat_status_icons(stat.as_str()));
    out.append(" ");
    out.append(cap.as_str());
    out.append("%");
    out
}

} // verus!
