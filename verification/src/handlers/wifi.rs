//! The wifi module: renders an icon for the connection status field.

use vstd::prelude::*;

use crate::fields::{field_or, FieldMap};
use crate::strutil::{contains_str, spec_contains, spec_split, spec_trim, split_char, str_eq,
    trim_spaces};

verus! {

/// The wireless interface named on the sixth line of the device
/// listing: the last space-separated token of that line once trimmed.
/// Nothing when the listing is shorter than six lines.
pub open spec fn interface_spec(dev_out: Seq<char>) -> Option<Seq<char>> {
    let lines = spec_split(dev_out, '\n');
    if lines.len() > 5 {
        Some(spec_split(spec_trim(lines[5]), ' ').last())
    } else {
        None
    }
}

/// Reads the interface name out of the device listing.
pub fn parse_interface(dev_out: &str) -> (r: Option<String>)
    ensures
        match r {
            Some(v) => interface_spec(dev_out@) == Some(v@),
            None => interface_spec(dev_out@) is None,
        },
{
    let lines = split_char(dev_out, '\n');
    if lines.len() > 5 {
        let mut tokens = split_char(trim_spaces(lines[5].as_str()), ' ');
        let ghost all_tokens = tokens@;
        let last = tokens.pop().unwrap();
        proof {
            assert(lines@.map_values(|t: String| t@)[5] == lines@[5]@);
            assert(all_tokens.map_values(|t: String| t@).last() == last@);
        }
        Some(last)
    } else {
        None
    }
}

/// The connection-status field read from the link report: connected
/// exactly when the report mentions a connection.
pub open spec fn connection_spec(link_out: Seq<char>) -> Map<Seq<char>, Seq<char>> {
    Map::empty().insert(
        "connect_status"@,
        if spec_contains(link_out, "Connected"@) {
            "connected"@
        } else {
            "disconnected"@
        },
    )
}

/// Turns the link report into this module's field.
pub fn connection_fields(link_out: &str) -> (r: FieldMap)
    ensures
        r.wf(),
        r@ == connection_spec(link_out@),
{
    let status = if contains_str(link_out, "Connected") {
        "connected"
    } else {
        "disconnected"
    };
    let mut out = FieldMap::new();
    out.insert(String::from_str("connect_status"), String::from_str(status));
    out
}

pub open spec fn spec_wifi_status_icons(n: Seq<char>) -> Seq<char> {
    if n == "connected"@ {
        "\u{1f4f6}"@
    } else if n == "disconnected"@ {
        "\u{274c}"@
    } else {
        Seq::empty()
    }
}

/// The icon shown for a connection status value.
pub fn wifi_status_icons(n: &str) -> (r: &'static str)
    ensures
        r@ == spec_wifi_status_icons(n@),
{
    if str_eq(n, "connected") {
        "\u{1f4f6}"
    } else if str_eq(n, "disconnected") {
        "\u{274c}"
    } else {
        proof {
            reveal_strlit("");
            assert(""@ =~= Seq::<char>::empty());
        }
        ""
    }
}

/// The exact text of the wifi module: the icon of the connection status
/// field, which reads as empty when absent.
pub open spec fn render_spec(m: Map<Seq<char>, Seq<char>>) -> Seq<char> {
    spec_wifi_status_icons(field_or(m, "connect_status"@, Seq::empty()))
}

pub fn render(i: &FieldMap) -> (r: String)
    requires
        i.wf(),
    ensures
        r@ == render_spec(i@),
{
    let empty = String::new();
    let connected = match i.get("connect_status") {
        Some(v) => v,
        None => &empty,
    };
    String::from_str(wifi_status_icons(connected.as_str()))
}

} // verus!
