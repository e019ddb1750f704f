//! The click router: decodes one line of the inbound click stream and
//! names the click action it dispatches to.  A line is JSON, optionally
//! behind leading commas; its `instance` field names the module.
//! Malformed lines route to nothing and are skipped.

use vstd::prelude::*;

use crate::strutil::str_eq;

verus! {

/// The click actions the bar knows; unrecognized instances route to the
/// no-op action.
#[derive(Clone, Copy, Debug, PartialEq, Eq, Structural)]
pub enum MouseHandler {
    WifiClick,
    VolumeClick,
    MouseNoop,
}

/// The click action serving an instance name.
pub open spec fn spec_mouse_handler(x: Seq<char>) -> MouseHandler {
    if x == "wifi"@ {
        MouseHandler::WifiClick
    } else if x == "volume"@ {
        MouseHandler::VolumeClick
    } else {
        MouseHandler::MouseNoop
    }
}

pub fn get_mouse_handler(x: &str) -> (r: MouseHandler)
    ensures
        r == spec_mouse_handler(x@),
{
    if str_eq(x, "wifi") {
        MouseHandler::WifiClick
    } else if str_eq(x, "volume") {
        MouseHandler::VolumeClick
    } else {
        MouseHandler::MouseNoop
    }
}

/// How many commas the line starts with.
pub open spec fn spec_comma_prefix_len(s: Seq<char>) -> int
    decreases s.len(),
{
    if s.len() == 0 || s[0] != ',' {
        0
    } else {
        1 + spec_comma_prefix_len(s.drop_first())
    }
}

/// The line with its leading commas taken off.
pub open spec fn strip_spec(s: Seq<char>) -> Seq<char> {
    s.skip(spec_comma_prefix_len(s))
}

proof fn lemma_comma_prefix(s: Seq<char>, i: int)
    requires
        0 <= i <= s.len(),
        forall|j: int| 0 <= j < i ==> s[j] == ',',
        i == s.len() || s[i] != ',',
    ensures
        spec_comma_prefix_len(s) == i,
    decreases i,
{
    if i == 0 {
    } else {
        let rest = s.drop_first();
        assert(forall|j: int| 0 <= j < i - 1 ==> #[trigger] rest[j] == s[j + 1]);
        lemma_comma_prefix(rest, i - 1);
    }
}

/// Takes the tolerated separator commas off the front of a line.
pub fn strip_leading_commas(line: &str) -> (r: &str)
    ensures
        r@ == strip_spec(line@),
{
    let n = line.unicode_len();
    let mut i: usize = 0;
    while i < n && line.get_char(i) == ','
        invariant
            i <= n,
            n == line@.len(),
            forall|j: int| 0 <= j < i ==> line@[j] == ',',
        decreases n - i,
    {
        i += 1;
    }
    proof {
        lemma_comma_prefix(line@, i as int);
    }
    line.substring_char(i, n)
}

/// The `instance` string a JSON line carries: nothing when the text is
/// not JSON; the field's text, or empty when the object has no string
/// `instance` field, when it is.  Fixed by the text alone.
pub uninterp spec fn json_instance_of(s: Seq<char>) -> Option<Seq<char>>;

/// Relies on serde_json::from_str::<Value>, Value::get and Value::as_str:
/// parses the line as JSON and reads its `instance` string field, an
/// absent or non-string field reading as empty.
#[verifier::external_body]
fn extract_instance(line: &str) -> (r: Option<String>)
    ensures
        match r {
            Some(v) => json_instance_of(line@) == Some(v@),
            None => json_instance_of(line@) is None,
        },
{
    match serde_json::from_str::<serde_json::Value>(line) {
        Ok(value) => {
            let instance = value.get("instance").and_then(|v| v.as_str()).unwrap_or("");
            Some(instance.to_owned())
        },
        Err(_) => None,
    }
}

/// Where one line of the click stream routes: to nothing when it is not
/// JSON after the tolerated leading commas, else to the action serving
/// its `instance` field.
pub open spec fn route_spec(line: Seq<char>) -> Option<MouseHandler> {
    match json_instance_of(strip_spec(line)) {
        Some(inst) => Some(spec_mouse_handler(inst)),
        None => None,
    }
}

/// Routes one line of the click stream.
pub fn route_click(line: &str) -> (r: Option<MouseHandler>)
    ensures
        r == route_spec(line@),
{
    let stripped = strip_leading_commas(line);
    match extract_instance(stripped) {
        Some(inst) => Some(get_mouse_handler(inst.as_str())),
        None => None,
    }
}

} // verus!
