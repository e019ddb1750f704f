//! The volume module: renders a speaker icon chosen by level and mute
//! state, followed by the level text.

use vstd::prelude::*;

use crate::fields::{field_or, FieldMap};
use crate::numfmt::{parse_i32, parse_i32_spec};
use crate::strutil::{lower_of, remove_char, spec_split, spec_trim, split_char, str_eq,
    to_lowercase, trim_spaces, without_char};

verus! {

/// The fields one reading of the sink reports yields: the level is the
/// sixth space-separated token of the volume report (the fifth when the
/// sixth is a slash) with percent signs removed, and the mute flag is
/// whether the lowercased mute report's last token, trimmed, says yes.
/// Nothing when the volume report has fewer than six tokens.
pub open spec fn probe_fields_spec(vol_raw: Seq<char>, muted_raw: Seq<char>) -> Option<
    Map<Seq<char>, Seq<char>>,
> {
    let tokens = spec_split(vol_raw, ' ');
    if tokens.len() > 5 {
        let level_tok = if tokens[5] == "/"@ {
            tokens[4]
        } else {
            tokens[5]
        };
        let muted_last = spec_trim(spec_split(lower_of(muted_raw), ' ').last());
        let muted = if muted_last == "yes"@ {
            "muted"@
        } else {
            "not muted"@
        };
        Some(
            Map::empty().insert("volume_level"@, without_char(level_tok, '%')).insert(
                "is_muted"@,
                muted,
            ),
        )
    } else {
        None
    }
}

/// Cleans the raw sink reports into this module's fields.
pub fn probe_fields(vol_raw: &str, muted_raw: &str) -> (r: Option<FieldMap>)
    ensures
        match r {
            Some(m) => {
                &&& m.wf()
                &&& probe_fields_spec(vol_raw@, muted_raw@) == Some(m@)
            },
            None => probe_fields_spec(vol_raw@, muted_raw@) is None,
        },
{
    let tokens = split_char(vol_raw, ' ');
    if tokens.len() > 5 {
        proof {
            assert(tokens@.map_values(|t: String| t@)[5] == tokens@[5]@);
            assert(tokens@.map_values(|t: String| t@)[4] == tokens@[4]@);
        }
        let level_tok = if str_eq(tokens[5].as_str(), "/") {
            &tokens[4]
        } else {
            &tokens[5]
        };
        let level = remove_char(level_tok.as_str(), '%');
        let lowered = to_lowercase(muted_raw);
        let mut muted_tokens = split_char(lowered.as_str(), ' ');
        let ghost all_muted = muted_tokens@;
        let muted_last = muted_tokens.pop().unwrap();
        proof {
            assert(all_muted.map_values(|t: String| t@).last() == muted_last@);
        }
        let muted = if str_eq(trim_spaces(muted_last.as_str()), "yes") {
            "muted"
        } else {
            "not muted"
        };
        let mut out = FieldMap::new();
        out.insert(String::from_str("volume_level"), level);
        out.insert(String::from_str("is_muted"), String::from_str(muted));
        Some(out)
    } else {
        None
    }
}

pub open spec fn spec_get_volume_icon(vol_level: i32, is_muted: bool) -> Seq<char> {
    if is_muted {
        "\u{1f507}"@
    } else if vol_level < 40 {
        "\u{1f508}"@
    } else if vol_level < 80 {
        "\u{1f509}"@
    } else {
        "\u{1f50a}"@
    }
}

/// The speaker icon for a volume level, with cutoffs at the small and
/// middle speaker.
pub fn get_volume_icon(vol_level: i32, is_muted: bool) -> (r: &'static str)
    ensures
        r@ == spec_get_volume_icon(vol_level, is_muted),
{
    let small_speaker_cutoff: i32 = 40;
    let mid_speaker_cutoff: i32 = 80;
    if is_muted {
        "\u{1f507}"
    } else if vol_level < small_speaker_cutoff {
        "\u{1f508}"
    } else if vol_level < mid_speaker_cutoff {
        "\u{1f509}"
    } else {
        "\u{1f50a}"
    }
}

/// The numeric level the renderer works with: the level field parsed as
/// a signed number, or fifty where it is absent or malformed.
pub open spec fn spec_level_of(m: Map<Seq<char>, Seq<char>>) -> i32 {
    match parse_i32_spec(field_or(m, "volume_level"@, "50"@)) {
        Some(v) => v,
        None => 50,
    }
}

/// The exact text of the volume module: the icon for the parsed level
/// and mute state, then the level text and a percent sign.
pub open spec fn render_spec(m: Map<Seq<char>, Seq<char>>) -> Seq<char> {
    spec_get_volume_icon(spec_level_of(m), field_or(m, "is_muted"@, "default_muted"@) == "muted"@)
        + field_or(m, "volume_level"@, "50"@) + "%"@
}

pub fn render(i: &FieldMap) -> (r: String)
    requires
        i.wf(),
    ensures
        r@ == render_spec(i@),
{
    let default_muted = String::from_str("default_muted");
    let muted_str = match i.get("is_muted") {
        Some(v) => v,
        None => &default_muted,
    };
    let is_muted = str_eq(muted_str.as_str(), "muted");
    let default_vol = String::from_str("50");
    let vol_level_str = match i.get("volume_level") {
        Some(v) => v,
        None => &default_vol,
    };
    let vol_level: i32 = match parse_i32(vol_level_str.as_str()) {
        Some(v) => v,
        None => 50,
    };
    let icon = get_volume_icon(vol_level, is_muted);
    let mut out = String::from_str(icon);
    out.append(vol_level_str.as_str());
    out.append("%");
    out
}

} // verus!
