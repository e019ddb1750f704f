//! The no-op module, used for unknown module names: its probe returns a
//! single empty field and it renders nothing.

use vstd::prelude::*;

use crate::fields::FieldMap;

verus! {

/// The fields the no-op probe reports: one empty name with an empty
/// value.
pub open spec fn handle_spec() -> Map<Seq<char>, Seq<char>> {
    Map::empty().insert(""@, ""@)
}

pub fn handle() -> (r: FieldMap)
    ensures
        r.wf(),
        r@ == handle_spec(),
{
    let mut out = FieldMap::new();
    out.insert(String::from_str(""), String::from_str(""));
    out
}

/// The exact text of the no-op module: nothing.
pub open spec fn render_spec(m: Map<Seq<char>, Seq<char>>) -> Seq<char> {
    Seq::empty()
}

pub fn render(_i: &FieldMap) -> (r: String)
    ensures
        r@ == render_spec(_i@),
{
    String::new()
}

} // verus!
