//! The quote module: renders the fetched quote, picks a random topic
//! line, and builds the prompt sent to the quote service.

use vstd::prelude::*;

use crate::fields::{field_or, FieldMap};
use crate::random::random_below_eq;

verus! {

/// The exact text of the quote module: the quote field, or an error
/// marker where none has been fetched.
pub open spec fn render_spec(m: Map<Seq<char>, Seq<char>>) -> Seq<char> {
    field_or(m, "quote"@, "ERROR!"@)
}

pub fn render(i: &FieldMap) -> (r: String)
    requires
        i.wf(),
    ensures
        r@ == render_spec(i@),
{
    let error_text = String::from_str("ERROR!");
    let quote = match i.get("quote") {
        Some(v) => v,
        None => &error_text,
    };
    quote.clone()
}

/// Picks one line uniformly by reservoir sampling: keeps the current
/// line at position `i` with probability one in `i + 1`.  Yields nothing
/// exactly when there are no lines.
pub fn pick_random_line(lines: &Vec<String>) -> (r: Option<String>)
    ensures
        r is Some <==> lines@.len() > 0,
        r is Some ==> exists|j: int| 0 <= j < lines@.len() && r->0@ == lines@[j]@,
{
    let mut selected: Option<String> = None;
    let mut i: usize = 0;
    while i < lines.len()
        invariant
            i <= lines@.len(),
            selected is Some <==> i > 0,
            selected is Some ==> exists|j: int| 0 <= j < i && selected->0@ == lines@[j]@,
        decreases lines@.len() - i,
    {
        let k = random_below_eq(i);
        if k == 0 {
            selected = Some(lines[i].clone());
        }
        i += 1;
    }
    selected
}

/// The prompt asked of the quote service, around the chosen topic.
pub open spec fn prompt_spec(topic: Seq<char>) -> Seq<char> {
    "Give me a very short inspirational quote about "@ + topic
        + " with a fictional author with a pun about "@ + topic
}

pub fn build_prompt(topic: &str) -> (r: String)
    ensures
        r@ == prompt_spec(topic@),
{
    let mut out = String::from_str("Give me a very short inspirational quote about ");
    out.append(topic);
    out.append(" with a fictional author with a pun about ");
    out.append(topic);
    out
}

} // verus!
