//! The current-program module: walks the window tree for the focused
//! node and renders its application name.

use vstd::prelude::*;

use crate::fields::{field_or, FieldMap};

verus! {

/// A window-tree node, as the compositor reports it: focus flag,
/// application identifiers, and tiled and floating children.
pub struct SwayNode {
    pub focused: bool,
    pub app_id: Option<String>,
    pub class: Option<String>,
    pub nodes: Vec<SwayNode>,
    pub floating_nodes: Vec<SwayNode>,
}

/// Whether some node of the tree is focused.
pub open spec fn has_focused(n: SwayNode) -> bool
    decreases n,
{
    ||| n.focused
    ||| exists|i: int|
        0 <= i < n.nodes@.len() && has_focused(#[trigger] n.nodes@[i])
    ||| exists|i: int|
        0 <= i < n.floating_nodes@.len() && has_focused(#[trigger] n.floating_nodes@[i])
}

/// The focused node found first in depth-first order, tiled children
/// before floating ones.
pub open spec fn first_focused(n: SwayNode) -> Option<SwayNode>
    decreases n,
{
    if n.focused {
        Some(n)
    } else {
        match first_focused_in(n.nodes@) {
            Some(found) => Some(found),
            None => first_focused_in(n.floating_nodes@),
        }
    }
}

pub open spec fn first_focused_in(children: Seq<SwayNode>) -> Option<SwayNode>
    decreases children,
{
    if children.len() == 0 {
        None
    } else {
        match first_focused(children[0]) {
            Some(found) => Some(found),
            None => first_focused_in(children.drop_first()),
        }
    }
}

/// Finds the first focused node in depth-first order, if any.
pub fn find_focused(node: &SwayNode) -> (r: Option<&SwayNode>)
    ensures
        match r {
            Some(found) => first_focused(*node) == Some(*found),
            None => first_focused(*node) is None,
        },
    decreases *node,
{
    if node.focused {
        return Some(node);
    }
    let mut i: usize = 0;
    proof {
        assert(node.nodes@.skip(0) =~= node.nodes@);
    }
    while i < node.nodes.len()
        invariant
            i <= node.nodes@.len(),
            !node.focused,
            first_focused_in(node.nodes@.skip(i as int)) == first_focused_in(node.nodes@),
            forall|j: int| 0 <= j < i ==> first_focused(#[trigger] node.nodes@[j]) is None,
        decreases node.nodes@.len() - i,
    {
        proof {
            assert(node.nodes@.skip(i as int)[0] == node.nodes@[i as int]);
        }
        if let Some(found) = find_focused(&node.nodes[i]) {
            return Some(found);
        }
        proof {
            assert(node.nodes@.skip(i as int).drop_first() =~= node.nodes@.skip(i + 1));
        }
        i += 1;
    }
    proof {
        assert(node.nodes@.skip(i as int) =~= Seq::<SwayNode>::empty());
    }
    let mut i: usize = 0;
    proof {
        assert(node.floating_nodes@.skip(0) =~= node.floating_nodes@);
    }
    while i < node.floating_nodes.len()
        invariant
            i <= node.floating_nodes@.len(),
            !node.focused,
            first_focused_in(node.nodes@) is None,
            first_focused_in(node.floating_nodes@.skip(i as int)) == first_focused_in(
                node.floating_nodes@,
            ),
        decreases node.floating_nodes@.len() - i,
    {
        proof {
            assert(node.floating_nodes@.skip(i as int)[0] == node.floating_nodes@[i as int]);
        }
        if let Some(found) = find_focused(&node.floating_nodes[i]) {
            return Some(found);
        }
        proof {
            assert(node.floating_nodes@.skip(i as int).drop_first() =~= node.floating_nodes@.skip(
                i + 1,
            ));
        }
        i += 1;
    }
    proof {
        assert(node.floating_nodes@.skip(i as int) =~= Seq::<SwayNode>::empty());
    }
    None
}

/// The name the focused node displays under: its application id, else
/// its window class, else a placeholder.
pub open spec fn spec_focused_name(found: SwayNode) -> Seq<char> {
    match found.app_id {
        Some(id) => id@,
        None => match found.class {
            Some(c) => c@,
            None => "unknown"@,
        },
    }
}

/// The fields this module accumulates from one look at the tree: the
/// name of the first focused node, or a marker when none is focused.
pub open spec fn probe_spec(tree: SwayNode) -> Map<Seq<char>, Seq<char>> {
    match first_focused(tree) {
        Some(found) => Map::empty().insert("out"@, spec_focused_name(found)),
        None => Map::empty().insert("out"@, "nothing"@),
    }
}

/// Reads the focused-program name out of a window tree.
pub fn probe_tree(tree: &SwayNode) -> (r: FieldMap)
    ensures
        r.wf(),
        r@ == probe_spec(*tree),
{
    let name: String = match find_focused(tree) {
        Some(found) => match &found.app_id {
            Some(id) => id.clone(),
            None => match &found.class {
                Some(c) => c.clone(),
                None => String::from_str("unknown"),
            },
        },
        None => String::from_str("nothing"),
    };
    let mut out = FieldMap::new();
    out.insert(String::from_str("out"), name);
    out
}

/// The exact text of the current-program module: the accumulated name,
/// or a placeholder where none has been stored yet.
pub open spec fn render_spec(m: Map<Seq<char>, Seq<char>>) -> Seq<char> {
    field_or(m, "out"@, "nada"@)
}

pub fn render(i: &FieldMap) -> (r: String)
    requires
        i.wf(),
    ensures
        r@ == render_spec(i@),
{
    let default = String::from_str("nada");
    let out = match i.get("out") {
        Some(v) => v,
        None => &default,
    };
    out.clone()
}

} // verus!
