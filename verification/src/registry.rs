//! The module registry: resolves a configured module name to its kind
//! once, and dispatches rendering to that kind's renderer.  Unknown
//! names resolve to the no-op module.

use vstd::prelude::*;

use crate::fields::FieldMap;
use crate::handlers;
use crate::strutil::str_eq;

verus! {

/// The kinds of module this bar knows.
pub enum ModuleKind {
    Date,
    Battery,
    Wifi,
    Volume,
    Quote,
    Current,
    BgChange,
    Noop,
}

/// The kind a configured module name resolves to.
pub open spec fn spec_kind_of(name: Seq<char>) -> ModuleKind {
    if name == "date"@ {
        ModuleKind::Date
    } else if name == "battery"@ {
        ModuleKind::Battery
    } else if name == "wifi"@ {
        ModuleKind::Wifi
    } else if name == "volume"@ {
        ModuleKind::Volume
    } else if name == "quote"@ {
        ModuleKind::Quote
    } else if name == "current"@ {
        ModuleKind::Current
    } else if name == "bgchange"@ {
        ModuleKind::BgChange
    } else {
        ModuleKind::Noop
    }
}

/// Resolves a module name to the kind whose probe and renderer serve it.
pub fn get_handler(my_type: &str) -> (r: ModuleKind)
    ensures
        r == spec_kind_of(my_type@),
{
    if str_eq(my_type, "date") {
        ModuleKind::Date
    } else if str_eq(my_type, "battery") {
        ModuleKind::Battery
    } else if str_eq(my_type, "wifi") {
        ModuleKind::Wifi
    } else if str_eq(my_type, "volume") {
        ModuleKind::Volume
    } else if str_eq(my_type, "quote") {
        ModuleKind::Quote
    } else if str_eq(my_type, "current") {
        ModuleKind::Current
    } else if str_eq(my_type, "bgchange") {
        ModuleKind::BgChange
    } else {
        ModuleKind::Noop
    }
}

/// The exact text a kind's renderer produces from accumulated fields.
pub open spec fn render_spec(kind: ModuleKind, m: Map<Seq<char>, Seq<char>>) -> Seq<char> {
    match kind {
        ModuleKind::Date => handlers::date::render_spec(m),
        ModuleKind::Battery => handlers::battery::render_spec(m),
        ModuleKind::Wifi => handlers::wifi::render_spec(m),
        ModuleKind::Volume => handlers::volume::render_spec(m),
        ModuleKind::Quote => handlers::quote::render_spec(m),
        ModuleKind::Current => handlers::current_program::render_spec(m),
        ModuleKind::BgChange => handlers::bg_changer::render_spec(m),
        ModuleKind::Noop => handlers::noop::render_spec(m),
    }
}

/// Renders a module's accumulated fields with the renderer of its kind.
pub fn render_module(kind: ModuleKind, data: &FieldMap) -> (r: String)
    requires
        data.wf(),
    ensures
        r@ == render_spec(kind, data@),
{
    match kind {
        ModuleKind::Date => handlers::date::render(data),
        ModuleKind::Battery => handlers::battery::render(data),
        ModuleKind::Wifi => handlers::wifi::render(data),
        ModuleKind::Volume => handlers::volume::render(data),
        ModuleKind::Quote => handlers::quote::render(data),
        ModuleKind::Current => handlers::current_program::render(data),
        ModuleKind::BgChange => handlers::bg_changer::render(data),
        ModuleKind::Noop => handlers::noop::render(data),
    }
}

} // verus!
