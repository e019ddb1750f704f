//! One submodule per status-bar module: its pure renderer, with a spec of
//! the exact text it produces from the accumulated fields, and whatever
//! other decision logic the module owns.

pub mod battery;
pub mod bg_changer;
pub mod current_program;
pub mod date;
pub mod noop;
pub mod quote;
pub mod volume;
pub mod wifi;
