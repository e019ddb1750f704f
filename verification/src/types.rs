//! The records the scheduler works on: the per-module refresh state, the
//! emitted output record, and the configuration that drives one run.
//!
//! Times are wall-clock milliseconds since a fixed epoch; a `start_time`
//! of zero means "never started" or "reset".

use vstd::prelude::*;

use crate::fields::FieldMap;

verus! {

/// Per-module refresh state, durable across ticks and across runs.
pub struct Meta {
    /// True while a probe is believed in flight for this module.
    pub is_processing: bool,
    /// Wall-clock milliseconds at which the current or most recent probe
    /// attempt started; zero means never started or reset.
    pub start_time: u64,
    /// Field values merged from the most recent successful probes; kept
    /// unchanged on probe failure or timeout.
    pub data: FieldMap,
}

impl Meta {
    pub open spec fn wf(self) -> bool {
        self.data.wf()
    }

    /// The state a module starts from when no persisted entry exists.
    pub fn idle() -> (r: Meta)
        ensures
            r.wf(),
            !r.is_processing,
            r.start_time == 0,
            r.data@ == Map::<Seq<char>, Seq<char>>::empty(),
    {
        Meta { is_processing: false, start_time: 0, data: FieldMap::new() }
    }
}

/// One displayed record of a tick's output batch.
pub struct Out {
    pub name: String,
    pub instance: String,
    pub full_text: String,
}

/// The view of an output record: the characters of its three fields.
pub struct OutV {
    pub name: Seq<char>,
    pub instance: Seq<char>,
    pub full_text: Seq<char>,
}

impl View for Out {
    type V = OutV;

    open spec fn view(&self) -> OutV {
        OutV { name: self.name@, instance: self.instance@, full_text: self.full_text@ }
    }
}

/// Where and how often the module states are persisted.
pub struct PersistConfig {
    pub path: String,
    /// Write every `buffer_size`-th snapshot that is offered.
    pub buffer_size: i32,
}

/// Configuration of one module.
pub struct ModuleConfig {
    pub name: String,
    /// Minimum interval, in milliseconds, between the starts of two probes.
    pub ttl: u64,
    /// Per-module probe timeout in milliseconds; the global default
    /// applies when absent.
    pub timeout: Option<u64>,
    /// Whether this module's text appears in the output; state is tracked
    /// either way.  Absent means displayed.
    pub display: Option<bool>,
}

/// The timeout that governs a module's probes.
pub open spec fn timeout_of(config: ModuleConfig, default_timeout: u64) -> u64 {
    match config.timeout {
        Some(t) => t,
        None => default_timeout,
    }
}

/// Whether a module's rendered text is emitted.
pub open spec fn display_of(config: ModuleConfig) -> bool {
    match config.display {
        Some(d) => d,
        None => true,
    }
}

/// Configuration of one run.
pub struct Config {
    pub poll_time: Option<u64>,
    pub default_timeout: u64,
    pub suspend_time: Option<u64>,
    pub persist: PersistConfig,
    pub modules: Vec<ModuleConfig>,
}

/// The command line: the path of the configuration file.
pub struct Args {
    pub config: String,
}

} // verus!
