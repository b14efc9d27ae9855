//! The fixed configuration under which the engine is built.

use vstd::prelude::*;

verus! {

/// The settings of an engine instance, as plain values.
#[derive(Clone, Debug, PartialEq, Eq)]
pub struct EngineConfig {
    pub apply_source_maps: bool,
    pub args: Vec<String>,
    pub cpu_count: usize,
    pub debug_flag: bool,
    pub enable_testing_features: bool,
    pub no_color: bool,
    pub runtime_version: String,
    pub ts_version: String,
    pub unstable: bool,
    pub user_agent: String,
    pub seed: Option<u64>,
    /// Whether scripts may start web workers.
    pub web_workers: bool,
    /// Whether a debug inspector is attached.
    pub inspector: bool,
    pub should_break_on_first_statement: bool,
    /// Whether scripts get storage that outlives the engine.
    pub persisted_storage: bool,
    /// Whether every permission is granted to the script.
    pub allow_all_permissions: bool,
}

/// The string under which the engine identifies its version.
pub open spec fn fixed_version() -> Seq<char> {
    "x"@
}

/// The string under which the engine identifies itself to servers.
pub open spec fn fixed_user_agent() -> Seq<char> {
    "hello_runtime"@
}

impl EngineConfig {
    /// Whether this is the one configuration that the bridge builds engines with:
    /// no web workers, no inspector, every permission granted, fixed
    /// identifying strings, nothing persisted.
    pub open spec fn is_fixed(&self) -> bool {
        &&& !self.apply_source_maps
        &&& self.args@.len() == 0
        &&& self.cpu_count == 1
        &&& !self.debug_flag
        &&& !self.enable_testing_features
        &&& !self.no_color
        &&& self.runtime_version@ == fixed_version()
        &&& self.ts_version@ == fixed_version()
        &&& !self.unstable
        &&& self.user_agent@ == fixed_user_agent()
        &&& self.seed is None
        &&& !self.web_workers
        &&& !self.inspector
        &&& !self.should_break_on_first_statement
        &&& !self.persisted_storage
        &&& self.allow_all_permissions
    }

    /// The configuration that every engine of the bridge is built with.
    pub fn fixed() -> (config: EngineConfig)
        ensures
            config.is_fixed(),
    {
        EngineConfig {
            apply_source_maps: false,
            args: Vec::new(),
            cpu_count: 1,
            debug_flag: false,
            enable_testing_features: false,
            no_color: false,
            runtime_version: String::from_str("x"),
            ts_version: String::from_str("x"),
            unstable: false,
            user_agent: String::from_str("hello_runtime"),
            seed: None,
            web_workers: false,
            inspector: false,
            should_break_on_first_statement: false,
            persisted_storage: false,
            allow_all_permissions: true,
        }
    }
}

} // verus!
