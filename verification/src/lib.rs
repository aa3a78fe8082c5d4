//! Bootstrap plan for a desktop application shell.
//!
//! The shell itself is wiring around a host framework: it registers a fixed
//! set of plugins on a builder, performs a small setup step, and hands
//! control to the framework's event loop. This library states those
//! decisions as data, so that every choice the shell makes — which plugins,
//! in which order, which window to decorate, when to attach logging and at
//! what level — is pinned down by a contract. The host executes the plan;
//! it decides nothing on its own.

use vstd::prelude::*;

verus! {

/// A plugin that the shell registers on its builder before the event loop
/// starts. The logging plugin is not listed here: it is attached later,
/// during setup, and only in debug builds.
#[derive(Clone, Copy, Debug, PartialEq, Eq, Structural)]
pub enum Plugin {
    FileSystem,
    Dialog,
    Shell,
    Http,
}

/// Verbosity ceiling for the logging plugin, from silent to most verbose.
#[derive(Clone, Copy, Debug, PartialEq, Eq, Structural)]
pub enum LogLevel {
    Off,
    Error,
    Warn,
    Info,
    Debug,
    Trace,
}

/// Window decoration the setup step asks for: the host's translucent
/// background effect, applied to one named window. Only one platform
/// supports the effect; the plan requests it exactly there.
pub struct VibrancyRequest {
    /// Label of the window to decorate.
    pub window_label: String,
}

/// Logging the setup step asks for: attach the logging plugin, capped at
/// this level.
pub struct LogConfig {
    pub level: LogLevel,
}

/// Everything the setup step decides, as data. The host performs it in
/// this order: first the window decoration, then the logging plugin.
pub struct SetupPlan {
    pub vibrancy: Option<VibrancyRequest>,
    pub logging: Option<LogConfig>,
}

/// The whole bootstrap: the plugins to register, in order, and the setup
/// step to perform before the event loop runs.
pub struct BootstrapPlan {
    pub plugins: Vec<Plugin>,
    pub setup: SetupPlan,
}

/// The order in which the shell registers its plugins.
pub open spec fn plugin_order() -> Seq<Plugin> {
    seq![Plugin::FileSystem, Plugin::Dialog, Plugin::Shell, Plugin::Http]
}

/// What the setup step must decide for a given platform and build profile:
/// the decoration is requested if and only if the platform supports it, and
/// always for the window labelled `main`; the logging plugin is attached if
/// and only if the build is a debug build, and always at level `Info`.
pub open spec fn setup_plan_matches(p: SetupPlan, vibrancy_supported: bool, debug_build: bool) -> bool {
    &&& (p.vibrancy is Some <==> vibrancy_supported)
    &&& (p.vibrancy matches Some(v) ==> v.window_label@ == "main"@)
    &&& (p.logging is Some <==> debug_build)
    &&& (p.logging matches Some(c) ==> c.level == LogLevel::Info)
}

/// What a whole bootstrap plan must say: the fixed plugins in their fixed
/// order, and a setup step that fits the platform and build profile.
pub open spec fn bootstrap_plan_matches(p: BootstrapPlan, vibrancy_supported: bool, debug_build: bool) -> bool {
    &&& p.plugins@ == plugin_order()
    &&& setup_plan_matches(p.setup, vibrancy_supported, debug_build)
}

/// The label of the application's main window, the one the setup step
/// decorates.
pub fn main_window_label() -> (s: String)
    ensures
        s@ == "main"@,
{
    "main".to_owned()
}

/// The plugins to register, in registration order.
pub fn core_plugins() -> (v: Vec<Plugin>)
    ensures
        v@ == plugin_order(),
{
    let mut v: Vec<Plugin> = Vec::new();
    v.push(Plugin::FileSystem);
    v.push(Plugin::Dialog);
    v.push(Plugin::Shell);
    v.push(Plugin::Http);
    proof {
        assert(v@ =~= plugin_order());
    }
    v
}

/// Decide the setup step for the given platform and build profile.
pub fn setup_plan(vibrancy_supported: bool, debug_build: bool) -> (p: SetupPlan)
    ensures
        setup_plan_matches(p, vibrancy_supported, debug_build),
{
    let vibrancy = if vibrancy_supported {
        Some(VibrancyRequest { window_label: main_window_label() })
    } else {
        None
    };
    let logging = if debug_build {
        Some(LogConfig { level: LogLevel::Info })
    } else {
        None
    };
    SetupPlan { vibrancy, logging }
}

/// Decide the whole bootstrap for the given platform and build profile.
pub fn bootstrap_plan(vibrancy_supported: bool, debug_build: bool) -> (p: BootstrapPlan)
    ensures
        bootstrap_plan_matches(p, vibrancy_supported, debug_build),
{
    BootstrapPlan { plugins: core_plugins(), setup: setup_plan(vibrancy_supported, debug_build) }
}

} // verus!
