//! The one-shot startup sequence: its stages, the platform plugins it
//! registers, and what the setup hook does to the main window.

use vstd::prelude::*;
use crate::version::{APP_VERSION, window_title, window_title_spec};

verus! {

/// Whether this is a development build or a release build.
#[derive(PartialEq, Eq, Structural, Clone, Copy, Debug)]
pub enum BuildMode {
    Development,
    Release,
}

/// What the setup hook does once the application exists.
pub struct SetupPlan {
    /// The title to give the main window, if there is one.
    pub window_title: Option<String>,
    /// Whether to open the developer-tools panel on the main window.
    pub open_devtools: bool,
}

/// The setup hook's decisions: with a main window, title it with the build
/// version, and open developer tools in development builds only; without
/// one, do nothing.
pub fn plan_setup(has_main_window: bool, mode: BuildMode) -> (r: SetupPlan)
    ensures
        r.window_title is Some <==> has_main_window,
        has_main_window ==> r.window_title->Some_0@ == window_title_spec(APP_VERSION@),
        r.open_devtools <==> (has_main_window && mode == BuildMode::Development),
{
    if has_main_window {
        SetupPlan {
            window_title: Some(window_title(APP_VERSION)),
            open_devtools: mode == BuildMode::Development,
        }
    } else {
        SetupPlan { window_title: None, open_devtools: false }
    }
}

/// A platform capability plugin; each registers its own namespace.
#[derive(PartialEq, Eq, Structural, Clone, Copy, Debug)]
pub enum Plugin {
    Shell,
    Http,
    Dialog,
    Fs,
    ClipboardManager,
    Notification,
    Process,
    Os,
    Opener,
}

/// The plugins that startup registers, in registration order.
pub open spec fn plugins_spec() -> Seq<Plugin> {
    seq![
        Plugin::Shell,
        Plugin::Http,
        Plugin::Dialog,
        Plugin::Fs,
        Plugin::ClipboardManager,
        Plugin::Notification,
        Plugin::Process,
        Plugin::Os,
        Plugin::Opener,
    ]
}

/// Every plugin, each exactly once, in the order startup registers them.
pub fn registered_plugins() -> (r: Vec<Plugin>)
    ensures
        r@ == plugins_spec(),
        r@.no_duplicates(),
        forall|p: Plugin| r@.contains(p),
{
    let r: Vec<Plugin> = vec![
        Plugin::Shell,
        Plugin::Http,
        Plugin::Dialog,
        Plugin::Fs,
        Plugin::ClipboardManager,
        Plugin::Notification,
        Plugin::Process,
        Plugin::Os,
        Plugin::Opener,
    ];
    assert(r@ =~= plugins_spec());
    assert forall|p: Plugin| r@.contains(p) by {
        match p {
            Plugin::Shell => assert(r@[0] == p),
            Plugin::Http => assert(r@[1] == p),
            Plugin::Dialog => assert(r@[2] == p),
            Plugin::Fs => assert(r@[3] == p),
            Plugin::ClipboardManager => assert(r@[4] == p),
            Plugin::Notification => assert(r@[5] == p),
            Plugin::Process => assert(r@[6] == p),
            Plugin::Os => assert(r@[7] == p),
            Plugin::Opener => assert(r@[8] == p),
        }
    }
    r
}

/// Where startup stands; it only ever moves forward, one stage at a time.
#[derive(PartialEq, Eq, Structural, Clone, Copy, Debug)]
pub enum StartupStage {
    Uninitialized,
    LoggingReady,
    PluginsRegistered,
    CommandsRegistered,
    WindowConfigured,
    Running,
}

impl StartupStage {
    /// The stage's position in the sequence, from zero.
    pub open spec fn rank(self) -> nat {
        match self {
            StartupStage::Uninitialized => 0,
            StartupStage::LoggingReady => 1,
            StartupStage::PluginsRegistered => 2,
            StartupStage::CommandsRegistered => 3,
            StartupStage::WindowConfigured => 4,
            StartupStage::Running => 5,
        }
    }

    /// The stage that follows this one; `Running` is last.
    pub fn next(self) -> (r: Option<StartupStage>)
        ensures
            r is None <==> self == StartupStage::Running,
            r is Some ==> r->Some_0.rank() == self.rank() + 1,
    {
        match self {
            StartupStage::Uninitialized => Some(StartupStage::LoggingReady),
            StartupStage::LoggingReady => Some(StartupStage::PluginsRegistered),
            StartupStage::PluginsRegistered => Some(StartupStage::CommandsRegistered),
            StartupStage::CommandsRegistered => Some(StartupStage::WindowConfigured),
            StartupStage::WindowConfigured => Some(StartupStage::Running),
            StartupStage::Running => None,
        }
    }
}

/// The verbosity filter that logging uses when none is configured.
pub const DEFAULT_LOG_FILTER: &'static str = "info";

/// A gate that lets the process-wide log sink be initialised once only.
pub struct LoggingGate {
    initialized: bool,
}

impl LoggingGate {
    /// Whether the sink has been initialised through this gate.
    pub closed spec fn is_open(&self) -> bool {
        self.initialized
    }

    /// A gate through which nothing has been initialised yet.
    pub fn new() -> (r: LoggingGate)
        ensures
            !r.is_open(),
    {
        LoggingGate { initialized: false }
    }

    /// Asks to initialise the sink: granted on the first request only.
    pub fn begin(&mut self) -> (granted: bool)
        ensures
            granted == !old(self).is_open(),
            final(self).is_open(),
    {
        let granted = !self.initialized;
        self.initialized = true;
        granted
    }

    /// Whether the sink has been initialised.
    pub fn initialized(&self) -> (r: bool)
        ensures
            r == self.is_open(),
    {
        self.initialized
    }
}

} // verus!
