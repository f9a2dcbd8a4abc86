//! The startup plan of the application shell and the bridge that forwards
//! menu clicks to the embedded web frontend.

use crate::menu::{create_app_menu, spec_app_menu, Menu};
use vstd::prelude::*;

verus! {

/// A plugin of the host shell that the application registers at startup.
#[derive(Clone, Copy, PartialEq, Eq, Structural, Debug)]
pub enum Plugin {
    FileSystem,
    Dialog,
    Shell,
}

/// Verbosity cap for the logging facility attached in debug builds.
#[derive(Clone, Copy, PartialEq, Eq, Structural, Debug)]
pub enum LogLevel {
    Off,
    Error,
    Warn,
    Info,
    Debug,
    Trace,
}

/// Everything the startup sequence decides before handing control to the
/// host shell: the plugins to register, in order; whether (and how verbosely)
/// to log; and the menu bar to install.
pub struct BootstrapPlan {
    pub plugins: Vec<Plugin>,
    pub log_level: Option<LogLevel>,
    pub menu: Menu,
}

/// The plugins the application registers, in registration order.
pub open spec fn spec_plugins() -> Seq<Plugin> {
    seq![Plugin::FileSystem, Plugin::Dialog, Plugin::Shell]
}

/// Logging is attached in debug builds only, capped at informational messages.
pub open spec fn spec_log_level(debug: bool) -> Option<LogLevel> {
    if debug {
        Some(LogLevel::Info)
    } else {
        None
    }
}

/// Decide the whole startup plan for the given platform and build kind.
pub fn bootstrap_plan(macos: bool, debug: bool) -> (p: BootstrapPlan)
    ensures
        p.plugins@ =~= spec_plugins(),
        p.log_level == spec_log_level(debug),
        p.menu@ =~~= spec_app_menu(macos),
{
    let mut plugins: Vec<Plugin> = Vec::new();
    plugins.push(Plugin::FileSystem);
    plugins.push(Plugin::Dialog);
    plugins.push(Plugin::Shell);
    let log_level = if debug {
        Some(LogLevel::Info)
    } else {
        None
    };
    BootstrapPlan { plugins, log_level, menu: create_app_menu(macos) }
}

/// The outbound event for one menu click: the fixed topic under which the
/// frontend listens, and the clicked entry's identifier as the payload.
pub struct MenuActionEvent<'a> {
    pub topic: &'static str,
    pub payload: &'a str,
}

/// Build the event that forwards a clicked menu identifier to the frontend:
/// the topic is always `menu-action`, the payload is the identifier verbatim.
pub fn forward_menu_event<'a>(event_id: &'a str) -> (e: MenuActionEvent<'a>)
    ensures
        e.topic@ == "menu-action"@,
        e.payload@ == event_id@,
{
    MenuActionEvent { topic: "menu-action", payload: event_id }
}

} // verus!
