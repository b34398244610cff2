//! The module lifecycle decisions: load from a new path, reload the current
//! path, or restart the compiled module. One protocol serves all three; the
//! loop around the sandboxed engine follows the returned directive, and
//! reports the outcome back so it is logged. A failed load never touches
//! anything but the log: the previous module, if any, keeps running.

use vstd::prelude::*;

use crate::logs::{log_appended, LogKind, LogLevel};
use crate::settings::SettingsMap;
use crate::timer::IdeTimer;

verus! {

/// Which of the three lifecycle entry points ran.
#[derive(Clone, Copy, Debug, PartialEq, Eq, Structural)]
pub enum LoadKind {
    FromPath,
    Reload,
    Restart,
}

/// What the engine should do for one lifecycle operation.
pub enum LoadDirective {
    /// Read the module file at `path`, compile it, and instantiate the
    /// result seeded with `seed` (`None` means the module's own defaults).
    CompileAndInstantiate { path: String, seed: Option<SettingsMap> },
    /// Re-instantiate the already compiled module, seeded with `seed`.
    InstantiateCurrent { seed: Option<SettingsMap> },
}

/// Whether a file-system event on the module file triggers an automatic
/// reload: the file was created or modified, or the watcher asks for a
/// rescan.
pub fn should_reload_on(created: bool, modified: bool, rescan_needed: bool) -> (r: bool)
    ensures
        r == (created || modified || rescan_needed),
{
    created || modified || rescan_needed
}

impl IdeTimer {
    /// Begins loading a module from a new path: the path is recorded, and
    /// the new instance starts from the module's own default settings — a
    /// first load has no prior instance to take settings from.
    pub fn load_file(&mut self, path: String) -> (d: LoadDirective)
        requires
            old(self).wf(),
        ensures
            final(self).wf(),
            *final(self) == (IdeTimer { wasm_path: final(self).wasm_path, ..*old(self) }),
            final(self).wasm_path == Some(path),
            d == (LoadDirective::CompileAndInstantiate { path, seed: None::<SettingsMap> }),
    {
        self.wasm_path = Some(path.clone());
        LoadDirective::CompileAndInstantiate { path, seed: None }
    }

    /// Begins a reload of the known module file. The outgoing instance's
    /// current settings map is handed in and becomes the seed, so the
    /// user's configuration survives a code reload. With no known path the
    /// already compiled module is re-instantiated instead.
    pub fn reload(&self, current_settings: Option<SettingsMap>) -> (d: LoadDirective)
        ensures
            match self.wasm_path {
                Some(p) => d == (LoadDirective::CompileAndInstantiate {
                    path: p,
                    seed: current_settings,
                }),
                None => d == (LoadDirective::InstantiateCurrent { seed: current_settings }),
            },
    {
        match &self.wasm_path {
            Some(p) => LoadDirective::CompileAndInstantiate {
                path: p.clone(),
                seed: current_settings,
            },
            None => LoadDirective::InstantiateCurrent { seed: current_settings },
        }
    }

    /// Begins a restart of the already compiled module. No settings are
    /// carried over: the new instance starts from a fresh default map.
    pub fn restart(&self) -> (d: LoadDirective)
        ensures
            d == (LoadDirective::InstantiateCurrent { seed: None::<SettingsMap> }),
    {
        LoadDirective::InstantiateCurrent { seed: None }
    }

    /// Reports a failed read, compile or instantiation. The failure is
    /// logged at error severity, and nothing else changes: the previously
    /// loaded module, the settings, and the rest of the state stay exactly
    /// as they were.
    pub fn load_failed(&mut self, error: String)
        requires
            old(self).wf(),
        ensures
            final(self).wf(),
            *final(self) == (IdeTimer { logs: final(self).logs, ..*old(self) }),
            log_appended(
                old(self).logs@,
                final(self).logs@,
                error@,
                LogKind::Runtime(LogLevel::Error),
            ),
    {
        self.logs.push_level(error, LogLevel::Error);
    }

    /// Reports that the new instance is installed, logging which of the
    /// three operations completed.
    pub fn load_succeeded(&mut self, kind: LoadKind)
        requires
            old(self).wf(),
        ensures
            final(self).wf(),
            *final(self) == (IdeTimer { logs: final(self).logs, ..*old(self) }),
            log_appended(
                old(self).logs@,
                final(self).logs@,
                match kind {
                    LoadKind::FromPath => "Auto splitter loaded."@,
                    LoadKind::Reload => "Auto splitter reloaded."@,
                    LoadKind::Restart => "Auto splitter restarted."@,
                },
                LogKind::Runtime(LogLevel::Info),
            ),
    {
        let message = match kind {
            LoadKind::FromPath => "Auto splitter loaded.",
            LoadKind::Reload => "Auto splitter reloaded.",
            LoadKind::Restart => "Auto splitter restarted.",
        };
        self.logs.push_level(message.to_owned(), LogLevel::Info);
    }
}

} // verus!
