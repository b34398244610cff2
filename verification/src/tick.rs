//! Host-side bookkeeping after each tick. The loop thread performs the
//! module's update call, gathers what the call produced, and hands it here:
//! the process list is replaced wholesale, the statistics are folded in, an
//! update failure is logged and never stops the host, the widget cache is
//! replaced only when its identity token differs, and the settings cache is
//! replaced only when it differs structurally. The returned cadence drives
//! the next deadline.

use vstd::prelude::*;

use crate::logs::{log_appended, LogKind, LogLevel};
use crate::schedule::FALLBACK_CADENCE_NANOS;
use crate::settings::{entries_match_with, SettingsMap};
use crate::stats::{max_nanos, smoothed, StatisticsData};
use crate::timer::IdeTimer;
use crate::widgets::WidgetDescriptor;

verus! {

/// What one update call produced: its outcome, its cost, and the module's
/// current process list, widgets, and settings.
pub struct TickReport {
    /// The update failure to log, if the call failed.
    pub update_error: Option<String>,
    /// How long the update call took, in nanoseconds.
    pub elapsed_nanos: u64,
    /// Memory the module uses, in bytes.
    pub memory_usage: usize,
    /// Handles the module holds.
    pub handles: u64,
    /// The cadence the module asks for, in nanoseconds.
    pub tick_rate_nanos: u64,
    /// The processes the module is attached to, replacing the tracked list.
    pub processes: Vec<(String, String)>,
    /// Identity token of the module's widget list.
    pub widgets_identity: u64,
    /// The module's widget list.
    pub widgets: Vec<WidgetDescriptor>,
    /// A copy of the canonical settings map.
    pub settings: SettingsMap,
}

impl IdeTimer {
    /// Folds one tick's outcome into the shared state and returns the
    /// cadence for the next deadline.
    pub fn reconcile_tick(&mut self, report: TickReport) -> (cadence: u64)
        requires
            old(self).wf(),
            report.settings.wf(),
        ensures
            final(self).wf(),
            cadence == report.tick_rate_nanos,
            *final(self) == (IdeTimer {
                processes: report.processes,
                statistics: final(self).statistics,
                logs: final(self).logs,
                settings_widgets: final(self).settings_widgets,
                widgets_identity: final(self).widgets_identity,
                settings_map: final(self).settings_map,
                ..*old(self)
            }),
            final(self).statistics == (StatisticsData {
                tick_rate_nanos: report.tick_rate_nanos,
                avg_tick_nanos: final(self).statistics.avg_tick_nanos,
                slowest_tick_nanos: max_nanos(
                    old(self).statistics.slowest_tick_nanos,
                    report.elapsed_nanos,
                ),
                handles: report.handles,
                memory_usage: report.memory_usage,
            }),
            final(self).statistics.avg_tick_nanos == smoothed(
                old(self).statistics.avg_tick_nanos,
                report.elapsed_nanos,
            ),
            match report.update_error {
                Some(msg) => log_appended(
                    old(self).logs@,
                    final(self).logs@,
                    msg@,
                    LogKind::Runtime(LogLevel::Error),
                ),
                None => final(self).logs == old(self).logs,
            },
            report.widgets_identity == old(self).widgets_identity ==> {
                &&& final(self).settings_widgets == old(self).settings_widgets
                &&& final(self).widgets_identity == old(self).widgets_identity
            },
            report.widgets_identity != old(self).widgets_identity ==> {
                &&& final(self).settings_widgets == report.widgets
                &&& final(self).widgets_identity == report.widgets_identity
            },
            entries_match_with(old(self).settings_map@, report.settings@) ==> final(self).settings_map
                == old(self).settings_map,
            !entries_match_with(old(self).settings_map@, report.settings@) ==> final(self).settings_map
                == report.settings,
    {
        let TickReport {
            update_error,
            elapsed_nanos,
            memory_usage,
            handles,
            tick_rate_nanos,
            processes,
            widgets_identity,
            widgets,
            settings,
        } = report;
        self.processes = processes;
        self.statistics.record_tick(elapsed_nanos, memory_usage, handles, tick_rate_nanos);
        match update_error {
            Some(msg) => self.logs.push_level(msg, LogLevel::Error),
            None => (),
        }
        if widgets_identity != self.widgets_identity {
            self.settings_widgets = widgets;
            self.widgets_identity = widgets_identity;
        }
        if !self.settings_map.is_unchanged(&settings) {
            self.settings_map = settings;
        }
        tick_rate_nanos
    }

    /// A tick with no module loaded: the process list is cleared and the
    /// loop falls back to its fixed cadence.
    pub fn idle_tick(&mut self) -> (cadence: u64)
        requires
            old(self).wf(),
        ensures
            final(self).wf(),
            cadence == FALLBACK_CADENCE_NANOS,
            final(self).processes@ == Seq::<(String, String)>::empty(),
            *final(self) == (IdeTimer { processes: final(self).processes, ..*old(self) }),
    {
        self.processes.clear();
        FALLBACK_CADENCE_NANOS
    }
}

} // verus!
