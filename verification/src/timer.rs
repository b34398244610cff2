//! The timer state machine: the capability interface the sandboxed module
//! calls to report split events, and the shared host state those calls
//! mutate. The same operations are triggered by the user's timer buttons.
//!
//! The split record and the split index move together: the record's length
//! equals the split index after every operation, whatever sequence of calls
//! ran — that is the `wf` invariant every operation preserves.

use vstd::prelude::*;

use indexmap::IndexMap;

use crate::logs::{log_appended, LogEntries, LogKind, LogLevel};
use crate::settings::SettingsMap;
use crate::stats::StatisticsData;
use crate::vars::{
    var_map_clear, var_map_get, var_map_index, var_map_insert, var_map_len, var_map_new,
    variable_entries, vars_has_key, vars_has_pair, vars_unique,
};
use crate::widgets::WidgetDescriptor;

verus! {

/// What the timer is doing; governs which operations are accepted.
#[derive(Clone, Copy, Debug, PartialEq, Eq, Structural)]
pub enum TimerState {
    NotRunning,
    Running,
    Paused,
    Ended,
}

impl TimerState {
    /// The state's display name.
    pub fn label(&self) -> (r: &'static str)
        ensures
            self is NotRunning ==> r@ == "Not Running"@,
            self is Running ==> r@ == "Running"@,
            self is Paused ==> r@ == "Paused"@,
            self is Ended ==> r@ == "Ended"@,
    {
        match self {
            TimerState::NotRunning => "Not Running",
            TimerState::Running => "Running",
            TimerState::Paused => "Paused",
            TimerState::Ended => "Ended",
        }
    }
}

/// The secondary in-game clock's state, an axis independent from
/// `TimerState`.
#[derive(Clone, Copy, Debug, PartialEq, Eq, Structural)]
pub enum GameTimeState {
    NotInitialized,
    Running,
    Paused,
}

impl GameTimeState {
    /// The state's display name.
    pub fn label(&self) -> (r: &'static str)
        ensures
            self is NotInitialized ==> r@ == "Not Initialized"@,
            self is Running ==> r@ == "Running"@,
            self is Paused ==> r@ == "Paused"@,
    {
        match self {
            GameTimeState::NotInitialized => "Not Initialized",
            GameTimeState::Running => "Running",
            GameTimeState::Paused => "Paused",
        }
    }
}

/// The shared host state: timer, split record, game time, variables,
/// process list, cached settings and widgets, statistics, logs, and the
/// module file's path. The tick loop, the lifecycle operations and the
/// module's timer calls all mutate it.
pub struct IdeTimer {
    pub timer_state: TimerState,
    pub split_index: usize,
    /// One entry per completed split attempt: `true` for a split, `false`
    /// for a skipped one.
    pub segment_splitted: Vec<bool>,
    /// The in-game clock, in nanoseconds.
    pub game_time_nanos: i128,
    pub game_time_state: GameTimeState,
    /// Key-value pairs the module provides for display.
    pub variables: IndexMap<String, String>,
    /// The processes the module is attached to, as id and path.
    pub processes: Vec<(String, String)>,
    /// The host's cached copy of the module's widget list.
    pub settings_widgets: Vec<WidgetDescriptor>,
    /// Identity token of the cached widget list, for the identity
    /// comparison the tick loop makes.
    pub widgets_identity: u64,
    /// The host's cached copy of the canonical settings map, for display.
    pub settings_map: SettingsMap,
    pub logs: LogEntries,
    pub wasm_path: Option<String>,
    pub statistics: StatisticsData,
}

impl IdeTimer {
    /// The state's validity: the split record's length equals the split
    /// index, the variable keys are unique, and the cached settings map is
    /// well-formed. Every operation preserves it, so it holds after any
    /// sequence of calls.
    pub open spec fn wf(&self) -> bool {
        &&& self.split_index == self.segment_splitted@.len()
        &&& vars_unique(variable_entries(self.variables))
        &&& self.settings_map.wf()
    }

    pub fn new() -> (r: Self)
        ensures
            r.wf(),
            r.timer_state == TimerState::NotRunning,
            r.split_index == 0,
            r.segment_splitted@ == Seq::<bool>::empty(),
            r.game_time_nanos == 0,
            r.game_time_state == GameTimeState::NotInitialized,
            variable_entries(r.variables) == Seq::<(Seq<char>, Seq<char>)>::empty(),
            r.processes@ == Seq::<(String, String)>::empty(),
            r.settings_widgets@ == Seq::<WidgetDescriptor>::empty(),
            r.widgets_identity == 0,
            r.settings_map@ == Seq::<(String, crate::settings::SettingsValue)>::empty(),
            r.logs@ == Seq::<crate::logs::LogEntry>::empty(),
            r.wasm_path is None,
    {
        IdeTimer {
            timer_state: TimerState::NotRunning,
            split_index: 0,
            segment_splitted: Vec::new(),
            game_time_nanos: 0,
            game_time_state: GameTimeState::NotInitialized,
            variables: var_map_new(),
            processes: Vec::new(),
            settings_widgets: Vec::new(),
            widgets_identity: 0,
            settings_map: SettingsMap::new(),
            logs: LogEntries::new(),
            wasm_path: None,
            statistics: StatisticsData::new(),
        }
    }

    /// The current timer state.
    pub fn state(&self) -> (r: TimerState)
        ensures
            r == self.timer_state,
    {
        self.timer_state
    }

    /// Starts the timer: only accepted while it is not running.
    pub fn start(&mut self)
        requires
            old(self).wf(),
        ensures
            final(self).wf(),
            old(self).timer_state == TimerState::NotRunning ==> {
                &&& *final(self) == (IdeTimer {
                    timer_state: TimerState::Running,
                    logs: final(self).logs,
                    ..*old(self)
                })
                &&& log_appended(
                    old(self).logs@,
                    final(self).logs@,
                    "Timer started."@,
                    LogKind::Runtime(LogLevel::Debug),
                )
            },
            old(self).timer_state != TimerState::NotRunning ==> *final(self) == *old(self),
    {
        if self.timer_state == TimerState::NotRunning {
            self.timer_state = TimerState::Running;
            self.logs.push_level("Timer started.".to_owned(), LogLevel::Debug);
        }
    }

    /// Reports a completed split: only accepted while running. Appends
    /// `true` to the split record and moves the split index with it.
    pub fn split(&mut self)
        requires
            old(self).wf(),
        ensures
            final(self).wf(),
            old(self).timer_state == TimerState::Running ==> {
                &&& *final(self) == (IdeTimer {
                    split_index: final(self).split_index,
                    segment_splitted: final(self).segment_splitted,
                    logs: final(self).logs,
                    ..*old(self)
                })
                &&& final(self).segment_splitted@ == old(self).segment_splitted@.push(true)
                &&& final(self).split_index == old(self).split_index + 1
                &&& log_appended(
                    old(self).logs@,
                    final(self).logs@,
                    "Splitted."@,
                    LogKind::Runtime(LogLevel::Debug),
                )
            },
            old(self).timer_state != TimerState::Running ==> *final(self) == *old(self),
    {
        if self.timer_state == TimerState::Running {
            self.segment_splitted.push(true);
            self.split_index = self.segment_splitted.len();
            self.logs.push_level("Splitted.".to_owned(), LogLevel::Debug);
        }
    }

    /// Reports a skipped split: like `split`, but records `false`.
    pub fn skip_split(&mut self)
        requires
            old(self).wf(),
        ensures
            final(self).wf(),
            old(self).timer_state == TimerState::Running ==> {
                &&& *final(self) == (IdeTimer {
                    split_index: final(self).split_index,
                    segment_splitted: final(self).segment_splitted,
                    logs: final(self).logs,
                    ..*old(self)
                })
                &&& final(self).segment_splitted@ == old(self).segment_splitted@.push(false)
                &&& final(self).split_index == old(self).split_index + 1
                &&& log_appended(
                    old(self).logs@,
                    final(self).logs@,
                    "Split skipped."@,
                    LogKind::Runtime(LogLevel::Debug),
                )
            },
            old(self).timer_state != TimerState::Running ==> *final(self) == *old(self),
    {
        if self.timer_state == TimerState::Running {
            self.segment_splitted.push(false);
            self.split_index = self.segment_splitted.len();
            self.logs.push_level("Split skipped.".to_owned(), LogLevel::Debug);
        }
    }

    /// Undoes the last split. From `Ended` the timer first moves back to
    /// `Running`, and then — never silently staying in `Ended` — applies the
    /// running-state effect: the last record entry is dropped and the split
    /// index moves down with it, stopping at zero.
    pub fn undo_split(&mut self)
        requires
            old(self).wf(),
        ensures
            final(self).wf(),
            old(self).timer_state == TimerState::Ended || old(self).timer_state
                == TimerState::Running ==> {
                &&& *final(self) == (IdeTimer {
                    timer_state: TimerState::Running,
                    split_index: final(self).split_index,
                    segment_splitted: final(self).segment_splitted,
                    logs: final(self).logs,
                    ..*old(self)
                })
                &&& final(self).segment_splitted@ == if old(self).segment_splitted@.len() > 0 {
                    old(self).segment_splitted@.drop_last()
                } else {
                    old(self).segment_splitted@
                }
                &&& final(self).split_index == if old(self).split_index > 0 {
                    old(self).split_index - 1
                } else {
                    0
                }
                &&& log_appended(
                    old(self).logs@,
                    final(self).logs@,
                    "Split undone."@,
                    LogKind::Runtime(LogLevel::Debug),
                )
            },
            old(self).timer_state == TimerState::NotRunning || old(self).timer_state
                == TimerState::Paused ==> *final(self) == *old(self),
    {
        if self.timer_state == TimerState::Ended {
            self.timer_state = TimerState::Running;
        }
        if self.timer_state == TimerState::Running {
            self.segment_splitted.pop();
            self.split_index = self.segment_splitted.len();
            self.logs.push_level("Split undone.".to_owned(), LogLevel::Debug);
        }
    }

    /// Resets the timer from any state but `NotRunning`: the split index
    /// and record, the game time and its state, and the variables are all
    /// cleared, and the timer is `NotRunning` again.
    pub fn reset(&mut self)
        requires
            old(self).wf(),
        ensures
            final(self).wf(),
            old(self).timer_state != TimerState::NotRunning ==> {
                &&& *final(self) == (IdeTimer {
                    timer_state: TimerState::NotRunning,
                    split_index: 0,
                    segment_splitted: final(self).segment_splitted,
                    game_time_nanos: 0,
                    game_time_state: GameTimeState::NotInitialized,
                    variables: final(self).variables,
                    logs: final(self).logs,
                    ..*old(self)
                })
                &&& final(self).segment_splitted@ == Seq::<bool>::empty()
                &&& variable_entries(final(self).variables) == Seq::<(Seq<char>, Seq<char>)>::empty()
                &&& log_appended(
                    old(self).logs@,
                    final(self).logs@,
                    "Timer reset."@,
                    LogKind::Runtime(LogLevel::Debug),
                )
            },
            old(self).timer_state == TimerState::NotRunning ==> *final(self) == *old(self),
    {
        if self.timer_state != TimerState::NotRunning {
            self.timer_state = TimerState::NotRunning;
            self.split_index = 0;
            self.segment_splitted.clear();
            self.game_time_nanos = 0;
            self.game_time_state = GameTimeState::NotInitialized;
            var_map_clear(&mut self.variables);
            self.logs.push_level("Timer reset.".to_owned(), LogLevel::Debug);
        }
    }

    /// Sets the in-game clock, and makes sure it is flowing.
    pub fn set_game_time(&mut self, nanos: i128)
        requires
            old(self).wf(),
        ensures
            final(self).wf(),
            *final(self) == (IdeTimer {
                game_time_nanos: nanos,
                game_time_state: GameTimeState::Running,
                ..*old(self)
            }),
    {
        self.game_time_nanos = nanos;
        if self.game_time_state != GameTimeState::Running {
            self.game_time_state = GameTimeState::Running;
        }
    }

    /// Pauses the in-game clock; doing so twice changes nothing.
    pub fn pause_game_time(&mut self)
        requires
            old(self).wf(),
        ensures
            final(self).wf(),
            *final(self) == (IdeTimer { game_time_state: GameTimeState::Paused, ..*old(self) }),
    {
        if self.game_time_state != GameTimeState::Paused {
            self.game_time_state = GameTimeState::Paused;
        }
    }

    /// Resumes the in-game clock; doing so twice changes nothing.
    pub fn resume_game_time(&mut self)
        requires
            old(self).wf(),
        ensures
            final(self).wf(),
            *final(self) == (IdeTimer { game_time_state: GameTimeState::Running, ..*old(self) }),
    {
        if self.game_time_state != GameTimeState::Running {
            self.game_time_state = GameTimeState::Running;
        }
    }

    /// Stores a key-value pair for display. When the key already holds this
    /// very value nothing is written; otherwise an existing key keeps its
    /// place and gets the new value, and a new key is appended last.
    pub fn set_variable(&mut self, key: &str, value: &str)
        requires
            old(self).wf(),
        ensures
            final(self).wf(),
            vars_has_pair(variable_entries(old(self).variables), key@, value@) ==> *final(self)
                == *old(self),
            !vars_has_pair(variable_entries(old(self).variables), key@, value@) ==> {
                &&& *final(self) == (IdeTimer { variables: final(self).variables, ..*old(self) })
                &&& vars_has_key(variable_entries(old(self).variables), key@) ==> exists|i: int|
                    0 <= i < variable_entries(old(self).variables).len() && (
                    #[trigger] variable_entries(old(self).variables)[i]).0 == key@
                        && variable_entries(final(self).variables) == variable_entries(
                        old(self).variables,
                    ).update(i, (key@, value@))
                &&& !vars_has_key(variable_entries(old(self).variables), key@)
                    ==> variable_entries(final(self).variables) == variable_entries(
                    old(self).variables,
                ).push((key@, value@))
            },
    {
        let current = var_map_get(&self.variables, key);
        let changed = match &current {
            None => true,
            Some(v) => !crate::settings::str_eq(v.as_str(), value),
        };
        if changed {
            proof {
                let entries = variable_entries(self.variables);
                if current is Some && vars_has_pair(entries, key@, value@) {
                    let i = choose|i: int|
                        0 <= i < entries.len() && #[trigger] entries[i] == (
                            key@,
                            current->0@,
                        );
                    let j = choose|j: int|
                        0 <= j < entries.len() && #[trigger] entries[j] == (key@, value@);
                    assert(entries[i].0 == entries[j].0);
                    assert(i == j);
                }
                if current is None && vars_has_pair(entries, key@, value@) {
                    let j = choose|j: int|
                        0 <= j < entries.len() && #[trigger] entries[j] == (key@, value@);
                    assert(entries[j].0 == key@);
                }
            }
            var_map_insert(&mut self.variables, key.to_owned(), value.to_owned());
        } else {
            proof {
                let entries = variable_entries(self.variables);
                let i = choose|i: int|
                    0 <= i < entries.len() && #[trigger] entries[i] == (key@, current->0@);
                assert(entries[i] == (key@, value@));
            }
        }
    }

    /// Appends a log entry the module emitted.
    pub fn log_auto_splitter(&mut self, message: String)
        requires
            old(self).wf(),
        ensures
            final(self).wf(),
            *final(self) == (IdeTimer { logs: final(self).logs, ..*old(self) }),
            log_appended(old(self).logs@, final(self).logs@, message@, LogKind::AutoSplitter),
    {
        self.logs.push(message);
    }

    /// Appends a host-tagged log entry at the given severity.
    pub fn log_runtime(&mut self, message: String, level: LogLevel)
        requires
            old(self).wf(),
        ensures
            final(self).wf(),
            *final(self) == (IdeTimer { logs: final(self).logs, ..*old(self) }),
            log_appended(old(self).logs@, final(self).logs@, message@, LogKind::Runtime(level)),
    {
        self.logs.push_level(message, level);
    }

    /// How many variables the module has provided.
    pub fn variables_len(&self) -> (r: usize)
        ensures
            r == variable_entries(self.variables).len(),
    {
        var_map_len(&self.variables)
    }

    /// The variable at a position in insertion order, if any.
    pub fn variable_at(&self, i: usize) -> (r: Option<(String, String)>)
        ensures
            match r {
                Some(kv) => i < variable_entries(self.variables).len() && variable_entries(
                    self.variables,
                )[i as int] == (kv.0@, kv.1@),
                None => i >= variable_entries(self.variables).len(),
            },
    {
        var_map_index(&self.variables, i)
    }

    /// The variable stored under `key`, if any.
    pub fn variable_get(&self, key: &str) -> (r: Option<String>)
        ensures
            match r {
                Some(v) => vars_has_pair(variable_entries(self.variables), key@, v@),
                None => !vars_has_key(variable_entries(self.variables), key@),
            },
    {
        var_map_get(&self.variables, key)
    }

    /// The current split index.
    pub fn current_split_index(&self) -> (r: Option<usize>)
        ensures
            r == Some(self.split_index),
    {
        Some(self.split_index)
    }

    /// Whether the segment at `index` was split (`true`) or skipped
    /// (`false`), if a split attempt reached it.
    pub fn segment_splitted(&self, index: usize) -> (r: Option<bool>)
        ensures
            r == if index < self.segment_splitted@.len() {
                Some(self.segment_splitted@[index as int])
            } else {
                None::<bool>
            },
    {
        if index < self.segment_splitted.len() {
            Some(self.segment_splitted[index])
        } else {
            None
        }
    }
}

} // verus!
