//! Progress-observer state: the phase, the progress bar and the log, free of
//! any terminal concerns. Rendering belongs to callers.

use vstd::prelude::*;

use crate::schema_types::names_view;

verus! {

/// The phases of a run, shown in the status panel.
#[derive(Debug, Clone, Copy, PartialEq, Eq, Structural)]
pub enum Phase {
    Checking,
    Downloading,
    Extracting,
    Converting,
    Complete,
}

impl Phase {
    /// The label shown for this phase.
    pub fn label(&self) -> (s: String)
        ensures
            self matches Phase::Checking ==> s@ == "Checking for updates"@,
            self matches Phase::Downloading ==> s@ == "Downloading SDE"@,
            self matches Phase::Extracting ==> s@ == "Extracting files"@,
            self matches Phase::Converting ==> s@ == "Converting to SQLite"@,
            self matches Phase::Complete ==> s@ == "Complete"@,
    {
        match self {
            Phase::Checking => "Checking for updates".to_owned(),
            Phase::Downloading => "Downloading SDE".to_owned(),
            Phase::Extracting => "Extracting files".to_owned(),
            Phase::Converting => "Converting to SQLite".to_owned(),
            Phase::Complete => "Complete".to_owned(),
        }
    }
}

/// Progress of the current operation.
#[derive(Debug)]
pub struct Progress {
    pub current: u64,
    pub total: u64,
    pub label: String,
}

impl Progress {
    /// A progress value.
    pub fn new(current: u64, total: u64, label: &str) -> (p: Progress)
        ensures
            p.current == current,
            p.total == total,
            p.label@ == label@,
    {
        Progress { current, total, label: label.to_owned() }
    }
}

/// A progress observer. Implementations may display the state or ignore it;
/// the pipeline never depends on them for correctness.
pub trait Ui {
    /// Sets the current phase.
    fn set_phase(&mut self, phase: Phase);

    /// Sets the one-line status string.
    fn set_info(&mut self, info: &str);

    /// Sets the progress bar.
    fn set_progress(&mut self, current: u64, total: u64, label: &str);

    /// Clears the progress bar.
    fn clear_progress(&mut self);

    /// Appends a log line.
    fn log(&mut self, message: &str);
}

/// The status panel's state: current phase and info line.
#[derive(Debug)]
pub struct StatusPanel {
    pub phase: Phase,
    pub info: String,
}

impl StatusPanel {
    /// A fresh status panel, in the checking phase.
    pub fn new() -> (p: StatusPanel)
        ensures
            p.phase == Phase::Checking,
            p.info@ == Seq::<char>::empty(),
    {
        StatusPanel { phase: Phase::Checking, info: String::new() }
    }

    /// Sets the phase, leaving the info line unchanged.
    pub fn set_phase(&mut self, phase: Phase)
        ensures
            final(self).phase == phase,
            final(self).info == old(self).info,
    {
        self.phase = phase;
    }

    /// Sets the info line, leaving the phase unchanged.
    pub fn set_info(&mut self, info: &str)
        ensures
            final(self).phase == old(self).phase,
            final(self).info@ == info@,
    {
        self.info = info.to_owned();
    }
}

/// The progress panel's state.
#[derive(Debug)]
pub struct ProgressPanel {
    pub progress: Option<Progress>,
}

impl ProgressPanel {
    /// A fresh panel with no progress shown.
    pub fn new() -> (p: ProgressPanel)
        ensures
            p.progress is None,
    {
        ProgressPanel { progress: None }
    }

    /// Shows the given progress.
    pub fn set_progress(&mut self, progress: Progress)
        ensures
            final(self).progress matches Some(p) && p.current == progress.current && p.total
                == progress.total && p.label == progress.label,
    {
        self.progress = Some(progress);
    }

    /// Clears the progress bar.
    pub fn clear(&mut self)
        ensures
            final(self).progress is None,
    {
        self.progress = None;
    }
}

/// The log panel's state: a bounded history of lines.
#[derive(Debug)]
pub struct LogPanel {
    pub entries: Vec<String>,
    pub max_entries: usize,
}

impl LogPanel {
    /// A fresh, empty log bounded at one hundred lines.
    pub fn new() -> (p: LogPanel)
        ensures
            p.entries@.len() == 0,
            p.max_entries == 100,
    {
        LogPanel { entries: Vec::new(), max_entries: 100 }
    }

    /// Appends a line; when the log exceeds its bound, the oldest line is
    /// dropped.
    pub fn add(&mut self, message: &str)
        ensures
            final(self).max_entries == old(self).max_entries,
            ({
                let pushed = names_view(old(self).entries@).push(message@);
                names_view(final(self).entries@) == if pushed.len() > old(self).max_entries {
                    pushed.drop_first()
                } else {
                    pushed
                }
            }),
    {
        self.entries.push(message.to_owned());
        proof {
            assert(names_view(self.entries@) =~= names_view(old(self).entries@).push(message@));
        }
        if self.entries.len() > self.max_entries {
            let ghost before = names_view(self.entries@);
            self.entries.remove(0);
            proof {
                assert(names_view(self.entries@) =~= before.drop_first());
            }
        }
    }
}

/// A silent observer for non-interactive use: every notification is
/// discarded.
#[derive(Debug)]
pub struct SilentUi;

impl SilentUi {
    /// A silent observer.
    pub fn new() -> SilentUi {
        SilentUi
    }
}

impl Ui for SilentUi {
    fn set_phase(&mut self, _phase: Phase) {
    }

    fn set_info(&mut self, _info: &str) {
    }

    fn set_progress(&mut self, _current: u64, _total: u64, _label: &str) {
    }

    fn clear_progress(&mut self) {
    }

    fn log(&mut self, _message: &str) {
    }
}

} // verus!
