use vstd::prelude::*;
use vstd::string::*;

verus! {

/// Command-line options of the bot (plain values; the parser lives in the
/// binary).
pub struct Args {
    /// Configuration file path.
    pub config: String,
    /// Execution mode: paper | live.
    pub mode: Option<String>,
    /// Shorthand for `--mode paper`.
    pub paper: bool,
    /// Override test duration in minutes.
    pub duration_minutes: Option<usize>,
    /// Override test duration in hours.
    pub duration_hours: Option<usize>,
    /// Override test cycles (expert mode).
    pub cycles: Option<usize>,
    /// Enable debug logging.
    pub debug: bool,
    /// Enable trace logging.
    pub trace: bool,
}

/// How long a paper-trading session runs: exactly one of these is used.
#[derive(Debug, Clone, Copy, PartialEq, Eq, Structural)]
pub struct RunLength {
    pub test_cycles: Option<usize>,
    pub test_duration_minutes: Option<usize>,
    pub test_duration_hours: Option<usize>,
}

/// A `--mode` value other than `paper` or `live`.
#[derive(Debug)]
pub struct ModeError {
    pub given: String,
}

impl ModeError {
    /// Error text shown to the user.
    pub fn message(&self) -> (s: String)
        ensures
            s@ == "Invalid --mode '"@ + self.given@ + "'. Must be 'paper' or 'live'"@,
    {
        let s = String::from_str("Invalid --mode '");
        let s = s.concat(self.given.as_str());
        s.concat("'. Must be 'paper' or 'live'")
    }
}

/// Log level selected by the flags.
#[derive(Debug, Clone, Copy, PartialEq, Eq, Structural)]
pub enum LogLevel {
    Trace,
    Debug,
    Info,
}

pub open spec fn is_valid_mode(m: Seq<char>) -> bool {
    m == "paper"@ || m == "live"@
}

impl Args {
    /// The execution mode asked for: `paper` when `--paper` is set,
    /// otherwise the `--mode` value, if any.
    pub fn resolved_mode(&self) -> (r: Option<String>)
        ensures
            self.paper ==> r is Some && r->0@ == "paper"@,
            !self.paper ==> match self.mode {
                Some(m) => r is Some && r->0@ == m@,
                None => r is None,
            },
    {
        if self.paper {
            return Some(String::from_str("paper"));
        }
        match &self.mode {
            Some(m) => Some(m.clone()),
            None => None,
        }
    }

    /// The execution mode that overrides the configuration file: `Ok(None)`
    /// when none was given, an error when the mode is neither `paper` nor `live`.
    pub fn mode_override(&self) -> (r: Result<Option<String>, ModeError>)
        ensures
            match r {
                Ok(None) => !self.paper && self.mode is None,
                Ok(Some(m)) => is_valid_mode(m@) && (if self.paper { m@ == "paper"@ } else { self.mode is Some && m@ == self.mode->0@ }),
                Err(e) => !self.paper && self.mode is Some && e.given@ == self.mode->0@ && !is_valid_mode(e.given@),
            },
    {
        match self.resolved_mode() {
            None => Ok(None),
            Some(m) => {
                if is_mode_valid(&m) {
                    Ok(Some(m))
                } else {
                    Err(ModeError { given: m })
                }
            },
        }
    }

    /// The run length after the command-line overrides: cycles win over
    /// minutes, which win over hours; the others are cleared. The flag
    /// tells whether any override applied.
    pub fn apply_run_length(&self, current: RunLength) -> (r: (RunLength, bool))
        ensures
            match (self.cycles, self.duration_minutes, self.duration_hours) {
                (Some(c), _, _) => r == (RunLength { test_cycles: Some(c), test_duration_minutes: None, test_duration_hours: None }, true),
                (None, Some(m), _) => r == (RunLength { test_cycles: None, test_duration_minutes: Some(m), test_duration_hours: None }, true),
                (None, None, Some(h)) => r == (RunLength { test_cycles: None, test_duration_minutes: None, test_duration_hours: Some(h) }, true),
                (None, None, None) => r == (current, false),
            },
    {
        if let Some(c) = self.cycles {
            (RunLength { test_cycles: Some(c), test_duration_minutes: None, test_duration_hours: None }, true)
        } else if let Some(m) = self.duration_minutes {
            (RunLength { test_cycles: None, test_duration_minutes: Some(m), test_duration_hours: None }, true)
        } else if let Some(h) = self.duration_hours {
            (RunLength { test_cycles: None, test_duration_minutes: None, test_duration_hours: Some(h) }, true)
        } else {
            (current, false)
        }
    }

    /// Trace wins over debug; info otherwise.
    pub fn log_level(&self) -> (l: LogLevel)
        ensures
            l == (if self.trace { LogLevel::Trace } else if self.debug { LogLevel::Debug } else { LogLevel::Info }),
    {
        if self.trace {
            LogLevel::Trace
        } else if self.debug {
            LogLevel::Debug
        } else {
            LogLevel::Info
        }
    }
}

/// Whether `m` names one of the two execution modes.
pub fn is_mode_valid(m: &String) -> (b: bool)
    ensures
        b == is_valid_mode(m@),
{
    let paper = String::from_str("paper");
    let live = String::from_str("live");
    *m == paper || *m == live
}

} // verus!
