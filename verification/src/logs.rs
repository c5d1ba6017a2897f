//! The observability pipeline plan: two independent enablement switches
//! (console, file) and one global severity threshold compose a static list
//! of sinks. File output fans out into four severity-scoped sinks; console
//! output is gated by the global threshold alone.

use vstd::prelude::*;
use vstd::string::*;

use crate::errors::AppError;

verus! {

/// Event severity, from most to least severe.
#[derive(Debug, Clone, Copy, PartialEq, Eq, Structural)]
pub enum Severity {
    Error,
    Warn,
    Info,
    Debug,
}

/// The rank of a severity: lower is more severe.
pub open spec fn rank(s: Severity) -> int {
    match s {
        Severity::Error => 0,
        Severity::Warn => 1,
        Severity::Info => 2,
        Severity::Debug => 3,
    }
}

/// Whether a threshold admits an event: the event is at least as severe as
/// the threshold.
pub open spec fn admits(threshold: Severity, event: Severity) -> bool {
    rank(event) <= rank(threshold)
}

/// Whether a threshold admits an event, decided at run time.
pub fn severity_admits(threshold: Severity, event: Severity) -> (r: bool)
    ensures
        r == admits(threshold, event),
{
    rank_of(event) <= rank_of(threshold)
}

/// The rank of a severity, computed at run time.
pub fn rank_of(s: Severity) -> (r: u8)
    ensures
        r == rank(s),
{
    match s {
        Severity::Error => 0,
        Severity::Warn => 1,
        Severity::Info => 2,
        Severity::Debug => 3,
    }
}

/// One output destination: the console, or a daily-rotating file scoped to
/// events at least as severe as the carried threshold.
#[derive(Debug, Clone, Copy, PartialEq, Eq, Structural)]
pub enum Sink {
    Console,
    File(Severity),
}

/// The per-sink severity threshold: a file sink admits only events at least
/// as severe as its scope; the console sink admits every severity, so it is
/// gated by the global threshold alone.
pub open spec fn sink_threshold(s: Sink) -> Severity {
    match s {
        Sink::Console => Severity::Debug,
        Sink::File(t) => t,
    }
}

/// The bounded retention of each rotating file sink: the most recent files
/// kept per sink.
pub const MAX_LOG_FILES: usize = 15;

/// Pipeline configuration: the two independent enablement switches and the
/// global severity threshold.
#[derive(Debug)]
pub struct LogConfig {
    pub console_enabled: bool,
    pub file_enabled: bool,
    pub threshold: Severity,
}

impl Default for LogConfig {
    /// The default configuration: console output on, file output off,
    /// threshold `Info`.
    fn default() -> (c: Self)
        ensures
            c.console_enabled,
            !c.file_enabled,
            c.threshold == Severity::Info,
    {
        LogConfig { console_enabled: true, file_enabled: false, threshold: Severity::Info }
    }
}

/// The static sink list that a configuration composes: with file output
/// enabled, four severity-scoped file sinks (error-only, warn-and-above,
/// info-and-above, debug-and-above); with console output enabled, the
/// console sink after them.
pub open spec fn sink_plan(c: LogConfig) -> Seq<Sink> {
    (if c.file_enabled {
        seq![
            Sink::File(Severity::Error),
            Sink::File(Severity::Warn),
            Sink::File(Severity::Info),
            Sink::File(Severity::Debug),
        ]
    } else {
        Seq::empty()
    }) + (if c.console_enabled {
        seq![Sink::Console]
    } else {
        Seq::empty()
    })
}

/// The process-wide observability pipeline: initialized at most once; after
/// a successful initialization it holds the configured sink list and the
/// global threshold.
pub struct Pipeline {
    pub initialized: bool,
    pub threshold: Severity,
    pub sinks: Vec<Sink>,
}

impl Pipeline {
    /// A pipeline that has not been initialized: no sinks, nothing
    /// recorded.
    pub fn new() -> (p: Self)
        ensures
            !p.initialized,
            p.sinks@ =~= Seq::<Sink>::empty(),
    {
        Pipeline { initialized: false, threshold: Severity::Info, sinks: Vec::new() }
    }

    /// Initialization. A second attempt on an initialized pipeline fails
    /// loudly and changes nothing. With both switches disabled it is a
    /// no-op and never errors: the pipeline stays uninitialized and records
    /// nothing. Otherwise it succeeds, adopts the configuration's
    /// threshold, and composes exactly the configured sink list.
    pub fn init(&mut self, config: &LogConfig) -> (r: Result<(), AppError>)
        ensures
            old(self).initialized ==> {
                &&& *final(self) == *old(self)
                &&& r is Err
            },
            !old(self).initialized && !config.console_enabled && !config.file_enabled ==> {
                &&& *final(self) == *old(self)
                &&& r is Ok
            },
            !old(self).initialized && (config.console_enabled || config.file_enabled) ==> {
                &&& final(self).initialized
                &&& final(self).threshold == config.threshold
                &&& final(self).sinks@ == sink_plan(*config)
                &&& r is Ok
            },
    {
        if self.initialized {
            return Err(
                AppError::ConfigError(String::from_str("observability pipeline already initialized")),
            );
        }
        if !config.console_enabled && !config.file_enabled {
            return Ok(());
        }
        let mut sinks: Vec<Sink> = Vec::new();
        if config.file_enabled {
            sinks.push(Sink::File(Severity::Error));
            sinks.push(Sink::File(Severity::Warn));
            sinks.push(Sink::File(Severity::Info));
            sinks.push(Sink::File(Severity::Debug));
        }
        if config.console_enabled {
            sinks.push(Sink::Console);
        }
        proof {
            assert(sinks@ =~= sink_plan(*config));
        }
        self.initialized = true;
        self.threshold = config.threshold;
        self.sinks = sinks;
        Ok(())
    }

    /// Whether the sink at position `i` records an event of the given
    /// severity: the pipeline is initialized and both the global threshold
    /// (the first-pass gate shared by all sinks) and the sink's own
    /// threshold admit the event.
    pub fn sink_records(&self, i: usize, severity: Severity) -> (r: bool)
        requires
            i < self.sinks@.len(),
        ensures
            r == records(*self, i as int, severity),
    {
        if !self.initialized {
            return false;
        }
        if !severity_admits(self.threshold, severity) {
            return false;
        }
        let sink = self.sinks[i];
        let per_sink = match sink {
            Sink::Console => Severity::Debug,
            Sink::File(t) => t,
        };
        severity_admits(per_sink, severity)
    }

    /// The number of configured sinks.
    pub fn sink_count(&self) -> (n: usize)
        ensures
            n == self.sinks@.len(),
    {
        self.sinks.len()
    }
}

/// Whether the sink at position `i` of the pipeline records an event of the
/// given severity.
pub open spec fn records(p: Pipeline, i: int, severity: Severity) -> bool {
    &&& p.initialized
    &&& admits(p.threshold, severity)
    &&& admits(sink_threshold(p.sinks@[i]), severity)
}

/// An error event passes every per-sink filter: once the global threshold
/// admits it, every configured sink records it — in particular, with file
/// output enabled a single error event is written to all four severity
/// files at once.
pub proof fn lemma_error_reaches_every_sink(p: Pipeline, i: int)
    requires
        p.initialized,
        0 <= i < p.sinks@.len(),
    ensures
        records(p, i, Severity::Error) == admits(p.threshold, Severity::Error),
{
}

/// The console sink is gated solely by the global threshold: whenever it is
/// configured, it records exactly the events that the global threshold
/// admits, whatever the file sinks do.
pub proof fn lemma_console_gated_by_global_threshold(p: Pipeline, i: int, severity: Severity)
    requires
        p.initialized,
        0 <= i < p.sinks@.len(),
        p.sinks@[i] == Sink::Console,
    ensures
        records(p, i, severity) == admits(p.threshold, severity),
{
}

} // verus!
