//! Dual-destination log sink.
//!
//! One record is fanned out to two independently filtered sinks: a local one
//! (configured from the environment) and a remote one bound to a control
//! channel.  The sink is enabled for a level when either destination's
//! filter admits it, so the effective process-wide filter is the more
//! verbose (maximum) of the two.  A record the threshold admits is forwarded
//! to the local destination first, then the remote one, unconditionally; the
//! two forwards are not atomic.  The process-wide logger is a construct-once
//! singleton: installing a second sink fails, and downstream code treats
//! that failure as fatal.

use vstd::prelude::*;

verus! {

/// Severity of one log record, most severe first.
#[derive(Clone, Copy, PartialEq, Eq, Structural, Debug)]
pub enum LogLevel {
    Error,
    Warn,
    Info,
    Debug,
    Trace,
}

/// A sink's filter: the most verbose level it admits, or `Off` for none.
#[derive(Clone, Copy, PartialEq, Eq, Structural, Debug)]
pub enum LogFilter {
    Off,
    Error,
    Warn,
    Info,
    Debug,
    Trace,
}

/// Verbosity rank of a level: `Error` is 1, `Trace` is 5.
pub open spec fn level_rank(l: LogLevel) -> int {
    match l {
        LogLevel::Error => 1,
        LogLevel::Warn => 2,
        LogLevel::Info => 3,
        LogLevel::Debug => 4,
        LogLevel::Trace => 5,
    }
}

/// Verbosity rank of a filter: `Off` is 0, `Trace` is 5.
pub open spec fn filter_rank(f: LogFilter) -> int {
    match f {
        LogFilter::Off => 0,
        LogFilter::Error => 1,
        LogFilter::Warn => 2,
        LogFilter::Info => 3,
        LogFilter::Debug => 4,
        LogFilter::Trace => 5,
    }
}

/// Whether a filter admits a level: every level at most as verbose as the
/// filter passes.
pub open spec fn level_passes(l: LogLevel, f: LogFilter) -> bool {
    level_rank(l) <= filter_rank(f)
}

/// The more verbose of two filters.
pub open spec fn spec_max_filter(a: LogFilter, b: LogFilter) -> LogFilter {
    if filter_rank(a) >= filter_rank(b) {
        a
    } else {
        b
    }
}

fn level_verbosity(l: LogLevel) -> (r: u8)
    ensures
        r as int == level_rank(l),
{
    match l {
        LogLevel::Error => 1,
        LogLevel::Warn => 2,
        LogLevel::Info => 3,
        LogLevel::Debug => 4,
        LogLevel::Trace => 5,
    }
}

fn filter_verbosity(f: LogFilter) -> (r: u8)
    ensures
        r as int == filter_rank(f),
{
    match f {
        LogFilter::Off => 0,
        LogFilter::Error => 1,
        LogFilter::Warn => 2,
        LogFilter::Info => 3,
        LogFilter::Debug => 4,
        LogFilter::Trace => 5,
    }
}

/// Whether the filter admits the level.
pub fn passes(l: LogLevel, f: LogFilter) -> (r: bool)
    ensures
        r == level_passes(l, f),
{
    level_verbosity(l) <= filter_verbosity(f)
}

/// The more verbose of two filters, as the process-wide gate is configured
/// from the two destinations.
pub fn max_filter(a: LogFilter, b: LogFilter) -> (r: LogFilter)
    ensures
        r == spec_max_filter(a, b),
{
    if filter_verbosity(a) >= filter_verbosity(b) {
        a
    } else {
        b
    }
}

/// One log record: a severity and the record's payload.
#[derive(Clone, Copy, PartialEq, Eq, Structural, Debug)]
pub struct LogRecord {
    pub level: LogLevel,
    pub code: u64,
}

/// One of the sink's two destinations.
#[derive(Clone, Copy, PartialEq, Eq, Structural, Debug)]
pub enum SinkSide {
    Local,
    Remote,
}

/// The dual-destination sink: two filters and the journal of forwards it has
/// performed, in order.
pub struct DualLogSink {
    local_filter: LogFilter,
    remote_filter: LogFilter,
    journal: Vec<(SinkSide, LogRecord)>,
}

impl DualLogSink {
    /// Filter of the local destination.
    pub closed spec fn local_filter(&self) -> LogFilter {
        self.local_filter
    }

    /// Filter of the remote destination.
    pub closed spec fn remote_filter(&self) -> LogFilter {
        self.remote_filter
    }

    /// Every forward performed so far, in order.
    pub closed spec fn journal(&self) -> Seq<(SinkSide, LogRecord)> {
        self.journal@
    }

    /// The effective process-wide filter: the more verbose of the two.
    pub open spec fn effective(&self) -> LogFilter {
        spec_max_filter(self.local_filter(), self.remote_filter())
    }

    pub fn new(local: LogFilter, remote: LogFilter) -> (r: DualLogSink)
        ensures
            r.local_filter() == local,
            r.remote_filter() == remote,
            r.journal() == Seq::<(SinkSide, LogRecord)>::empty(),
    {
        DualLogSink { local_filter: local, remote_filter: remote, journal: Vec::new() }
    }

    /// Whether the sink is enabled for a level: the disjunction of the two
    /// destinations' filters.
    pub fn enabled(&self, l: LogLevel) -> (r: bool)
        ensures
            r == (level_passes(l, self.local_filter()) || level_passes(l, self.remote_filter())),
    {
        passes(l, self.local_filter) || passes(l, self.remote_filter)
    }

    /// The effective process-wide filter.
    pub fn effective_filter(&self) -> (r: LogFilter)
        ensures
            r == self.effective(),
    {
        max_filter(self.local_filter, self.remote_filter)
    }

    /// Forwards one record to the local destination, then the remote one,
    /// unconditionally.  The threshold check on the effective filter sits in front of
    /// this call; see `submit`.
    pub fn log(&mut self, rec: LogRecord)
        ensures
            final(self).local_filter() == old(self).local_filter(),
            final(self).remote_filter() == old(self).remote_filter(),
            final(self).journal() == old(self).journal().push((SinkSide::Local, rec)).push(
                (SinkSide::Remote, rec),
            ),
    {
        self.journal.push((SinkSide::Local, rec));
        self.journal.push((SinkSide::Remote, rec));
    }

    /// The gated path of the installed pipeline: a record whose level passes
    /// the effective filter is forwarded to both destinations, local first;
    /// any other record is suppressed and nothing is forwarded.
    pub fn submit(&mut self, rec: LogRecord) -> (r: bool)
        ensures
            final(self).local_filter() == old(self).local_filter(),
            final(self).remote_filter() == old(self).remote_filter(),
            r == level_passes(rec.level, old(self).effective()),
            r ==> final(self).journal() == old(self).journal().push((SinkSide::Local, rec)).push(
                (SinkSide::Remote, rec),
            ),
            !r ==> final(self).journal() == old(self).journal(),
    {
        let gate = self.effective_filter();
        if passes(rec.level, gate) {
            self.log(rec);
            true
        } else {
            false
        }
    }

    pub fn journal_len(&self) -> (r: usize)
        ensures
            r == self.journal().len(),
    {
        self.journal.len()
    }

    pub fn journal_at(&self, i: usize) -> (r: (SinkSide, LogRecord))
        requires
            i < self.journal().len(),
        ensures
            r == self.journal()[i as int],
    {
        self.journal[i]
    }
}

/// Being enabled under the effective filter (the maximum of the two) is the
/// same as being enabled by either destination alone: the threshold check on the
/// maximum suppresses exactly the records both destinations would refuse.
pub proof fn lemma_effective_gate(l: LogLevel, a: LogFilter, b: LogFilter)
    ensures
        level_passes(l, spec_max_filter(a, b)) <==> (level_passes(l, a) || level_passes(l, b)),
{
}

/// Installing a second process-wide logger fails.
#[derive(Clone, Copy, PartialEq, Eq, Structural, Debug)]
pub enum InstallError {
    AlreadyInstalled,
}

/// The process-wide logger slot: a construct-once singleton.  A successful
/// installation is the only way to place a sink here, and it can happen at
/// most once.
pub struct LoggerRegistry {
    sink: Option<DualLogSink>,
}

impl LoggerRegistry {
    /// The installed sink, if any.
    pub closed spec fn sink(&self) -> Option<DualLogSink> {
        self.sink
    }

    /// Whether a process-wide logger has been installed.
    pub open spec fn installed(&self) -> bool {
        self.sink() is Some
    }

    /// The process-wide maximum log level: the installed sink's effective
    /// filter, or `Off` while nothing is installed.
    pub open spec fn max_level(&self) -> LogFilter {
        match self.sink() {
            Some(s) => s.effective(),
            None => LogFilter::Off,
        }
    }

    /// Every forward the installed sink has performed.
    pub open spec fn journal(&self) -> Seq<(SinkSide, LogRecord)> {
        match self.sink() {
            Some(s) => s.journal(),
            None => Seq::empty(),
        }
    }

    /// A process starts with no logger installed.
    pub fn new() -> (r: LoggerRegistry)
        ensures
            !r.installed(),
            r.max_level() == LogFilter::Off,
    {
        LoggerRegistry { sink: None }
    }

    /// Installs the dual-destination sink as the process-wide logger and
    /// sets the process-wide maximum level to the more verbose of the two
    /// filters.  Succeeds exactly when no logger was installed before; a
    /// second installation fails and changes nothing, and downstream code
    /// treats that failure as fatal.
    pub fn install(&mut self, local: LogFilter, remote: LogFilter) -> (r: Result<
        (),
        InstallError,
    >)
        ensures
            r is Ok <==> !old(self).installed(),
            !old(self).installed() ==> {
                &&& final(self).installed()
                &&& final(self).max_level() == spec_max_filter(local, remote)
                &&& final(self).sink() matches Some(s) && s.local_filter() == local
                    && s.remote_filter() == remote && s.journal() == Seq::<(
                    SinkSide,
                    LogRecord,
                )>::empty()
            },
            old(self).installed() ==> final(self).sink() == old(self).sink() && r == Err::<
                (),
                InstallError,
            >(InstallError::AlreadyInstalled),
    {
        if self.sink.is_some() {
            Err(InstallError::AlreadyInstalled)
        } else {
            self.sink = Some(DualLogSink::new(local, remote));
            Ok(())
        }
    }

    /// Runs one record through the installed pipeline: suppressed when its
    /// level does not pass the process-wide maximum level, otherwise
    /// forwarded to the local destination first, then the remote one.  With
    /// no logger installed nothing happens.
    pub fn submit(&mut self, rec: LogRecord) -> (r: bool)
        ensures
            final(self).installed() == old(self).installed(),
            final(self).max_level() == old(self).max_level(),
            r == (old(self).installed() && level_passes(rec.level, old(self).max_level())),
            r ==> final(self).journal() == old(self).journal().push((SinkSide::Local, rec)).push(
                (SinkSide::Remote, rec),
            ),
            !r ==> final(self).journal() == old(self).journal(),
    {
        match &mut self.sink {
            Some(s) => s.submit(rec),
            None => false,
        }
    }

    pub fn is_installed(&self) -> (r: bool)
        ensures
            r == self.installed(),
    {
        self.sink.is_some()
    }

    /// The process-wide maximum log level.
    pub fn current_max_level(&self) -> (r: LogFilter)
        ensures
            r == self.max_level(),
    {
        match &self.sink {
            Some(s) => s.effective_filter(),
            None => LogFilter::Off,
        }
    }

    pub fn journal_len(&self) -> (r: usize)
        ensures
            r == self.journal().len(),
    {
        match &self.sink {
            Some(s) => s.journal_len(),
            None => 0,
        }
    }

    pub fn journal_at(&self, i: usize) -> (r: (SinkSide, LogRecord))
        requires
            i < self.journal().len(),
        ensures
            r == self.journal()[i as int],
    {
        match &self.sink {
            Some(s) => s.journal_at(i),
            None => (SinkSide::Local, LogRecord { level: LogLevel::Error, code: 0 }),
        }
    }
}

/// Installs the process-wide logger of a content process: the local sink
/// configured from the environment and the remote sink bound to the control
/// channel delivered during bootstrap.  Fails, fatally for the caller, when
/// a logger is already installed.
pub fn set_logger(
    registry: &mut LoggerRegistry,
    env_filter: LogFilter,
    chan_filter: LogFilter,
) -> (r: Result<(), InstallError>)
    ensures
        r is Ok <==> !old(registry).installed(),
        !old(registry).installed() ==> {
            &&& final(registry).installed()
            &&& final(registry).max_level() == spec_max_filter(env_filter, chan_filter)
            &&& final(registry).sink() matches Some(s) && s.local_filter() == env_filter
                && s.remote_filter() == chan_filter && s.journal() == Seq::<(
                SinkSide,
                LogRecord,
            )>::empty()
        },
        old(registry).installed() ==> final(registry).sink() == old(registry).sink(),
{
    registry.install(env_filter, chan_filter)
}

} // verus!
