//! The logging pipeline: sink configuration, one-time installation of the
//! process-wide dispatcher, and hot reload of each sink's severity filter.

use vstd::prelude::*;
use crate::core_types::CoreError;
use crate::level::Level;

verus! {

/// How many historical log files the rotating file sink keeps; on rotation
/// the oldest file beyond this count is deleted.
pub const MAX_LOG_FILES: usize = 5;

// --------------------------------------------------------------------------
// Outside types that appear in signatures or fields of this module.
// --------------------------------------------------------------------------

#[verifier::external_type_specification]
#[verifier::external_body]
pub struct ExWorkerGuard(tracing_appender::non_blocking::WorkerGuard);

#[verifier::external_type_specification]
#[verifier::external_body]
pub struct ExNonBlocking(tracing_appender::non_blocking::NonBlocking);

#[verifier::external_type_specification]
#[verifier::external_body]
pub struct ExRollingFileAppender(tracing_appender::rolling::RollingFileAppender);

#[verifier::external_type_specification]
#[verifier::external_body]
pub struct ExInitError(tracing_appender::rolling::InitError);

#[verifier::external_type_specification]
#[verifier::external_body]
pub struct ExReloadError(tracing_subscriber::reload::Error);

#[verifier::external_type_specification]
#[verifier::external_body]
pub struct ExTryInitError(tracing_subscriber::util::TryInitError);

#[verifier::external_type_specification]
#[verifier::external_body]
pub struct ExIoError(std::io::Error);

// --------------------------------------------------------------------------
// The two type-erased pieces every sink is built from.  Their contents come
// from `tracing_subscriber` and are opaque here: all knowledge about the
// installed pipeline lives in the contracts of the functions below.
// --------------------------------------------------------------------------

/// One composed sink: a boxed output layer behind a level filter, wrapped so
/// that the filter can be swapped after installation.
#[verifier::external_body]
pub struct SinkLayer {
    inner: tracing_subscriber::reload::Layer<
        tracing_subscriber::filter::Filtered<
            Box<dyn tracing_subscriber::Layer<tracing_subscriber::Registry> + Send + Sync>,
            tracing_subscriber::filter::LevelFilter,
            tracing_subscriber::Registry,
        >,
        tracing_subscriber::Registry,
    >,
}

/// A handle bound to one sink's severity filter; it can atomically replace
/// that filter while the process runs.  The sink it governs is part of the
/// live dispatcher only when the installation that created the handle
/// succeeded.
#[verifier::external_body]
pub struct FilterHandle {
    inner: tracing_subscriber::reload::Handle<
        tracing_subscriber::filter::Filtered<
            Box<dyn tracing_subscriber::Layer<tracing_subscriber::Registry> + Send + Sync>,
            tracing_subscriber::filter::LevelFilter,
            tracing_subscriber::Registry,
        >,
        tracing_subscriber::Registry,
    >,
}

// --------------------------------------------------------------------------
// Trusted wrappers around the outside calls.
// --------------------------------------------------------------------------

/// Relies on `tracing_subscriber::fmt::Layer::new`, `Layer::boxed`,
/// `Layer::with_filter` and `reload::Layer::new`: builds the formatted
/// console sink filtered at `level` and the handle bound to its filter.
#[verifier::external_body]
fn make_fmt_layer(level: &Level) -> (r: (SinkLayer, FilterHandle)) {
    let lvl = match level {
        Level::Trace => tracing::Level::TRACE,
        Level::Debug => tracing::Level::DEBUG,
        Level::Info => tracing::Level::INFO,
        Level::Warn => tracing::Level::WARN,
        Level::Error => tracing::Level::ERROR,
    };
    let filtered = tracing_subscriber::Layer::with_filter(
        tracing_subscriber::Layer::boxed(tracing_subscriber::fmt::Layer::new()),
        tracing_subscriber::filter::LevelFilter::from_level(lvl),
    );
    let (layer, handle) = tracing_subscriber::reload::Layer::new(filtered);
    (SinkLayer { inner: layer }, FilterHandle { inner: handle })
}

/// Relies on `tracing_journald::layer` and `Layer::syslog_identifier`:
/// connects to the system journal transport — failing with the I/O error
/// when the transport is unavailable — and yields the journal sink
/// filtered at `level`, the handle bound to its filter, and the identifier
/// the transport assigned.
#[verifier::external_body]
fn make_journald_layer(level: &Level) -> (r: Result<
    (SinkLayer, FilterHandle, String),
    std::io::Error,
>) {
    let journald_layer = tracing_journald::layer()?;
    let identifier = journald_layer.syslog_identifier().to_owned();
    let lvl = match level {
        Level::Trace => tracing::Level::TRACE,
        Level::Debug => tracing::Level::DEBUG,
        Level::Info => tracing::Level::INFO,
        Level::Warn => tracing::Level::WARN,
        Level::Error => tracing::Level::ERROR,
    };
    let filtered = tracing_subscriber::Layer::with_filter(
        tracing_subscriber::Layer::boxed(journald_layer),
        tracing_subscriber::filter::LevelFilter::from_level(lvl),
    );
    let (layer, handle) = tracing_subscriber::reload::Layer::new(filtered);
    Ok((SinkLayer { inner: layer }, FilterHandle { inner: handle }, identifier))
}

/// Relies on `tracing_appender::rolling::RollingFileAppender::builder`
/// with daily rotation: creates the log directory and the first log file
/// under `base_dir`, named `prefix`, the current date and `suffix`, and
/// keeping at most `max_files` files.
#[verifier::external_body]
fn make_rolling_appender(
    base_dir: &String,
    prefix: &String,
    suffix: &str,
    max_files: usize,
) -> (r: Result<
    tracing_appender::rolling::RollingFileAppender,
    tracing_appender::rolling::InitError,
>) {
    tracing_appender::rolling::RollingFileAppender::builder()
        .rotation(tracing_appender::rolling::Rotation::DAILY)
        .filename_prefix(prefix.as_str())
        .filename_suffix(suffix)
        .max_log_files(max_files)
        .build(base_dir.as_str())
}

/// Relies on `tracing_appender::non_blocking`: splits the appender into a
/// writer that never blocks on file I/O and the guard owning the
/// background worker that drains queued records into the file.
#[verifier::external_body]
fn make_non_blocking(appender: tracing_appender::rolling::RollingFileAppender) -> (r: (
    tracing_appender::non_blocking::NonBlocking,
    tracing_appender::non_blocking::WorkerGuard,
)) {
    tracing_appender::non_blocking(appender)
}

/// Relies on `tracing_subscriber::fmt::Layer::new`, `with_ansi(false)`,
/// `with_writer`, `Layer::boxed`, `Layer::with_filter` and
/// `reload::Layer::new`: builds the file sink — plain text, fed through
/// `writer` — filtered at `level`, and the handle bound to its filter.
#[verifier::external_body]
fn make_file_layer(
    writer: tracing_appender::non_blocking::NonBlocking,
    level: &Level,
) -> (r: (SinkLayer, FilterHandle)) {
    let lvl = match level {
        Level::Trace => tracing::Level::TRACE,
        Level::Debug => tracing::Level::DEBUG,
        Level::Info => tracing::Level::INFO,
        Level::Warn => tracing::Level::WARN,
        Level::Error => tracing::Level::ERROR,
    };
    let base = tracing_subscriber::fmt::Layer::new().with_ansi(false).with_writer(writer);
    let filtered = tracing_subscriber::Layer::with_filter(
        tracing_subscriber::Layer::boxed(base),
        tracing_subscriber::filter::LevelFilter::from_level(lvl),
    );
    let (layer, handle) = tracing_subscriber::reload::Layer::new(filtered);
    (SinkLayer { inner: layer }, FilterHandle { inner: handle })
}

/// Relies on `tracing_subscriber::reload::Handle::modify` and
/// `Filtered::filter_mut`: atomically replaces the threshold of the sink
/// behind `handle` with `level`.  Fails only when the backing dispatcher is
/// gone or its lock is poisoned.
#[verifier::external_body]
fn set_threshold(handle: &FilterHandle, level: &Level) -> (r: Result<
    (),
    tracing_subscriber::reload::Error,
>) {
    let lvl = match level {
        Level::Trace => tracing::Level::TRACE,
        Level::Debug => tracing::Level::DEBUG,
        Level::Info => tracing::Level::INFO,
        Level::Warn => tracing::Level::WARN,
        Level::Error => tracing::Level::ERROR,
    };
    handle.inner.modify(|layer| {
        *layer.filter_mut() = tracing_subscriber::filter::LevelFilter::from_level(lvl);
    })
}

/// Relies on `tracing_subscriber::reload::Handle::with_current`,
/// `Filtered::filter` and `LevelFilter::into_level`: reads the threshold now
/// in force at the sink behind `handle`.  `None` when the backing dispatcher
/// is gone or the filter is switched off entirely.
#[verifier::external_body]
fn read_threshold(handle: &FilterHandle) -> (r: Option<Level>) {
    let filter = handle.inner.with_current(|layer| *layer.filter()).ok()?;
    match filter.into_level() {
        None => None,
        Some(tracing::Level::TRACE) => Some(Level::Trace),
        Some(tracing::Level::DEBUG) => Some(Level::Debug),
        Some(tracing::Level::INFO) => Some(Level::Info),
        Some(tracing::Level::WARN) => Some(Level::Warn),
        Some(tracing::Level::ERROR) => Some(Level::Error),
    }
}

/// Relies on `tracing_subscriber::registry`, `SubscriberExt::with`,
/// `tracing_error::ErrorLayer::default` and `SubscriberInitExt::try_init`:
/// installs the given sinks, together with an error-trace layer, as the
/// single process-wide dispatcher.  Fails when a dispatcher has already been
/// installed in this process.
#[verifier::external_body]
fn install_dispatcher(layers: Vec<SinkLayer>) -> (r: Result<
    (),
    tracing_subscriber::util::TryInitError,
>) {
    let inner: Vec<_> = layers.into_iter().map(|l| l.inner).collect();
    let registry = tracing_subscriber::registry();
    let subscriber = tracing_subscriber::layer::SubscriberExt::with(
        tracing_subscriber::layer::SubscriberExt::with(registry, inner),
        tracing_error::ErrorLayer::default(),
    );
    tracing_subscriber::util::SubscriberInitExt::try_init(subscriber)
}

// --------------------------------------------------------------------------
// The mathematical model of the pipeline.
// --------------------------------------------------------------------------

/// Ghost image of one sink's configuration.
#[verifier::ext_equal]
pub struct SinkView {
    /// The configured threshold: the level the next installation or refresh
    /// applies to the sink.
    pub level: Level,
    /// Sink-specific string parameters; an earlier pair shadows a later one
    /// with the same key.
    pub params: Seq<(Seq<char>, Seq<char>)>,
    /// Whether the sink has been installed, i.e. has a live filter handle.
    pub installed: bool,
    /// The level last pushed through the sink's filter handle; that is
    /// the threshold in force at the dispatcher whenever the handle is
    /// bound to the live pipeline.  While the sink is not installed it
    /// tracks the configured level by convention.
    pub active: Level,
}

impl SinkView {
    /// A sink configured at `level` that has never been installed.
    pub open spec fn fresh(level: Level) -> SinkView {
        SinkView { level, params: Seq::empty(), installed: false, active: level }
    }

    /// Re-configuring a sink changes the configured threshold and nothing
    /// that is observable: parameters and the live filter stay.  While the
    /// sink is not installed its `active` field tracks the configured
    /// level, so that only the level of the last call matters.
    pub open spec fn reconfigured(self, level: Level) -> SinkView {
        SinkView {
            level,
            active: if self.installed {
                self.active
            } else {
                level
            },
            ..self
        }
    }

    /// Re-configuring a sink, or configuring it for the first time.
    pub open spec fn upsert(old: Option<SinkView>, level: Level) -> SinkView {
        match old {
            None => SinkView::fresh(level),
            Some(s) => s.reconfigured(level),
        }
    }

    /// The sink right after its filter handle was created: live, filtering
    /// at the configured level.
    pub open spec fn installed_now(self) -> SinkView {
        SinkView { installed: true, active: self.level, ..self }
    }

    /// The sink after a successful refresh: a live sink filters at its
    /// configured level, a sink without a handle is left untouched.
    pub open spec fn refreshed(self) -> SinkView {
        if self.installed {
            SinkView { active: self.level, ..self }
        } else {
            self
        }
    }
}

/// Ghost image of the rotating-file sink's configuration.
#[verifier::ext_equal]
pub struct FileSinkView {
    pub sink: SinkView,
    /// Directory the daily log files are written under.
    pub base_dir: Seq<char>,
    /// File name prefix of each daily log file.
    pub prefix: Seq<char>,
    /// Whether the sink owns the background-writer guard, i.e. has been
    /// installed.
    pub has_guard: bool,
}

pub open spec fn default_base_dir() -> Seq<char> {
    "logs/"@
}

pub open spec fn default_prefix() -> Seq<char> {
    "rust-starter-template"@
}

impl FileSinkView {
    pub open spec fn fresh(level: Level) -> FileSinkView {
        FileSinkView {
            sink: SinkView::fresh(level),
            base_dir: default_base_dir(),
            prefix: default_prefix(),
            has_guard: false,
        }
    }
}

/// Ghost image of the whole builder.
#[verifier::ext_equal]
pub struct BuilderView {
    pub fmt: Option<SinkView>,
    pub journald: Option<SinkView>,
    pub logfile: Option<FileSinkView>,
}

impl BuilderView {
    pub open spec fn empty() -> BuilderView {
        BuilderView { fmt: None, journald: None, logfile: None }
    }

    pub open spec fn with_fmt(self, level: Level) -> BuilderView {
        BuilderView { fmt: Some(SinkView::upsert(self.fmt, level)), ..self }
    }

    pub open spec fn with_journald(self, level: Level) -> BuilderView {
        BuilderView { journald: Some(SinkView::upsert(self.journald, level)), ..self }
    }

    pub open spec fn with_logfile(self, level: Level) -> BuilderView {
        match self.logfile {
            None => BuilderView { logfile: Some(FileSinkView::fresh(level)), ..self },
            Some(f) => BuilderView {
                logfile: Some(FileSinkView { sink: f.sink.reconfigured(level), ..f }),
                ..self
            },
        }
    }

    /// New base directory for the file sink; the sink must exist.
    pub open spec fn with_file_base_path(self, base_dir: Seq<char>) -> BuilderView
        recommends
            self.logfile is Some,
    {
        BuilderView {
            logfile: Some(FileSinkView { base_dir, ..self.logfile->Some_0 }),
            ..self
        }
    }

    /// New file name prefix for the file sink; the sink must exist.
    pub open spec fn with_file_prefix(self, prefix: Seq<char>) -> BuilderView
        recommends
            self.logfile is Some,
    {
        BuilderView {
            logfile: Some(FileSinkView { prefix, ..self.logfile->Some_0 }),
            ..self
        }
    }

    /// Lenient textual configuration of the console sink: an unrecognised
    /// name changes nothing.
    pub open spec fn with_fmt_str(self, s: Seq<char>) -> BuilderView {
        match crate::level::spec_parse_level(s) {
            Some(l) => self.with_fmt(l),
            None => self,
        }
    }

    /// Lenient textual configuration of the journal sink.
    pub open spec fn with_journald_str(self, s: Seq<char>) -> BuilderView {
        match crate::level::spec_parse_level(s) {
            Some(l) => self.with_journald(l),
            None => self,
        }
    }

    /// Lenient textual configuration of the file sink.
    pub open spec fn with_logfile_str(self, s: Seq<char>) -> BuilderView {
        match crate::level::spec_parse_level(s) {
            Some(l) => self.with_logfile(l),
            None => self,
        }
    }

    /// The builder after a successful refresh: every live sink filters at
    /// its configured level again.
    pub open spec fn refreshed(self) -> BuilderView {
        BuilderView {
            fmt: match self.fmt {
                None => None,
                Some(s) => Some(s.refreshed()),
            },
            journald: match self.journald {
                None => None,
                Some(s) => Some(s.refreshed()),
            },
            logfile: match self.logfile {
                None => None,
                Some(f) => Some(FileSinkView { sink: f.sink.refreshed(), ..f }),
            },
        }
    }

    /// The builder with only the console sink refreshed; how a refresh that
    /// failed at the journal sink leaves the state.
    pub open spec fn refreshed_fmt(self) -> BuilderView {
        BuilderView {
            fmt: match self.fmt {
                None => None,
                Some(s) => Some(s.refreshed()),
            },
            ..self
        }
    }

    /// The builder with the console and journal sinks refreshed; how a
    /// refresh that failed at the file sink leaves the state.
    pub open spec fn refreshed_fmt_journald(self) -> BuilderView {
        BuilderView {
            fmt: match self.fmt {
                None => None,
                Some(s) => Some(s.refreshed()),
            },
            journald: match self.journald {
                None => None,
                Some(s) => Some(s.refreshed()),
            },
            ..self
        }
    }
}

// --------------------------------------------------------------------------
// Sink parameters: a string-keyed association list where the first pair
// with a key shadows the rest.
// --------------------------------------------------------------------------

/// The value bound to `key`, taking the first pair whose key matches.
pub open spec fn param_lookup(params: Seq<(Seq<char>, Seq<char>)>, key: Seq<char>) -> Option<
    Seq<char>,
>
    decreases params.len(),
{
    if params.len() == 0 {
        None
    } else if params[0].0 == key {
        Some(params[0].1)
    } else {
        param_lookup(params.skip(1), key)
    }
}

/// The ghost image of a parameter list.
pub open spec fn params_view(params: Seq<(String, String)>) -> Seq<(Seq<char>, Seq<char>)> {
    params.map_values(|p: (String, String)| (p.0@, p.1@))
}

fn params_get<'a>(params: &'a Vec<(String, String)>, key: &String) -> (r: Option<&'a String>)
    ensures
        match r {
            Some(v) => param_lookup(params_view(params@), key@) == Some(v@),
            None => param_lookup(params_view(params@), key@) is None,
        },
{
    let n = params.len();
    let mut i: usize = 0;
    proof {
        assert(params_view(params@).skip(0) =~= params_view(params@));
    }
    while i < n
        invariant
            n == params@.len(),
            0 <= i <= n,
            param_lookup(params_view(params@), key@) == param_lookup(
                params_view(params@).skip(i as int),
                key@,
            ),
        decreases n - i,
    {
        if params[i].0.eq(key) {
            proof {
                assert(params_view(params@).skip(i as int)[0] == (
                    params@[i as int].0@,
                    params@[i as int].1@,
                ));
            }
            return Some(&params[i].1);
        }
        proof {
            assert(params_view(params@).skip(i as int)[0] == (
                params@[i as int].0@,
                params@[i as int].1@,
            ));
            assert(params_view(params@).skip(i as int).skip(1) =~= params_view(params@).skip(
                i as int + 1,
            ));
        }
        i += 1;
    }
    None
}

fn params_set(params: &mut Vec<(String, String)>, key: String, value: String)
    ensures
        param_lookup(params_view(final(params)@), key@) == Some(value@),
        forall|k: Seq<char>|
            k != key@ ==> param_lookup(params_view(final(params)@), k) == param_lookup(
                params_view(old(params)@),
                k,
            ),
{
    let ghost old_view = params_view(params@);
    params.insert(0, (key, value));
    proof {
        assert(params_view(params@).skip(1) =~= old_view);
    }
}

// --------------------------------------------------------------------------
// Sink configurations and the pipeline builder.
// --------------------------------------------------------------------------

/// Configuration of one sink: its current severity threshold, its
/// string parameters, and — once the pipeline is installed — the live
/// handle through which the threshold can be swapped.
pub struct LogLayerConfig {
    pub log_level: Level,
    pub params: Vec<(String, String)>,
    pub reload_handle: Option<FilterHandle>,
    /// Model of the level last pushed through this sink's filter handle.
    pub active: Ghost<Level>,
}

impl View for LogLayerConfig {
    type V = SinkView;

    open spec fn view(&self) -> SinkView {
        SinkView {
            level: self.log_level,
            params: params_view(self.params@),
            installed: self.reload_handle is Some,
            active: self.active@,
        }
    }
}

impl LogLayerConfig {
    fn new(level: Level) -> (r: Self)
        ensures
            r@ == SinkView::fresh(level),
    {
        let r = LogLayerConfig {
            log_level: level,
            params: Vec::new(),
            reload_handle: None,
            active: Ghost(level),
        };
        proof {
            assert(r@ =~= SinkView::fresh(level));
        }
        r
    }
}

/// Configuration of the rotating-file sink: the shared sink configuration
/// plus the directory, the file name prefix, and — once installed — the
/// guard owning the background writer.
///
/// Delivery to the file is best effort: records are queued in memory and
/// drained by a background worker owned by `_guard`.  If the guard is
/// dropped (or the process ends) before the queue drains, the queued
/// records are lost, so the guard must be kept alive for as long as any
/// part of the process may still log.
pub struct LogFileLogLayerConfig {
    pub layer_config: LogLayerConfig,
    pub base_dir: String,
    pub prefix: String,
    pub _guard: Option<tracing_appender::non_blocking::WorkerGuard>,
}

impl View for LogFileLogLayerConfig {
    type V = FileSinkView;

    open spec fn view(&self) -> FileSinkView {
        FileSinkView {
            sink: self.layer_config@,
            base_dir: self.base_dir@,
            prefix: self.prefix@,
            has_guard: self._guard is Some,
        }
    }
}

impl LogFileLogLayerConfig {
    fn new(level: Level) -> (r: Self)
        ensures
            r@ == FileSinkView::fresh(level),
    {
        let r = LogFileLogLayerConfig {
            layer_config: LogLayerConfig::new(level),
            base_dir: "logs/".to_owned(),
            prefix: "rust-starter-template".to_owned(),
            _guard: None,
        };
        proof {
            assert(r@ =~= FileSinkView::fresh(level));
        }
        r
    }
}

/// Accumulates sink configurations and installs them, exactly once, as the
/// process-wide dispatcher.  The life of a pipeline is: configure sinks
/// with the `with_*` methods, install with [`Self::build`], then change
/// thresholds in place with [`Self::refresh`].
pub struct LogSubscriberBuilder {
    fmt: Option<LogLayerConfig>,
    journald: Option<LogLayerConfig>,
    logfile: Option<LogFileLogLayerConfig>,
}

impl View for LogSubscriberBuilder {
    type V = BuilderView;

    closed spec fn view(&self) -> BuilderView {
        BuilderView {
            fmt: match self.fmt {
                None => None,
                Some(c) => Some(c@),
            },
            journald: match self.journald {
                None => None,
                Some(c) => Some(c@),
            },
            logfile: match self.logfile {
                None => None,
                Some(c) => Some(c@),
            },
        }
    }
}

impl LogSubscriberBuilder {
    /// A builder with no sinks configured.
    pub fn new() -> (r: Self)
        ensures
            r@ == BuilderView::empty(),
    {
        LogSubscriberBuilder { fmt: None, journald: None, logfile: None }
    }

    /// Configures the formatted console sink at `level`.  The first call
    /// creates the sink's configuration; later calls only replace its
    /// threshold.
    pub fn with_fmt_logging(self, level: Level) -> (r: Self)
        ensures
            r@ == self@.with_fmt(level),
    {
        let ghost pre = self@;
        let LogSubscriberBuilder { fmt, journald, logfile } = self;
        let fmt2 = match fmt {
            None => Some(LogLayerConfig::new(level)),
            Some(mut c) => {
                c.log_level = level;
                if c.reload_handle.is_none() {
                    c.active = Ghost(level);
                }
                Some(c)
            },
        };
        let r = LogSubscriberBuilder { fmt: fmt2, journald, logfile };
        proof {
            assert(r@ =~= pre.with_fmt(level));
        }
        r
    }

    /// Configures the system-journal sink at `level`, as
    /// [`Self::with_fmt_logging`] does for the console sink.
    pub fn with_journald_logging(self, level: Level) -> (r: Self)
        ensures
            r@ == self@.with_journald(level),
    {
        let ghost pre = self@;
        let LogSubscriberBuilder { fmt, journald, logfile } = self;
        let journald2 = match journald {
            None => Some(LogLayerConfig::new(level)),
            Some(mut c) => {
                c.log_level = level;
                if c.reload_handle.is_none() {
                    c.active = Ghost(level);
                }
                Some(c)
            },
        };
        let r = LogSubscriberBuilder { fmt, journald: journald2, logfile };
        proof {
            assert(r@ =~= pre.with_journald(level));
        }
        r
    }

    /// Configures the rotating-file sink at `level`, as
    /// [`Self::with_fmt_logging`] does for the console sink.  The first
    /// call also sets the default directory and file name prefix.
    pub fn with_logfile_logging(self, level: Level) -> (r: Self)
        ensures
            r@ == self@.with_logfile(level),
    {
        let ghost pre = self@;
        let LogSubscriberBuilder { fmt, journald, logfile } = self;
        let logfile2 = match logfile {
            None => Some(LogFileLogLayerConfig::new(level)),
            Some(mut c) => {
                c.layer_config.log_level = level;
                if c.layer_config.reload_handle.is_none() {
                    c.layer_config.active = Ghost(level);
                }
                Some(c)
            },
        };
        let r = LogSubscriberBuilder { fmt, journald, logfile: logfile2 };
        proof {
            assert(r@ =~= pre.with_logfile(level));
        }
        r
    }

    /// Configures the console sink from a textual severity name.  An
    /// unrecognised name leaves the builder unchanged: a malformed level in
    /// configuration must not crash the process, it simply leaves the
    /// previous threshold in effect.
    pub fn with_fmt_logging_str(self, level: &str) -> (r: Self)
        ensures
            r@ == self@.with_fmt_str(level@),
    {
        match crate::level::parse_level(level) {
            Some(l) => self.with_fmt_logging(l),
            None => self,
        }
    }

    /// Configures the journal sink from a textual severity name, leniently
    /// as [`Self::with_fmt_logging_str`].
    pub fn with_journald_logging_str(self, level: &str) -> (r: Self)
        ensures
            r@ == self@.with_journald_str(level@),
    {
        match crate::level::parse_level(level) {
            Some(l) => self.with_journald_logging(l),
            None => self,
        }
    }

    /// Configures the file sink from a textual severity name, leniently as
    /// [`Self::with_fmt_logging_str`].
    pub fn with_logfile_logging_str(self, level: &str) -> (r: Self)
        ensures
            r@ == self@.with_logfile_str(level@),
    {
        match crate::level::parse_level(level) {
            Some(l) => self.with_logfile_logging(l),
            None => self,
        }
    }

    /// Sets the directory the file sink writes under.  The file sink must
    /// already be configured.
    pub fn with_logfile_base_path(self, base_dir: String) -> (r: Self)
        requires
            self@.logfile is Some,
        ensures
            r@ == self@.with_file_base_path(base_dir@),
    {
        let ghost pre = self@;
        let LogSubscriberBuilder { fmt, journald, logfile } = self;
        let logfile2 = match logfile {
            Some(mut c) => {
                c.base_dir = base_dir;
                Some(c)
            },
            None => None,
        };
        let r = LogSubscriberBuilder { fmt, journald, logfile: logfile2 };
        proof {
            assert(r@ =~= pre.with_file_base_path(base_dir@));
        }
        r
    }

    /// Sets the file name prefix of the file sink's daily log files.  The
    /// file sink must already be configured.
    pub fn with_logfile_prefix(self, prefix: String) -> (r: Self)
        requires
            self@.logfile is Some,
        ensures
            r@ == self@.with_file_prefix(prefix@),
    {
        let ghost pre = self@;
        let LogSubscriberBuilder { fmt, journald, logfile } = self;
        let logfile2 = match logfile {
            Some(mut c) => {
                c.prefix = prefix;
                Some(c)
            },
            None => None,
        };
        let r = LogSubscriberBuilder { fmt, journald, logfile: logfile2 };
        proof {
            assert(r@ =~= pre.with_file_prefix(prefix@));
        }
        r
    }

    /// Installs the configured sinks, each behind its own reloadable
    /// severity filter, as the single process-wide dispatcher.
    ///
    /// The console sink is mandatory: without it the call fails with
    /// [`CoreError::MissingConsoleSink`] and changes nothing.  Installation
    /// is a one-shot operation for the whole process; a second attempt
    /// fails with [`CoreError::SubscriberInstallError`].  Whether the
    /// journal transport and the log directory can be opened is decided by
    /// the platform: those failures surface as [`CoreError::IoError`] and
    /// [`CoreError::LogFileInitialisationError`], with the later sinks left
    /// untouched.
    pub fn build(&mut self) -> (r: crate::core_types::CoreResult<()>)
        ensures
            same_shape(old(self)@, final(self)@),
            old(self)@.fmt is None <==> r matches Err(CoreError::MissingConsoleSink),
            old(self)@.fmt is None ==> final(self)@ == old(self)@,
            r is Ok ==> sinks_wired(old(self)@, final(self)@),
            r matches Err(e) ==> {
                ||| e is MissingConsoleSink
                ||| e is IoError
                ||| e is LogFileInitialisationError
                ||| e is SubscriberInstallError
            },
            r matches Err(e) && e is SubscriberInstallError ==> sinks_wired(
                old(self)@,
                final(self)@,
            ),
            r matches Err(e) && e is IoError ==> {
                &&& old(self)@.journald is Some
                &&& sink_installed(old(self)@.fmt->Some_0, final(self)@.fmt->Some_0)
                &&& final(self)@.journald == old(self)@.journald
                &&& final(self)@.logfile == old(self)@.logfile
            },
            r matches Err(e) && e is LogFileInitialisationError ==> {
                &&& old(self)@.logfile is Some
                &&& sink_installed(old(self)@.fmt->Some_0, final(self)@.fmt->Some_0)
                &&& (old(self)@.journald matches Some(j) ==> journald_sink_installed(
                    j,
                    final(self)@.journald->Some_0,
                ))
                &&& final(self)@.logfile == old(self)@.logfile
            },
    {
        let ghost pre = self@;
        let mut layers: Vec<SinkLayer> = Vec::new();
        match &mut self.fmt {
            Some(c) => {
                let (layer, handle) = make_fmt_layer(&c.log_level);
                c.reload_handle = Some(handle);
                c.active = Ghost(c.log_level);
                layers.push(layer);
            },
            None => {
                return Err(CoreError::MissingConsoleSink);
            },
        }
        proof {
            assert(self@.fmt->Some_0 =~= pre.fmt->Some_0.installed_now());
        }
        match &mut self.journald {
            Some(c) => {
                match make_journald_layer(&c.log_level) {
                    Ok((layer, handle, identifier)) => {
                        params_set(&mut c.params, "syslog_identifier".to_owned(), identifier);
                        c.reload_handle = Some(handle);
                        c.active = Ghost(c.log_level);
                        layers.push(layer);
                    },
                    Err(e) => {
                        return Err(CoreError::IoError(e));
                    },
                }
            },
            None => {},
        }
        match &mut self.logfile {
            Some(c) => {
                match make_rolling_appender(&c.base_dir, &c.prefix, "log", MAX_LOG_FILES) {
                    Ok(appender) => {
                        let (writer, guard) = make_non_blocking(appender);
                        let (layer, handle) = make_file_layer(writer, &c.layer_config.log_level);
                        c._guard = Some(guard);
                        c.layer_config.reload_handle = Some(handle);
                        c.layer_config.active = Ghost(c.layer_config.log_level);
                        layers.push(layer);
                    },
                    Err(e) => {
                        return Err(CoreError::LogFileInitialisationError(e));
                    },
                }
            },
            None => {},
        }
        match install_dispatcher(layers) {
            Ok(()) => Ok(()),
            Err(e) => Err(CoreError::SubscriberInstallError(e)),
        }
    }

    /// Atomically replaces the threshold of every installed sink with the
    /// sink's currently configured level.  A sink that is configured but
    /// not installed is left untouched.  The sinks are updated in the
    /// order console, journal, file, and the call stops at the first
    /// failing handle, surfacing [`CoreError::LoggerReloadError`]; the
    /// sinks before the failing one keep their fresh thresholds.
    pub fn refresh(&mut self) -> (r: crate::core_types::CoreResult<()>)
        ensures
            same_shape(old(self)@, final(self)@),
            r is Ok ==> final(self)@ == old(self)@.refreshed(),
            r matches Err(e) ==> e is LoggerReloadError,
            no_live_handles(old(self)@) ==> r is Ok,
            r is Err ==> {
                ||| final(self)@ == old(self)@
                ||| final(self)@ == old(self)@.refreshed_fmt()
                ||| final(self)@ == old(self)@.refreshed_fmt_journald()
            },
    {
        let ghost pre = self@;
        match &mut self.fmt {
            Some(c) => {
                match &c.reload_handle {
                    Some(h) => {
                        match set_threshold(h, &c.log_level) {
                            Ok(()) => {
                                c.active = Ghost(c.log_level);
                            },
                            Err(e) => {
                                return Err(CoreError::LoggerReloadError(e));
                            },
                        }
                    },
                    None => {},
                }
            },
            None => {},
        }
        proof {
            assert(self@ =~~= pre.refreshed_fmt());
        }
        match &mut self.journald {
            Some(c) => {
                match &c.reload_handle {
                    Some(h) => {
                        match set_threshold(h, &c.log_level) {
                            Ok(()) => {
                                c.active = Ghost(c.log_level);
                            },
                            Err(e) => {
                                return Err(CoreError::LoggerReloadError(e));
                            },
                        }
                    },
                    None => {},
                }
            },
            None => {},
        }
        proof {
            assert(self@ =~~= pre.refreshed_fmt_journald());
        }
        match &mut self.logfile {
            Some(c) => {
                match &c.layer_config.reload_handle {
                    Some(h) => {
                        match set_threshold(h, &c.layer_config.log_level) {
                            Ok(()) => {
                                c.layer_config.active = Ghost(c.layer_config.log_level);
                            },
                            Err(e) => {
                                return Err(CoreError::LoggerReloadError(e));
                            },
                        }
                    },
                    None => {},
                }
            },
            None => {},
        }
        proof {
            assert(self@ =~~= pre.refreshed());
        }
        Ok(())
    }

    /// The threshold now in force at the dispatcher for the console sink,
    /// read back through the sink's live handle; `None` while the sink is
    /// absent or not installed.
    pub fn fmt_installed_level(&self) -> (r: Option<Level>)
        ensures
            r is Some ==> (self@.fmt matches Some(s) && s.installed),
            self@.fmt is None ==> r is None,
            (self@.fmt matches Some(s) && !s.installed) ==> r is None,
    {
        match &self.fmt {
            Some(c) => match &c.reload_handle {
                Some(h) => read_threshold(h),
                None => None,
            },
            None => None,
        }
    }

    /// The threshold now in force for the journal sink, as
    /// [`Self::fmt_installed_level`] for the console sink.
    pub fn journald_installed_level(&self) -> (r: Option<Level>)
        ensures
            r is Some ==> (self@.journald matches Some(s) && s.installed),
            self@.journald is None ==> r is None,
            (self@.journald matches Some(s) && !s.installed) ==> r is None,
    {
        match &self.journald {
            Some(c) => match &c.reload_handle {
                Some(h) => read_threshold(h),
                None => None,
            },
            None => None,
        }
    }

    /// The threshold now in force for the file sink, as
    /// [`Self::fmt_installed_level`] for the console sink.
    pub fn logfile_installed_level(&self) -> (r: Option<Level>)
        ensures
            r is Some ==> (self@.logfile matches Some(f) && f.sink.installed),
            self@.logfile is None ==> r is None,
            (self@.logfile matches Some(f) && !f.sink.installed) ==> r is None,
    {
        match &self.logfile {
            Some(c) => match &c.layer_config.reload_handle {
                Some(h) => read_threshold(h),
                None => None,
            },
            None => None,
        }
    }

    /// The identifier the journal sink was assigned when it was installed,
    /// or the empty string while the journal sink is absent or not yet
    /// installed.
    pub fn get_syslog_identifier(&self) -> (r: String)
        ensures
            r@ == spec_syslog_identifier(self@),
    {
        match &self.journald {
            None => String::new(),
            Some(c) => {
                let key: String = "syslog_identifier".to_owned();
                match params_get(&c.params, &key) {
                    Some(v) => v.clone(),
                    None => String::new(),
                }
            },
        }
    }

    /// The configured threshold of the console sink, if it is configured.
    pub fn fmt_level(&self) -> (r: Option<Level>)
        ensures
            r == spec_sink_level(self@.fmt),
    {
        match &self.fmt {
            Some(c) => Some(c.log_level),
            None => None,
        }
    }

    /// The configured threshold of the journal sink, if it is configured.
    pub fn journald_level(&self) -> (r: Option<Level>)
        ensures
            r == spec_sink_level(self@.journald),
    {
        match &self.journald {
            Some(c) => Some(c.log_level),
            None => None,
        }
    }

    /// The configured threshold of the file sink, if it is configured.
    pub fn logfile_level(&self) -> (r: Option<Level>)
        ensures
            r == spec_file_level(self@.logfile),
    {
        match &self.logfile {
            Some(c) => Some(c.layer_config.log_level),
            None => None,
        }
    }

    /// The file name prefix of the file sink, if it is configured.
    pub fn logfile_prefix(&self) -> (r: Option<String>)
        ensures
            match r {
                Some(p) => self@.logfile matches Some(f) && p@ == f.prefix,
                None => self@.logfile is None,
            },
    {
        match &self.logfile {
            Some(c) => Some(c.prefix.clone()),
            None => None,
        }
    }

    /// The directory of the file sink, if it is configured.
    pub fn logfile_base_path(&self) -> (r: Option<String>)
        ensures
            match r {
                Some(p) => self@.logfile matches Some(f) && p@ == f.base_dir,
                None => self@.logfile is None,
            },
    {
        match &self.logfile {
            Some(c) => Some(c.base_dir.clone()),
            None => None,
        }
    }
}

// --------------------------------------------------------------------------
// What installation promises, sink by sink.
// --------------------------------------------------------------------------

/// What installation does to a plain sink: it goes live and filters at its
/// configured level; nothing else changes.
pub open spec fn sink_installed(pre: SinkView, post: SinkView) -> bool {
    post == pre.installed_now()
}

/// What installation does to the journal sink: besides going live it
/// records the identifier the journal transport assigned under
/// [`syslog_key`], leaving every other parameter unchanged.
pub open spec fn journald_sink_installed(pre: SinkView, post: SinkView) -> bool {
    &&& post.level == pre.level
    &&& post.installed
    &&& post.active == pre.level
    &&& param_lookup(post.params, syslog_key()) is Some
    &&& forall|k: Seq<char>|
        k != syslog_key() ==> param_lookup(post.params, k) == param_lookup(pre.params, k)
}

/// What installation does to the file sink: the sink goes live and the
/// configuration takes ownership of the background-writer guard; the
/// directory and prefix stay as configured.
pub open spec fn file_sink_installed(pre: FileSinkView, post: FileSinkView) -> bool {
    &&& sink_installed(pre.sink, post.sink)
    &&& post.base_dir == pre.base_dir
    &&& post.prefix == pre.prefix
    &&& post.has_guard
}

/// After the dispatcher itself was attempted — successfully or not —
/// every configured sink has been wired: built, filtered at its
/// configured level, and bound to a live handle.
pub open spec fn sinks_wired(pre: BuilderView, post: BuilderView) -> bool {
    &&& sink_installed(pre.fmt->Some_0, post.fmt->Some_0)
    &&& (pre.journald matches Some(j) ==> journald_sink_installed(j, post.journald->Some_0))
    &&& (pre.logfile matches Some(f) ==> file_sink_installed(f, post.logfile->Some_0))
}

/// No configured sink of the builder holds a live filter handle: nothing
/// has been installed yet (or installation never reached a sink).
pub open spec fn no_live_handles(b: BuilderView) -> bool {
    &&& (b.fmt matches Some(s) ==> !s.installed)
    &&& (b.journald matches Some(s) ==> !s.installed)
    &&& (b.logfile matches Some(f) ==> !f.sink.installed)
}

/// Neither installation nor refresh adds or removes a sink, or changes a
/// configured threshold, directory or prefix.
pub open spec fn same_shape(pre: BuilderView, post: BuilderView) -> bool {
    &&& (post.fmt is Some <==> pre.fmt is Some)
    &&& (post.journald is Some <==> pre.journald is Some)
    &&& (post.logfile is Some <==> pre.logfile is Some)
    &&& (pre.fmt matches Some(s) ==> post.fmt->Some_0.level == s.level)
    &&& (pre.journald matches Some(s) ==> post.journald->Some_0.level == s.level)
    &&& (pre.logfile matches Some(f) ==> {
        &&& post.logfile->Some_0.sink.level == f.sink.level
        &&& post.logfile->Some_0.base_dir == f.base_dir
        &&& post.logfile->Some_0.prefix == f.prefix
    })
}

/// The key under which the journal sink records its assigned identifier.
pub open spec fn syslog_key() -> Seq<char> {
    "syslog_identifier"@
}

/// What [`LogSubscriberBuilder::get_syslog_identifier`] returns: the
/// journal sink's `syslog_identifier` parameter, or the empty string.
pub open spec fn spec_syslog_identifier(b: BuilderView) -> Seq<char> {
    match b.journald {
        None => Seq::empty(),
        Some(j) => match param_lookup(j.params, syslog_key()) {
            None => Seq::empty(),
            Some(v) => v,
        },
    }
}

pub open spec fn spec_sink_level(s: Option<SinkView>) -> Option<Level> {
    match s {
        None => None,
        Some(s) => Some(s.level),
    }
}

pub open spec fn spec_file_level(s: Option<FileSinkView>) -> Option<Level> {
    match s {
        None => None,
        Some(f) => Some(f.sink.level),
    }
}

// --------------------------------------------------------------------------
// Startup wiring.
// --------------------------------------------------------------------------

/// The pipeline as configured at startup, before any configuration has
/// been loaded: journal and file sinks wide open at `Trace`, the console
/// at `Info`.
pub fn initialize_log_manager() -> (r: LogSubscriberBuilder)
    ensures
        r@ == BuilderView::empty().with_journald(Level::Trace).with_logfile(
            Level::Trace,
        ).with_fmt(Level::Info),
{
    LogSubscriberBuilder::new().with_journald_logging(Level::Trace).with_logfile_logging(
        Level::Trace,
    ).with_fmt_logging(Level::Info)
}

/// What applying loaded configuration does to the builder: each sink's
/// threshold is set from its textual severity name — leniently, an
/// unrecognised name changes nothing for that sink — and the file sink
/// takes over the configured prefix and directory.
pub open spec fn spec_apply_logging_config(
    b: BuilderView,
    cli: Seq<char>,
    journald: Seq<char>,
    rolling: Seq<char>,
    prefix: Seq<char>,
    path: Seq<char>,
) -> BuilderView {
    b.with_fmt_str(cli).with_journald_str(journald).with_logfile_str(rolling).with_file_prefix(
        prefix,
    ).with_file_base_path(path)
}

/// Applies freshly loaded configuration to the pipeline and refreshes
/// every installed sink's filter in place.  The file sink must be
/// configured, since its prefix and directory are always taken over.
pub fn refresh_logging_with_config(
    log_manager: LogSubscriberBuilder,
    config: &crate::app_config::AppConfig,
) -> (r: crate::core_types::CoreResult<LogSubscriberBuilder>)
    requires
        log_manager@.logfile is Some,
    ensures
        r matches Ok(m) ==> m@ == spec_apply_logging_config(
            log_manager@,
            config.logging.cli_log_level@,
            config.logging.journald_log_level@,
            config.logging.rolling_log_level@,
            config.logging.rolling_log_prefix@,
            config.logging.rolling_log_path@,
        ).refreshed(),
        r matches Err(e) ==> e is LoggerReloadError,
        no_live_handles(log_manager@) ==> r is Ok,
{
    let mut m = log_manager.with_fmt_logging_str(
        config.logging.cli_log_level.as_str(),
    ).with_journald_logging_str(config.logging.journald_log_level.as_str()).with_logfile_logging_str(
        config.logging.rolling_log_level.as_str(),
    ).with_logfile_prefix(config.logging.rolling_log_prefix.clone()).with_logfile_base_path(
        config.logging.rolling_log_path.clone(),
    );
    match m.refresh() {
        Ok(()) => Ok(m),
        Err(e) => Err(e),
    }
}

// --------------------------------------------------------------------------
// Laws of the model.
// --------------------------------------------------------------------------

/// Law: configuring the console sink twice keeps only the last threshold —
/// the later call wins, and nothing else about the builder changes.
pub proof fn lemma_with_fmt_last_wins(b: BuilderView, l1: Level, l2: Level)
    ensures
        b.with_fmt(l1).with_fmt(l2) == b.with_fmt(l2),
{
    assert(b.with_fmt(l1).with_fmt(l2) =~~= b.with_fmt(l2));
}

/// Law: configuring the journal sink twice keeps only the last threshold.
pub proof fn lemma_with_journald_last_wins(b: BuilderView, l1: Level, l2: Level)
    ensures
        b.with_journald(l1).with_journald(l2) == b.with_journald(l2),
{
    assert(b.with_journald(l1).with_journald(l2) =~~= b.with_journald(l2));
}

/// Law: configuring the file sink twice keeps only the last threshold,
/// and in particular keeps the directory and prefix of the first call.
pub proof fn lemma_with_logfile_last_wins(b: BuilderView, l1: Level, l2: Level)
    ensures
        b.with_logfile(l1).with_logfile(l2) == b.with_logfile(l2),
{
    assert(b.with_logfile(l1).with_logfile(l2) =~~= b.with_logfile(l2));
}

/// Law: a string that names no severity level leaves every sink of the
/// builder exactly as it was.
pub proof fn lemma_unrecognised_level_is_ignored(b: BuilderView, s: Seq<char>)
    requires
        crate::level::spec_parse_level(s) is None,
    ensures
        b.with_fmt_str(s) == b,
        b.with_journald_str(s) == b,
        b.with_logfile_str(s) == b,
{
}

/// Law: a string that names a severity level configures the sink exactly
/// as the typed call with that level would.
pub proof fn lemma_recognised_level_applies(b: BuilderView, s: Seq<char>, l: Level)
    requires
        crate::level::spec_parse_level(s) == Some(l),
    ensures
        b.with_fmt_str(s) == b.with_fmt(l),
        b.with_journald_str(s) == b.with_journald(l),
        b.with_logfile_str(s) == b.with_logfile(l),
{
}

/// Law: right after installation every sink filters at its configured
/// level — an event is rendered by the sink if and only if it is at least
/// that level.
pub proof fn lemma_install_applies_configured_level(pre: SinkView, post: SinkView, event: Level)
    requires
        sink_installed(pre, post),
    ensures
        crate::level::renders(post.active, event) <==> event.spec_at_least(pre.level),
{
}

/// Law: a successful refresh makes a live sink filter exactly at its
/// configured level — afterwards an event is rendered by the sink if and
/// only if it reaches that level, whatever threshold was in force before.
pub proof fn lemma_refresh_applies_configured_level(s: SinkView, event: Level)
    requires
        s.installed,
    ensures
        crate::level::renders(s.refreshed().active, event) <==> event.spec_at_least(s.level),
{
}

/// Law: the sinks are independent — changing one sink's configured
/// threshold and then refreshing leaves every other sink exactly as a
/// refresh without that change would.
pub proof fn lemma_sink_independence(b: BuilderView, l: Level)
    ensures
        b.with_fmt(l).refreshed().journald == b.refreshed().journald,
        b.with_fmt(l).refreshed().logfile == b.refreshed().logfile,
        b.with_journald(l).refreshed().fmt == b.refreshed().fmt,
        b.with_journald(l).refreshed().logfile == b.refreshed().logfile,
        b.with_logfile(l).refreshed().fmt == b.refreshed().fmt,
        b.with_logfile(l).refreshed().journald == b.refreshed().journald,
{
}

} // verus!
