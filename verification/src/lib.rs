//! A small process-wide logging core: events carry a severity and a
//! module tag; a logger value holds a global default policy and
//! per-module overrides, decides which events pass, and renders the
//! line each accepted event becomes. Writing lines to the sinks and
//! sharing the logger between threads are left to the embedding
//! program.

pub mod log_levels;
pub mod loggers;
pub mod mod_logger;
pub mod output;
pub mod terminal;

use vstd::prelude::*;
use vstd::string::StringExecFns;
use loggers::global_logger::{DefaultLogger, spec_default_config};
use loggers::log_levels::LogLevel;
use loggers::mod_logger::{ModLogger, spec_find};
use output::format::{format_line, spec_line};
use output::logdest::{LogDestination, spec_default_destination};

verus! {

/// The record of one log occurrence: when, how severe, where in the
/// source, and what; plus the two fields the router resolves while
/// evaluating the event (`logging_from_module`, `log_destinations`).
#[derive(Debug)]
pub struct LogMetadata {
    /// The timestamp the event was created with.
    pub timestamp: String,
    /// The severity of the event; never `Off`.
    pub level: LogLevel,
    /// The source file of the call site.
    pub file: String,
    /// The module the event is tagged with: the lookup key for an
    /// override.
    pub module: String,
    /// Resolved during evaluation: whether a module override governed
    /// this event.
    pub logging_from_module: bool,
    /// The source line of the call site.
    pub line: u32,
    /// The message text.
    pub message: String,
    /// Resolved during evaluation: where this event goes.
    pub log_destinations: LogDestination,
}

impl LogMetadata {
    /// Builds the record of one occurrence. The two resolved fields
    /// start out unresolved: not module-scoped, default destinations.
    pub fn new(
        timestamp: String,
        level: LogLevel,
        file: String,
        module: String,
        line: u32,
        message: String,
    ) -> (r: Self)
        requires
            level != LogLevel::Off,
        ensures
            r == (LogMetadata {
                timestamp,
                level,
                file,
                module,
                logging_from_module: false,
                line,
                message,
                log_destinations: spec_default_destination(),
            }),
    {
        LogMetadata {
            timestamp,
            level,
            file,
            module,
            logging_from_module: false,
            line,
            message,
            log_destinations: LogDestination { stdout: true, file: None },
        }
    }

    /// The severity of the event.
    pub fn level(&self) -> (r: LogLevel)
        ensures
            r == self.level,
    {
        self.level
    }

    /// The module the event is tagged with.
    pub fn module(&self) -> (r: &str)
        ensures
            r@ == self.module@,
    {
        self.module.as_str()
    }

    /// The message text.
    pub fn message(&self) -> (r: &str)
        ensures
            r@ == self.message@,
    {
        self.message.as_str()
    }

    /// The source file of the call site.
    pub fn file(&self) -> (r: &str)
        ensures
            r@ == self.file@,
    {
        self.file.as_str()
    }

    /// The source line of the call site.
    pub fn line(&self) -> (r: u32)
        ensures
            r == self.line,
    {
        self.line
    }

    /// The timestamp the event was created with.
    pub fn timestamp(&self) -> (r: &str)
        ensures
            r@ == self.timestamp@,
    {
        self.timestamp.as_str()
    }

    /// The destinations resolved for this event.
    pub fn log_destinations(&self) -> (r: &LogDestination)
        ensures
            *r == self.log_destinations,
    {
        &self.log_destinations
    }

    /// Whether a module override governed this event.
    pub fn logging_from_module(&self) -> (r: bool)
        ensures
            r == self.logging_from_module,
    {
        self.logging_from_module
    }
}

/// Relies on chrono's `Local::now` and `DateTime::format` with the
/// `%Y-%m-%d %H:%M:%S` pattern: the current local time as text, every
/// field zero-padded (`%Y` to at least four digits), so at least 19
/// characters in all.
#[verifier::external_body]
fn now_timestamp() -> (r: String)
    ensures
        r@.len() >= 19,
{
    chrono::Local::now().format("%Y-%m-%d %H:%M:%S").to_string()
}

/// The router: one value holding the whole logging configuration —
/// the process-wide default policy and the per-module overrides — and
/// deciding, per event, whether and where it is emitted.
#[derive(Debug)]
pub struct Logger {
    /// The process-wide default policy.
    pub default_logger: DefaultLogger,
    /// The registered per-module overrides.
    pub modules_logger: Vec<ModLogger>,
}

impl Logger {
    /// The override registered for `module`, if any.
    pub open spec fn spec_get_mod(self, module: Seq<char>) -> Option<ModLogger> {
        spec_find(self.modules_logger@, module)
    }

    /// Whether events tagged `module` are governed by an override.
    pub open spec fn spec_module_scoped(self, module: Seq<char>) -> bool {
        self.spec_get_mod(module) is Some
    }

    /// The threshold in force for events tagged `module`: the
    /// override's when one is registered, the global default's
    /// otherwise.
    pub open spec fn spec_effective_level(self, module: Seq<char>) -> LogLevel {
        match self.spec_get_mod(module) {
            Some(m) => m.log_level,
            None => self.default_logger.default_logger,
        }
    }

    /// The paranoia flag in force for events tagged `module`.
    pub open spec fn spec_effective_paranoia(self, module: Seq<char>) -> bool {
        match self.spec_get_mod(module) {
            Some(m) => m.paranoia,
            None => self.default_logger.paranoia,
        }
    }

    /// The destinations in force for events tagged `module`.
    pub open spec fn spec_effective_destinations(self, module: Seq<char>) -> LogDestination {
        match self.spec_get_mod(module) {
            Some(m) => m.log_destinations,
            None => self.default_logger.log_destination,
        }
    }

    /// Whether an event of severity `level` tagged `module` is
    /// emitted: it must be at least as severe as the threshold in
    /// force for its module.
    pub open spec fn spec_enabled(self, level: LogLevel, module: Seq<char>) -> bool {
        level.spec_passes(self.spec_effective_level(module))
    }

    /// A fresh logger: default configuration, no overrides.
    pub fn new() -> (r: Self)
        ensures
            r.default_logger == spec_default_config(),
            r.modules_logger@ == Seq::<ModLogger>::empty(),
    {
        Logger { default_logger: DefaultLogger::default(), modules_logger: Vec::new() }
    }

    /// Resolves policy for one event and decides whether it is
    /// emitted: a module override, when present, governs alone, and
    /// the global default otherwise. The resolved destinations and
    /// scope are recorded on the event.
    pub fn enabled(&self, metadata: &mut LogMetadata) -> (r: bool)
        ensures
            r == self.spec_enabled(old(metadata).level, old(metadata).module@),
            *final(metadata) == (LogMetadata {
                logging_from_module: self.spec_module_scoped(old(metadata).module@),
                log_destinations: self.spec_effective_destinations(old(metadata).module@),
                ..*old(metadata)
            }),
    {
        match self.get_mod_logger(metadata.module.as_str()) {
            Some(module_logger) => {
                metadata.logging_from_module = true;
                metadata.log_destinations = module_logger.log_destinations;
                metadata.level.passes(module_logger.log_level)
            },
            None => {
                metadata.logging_from_module = false;
                metadata.log_destinations = self.default_logger.log_destination();
                metadata.level.passes(self.default_logger.log_level())
            },
        }
    }

    /// The paranoia flag in force for events tagged `module`.
    pub fn effective_paranoia(&self, module: &str) -> (r: bool)
        ensures
            r == self.spec_effective_paranoia(module@),
    {
        match self.get_mod_logger(module) {
            Some(module_logger) => module_logger.paranoia,
            None => self.default_logger.paranoia(),
        }
    }

    /// Evaluates one event end to end: when it is enabled, the
    /// emitted line is returned and the event carries its resolved
    /// destinations; when it is not, nothing is formatted and `None`
    /// comes back. Handing the line to the sinks is the caller's
    /// side.
    pub fn log(&self, metadata: &mut LogMetadata) -> (r: Option<String>)
        ensures
            *final(metadata) == (LogMetadata {
                logging_from_module: self.spec_module_scoped(old(metadata).module@),
                log_destinations: self.spec_effective_destinations(old(metadata).module@),
                ..*old(metadata)
            }),
            r is Some <==> self.spec_enabled(old(metadata).level, old(metadata).module@),
            (r matches Some(line) ==> line@ == spec_line(
                old(metadata).timestamp@,
                old(metadata).level,
                old(metadata).message@,
                self.spec_effective_paranoia(old(metadata).module@),
                old(metadata).file@,
                old(metadata).line as int,
            )),
    {
        if self.enabled(metadata) {
            let paranoia = self.effective_paranoia(metadata.module.as_str());
            Some(
                format_line(
                    metadata.timestamp.as_str(),
                    metadata.level,
                    metadata.message.as_str(),
                    paranoia,
                    metadata.file.as_str(),
                    metadata.line,
                ),
            )
        } else {
            None
        }
    }

    /// The single emission entry point: stamps the current time on a
    /// fresh event and routes it. When the event passes, the line to
    /// write and the resolved destinations come back; when it is
    /// dropped, `None` does.
    pub fn submit(&self, level: LogLevel, module: &str, file: &str, line: u32, message: &str) -> (r:
        Option<(String, LogDestination)>)
        requires
            level != LogLevel::Off,
        ensures
            r is Some <==> self.spec_enabled(level, module@),
            (r matches Some(out) ==> {
                &&& out.1 == self.spec_effective_destinations(module@)
                &&& exists|ts: Seq<char>|
                    ts.len() >= 19 && out.0@ == spec_line(
                        ts,
                        level,
                        message@,
                        self.spec_effective_paranoia(module@),
                        file@,
                        line as int,
                    )
            }),
    {
        let timestamp = now_timestamp();
        let mut metadata = LogMetadata::new(
            timestamp,
            level,
            String::from_str(file),
            String::from_str(module),
            line,
            String::from_str(message),
        );
        match self.log(&mut metadata) {
            Some(text) => {
                proof {
                    assert(text@ == spec_line(
                        metadata.timestamp@,
                        level,
                        message@,
                        self.spec_effective_paranoia(module@),
                        file@,
                        line as int,
                    ));
                }
                Some((text, metadata.log_destinations))
            },
            None => None,
        }
    }
}

/// With no override registered for a module, routing an event of
/// that module falls back to the global configuration exactly: the
/// decision, the paranoia flag and the destinations are those of the
/// default scope.
pub proof fn lemma_enabled_fallback(logger: Logger, level: LogLevel, module: Seq<char>)
    requires
        logger.spec_get_mod(module) is None,
    ensures
        logger.spec_enabled(level, module) == level.spec_passes(
            logger.default_logger.default_logger,
        ),
        logger.spec_effective_paranoia(module) == logger.default_logger.paranoia,
        logger.spec_effective_destinations(module) == logger.default_logger.log_destination,
{
}

/// Once an override is registered for a module, the global
/// configuration plays no part in that module's routing: two loggers
/// with the same overrides, however their global configurations
/// differ, treat the module's events identically, and the decision
/// is the event's severity against the override's threshold alone.
pub proof fn lemma_override_precedence(a: Logger, b: Logger, level: LogLevel, module: Seq<char>)
    requires
        a.modules_logger@ == b.modules_logger@,
        a.spec_module_scoped(module),
    ensures
        a.spec_enabled(level, module) == b.spec_enabled(level, module),
        a.spec_enabled(level, module) == level.spec_passes(a.spec_get_mod(module)->0.log_level),
        a.spec_effective_paranoia(module) == b.spec_effective_paranoia(module),
        a.spec_effective_destinations(module) == b.spec_effective_destinations(module),
{
}

impl Default for Logger {
    /// A fresh logger: default configuration, no overrides.
    fn default() -> (r: Self)
        ensures
            r.default_logger == spec_default_config(),
            r.modules_logger@ == Seq::<ModLogger>::empty(),
    {
        Logger::new()
    }
}

} // verus!
