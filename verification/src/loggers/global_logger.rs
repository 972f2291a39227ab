use vstd::prelude::*;
use vstd::string::StringExecFns;
use crate::Logger;
use crate::loggers::log_levels::LogLevel;
use crate::output::format::{bool_str, spec_bool_str};
use crate::output::logdest::{
    LogDestination, spec_default_destination, spec_log_to_file, spec_log_to_stdout,
    spec_remove_file, spec_remove_stdout, spec_silent,
};

verus! {

/// The process-wide default policy: the threshold, paranoia flag and
/// destinations that govern every event whose module has no override
/// of its own.
#[derive(Debug)]
pub struct DefaultLogger {
    /// The default severity threshold.
    pub default_logger: LogLevel,
    /// Whether emitted lines carry the file/line diagnostic suffix.
    pub paranoia: bool,
    /// Where emitted lines go.
    pub log_destination: LogDestination,
}

/// The configuration a fresh logger starts with: threshold `Off` (so
/// nothing is emitted until a level is chosen), no paranoia, standard
/// output only.
pub open spec fn spec_default_config() -> DefaultLogger {
    DefaultLogger {
        default_logger: LogLevel::Off,
        paranoia: false,
        log_destination: spec_default_destination(),
    }
}

/// The snapshot text that `display` renders for a configuration.
pub open spec fn spec_config_display(c: DefaultLogger) -> Seq<char> {
    "DefaultLogger { level: "@ + c.default_logger.spec_name() + ", paranoia: "@ + spec_bool_str(
        c.paranoia,
    ) + ", stdout: "@ + spec_bool_str(c.log_destination.stdout) + ", file: "@ + (match c
        .log_destination
        .file {
        Some(f) => f@,
        None => "none"@,
    }) + " }"@
}

impl Clone for DefaultLogger {
    fn clone(&self) -> (r: Self)
        ensures
            r == *self,
    {
        DefaultLogger {
            default_logger: self.default_logger,
            paranoia: self.paranoia,
            log_destination: self.log_destination.clone(),
        }
    }
}

impl Default for DefaultLogger {
    /// A fresh default configuration: `Off`, no paranoia, stdout only.
    fn default() -> (r: Self)
        ensures
            r == spec_default_config(),
    {
        DefaultLogger {
            default_logger: LogLevel::Off,
            paranoia: false,
            log_destination: LogDestination { stdout: true, file: None },
        }
    }
}

impl DefaultLogger {
    /// Sets the default severity threshold.
    pub fn set_log_level(&mut self, log_level: LogLevel)
        ensures
            *final(self) == (DefaultLogger { default_logger: log_level, ..*old(self) }),
    {
        self.default_logger = log_level;
    }

    /// Sets the default paranoia flag.
    pub fn set_paranoia(&mut self, paranoia: bool)
        ensures
            *final(self) == (DefaultLogger { paranoia, ..*old(self) }),
    {
        self.paranoia = paranoia;
    }

    /// The default severity threshold.
    pub fn log_level(&self) -> (r: LogLevel)
        ensures
            r == self.default_logger,
    {
        self.default_logger
    }

    /// The default paranoia flag.
    pub fn paranoia(&self) -> (r: bool)
        ensures
            r == self.paranoia,
    {
        self.paranoia
    }

    /// Routes default-scope lines to `file` as well.
    pub fn log_to_file(&mut self, file: String)
        ensures
            *final(self) == (DefaultLogger {
                log_destination: spec_log_to_file(old(self).log_destination, file),
                ..*old(self)
            }),
    {
        self.log_destination.log_to_file(file);
    }

    /// Routes default-scope lines to standard output as well.
    pub fn log_to_stdout(&mut self)
        ensures
            *final(self) == (DefaultLogger {
                log_destination: spec_log_to_stdout(old(self).log_destination),
                ..*old(self)
            }),
    {
        self.log_destination.log_to_stdout();
    }

    /// Drops the default-scope file destination.
    pub fn remove_file(&mut self)
        ensures
            *final(self) == (DefaultLogger {
                log_destination: spec_remove_file(old(self).log_destination),
                ..*old(self)
            }),
    {
        self.log_destination.remove_file();
    }

    /// Disables standard output for the default scope.
    pub fn remove_stdout(&mut self)
        ensures
            *final(self) == (DefaultLogger {
                log_destination: spec_remove_stdout(old(self).log_destination),
                ..*old(self)
            }),
    {
        self.log_destination.remove_stdout();
    }

    /// Silences the default scope: no destination at all.
    pub fn silent(&mut self)
        ensures
            *final(self) == (DefaultLogger {
                log_destination: spec_silent(old(self).log_destination),
                ..*old(self)
            }),
    {
        self.log_destination.silent();
    }

    /// A copy of the default destinations.
    pub fn log_destination(&self) -> (r: LogDestination)
        ensures
            r == self.log_destination,
    {
        self.log_destination.clone()
    }

    /// A one-line snapshot of the default configuration.
    pub fn display(&self) -> (r: String)
        ensures
            r@ == spec_config_display(*self),
    {
        let mut s = String::new();
        s.append("DefaultLogger { level: ");
        s.append(self.default_logger.as_str());
        s.append(", paranoia: ");
        s.append(bool_str(self.paranoia));
        s.append(", stdout: ");
        s.append(bool_str(self.log_destination.stdout));
        s.append(", file: ");
        match &self.log_destination.file {
            Some(f) => s.append(f.as_str()),
            None => s.append("none"),
        }
        s.append(" }");
        proof {
            assert(s@ =~= spec_config_display(*self));
        }
        s
    }
}

impl Logger {
    /// Sets the global severity threshold; overrides are untouched.
    pub fn set_log_level(&mut self, log_level: LogLevel)
        ensures
            final(self).default_logger == (DefaultLogger {
                default_logger: log_level,
                ..old(self).default_logger
            }),
            final(self).modules_logger == old(self).modules_logger,
    {
        self.default_logger.set_log_level(log_level);
    }

    /// Sets the global paranoia flag; overrides are untouched.
    pub fn set_paranoia(&mut self, paranoia: bool)
        ensures
            final(self).default_logger == (DefaultLogger {
                paranoia,
                ..old(self).default_logger
            }),
            final(self).modules_logger == old(self).modules_logger,
    {
        self.default_logger.set_paranoia(paranoia);
    }

    /// The global severity threshold.
    pub fn log_level(&self) -> (r: LogLevel)
        ensures
            r == self.default_logger.default_logger,
    {
        self.default_logger.log_level()
    }

    /// The global paranoia flag.
    pub fn paranoia(&self) -> (r: bool)
        ensures
            r == self.default_logger.paranoia,
    {
        self.default_logger.paranoia()
    }

    /// Routes default-scope lines to `file` as well; overrides are
    /// untouched.
    pub fn log_to_file(&mut self, file: String)
        ensures
            final(self).default_logger == (DefaultLogger {
                log_destination: spec_log_to_file(old(self).default_logger.log_destination, file),
                ..old(self).default_logger
            }),
            final(self).modules_logger == old(self).modules_logger,
    {
        self.default_logger.log_to_file(file);
    }

    /// Routes default-scope lines to standard output as well;
    /// overrides are untouched.
    pub fn log_to_stdout(&mut self)
        ensures
            final(self).default_logger == (DefaultLogger {
                log_destination: spec_log_to_stdout(old(self).default_logger.log_destination),
                ..old(self).default_logger
            }),
            final(self).modules_logger == old(self).modules_logger,
    {
        self.default_logger.log_to_stdout();
    }

    /// Drops the default-scope file destination; overrides are
    /// untouched.
    pub fn remove_file(&mut self)
        ensures
            final(self).default_logger == (DefaultLogger {
                log_destination: spec_remove_file(old(self).default_logger.log_destination),
                ..old(self).default_logger
            }),
            final(self).modules_logger == old(self).modules_logger,
    {
        self.default_logger.remove_file();
    }

    /// Disables standard output for the default scope; overrides are
    /// untouched.
    pub fn remove_stdout(&mut self)
        ensures
            final(self).default_logger == (DefaultLogger {
                log_destination: spec_remove_stdout(old(self).default_logger.log_destination),
                ..old(self).default_logger
            }),
            final(self).modules_logger == old(self).modules_logger,
    {
        self.default_logger.remove_stdout();
    }

    /// Silences the default scope; overrides are untouched.
    pub fn silent(&mut self)
        ensures
            final(self).default_logger == (DefaultLogger {
                log_destination: spec_silent(old(self).default_logger.log_destination),
                ..old(self).default_logger
            }),
            final(self).modules_logger == old(self).modules_logger,
    {
        self.default_logger.silent();
    }

    /// A copy of the default-scope destinations.
    pub fn log_destination(&self) -> (r: LogDestination)
        ensures
            r == self.default_logger.log_destination,
    {
        self.default_logger.log_destination()
    }

    /// A one-line snapshot of the global configuration.
    pub fn display(&self) -> (r: String)
        ensures
            r@ == spec_config_display(self.default_logger),
    {
        self.default_logger.display()
    }
}

} // verus!
