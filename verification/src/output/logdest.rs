use vstd::prelude::*;

verus! {

/// Where accepted events are written: standard output, an append-only
/// file, both, or nowhere at all.
#[derive(Debug, PartialEq)]
pub struct LogDestination {
    /// Whether lines go to standard output.
    pub stdout: bool,
    /// The path of a file that lines are appended to, if any.
    pub file: Option<String>,
}

/// The destinations a fresh configuration starts with: standard output
/// only, no file.
pub open spec fn spec_default_destination() -> LogDestination {
    LogDestination { stdout: true, file: None }
}

/// What enabling standard output leaves behind.
pub open spec fn spec_log_to_stdout(d: LogDestination) -> LogDestination {
    LogDestination { stdout: true, file: d.file }
}

/// What routing lines to `file` leaves behind.
pub open spec fn spec_log_to_file(d: LogDestination, file: String) -> LogDestination {
    LogDestination { stdout: d.stdout, file: Some(file) }
}

/// What disabling standard output leaves behind.
pub open spec fn spec_remove_stdout(d: LogDestination) -> LogDestination {
    LogDestination { stdout: false, file: d.file }
}

/// What dropping the file destination leaves behind.
pub open spec fn spec_remove_file(d: LogDestination) -> LogDestination {
    LogDestination { stdout: d.stdout, file: None }
}

/// What silencing leaves behind: no destination at all.
pub open spec fn spec_silent(d: LogDestination) -> LogDestination {
    LogDestination { stdout: false, file: None }
}

impl Clone for LogDestination {
    fn clone(&self) -> (r: Self)
        ensures
            r == *self,
    {
        LogDestination {
            stdout: self.stdout,
            file: match &self.file {
                Some(f) => Some(f.clone()),
                None => None,
            },
        }
    }
}

impl Default for LogDestination {
    /// A fresh destination set logs to standard output and to no file.
    fn default() -> (r: Self)
        ensures
            r == spec_default_destination(),
    {
        LogDestination { stdout: true, file: None }
    }
}

impl LogDestination {
    /// Builds a destination set from its two parts.
    pub fn new(stdout: bool, file: Option<String>) -> (r: Self)
        ensures
            r == (LogDestination { stdout, file }),
    {
        LogDestination { stdout, file }
    }

    /// Enables standard output; the file destination is untouched.
    pub fn log_to_stdout(&mut self)
        ensures
            *final(self) == spec_log_to_stdout(*old(self)),
    {
        self.stdout = true;
    }

    /// Routes lines to `file`, replacing any previously set path; the
    /// stdout flag is untouched. The path is not checked here: a bad
    /// one surfaces only when a write is attempted.
    pub fn log_to_file(&mut self, file: String)
        ensures
            *final(self) == spec_log_to_file(*old(self), file),
    {
        self.file = Some(file);
    }

    /// Disables standard output; the file destination is untouched.
    pub fn remove_stdout(&mut self)
        ensures
            *final(self) == spec_remove_stdout(*old(self)),
    {
        self.stdout = false;
    }

    /// Drops the file destination; the stdout flag is untouched.
    pub fn remove_file(&mut self)
        ensures
            *final(self) == spec_remove_file(*old(self)),
    {
        self.file = None;
    }

    /// Disables every destination: no stdout, no file.
    pub fn silent(&mut self)
        ensures
            *final(self) == spec_silent(*old(self)),
    {
        self.stdout = false;
        self.file = None;
    }

    /// Whether lines go to standard output.
    pub fn stdout_enabled(&self) -> (r: bool)
        ensures
            r == self.stdout,
    {
        self.stdout
    }

    /// The file lines are appended to, if one is set.
    pub fn file_path(&self) -> (r: Option<&String>)
        ensures
            match r {
                Some(f) => self.file == Some(*f),
                None => self.file is None,
            },
    {
        match &self.file {
            Some(f) => Some(f),
            None => None,
        }
    }
}

/// The destination mutators are idempotent: applying any of them a
/// second time (with the same path, for the file mutator) changes
/// nothing more — in particular, disabling standard output twice
/// leaves it disabled, with no toggle back.
pub proof fn lemma_destination_mutators_idempotent(d: LogDestination, file: String)
    ensures
        spec_log_to_stdout(spec_log_to_stdout(d)) == spec_log_to_stdout(d),
        spec_log_to_file(spec_log_to_file(d, file), file) == spec_log_to_file(d, file),
        spec_remove_stdout(spec_remove_stdout(d)) == spec_remove_stdout(d),
        spec_remove_file(spec_remove_file(d)) == spec_remove_file(d),
        spec_silent(spec_silent(d)) == spec_silent(d),
{
}

} // verus!
