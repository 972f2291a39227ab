use vstd::prelude::*;
use vstd::string::StringExecFns;
use crate::Logger;
use crate::loggers::log_levels::LogLevel;
use crate::output::format::{bool_str, spec_bool_str};
use crate::output::logdest::{
    LogDestination, spec_default_destination, spec_log_to_file, spec_log_to_stdout,
    spec_remove_file, spec_remove_stdout, spec_silent,
};

verus! {

/// One module's override: its own threshold, paranoia flag and
/// destinations, taking full precedence over the global default for
/// events tagged with this module.
#[derive(Debug)]
pub struct ModLogger {
    /// The module identifier this override is keyed by.
    pub module: String,
    /// The override's severity threshold.
    pub log_level: LogLevel,
    /// Whether lines from this module carry the diagnostic suffix.
    pub paranoia: bool,
    /// Where lines from this module go.
    pub log_destinations: LogDestination,
}

/// The snapshot text that `describe` renders for an override.
pub open spec fn spec_mod_describe(m: ModLogger) -> Seq<char> {
    "ModLogger { module: "@ + m.module@ + ", level: "@ + m.log_level.spec_name()
        + ", paranoia: "@ + spec_bool_str(m.paranoia) + ", stdout: "@ + spec_bool_str(
        m.log_destinations.stdout,
    ) + ", file: "@ + (match m.log_destinations.file {
        Some(f) => f@,
        None => "none"@,
    }) + " }"@
}

impl Clone for ModLogger {
    fn clone(&self) -> (r: Self)
        ensures
            r == *self,
    {
        ModLogger {
            module: self.module.clone(),
            log_level: self.log_level,
            paranoia: self.paranoia,
            log_destinations: self.log_destinations.clone(),
        }
    }
}

impl Default for ModLogger {
    /// An empty override: no module name, threshold `Off`, no
    /// paranoia, default destinations.
    fn default() -> (r: Self)
        ensures
            r.module@ == Seq::<char>::empty(),
            r.log_level == LogLevel::Off,
            r.paranoia == false,
            r.log_destinations == (LogDestination { stdout: true, file: None }),
    {
        ModLogger {
            module: String::new(),
            log_level: LogLevel::Off,
            paranoia: false,
            log_destinations: LogDestination { stdout: true, file: None },
        }
    }
}

impl ModLogger {
    /// The override's severity threshold.
    pub fn log_level(&self) -> (r: LogLevel)
        ensures
            r == self.log_level,
    {
        self.log_level
    }

    /// The override's paranoia flag.
    pub fn paranoia(&self) -> (r: bool)
        ensures
            r == self.paranoia,
    {
        self.paranoia
    }

    /// A one-line snapshot of this override.
    pub fn describe(&self) -> (r: String)
        ensures
            r@ == spec_mod_describe(*self),
    {
        let mut s = String::new();
        s.append("ModLogger { module: ");
        s.append(self.module.as_str());
        s.append(", level: ");
        s.append(self.log_level.as_str());
        s.append(", paranoia: ");
        s.append(bool_str(self.paranoia));
        s.append(", stdout: ");
        s.append(bool_str(self.log_destinations.stdout));
        s.append(", file: ");
        match &self.log_destinations.file {
            Some(f) => s.append(f.as_str()),
            None => s.append("none"),
        }
        s.append(" }");
        proof {
            assert(s@ =~= spec_mod_describe(*self));
        }
        s
    }
}

/// The override registered for `module` in a registry, if any: the
/// first entry carrying that identifier.
pub open spec fn spec_find(s: Seq<ModLogger>, module: Seq<char>) -> Option<ModLogger>
    decreases s.len(),
{
    if s.len() == 0 {
        None
    } else if s[0].module@ == module {
        Some(s[0])
    } else {
        spec_find(s.skip(1), module)
    }
}

/// Appending an entry leaves every registered module's override as it
/// was, and registers the new entry's module if it was absent.
pub proof fn lemma_find_push(s: Seq<ModLogger>, v: ModLogger, k: Seq<char>)
    ensures
        spec_find(s.push(v), k) == (if spec_find(s, k) is Some {
            spec_find(s, k)
        } else if k == v.module@ {
            Some(v)
        } else {
            None::<ModLogger>
        }),
    decreases s.len(),
{
    if s.len() == 0 {
        assert(s.push(v)[0] == v);
        assert(s.push(v).skip(1) =~= Seq::<ModLogger>::empty());
        if k == v.module@ {
            assert(spec_find(s.push(v), k) == Some(v));
        } else {
            assert(spec_find(Seq::<ModLogger>::empty(), k) is None);
            assert(spec_find(s.push(v), k) is None);
        }
    } else {
        assert(s.push(v)[0] == s[0]);
        assert(s.push(v).skip(1) =~= s.skip(1).push(v));
        lemma_find_push(s.skip(1), v, k);
        if s[0].module@ == k {
            assert(spec_find(s.push(v), k) == Some(s[0]));
            assert(spec_find(s, k) == Some(s[0]));
        } else {
            assert(spec_find(s.push(v), k) == spec_find(s.skip(1).push(v), k));
            assert(spec_find(s, k) == spec_find(s.skip(1), k));
        }
    }
}

/// Replacing the first entry for a module changes that module's
/// override to the new entry and no other module's.
pub proof fn lemma_find_update(s: Seq<ModLogger>, i: int, v: ModLogger, k: Seq<char>)
    requires
        0 <= i < s.len(),
        s[i].module@ == v.module@,
        forall|j: int| 0 <= j < i ==> (#[trigger] s[j]).module@ != v.module@,
    ensures
        spec_find(s.update(i, v), k) == (if k == v.module@ {
            Some(v)
        } else {
            spec_find(s, k)
        }),
    decreases i,
{
    if i == 0 {
        assert(s.update(0, v)[0] == v);
        assert(s.update(0, v).skip(1) =~= s.skip(1));
    } else {
        assert(s[0].module@ != v.module@);
        assert(s.update(i, v)[0] == s[0]);
        assert(s.update(i, v).skip(1) =~= s.skip(1).update(i - 1, v));
        assert(s.skip(1)[i - 1].module@ == v.module@);
        assert forall|j: int| 0 <= j < i - 1 implies (#[trigger] s.skip(1)[j]).module@
            != v.module@ by {
            assert(s[j + 1].module@ != v.module@);
        }
        lemma_find_update(s.skip(1), i - 1, v, k);
    }
}

/// Relates a registry before and after one module's override was set
/// to `entry`: that module now maps to `entry`, every other module's
/// override is exactly what it was.
pub open spec fn spec_registry_updated(
    old_s: Seq<ModLogger>,
    new_s: Seq<ModLogger>,
    module: Seq<char>,
    entry: ModLogger,
) -> bool {
    &&& spec_find(new_s, module) == Some(entry)
    &&& forall|k: Seq<char>|
        k != module ==> #[trigger] spec_find(new_s, k) == spec_find(old_s, k)
}

impl Logger {
    /// Scans for the first registry entry keyed by `module`.
    fn find_index(&self, module: &str) -> (r: Option<usize>)
        ensures
            match r {
                Some(i) => {
                    &&& i < self.modules_logger@.len()
                    &&& self.modules_logger@[i as int].module@ == module@
                    &&& forall|j: int|
                        0 <= j < i ==> (#[trigger] self.modules_logger@[j]).module@ != module@
                    &&& spec_find(self.modules_logger@, module@) == Some(
                        self.modules_logger@[i as int],
                    )
                },
                None => spec_find(self.modules_logger@, module@) is None,
            },
    {
        let key = String::from_str(module);
        let n = self.modules_logger.len();
        let mut i: usize = 0;
        proof {
            assert(self.modules_logger@.skip(0) =~= self.modules_logger@);
        }
        while i < n
            invariant
                n == self.modules_logger@.len(),
                i <= n,
                key@ == module@,
                spec_find(self.modules_logger@, module@) == spec_find(
                    self.modules_logger@.skip(i as int),
                    module@,
                ),
                forall|j: int|
                    0 <= j < i ==> (#[trigger] self.modules_logger@[j]).module@ != module@,
            decreases n - i,
        {
            proof {
                assert(self.modules_logger@.skip(i as int)[0] == self.modules_logger@[i as int]);
                assert(self.modules_logger@.skip(i as int).skip(1) =~= self.modules_logger@.skip(
                    i as int + 1,
                ));
            }
            if self.modules_logger[i].module.eq(&key) {
                proof {
                    assert(spec_find(self.modules_logger@, module@) == Some(
                        self.modules_logger@[i as int],
                    ));
                }
                return Some(i);
            }
            i = i + 1;
        }
        proof {
            assert(self.modules_logger@.skip(n as int) =~= Seq::<ModLogger>::empty());
        }
        None
    }

    /// The logging configuration registered for `module`, if any.
    pub fn get_mod_logger(&self, module: &str) -> (r: Option<ModLogger>)
        ensures
            r == self.spec_get_mod(module@),
    {
        match self.find_index(module) {
            Some(i) => Some(self.modules_logger[i].clone()),
            None => None,
        }
    }

    /// Registers or re-registers the override for `module`: its
    /// threshold and paranoia become the given values. A fresh entry
    /// starts with the default destinations; an existing entry keeps
    /// the destinations it had. No other module is touched.
    pub fn set_mod_log_level(&mut self, module: &str, log_level: LogLevel, paranoia: bool)
        ensures
            final(self).default_logger == old(self).default_logger,
            final(self).spec_get_mod(module@) matches Some(entry) && entry.module@ == module@
                && entry.log_level == log_level && entry.paranoia == paranoia
                && entry.log_destinations == (match old(self).spec_get_mod(module@) {
                Some(prev) => prev.log_destinations,
                None => spec_default_destination(),
            }),
            forall|k: Seq<char>|
                k != module@ ==> #[trigger] spec_find(final(self).modules_logger@, k) == spec_find(
                    old(self).modules_logger@,
                    k,
                ),
    {
        let ghost old_seq = self.modules_logger@;
        match self.find_index(module) {
            Some(i) => {
                let dest = self.modules_logger[i].log_destinations.clone();
                let entry = ModLogger {
                    module: String::from_str(module),
                    log_level,
                    paranoia,
                    log_destinations: dest,
                };
                let ghost e = entry;
                let slot = &mut self.modules_logger[i];
                *slot = entry;
                proof {
                    assert(self.modules_logger@ =~= old_seq.update(i as int, e));
                    assert forall|k: Seq<char>| k != module@ implies #[trigger] spec_find(
                        self.modules_logger@,
                        k,
                    ) == spec_find(old_seq, k) by {
                        lemma_find_update(old_seq, i as int, e, k);
                    }
                    lemma_find_update(old_seq, i as int, e, module@);
                }
            },
            None => {
                let entry = ModLogger {
                    module: String::from_str(module),
                    log_level,
                    paranoia,
                    log_destinations: LogDestination { stdout: true, file: None },
                };
                let ghost e = entry;
                self.modules_logger.push(entry);
                proof {
                    assert forall|k: Seq<char>| k != module@ implies #[trigger] spec_find(
                        self.modules_logger@,
                        k,
                    ) == spec_find(old_seq, k) by {
                        lemma_find_push(old_seq, e, k);
                    }
                    lemma_find_push(old_seq, e, module@);
                }
            },
        }
    }

    /// Routes `module`'s lines to `file` as well. With no override
    /// registered for `module` this is a silent no-op: a policy must
    /// be set before its destinations can be customized.
    pub fn set_mod_log_to_file(&mut self, module: &str, file: String)
        ensures
            final(self).default_logger == old(self).default_logger,
            old(self).spec_get_mod(module@) is None ==> final(self).modules_logger == old(
                self,
            ).modules_logger,
            (old(self).spec_get_mod(module@) matches Some(prev) ==> spec_registry_updated(
                old(self).modules_logger@,
                final(self).modules_logger@,
                module@,
                ModLogger { log_destinations: spec_log_to_file(prev.log_destinations, file), ..prev },
            )),
    {
        let ghost old_seq = self.modules_logger@;
        let ghost fv = file;
        match self.find_index(module) {
            Some(i) => {
                let ghost prev = self.modules_logger@[i as int];
                let slot = &mut self.modules_logger[i];
                slot.log_destinations.log_to_file(file);
                proof {
                    let e = ModLogger {
                        log_destinations: spec_log_to_file(prev.log_destinations, fv),
                        ..prev
                    };
                    assert(self.modules_logger@ =~= old_seq.update(i as int, e));
                    assert forall|k: Seq<char>| k != module@ implies #[trigger] spec_find(
                        self.modules_logger@,
                        k,
                    ) == spec_find(old_seq, k) by {
                        lemma_find_update(old_seq, i as int, e, k);
                    }
                    lemma_find_update(old_seq, i as int, e, module@);
                }
            },
            None => {
            },
        }
    }

    /// Routes `module`'s lines to standard output as well; a silent
    /// no-op when `module` has no override.
    pub fn set_mod_log_to_stdout(&mut self, module: &str)
        ensures
            final(self).default_logger == old(self).default_logger,
            old(self).spec_get_mod(module@) is None ==> final(self).modules_logger == old(
                self,
            ).modules_logger,
            (old(self).spec_get_mod(module@) matches Some(prev) ==> spec_registry_updated(
                old(self).modules_logger@,
                final(self).modules_logger@,
                module@,
                ModLogger { log_destinations: spec_log_to_stdout(prev.log_destinations), ..prev },
            )),
    {
        let ghost old_seq = self.modules_logger@;
        match self.find_index(module) {
            Some(i) => {
                let ghost prev = self.modules_logger@[i as int];
                let slot = &mut self.modules_logger[i];
                slot.log_destinations.log_to_stdout();
                proof {
                    let e = ModLogger {
                        log_destinations: spec_log_to_stdout(prev.log_destinations),
                        ..prev
                    };
                    assert(self.modules_logger@ =~= old_seq.update(i as int, e));
                    assert forall|k: Seq<char>| k != module@ implies #[trigger] spec_find(
                        self.modules_logger@,
                        k,
                    ) == spec_find(old_seq, k) by {
                        lemma_find_update(old_seq, i as int, e, k);
                    }
                    lemma_find_update(old_seq, i as int, e, module@);
                }
            },
            None => {
            },
        }
    }

    /// Drops `module`'s file destination; a silent no-op when
    /// `module` has no override.
    pub fn remove_mod_log_to_file(&mut self, module: &str)
        ensures
            final(self).default_logger == old(self).default_logger,
            old(self).spec_get_mod(module@) is None ==> final(self).modules_logger == old(
                self,
            ).modules_logger,
            (old(self).spec_get_mod(module@) matches Some(prev) ==> spec_registry_updated(
                old(self).modules_logger@,
                final(self).modules_logger@,
                module@,
                ModLogger { log_destinations: spec_remove_file(prev.log_destinations), ..prev },
            )),
    {
        let ghost old_seq = self.modules_logger@;
        match self.find_index(module) {
            Some(i) => {
                let ghost prev = self.modules_logger@[i as int];
                let slot = &mut self.modules_logger[i];
                slot.log_destinations.remove_file();
                proof {
                    let e = ModLogger {
                        log_destinations: spec_remove_file(prev.log_destinations),
                        ..prev
                    };
                    assert(self.modules_logger@ =~= old_seq.update(i as int, e));
                    assert forall|k: Seq<char>| k != module@ implies #[trigger] spec_find(
                        self.modules_logger@,
                        k,
                    ) == spec_find(old_seq, k) by {
                        lemma_find_update(old_seq, i as int, e, k);
                    }
                    lemma_find_update(old_seq, i as int, e, module@);
                }
            },
            None => {
            },
        }
    }

    /// Disables standard output for `module`; a silent no-op when
    /// `module` has no override.
    pub fn remove_mod_log_stdout(&mut self, module: &str)
        ensures
            final(self).default_logger == old(self).default_logger,
            old(self).spec_get_mod(module@) is None ==> final(self).modules_logger == old(
                self,
            ).modules_logger,
            (old(self).spec_get_mod(module@) matches Some(prev) ==> spec_registry_updated(
                old(self).modules_logger@,
                final(self).modules_logger@,
                module@,
                ModLogger { log_destinations: spec_remove_stdout(prev.log_destinations), ..prev },
            )),
    {
        let ghost old_seq = self.modules_logger@;
        match self.find_index(module) {
            Some(i) => {
                let ghost prev = self.modules_logger@[i as int];
                let slot = &mut self.modules_logger[i];
                slot.log_destinations.remove_stdout();
                proof {
                    let e = ModLogger {
                        log_destinations: spec_remove_stdout(prev.log_destinations),
                        ..prev
                    };
                    assert(self.modules_logger@ =~= old_seq.update(i as int, e));
                    assert forall|k: Seq<char>| k != module@ implies #[trigger] spec_find(
                        self.modules_logger@,
                        k,
                    ) == spec_find(old_seq, k) by {
                        lemma_find_update(old_seq, i as int, e, k);
                    }
                    lemma_find_update(old_seq, i as int, e, module@);
                }
            },
            None => {
            },
        }
    }

    /// Silences `module`: its lines reach no sink at all, whatever
    /// their severity; a silent no-op when `module` has no override.
    pub fn set_mod_logging_silent(&mut self, module: &str)
        ensures
            final(self).default_logger == old(self).default_logger,
            old(self).spec_get_mod(module@) is None ==> final(self).modules_logger == old(
                self,
            ).modules_logger,
            (old(self).spec_get_mod(module@) matches Some(prev) ==> spec_registry_updated(
                old(self).modules_logger@,
                final(self).modules_logger@,
                module@,
                ModLogger { log_destinations: spec_silent(prev.log_destinations), ..prev },
            )),
    {
        let ghost old_seq = self.modules_logger@;
        match self.find_index(module) {
            Some(i) => {
                let ghost prev = self.modules_logger@[i as int];
                let slot = &mut self.modules_logger[i];
                slot.log_destinations.silent();
                proof {
                    let e = ModLogger {
                        log_destinations: spec_silent(prev.log_destinations),
                        ..prev
                    };
                    assert(self.modules_logger@ =~= old_seq.update(i as int, e));
                    assert forall|k: Seq<char>| k != module@ implies #[trigger] spec_find(
                        self.modules_logger@,
                        k,
                    ) == spec_find(old_seq, k) by {
                        lemma_find_update(old_seq, i as int, e, k);
                    }
                    lemma_find_update(old_seq, i as int, e, module@);
                }
            },
            None => {
            },
        }
    }

    /// The stored name of `module`'s override, or the empty string
    /// when none is registered.
    pub fn get_mod_name(&self, module: &str) -> (r: String)
        ensures
            r@ == (match self.spec_get_mod(module@) {
                Some(m) => m.module@,
                None => Seq::<char>::empty(),
            }),
    {
        match self.get_mod_logger(module) {
            Some(m) => m.module,
            None => String::new(),
        }
    }

    /// The threshold of `module`'s override, or `None` when none is
    /// registered.
    pub fn get_mod_log_level(&self, module: &str) -> (r: Option<LogLevel>)
        ensures
            r == (match self.spec_get_mod(module@) {
                Some(m) => Some(m.log_level),
                None => None::<LogLevel>,
            }),
    {
        match self.get_mod_logger(module) {
            Some(m) => Some(m.log_level),
            None => None,
        }
    }

    /// The paranoia flag of `module`'s override; absent modules
    /// report `false`.
    pub fn get_mod_paranoia(&self, module: &str) -> (r: bool)
        ensures
            r == (match self.spec_get_mod(module@) {
                Some(m) => m.paranoia,
                None => false,
            }),
    {
        match self.get_mod_logger(module) {
            Some(m) => m.paranoia,
            None => false,
        }
    }

    /// The destinations of `module`'s override, or `None` when none
    /// is registered.
    pub fn get_mod_log_destination(&self, module: &str) -> (r: Option<LogDestination>)
        ensures
            r == (match self.spec_get_mod(module@) {
                Some(m) => Some(m.log_destinations),
                None => None::<LogDestination>,
            }),
    {
        match self.get_mod_logger(module) {
            Some(m) => Some(m.log_destinations),
            None => None,
        }
    }

    /// A one-line snapshot of `module`'s override, or the empty
    /// string when none is registered.
    pub fn debug_mod_logger(&self, module: &str) -> (r: String)
        ensures
            r@ == (match self.spec_get_mod(module@) {
                Some(m) => spec_mod_describe(m),
                None => Seq::<char>::empty(),
            }),
    {
        match self.get_mod_logger(module) {
            Some(m) => m.describe(),
            None => String::new(),
        }
    }
}

} // verus!
