use vstd::prelude::*;

verus! {

/// Environment variable that overrides the base configuration directory.
pub const FUELUP_HOME: &'static str = "FUELUP_HOME";

/// Environment variable that overrides the log directory.
pub const FUELUP_LOG: &'static str = "FUELUP_LOG";

/// Environment variable that overrides the temporary (spool) directory.
pub const FUELUP_TMP: &'static str = "FUELUP_TMP";

/// Name of the base configuration directory under the user's home.
pub const FUELUP_HOME_DIR: &'static str = ".fuelup";

/// Name of the log directory under the base directory.
pub const FUELUP_LOG_DIR: &'static str = "log";

/// Name of the temporary directory under the base directory.
pub const FUELUP_TMP_DIR: &'static str = "tmp";

/// `base` with `rest` pushed onto it, as a POSIX path push does: an absolute
/// `rest` replaces `base`, and a separator is put between the two unless
/// `base` is empty or already ends with one.
pub open spec fn joined(base: Seq<char>, rest: Seq<char>) -> Seq<char> {
    if rest.len() > 0 && rest[0] == '/' {
        rest
    } else if base.len() == 0 {
        rest
    } else if base.last() == '/' {
        base + rest
    } else {
        base + seq!['/'] + rest
    }
}

/// Joins two path fragments.
pub fn join_path(base: &str, rest: &str) -> (r: String)
    ensures
        r@ == joined(base@, rest@),
{
    let rest_len = rest.unicode_len();
    if rest_len > 0 && rest.get_char(0) == '/' {
        return String::from_str(rest);
    }
    let base_len = base.unicode_len();
    if base_len == 0 {
        return String::from_str(rest);
    }
    if base.get_char(base_len - 1) == '/' {
        String::from_str(base).concat(rest)
    } else {
        proof {
            reveal_strlit("/");
        }
        let with_sep = String::from_str(base).concat("/");
        with_sep.concat(rest)
    }
}


/// The text of an optional string.
pub open spec fn text_of(o: Option<String>) -> Option<Seq<char>> {
    match o {
        Some(s) => Some(s@),
        None => None,
    }
}

/// What the configuration is resolved from: the three override variables,
/// as far as they are set, and the user's home directory, as far as it is
/// known.
pub struct Environment {
    pub fuelup_home: Option<String>,
    pub fuelup_log: Option<String>,
    pub fuelup_tmp: Option<String>,
    pub home_dir: Option<String>,
}

/// The base directory: the override if set, else `<home>/.fuelup`; none when
/// neither the override nor the home directory is known.
pub open spec fn base_dir_of(env: Environment) -> Option<Seq<char>> {
    match text_of(env.fuelup_home) {
        Some(h) => Some(h),
        None => match text_of(env.home_dir) {
            Some(d) => Some(joined(d, FUELUP_HOME_DIR@)),
            None => None,
        },
    }
}

/// The log directory under a given base directory.
pub open spec fn log_dir_of(env: Environment, base: Seq<char>) -> Seq<char> {
    match text_of(env.fuelup_log) {
        Some(l) => l,
        None => joined(base, FUELUP_LOG_DIR@),
    }
}

/// The temporary (spool) directory under a given base directory.
pub open spec fn tmp_dir_of(env: Environment, base: Seq<char>) -> Seq<char> {
    match text_of(env.fuelup_tmp) {
        Some(t) => t,
        None => joined(base, FUELUP_TMP_DIR@),
    }
}

/// Supplies the log file name of one module (the collector, the supervisor).
pub trait ModuleConfig {
    /// The module's log file name.
    spec fn log_name() -> Seq<char>;

    fn log_filename() -> (r: &'static str)
        ensures
            r@ == Self::log_name(),
    ;
}

/// The resolved configuration of one module: its log file (which is also the
/// target of its singleton lock), the directory holding that file, and the
/// temporary directory that holds the spool and the marker file.
pub struct Config {
    log_dir: String,
    log_filename: String,
    tmp_dir: String,
}

impl Config {
    pub closed spec fn log_dir_spec(&self) -> Seq<char> {
        self.log_dir@
    }

    pub closed spec fn log_filename_spec(&self) -> Seq<char> {
        self.log_filename@
    }

    pub closed spec fn tmp_dir_spec(&self) -> Seq<char> {
        self.tmp_dir@
    }

    /// Resolves the configuration of the module whose log file is named
    /// `module_log`. Fails exactly when the base directory cannot be found.
    pub fn resolve(env: &Environment, module_log: &str) -> (r: Option<Config>)
        ensures
            r is None <==> base_dir_of(*env) is None,
            r matches Some(c) ==> ({
                let base = base_dir_of(*env)->Some_0;
                &&& c.log_dir_spec() == log_dir_of(*env, base)
                &&& c.log_filename_spec() == joined(log_dir_of(*env, base), module_log@)
                &&& c.tmp_dir_spec() == tmp_dir_of(*env, base)
            }),
    {
        let base = match &env.fuelup_home {
            Some(h) => h.clone(),
            None => match &env.home_dir {
                Some(d) => join_path(d.as_str(), FUELUP_HOME_DIR),
                None => {
                    return None;
                },
            },
        };
        let log_dir = match &env.fuelup_log {
            Some(l) => l.clone(),
            None => join_path(base.as_str(), FUELUP_LOG_DIR),
        };
        let log_filename = join_path(log_dir.as_str(), module_log);
        let tmp_dir = match &env.fuelup_tmp {
            Some(t) => t.clone(),
            None => join_path(base.as_str(), FUELUP_TMP_DIR),
        };
        Some(Config { log_dir, log_filename, tmp_dir })
    }

    /// Resolves the configuration of module `T`, whose log file name it
    /// supplies. Fails exactly when the base directory cannot be found.
    pub fn for_module<T: ModuleConfig>(env: &Environment) -> (r: Option<Config>)
        ensures
            r is None <==> base_dir_of(*env) is None,
            r matches Some(c) ==> ({
                let base = base_dir_of(*env)->Some_0;
                &&& c.log_dir_spec() == log_dir_of(*env, base)
                &&& c.log_filename_spec() == joined(log_dir_of(*env, base), T::log_name())
                &&& c.tmp_dir_spec() == tmp_dir_of(*env, base)
            }),
    {
        Self::resolve(env, T::log_filename())
    }

    /// The directory that holds the module's log file.
    pub fn log_dir(&self) -> (r: &str)
        ensures
            r@ == self.log_dir_spec(),
    {
        self.log_dir.as_str()
    }

    /// The module's log file, also the target of its singleton lock.
    pub fn log_filename(&self) -> (r: &str)
        ensures
            r@ == self.log_filename_spec(),
    {
        self.log_filename.as_str()
    }

    /// The temporary directory holding the spool and the marker file.
    pub fn tmp_dir(&self) -> (r: &str)
        ensures
            r@ == self.tmp_dir_spec(),
    {
        self.tmp_dir.as_str()
    }
}

} // verus!
