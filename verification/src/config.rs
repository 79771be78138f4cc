use vstd::prelude::*;

verus! {

/// Where the service keeps its data and where it listens.
pub struct PastebinConfig {
    pub database_url: String,
    pub templates_dir: String,
    pub data_dir: String,
    pub static_dir: String,
    pub host: String,
    pub port: u16,
}

/// The database used when none is configured.
pub fn default_database_url() -> (s: String)
    ensures
        s@ == "sqlite://pastebin.db"@,
{
    "sqlite://pastebin.db".to_owned()
}

/// The templates directory used when none is configured.
pub fn default_templates_dir() -> (s: String)
    ensures
        s@ == "templates"@,
{
    "templates".to_owned()
}

/// The upload directory used when none is configured.
pub fn default_data_dir() -> (s: String)
    ensures
        s@ == "data"@,
{
    "data".to_owned()
}

/// The static files directory used when none is configured.
pub fn default_static_dir() -> (s: String)
    ensures
        s@ == "static"@,
{
    "static".to_owned()
}

/// The address listened on when none is configured.
pub fn default_host() -> (s: String)
    ensures
        s@ == "127.0.0.1"@,
{
    "127.0.0.1".to_owned()
}

/// The port listened on when none is configured.
pub fn default_port() -> (p: u16)
    ensures
        p == 8080,
{
    8080
}

impl PastebinConfig {
    /// Whether every setting has its default value.
    pub open spec fn is_default(&self) -> bool {
        &&& self.database_url@ == "sqlite://pastebin.db"@
        &&& self.templates_dir@ == "templates"@
        &&& self.data_dir@ == "data"@
        &&& self.static_dir@ == "static"@
        &&& self.host@ == "127.0.0.1"@
        &&& self.port == 8080
    }
}

impl Default for PastebinConfig {
    fn default() -> (c: Self)
        ensures
            c.is_default(),
    {
        PastebinConfig {
            database_url: default_database_url(),
            templates_dir: default_templates_dir(),
            data_dir: default_data_dir(),
            static_dir: default_static_dir(),
            host: default_host(),
            port: default_port(),
        }
    }
}

/// The configuration in effect: the one read from the configuration file,
/// or the defaults where the file could not be read or parsed.
pub fn config_or_default(parsed: Option<PastebinConfig>) -> (c: PastebinConfig)
    ensures
        match parsed {
            Some(p) => c == p,
            None => c.is_default(),
        },
{
    match parsed {
        Some(p) => p,
        None => PastebinConfig::default(),
    }
}

/// The configuration file's path: the `CONFIG` variable if it is set, else
/// `PASTEBIN_CONFIG`, else `pastebin.toml` (a variable counts as unset where
/// it is missing or not Unicode).
pub fn config_path_from(config: Option<String>, pastebin_config: Option<String>) -> (p: String)
    ensures
        match (config, pastebin_config) {
            (Some(c), _) => p@ == c@,
            (None, Some(c)) => p@ == c@,
            (None, None) => p@ == "pastebin.toml"@,
        },
{
    match config {
        Some(c) => c,
        None => match pastebin_config {
            Some(c) => c,
            None => "pastebin.toml".to_owned(),
        },
    }
}

/// Which directory a configured relative path resolves to.
pub enum DirChoice {
    /// The path as configured (it is absolute).
    AsGiven,
    /// The path under the working directory.
    UnderWorkingDir,
    /// The path under the executable's directory.
    UnderExecutableDir,
    /// The default subdirectory of the executable's directory.
    DefaultUnderExecutableDir,
}

/// Where a configured directory is looked for.  An absolute path is taken
/// as it is; a relative one under the working directory if it exists there,
/// else under the executable's directory if it exists there, else the
/// default subdirectory of the executable's directory if that exists, and
/// otherwise under the working directory.  `under_exe` holds, where the
/// executable's directory is known, whether the path and the default
/// subdirectory exist under it.
pub fn choose_dir(is_absolute: bool, under_cwd_exists: bool, under_exe: Option<(bool, bool)>) -> (c:
    DirChoice)
    ensures
        is_absolute ==> c is AsGiven,
        !is_absolute && under_cwd_exists ==> c is UnderWorkingDir,
        !is_absolute && !under_cwd_exists ==> match under_exe {
            Some((true, _)) => c is UnderExecutableDir,
            Some((false, true)) => c is DefaultUnderExecutableDir,
            _ => c is UnderWorkingDir,
        },
{
    if is_absolute {
        return DirChoice::AsGiven;
    }
    if under_cwd_exists {
        return DirChoice::UnderWorkingDir;
    }
    match under_exe {
        Some((true, _)) => DirChoice::UnderExecutableDir,
        Some((false, true)) => DirChoice::DefaultUnderExecutableDir,
        _ => DirChoice::UnderWorkingDir,
    }
}

} // verus!
