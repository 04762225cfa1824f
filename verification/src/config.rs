//! Versioned configuration bookkeeping and the application directory paths.
//!
//! The configuration file carries its own layout version; [`Config::upgrade`]
//! brings a file read from disk up to the current layout by filling in the
//! fields that older layouts did not have.  The directory the application
//! works in is established once by the surrounding application (which
//! creates it on disk) and then read through [`get_app_dir`] and
//! [`get_config_path`]; paths are modelled as plain text here, and the
//! surrounding application converts them to real filesystem paths.

use vstd::pervasive::unreached;
use vstd::prelude::*;

verus! {

/// The current layout version of the configuration file.
pub const CONFIG_VERSION: u32 = 1;

/// The persisted configuration; every field optional, so that files written
/// by older layouts still parse.
pub struct Config {
    pub config_version: Option<u32>,
    pub frpc_version: Option<String>,
    pub frpc_filename: Option<String>,
    pub cpl_version: Option<String>,
}

impl Config {
    /// Upgrades a configuration read from disk to the current layout: a file
    /// older than layout 1 gets empty helper-version fields and the default
    /// panel version where they are missing, and the layout version is
    /// stamped to [`CONFIG_VERSION`].
    pub fn upgrade(self) -> (r: Config)
        ensures
            r.config_version == Some(CONFIG_VERSION),
            (self.config_version matches Some(v) && v >= 1) ==> r.frpc_version
                == self.frpc_version && r.frpc_filename == self.frpc_filename && r.cpl_version
                == self.cpl_version,
            (self.config_version is None || self.config_version->Some_0 < 1) ==> {
                &&& self.frpc_version is Some ==> r.frpc_version == self.frpc_version
                &&& self.frpc_version is None ==> (r.frpc_version matches Some(s) && s@
                    == Seq::<char>::empty())
                &&& self.frpc_filename is Some ==> r.frpc_filename == self.frpc_filename
                &&& self.frpc_filename is None ==> (r.frpc_filename matches Some(s) && s@
                    == Seq::<char>::empty())
                &&& self.cpl_version is Some ==> r.cpl_version == self.cpl_version
                &&& self.cpl_version is None ==> (r.cpl_version matches Some(s) && s@
                    == "0.6.3"@)
            },
    {
        let mut c = self;
        let current_version: u32 = match c.config_version {
            Some(v) => v,
            None => 0,
        };
        if current_version < 1 {
            if c.frpc_version.is_none() {
                c.frpc_version = Some(String::new());
            }
            if c.frpc_filename.is_none() {
                c.frpc_filename = Some(String::new());
            }
            if c.cpl_version.is_none() {
                c.cpl_version = Some(String::from_str("0.6.3"));
            }
        }
        c.config_version = Some(CONFIG_VERSION);
        c
    }
}

/// Where the application keeps its files, once the surrounding application
/// has established (and created) the directory; unset until then.
pub struct AppDirState {
    pub app_dir: Option<String>,
}

/// The established application directory.  The directory must have been
/// established first; the surrounding application guarantees that by
/// initialising the [`AppDirState`] at startup.
pub fn get_app_dir(state: &AppDirState) -> (r: String)
    requires
        state.app_dir is Some,
    ensures
        r@ == state.app_dir->Some_0@,
{
    match &state.app_dir {
        Some(d) => d.clone(),
        None => unreached(),
    }
}

/// The path of the configuration file inside the application directory.
pub fn get_config_path(state: &AppDirState) -> (r: Result<String, String>)
    requires
        state.app_dir is Some,
    ensures
        r matches Ok(p) && p@ == state.app_dir->Some_0@ + "/config.json"@,
{
    let dir = get_app_dir(state);
    Ok(dir.concat("/config.json"))
}

} // verus!
