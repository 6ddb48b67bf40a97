//! The project's configuration (`wingbird.yaml`) and the Flutter project
//! description (`pubspec.yaml`) it is read beside.

use vstd::prelude::*;
use crate::text::string_of;

verus! {

/// The file the configuration is kept in.
pub const CONFIG_FILE: &'static str = "wingbird.yaml";

/// The Flutter project description.
pub const PUBSPEC_FILE: &'static str = "pubspec.yaml";

/// The app this project is linked to, and on which server.
#[derive(Debug)]
pub struct Config {
    pub server_url: String,
    pub app_id: String,
    pub app_name: String,
}

/// The fields of `pubspec.yaml` the client reads.
#[derive(Debug)]
pub struct Pubspec {
    pub name: String,
    pub version: Option<String>,
    pub description: Option<String>,
}

/// The version of a project description, empty when it gives none.
pub open spec fn version_text(p: Pubspec) -> Seq<char> {
    match p.version {
        Some(v) => v@,
        None => Seq::empty(),
    }
}

impl Config {
    /// The configuration of an app linked on `server_url`.
    pub fn new(server_url: String, app_id: String, app_name: String) -> (res: Config)
        ensures
            res.server_url == server_url,
            res.app_id == app_id,
            res.app_name == app_name,
    {
        Config { server_url, app_id, app_name }
    }
}

impl Pubspec {
    /// The version, or the empty string when there is none.
    pub fn version_or_default(&self) -> (res: String)
        ensures
            res@ == version_text(*self),
    {
        match &self.version {
            Some(v) => string_of(v.as_str()),
            None => String::new(),
        }
    }
}

} // verus!
