//! Configuration of the notebook application.

use vstd::prelude::*;

verus! {

/// Where the server is and where local data is kept.
#[derive(Debug, Clone)]
pub struct Config {
    pub url: String,
    pub storage_path: String,
}

impl Config {
    /// The configuration from the values the build was given, if any: the
    /// server at `http://localhost:3000` and data in `./data.json` unless
    /// given otherwise.
    pub fn from_build_env(url: Option<&str>, storage_path: Option<&str>) -> (res: Config)
        ensures
            res.url@ == match url {
                Some(u) => u@,
                None => "http://localhost:3000"@,
            },
            res.storage_path@ == match storage_path {
                Some(p) => p@,
                None => "./data.json"@,
            },
    {
        let url = match url {
            Some(u) => u.to_owned(),
            None => "http://localhost:3000".to_owned(),
        };
        let storage_path = match storage_path {
            Some(p) => p.to_owned(),
            None => "./data.json".to_owned(),
        };
        Config { url, storage_path }
    }
}

} // verus!
