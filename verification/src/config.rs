//! Configuration records and their defaults, and where the configuration
//! file is looked for.

use vstd::prelude::*;

verus! {

/// Settings of the gRPC api server.
#[derive(Clone, Debug)]
pub struct ApiConfig {
    pub addr: String,
}

impl Default for ApiConfig {
    /// The api listens on every interface, port 4000, unless configured otherwise.
    fn default() -> (res: ApiConfig)
        ensures
            res.addr@ == "0.0.0.0:4000"@,
    {
        ApiConfig { addr: "0.0.0.0:4000".to_owned() }
    }
}

/// Configuration of the api program; a missing `api` section takes the defaults.
#[derive(Clone, Debug)]
pub struct Config {
    pub api: ApiConfig,
}

/// Settings of the web application.
#[derive(Clone, Debug)]
pub struct AppConfig {
    pub addr: String,
    pub base_url: Option<String>,
}

impl Default for AppConfig {
    /// The web application listens on every interface, port 3000, mounted under `/starter`.
    fn default() -> (res: AppConfig)
        ensures
            res.addr@ == "0.0.0.0:3000"@,
            res.base_url matches Some(b) && b@ == "/starter"@,
    {
        AppConfig { addr: "0.0.0.0:3000".to_owned(), base_url: Some("/starter".to_owned()) }
    }
}

/// Configuration of the combined starter program.
#[derive(Clone, Debug)]
pub struct StarterConfig {
    pub api_addr: String,
    pub app_addr: String,
}

/// The api address used when none is configured.
pub fn default_api_addr() -> (res: String)
    ensures
        res@ == "0.0.0.0:4000"@,
{
    "0.0.0.0:4000".to_owned()
}

/// The web address used when none is configured.
pub fn default_app_addr() -> (res: String)
    ensures
        res@ == "0.0.0.0:3000"@,
{
    "0.0.0.0:3000".to_owned()
}

impl Default for StarterConfig {
    /// Both addresses at their defaults.
    fn default() -> (res: StarterConfig)
        ensures
            res.api_addr@ == "0.0.0.0:4000"@,
            res.app_addr@ == "0.0.0.0:3000"@,
    {
        StarterConfig { api_addr: default_api_addr(), app_addr: default_app_addr() }
    }
}

/// Which configuration file to read, and whether it must exist.
#[derive(Clone, Debug)]
pub struct ConfigFile {
    pub path: String,
    pub required: bool,
}

/// The configuration file of the api and web programs: the path given in
/// `STARTER_CONFIG_PATH` (`env_path`), which must then exist, or else an
/// optional file with an empty name.
pub fn config_file(env_path: Option<String>) -> (res: ConfigFile)
    ensures
        res.required == env_path is Some,
        env_path matches Some(p) ==> res.path@ == p@,
        env_path is None ==> res.path@ == Seq::<char>::empty(),
{
    match env_path {
        Some(p) => ConfigFile { path: p, required: true },
        None => ConfigFile { path: String::new(), required: false },
    }
}

/// The configuration file of the combined starter program: the path given
/// in `STARTER_CONFIG_PATH`, which must then exist, or else `./starter.toml`
/// if it is there.
pub fn starter_config_file(env_path: Option<String>) -> (res: ConfigFile)
    ensures
        res.required == env_path is Some,
        env_path matches Some(p) ==> res.path@ == p@,
        env_path is None ==> res.path@ == "./starter.toml"@,
{
    match env_path {
        Some(p) => ConfigFile { path: p, required: true },
        None => ConfigFile { path: "./starter.toml".to_owned(), required: false },
    }
}

} // verus!
