//! Startup configuration: the three required settings and the service
//! address that the environment mode selects.

use vstd::prelude::*;

verus! {

/// The settings without which the daemon does not start.
pub struct Config {
    /// Mode flag: `"dev"` selects the local service, anything else production.
    pub environment: String,
    /// Credential sent with every administrative call.
    pub admin_api_key: String,
    /// Installation directory of the external transaction scanner.
    pub scanner_dir: String,
}

/// The first required setting found missing, in the order they are checked.
#[derive(Clone, Copy, Debug, PartialEq, Eq, Structural)]
pub enum ConfigError {
    MissingEnvironment,
    MissingAdminApiKey,
    MissingScannerDir,
}

impl ConfigError {
    /// Name of the environment variable that holds the missing setting.
    pub fn variable_name(&self) -> (r: &'static str)
        ensures
            r@ == match self {
                ConfigError::MissingEnvironment => "ENVIRONMENT"@,
                ConfigError::MissingAdminApiKey => "ADMIN_API_KEY"@,
                ConfigError::MissingScannerDir => "PATH_TO_TRANSACTION_SCANNER_DIR"@,
            },
    {
        match self {
            ConfigError::MissingEnvironment => "ENVIRONMENT",
            ConfigError::MissingAdminApiKey => "ADMIN_API_KEY",
            ConfigError::MissingScannerDir => "PATH_TO_TRANSACTION_SCANNER_DIR",
        }
    }
}

/// Which error, if any, a set of present/absent settings gives.
pub open spec fn config_error_for(
    environment: Option<String>,
    admin_api_key: Option<String>,
    scanner_dir: Option<String>,
) -> Option<ConfigError> {
    if environment is None {
        Some(ConfigError::MissingEnvironment)
    } else if admin_api_key is None {
        Some(ConfigError::MissingAdminApiKey)
    } else if scanner_dir is None {
        Some(ConfigError::MissingScannerDir)
    } else {
        None
    }
}

/// Builds the configuration from the raw settings; fails, naming the first
/// missing one, unless all three are present.
pub fn load_config(
    environment: Option<String>,
    admin_api_key: Option<String>,
    scanner_dir: Option<String>,
) -> (r: Result<Config, ConfigError>)
    ensures
        match config_error_for(environment, admin_api_key, scanner_dir) {
            Some(e) => r == Err::<Config, ConfigError>(e),
            None => r matches Ok(c) && Some(c.environment) == environment && Some(
                c.admin_api_key,
            ) == admin_api_key && Some(c.scanner_dir) == scanner_dir,
        },
{
    match (environment, admin_api_key, scanner_dir) {
        (None, _, _) => Err(ConfigError::MissingEnvironment),
        (Some(_), None, _) => Err(ConfigError::MissingAdminApiKey),
        (Some(_), Some(_), None) => Err(ConfigError::MissingScannerDir),
        (Some(environment), Some(admin_api_key), Some(scanner_dir)) => Ok(
            Config { environment, admin_api_key, scanner_dir },
        ),
    }
}

/// The mode value that selects the local service.
pub open spec fn dev_mode() -> Seq<char> {
    "dev"@
}

/// Address of the service when running locally.
pub open spec fn local_url() -> Seq<char> {
    "http://localhost:3000"@
}

/// Address of the production service.
pub open spec fn production_url() -> Seq<char> {
    "https://id-server.holonym.io"@
}

/// The service address that an environment mode selects.
pub open spec fn server_url_for(environment: Seq<char>) -> Seq<char> {
    if environment == dev_mode() {
        local_url()
    } else {
        production_url()
    }
}

/// The base address of the administrative service for `environment`.
pub fn get_id_server_url(environment: &str) -> (r: String)
    ensures
        r@ == server_url_for(environment@),
{
    let mode = String::from_str(environment);
    let dev = String::from_str("dev");
    if mode == dev {
        String::from_str("http://localhost:3000")
    } else {
        String::from_str("https://id-server.holonym.io")
    }
}

} // verus!
