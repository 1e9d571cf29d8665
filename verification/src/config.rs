//! Process-wide configuration values and the environment-derived settings,
//! together with the errors raised when either cannot be produced.

use vstd::prelude::*;

verus! {

/// Error raised when the process configuration cannot be produced.
#[derive(Debug)]
pub struct ConfigError {
    message: String,
}

impl View for ConfigError {
    type V = Seq<char>;

    closed spec fn view(&self) -> Seq<char> {
        self.message@
    }
}

impl ConfigError {
    pub fn new(message: String) -> (r: Self)
        ensures
            r@ == message@,
    {
        ConfigError { message }
    }

    /// The human-readable description carried by this error.
    pub fn message(&self) -> (r: &String)
        ensures
            r@ == self@,
    {
        &self.message
    }
}

/// Process-wide, read-only configuration, written once at startup and shared
/// across all requests afterwards. Only `branding` is read by the page core;
/// the object-storage fields are handed to external collaborators.
pub struct Config {
    pub branding: String,
    pub s3_region: String,
    pub s3_endpoint_url: String,
    pub s3_bucket: String,
}

/// Settings the process takes from its environment at startup.
#[derive(Debug)]
pub struct AppEnv {
    pub database_url: String,
    pub access_token_key: String,
    pub refresh_token_key: String,
    pub smtp_username: String,
    pub smtp_password: String,
    pub _cors_allowed: String,
    pub _rocket_secret_key: String,
    pub _static_path: String,
}

/// The message reported when an environment variable is absent.
pub open spec fn missing_env_message(name: Seq<char>) -> Seq<char> {
    "environment variable not found: "@ + name
}

/// Accepts the value an environment lookup produced for `field_name`, or
/// reports the absence of the variable.
pub fn field_from_env(field_name: &str, value: Option<String>) -> (r: Result<String, String>)
    ensures
        value matches Some(v) ==> (r matches Ok(u) && u == v),
        value is None ==> (r matches Err(e) && e@ == missing_env_message(field_name@)),
{
    match value {
        Some(v) => Ok(v),
        None => Err(String::from_str("environment variable not found: ").concat(field_name)),
    }
}

/// The name of the first environment variable, in the order the settings are
/// gathered, whose value is absent.
pub open spec fn first_missing_env_name(
    database_url: Option<String>,
    access_token_key: Option<String>,
    refresh_token_key: Option<String>,
    smtp_username: Option<String>,
    smtp_password: Option<String>,
    cors_allowed: Option<String>,
    rocket_secret_key: Option<String>,
    static_path: Option<String>,
) -> Seq<char> {
    if database_url is None {
        "DATABASE_URL"@
    } else if access_token_key is None {
        "ACCESS_TOKEN_KEY"@
    } else if refresh_token_key is None {
        "REFRESH_TOKEN_KEY"@
    } else if smtp_username is None {
        "SMTP_USERNAME"@
    } else if smtp_password is None {
        "SMTP_PASSWORD"@
    } else if cors_allowed is None {
        "CORS_ALLOWED"@
    } else if rocket_secret_key is None {
        "ROCKET_SECRET_KEY"@
    } else {
        "STATIC_PATH"@
    }
}

impl AppEnv {
    /// Builds the settings from the values an environment lookup produced,
    /// one per variable; fails on the first absent variable, naming it.
    pub fn new_from_env(
        database_url: Option<String>,
        access_token_key: Option<String>,
        refresh_token_key: Option<String>,
        smtp_username: Option<String>,
        smtp_password: Option<String>,
        cors_allowed: Option<String>,
        rocket_secret_key: Option<String>,
        static_path: Option<String>,
    ) -> (r: Result<AppEnv, String>)
        ensures
            r is Ok <==> {
                &&& database_url is Some
                &&& access_token_key is Some
                &&& refresh_token_key is Some
                &&& smtp_username is Some
                &&& smtp_password is Some
                &&& cors_allowed is Some
                &&& rocket_secret_key is Some
                &&& static_path is Some
            },
            r matches Ok(a) ==> {
                &&& a.database_url == database_url->0
                &&& a.access_token_key == access_token_key->0
                &&& a.refresh_token_key == refresh_token_key->0
                &&& a.smtp_username == smtp_username->0
                &&& a.smtp_password == smtp_password->0
                &&& a._cors_allowed == cors_allowed->0
                &&& a._rocket_secret_key == rocket_secret_key->0
                &&& a._static_path == static_path->0
            },
            r matches Err(e) ==> e@ == missing_env_message(
                first_missing_env_name(
                    database_url,
                    access_token_key,
                    refresh_token_key,
                    smtp_username,
                    smtp_password,
                    cors_allowed,
                    rocket_secret_key,
                    static_path,
                ),
            ),
    {
        let database_url = match field_from_env("DATABASE_URL", database_url) {
            Ok(v) => v,
            Err(e) => return Err(e),
        };
        let access_token_key = match field_from_env("ACCESS_TOKEN_KEY", access_token_key) {
            Ok(v) => v,
            Err(e) => return Err(e),
        };
        let refresh_token_key = match field_from_env("REFRESH_TOKEN_KEY", refresh_token_key) {
            Ok(v) => v,
            Err(e) => return Err(e),
        };
        let smtp_username = match field_from_env("SMTP_USERNAME", smtp_username) {
            Ok(v) => v,
            Err(e) => return Err(e),
        };
        let smtp_password = match field_from_env("SMTP_PASSWORD", smtp_password) {
            Ok(v) => v,
            Err(e) => return Err(e),
        };
        let _cors_allowed = match field_from_env("CORS_ALLOWED", cors_allowed) {
            Ok(v) => v,
            Err(e) => return Err(e),
        };
        let _rocket_secret_key = match field_from_env("ROCKET_SECRET_KEY", rocket_secret_key) {
            Ok(v) => v,
            Err(e) => return Err(e),
        };
        let _static_path = match field_from_env("STATIC_PATH", static_path) {
            Ok(v) => v,
            Err(e) => return Err(e),
        };
        Ok(AppEnv {
            database_url,
            access_token_key,
            refresh_token_key,
            smtp_username,
            smtp_password,
            _cors_allowed,
            _rocket_secret_key,
            _static_path,
        })
    }
}

} // verus!
