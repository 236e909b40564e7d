//! Process configuration: validates the raw values handed in at startup
//! and fixes the log level from the environment.

use vstd::prelude::*;

use crate::enums::Environment;
use crate::validation::base::{Schema, ValidationError, Validator};
use crate::validation::email::{valid_email, EmailSchema};
use crate::validation::string::StringSchema;
use crate::validation::url::{has_scheme_marker, UrlSchema};

verus! {

/// Logging verbosity, fixed by the environment.
#[derive(Debug, Clone, Copy, PartialEq, Eq, Structural)]
pub enum LogLevel {
    Debug,
    Info,
    Error,
}

/// The log level each environment runs with.
pub open spec fn log_level_for(e: Environment) -> LogLevel {
    match e {
        Environment::Development => LogLevel::Debug,
        Environment::Production => LogLevel::Info,
        Environment::Test => LogLevel::Error,
    }
}

/// The validated process configuration.
#[derive(Debug)]
pub struct Config {
    pub environment: Environment,
    pub port: u16,
    pub frontend_url: String,
    pub database_url: String,
    pub jwt_secret: String,
    pub smtp_host: String,
    pub smtp_port: u16,
    pub smtp_user: String,
    pub smtp_pass: String,
    pub from_email: String,
    pub ethereal_user: String,
    pub ethereal_pass: String,
    pub log_level: LogLevel,
}

/// The raw configuration values, as read from the process environment.
/// The two ports arrive already parsed as numbers.
#[derive(Debug)]
pub struct ConfigValues {
    pub environment: String,
    pub port: u16,
    pub frontend_url: String,
    pub database_url: String,
    pub jwt_secret: String,
    pub smtp_host: String,
    pub smtp_port: u16,
    pub smtp_user: String,
    pub smtp_pass: String,
    pub from_email: String,
    pub ethereal_user: String,
    pub ethereal_pass: String,
}

/// Whether raw configuration values pass every check that [`Config::build`]
/// applies.
pub open spec fn config_acceptable(v: &ConfigValues) -> bool {
    &&& Environment::parse_spec(v.environment@) is Some
    &&& v.port >= 1
    &&& v.frontend_url@.len() > 0 && has_scheme_marker(v.frontend_url@)
    &&& v.database_url@.len() > 0 && has_scheme_marker(v.database_url@)
    &&& v.jwt_secret@.len() >= 32
    &&& v.smtp_host@.len() > 0
    &&& v.smtp_port >= 1
    &&& v.smtp_user@.len() > 0
    &&& v.smtp_pass@.len() > 0
    &&& valid_email(v.from_email@)
    &&& v.ethereal_user@.len() > 0
    &&& v.ethereal_pass@.len() > 0
}

impl Config {
    /// Validates raw values into a configuration: the environment must
    /// name a variant, the ports be positive, the URLs carry a scheme,
    /// the signing secret be at least 32 characters, the sender address
    /// be a valid email, and every other field be non-empty.  The log
    /// level follows the environment.
    pub fn build(values: ConfigValues) -> (r: Result<Config, ValidationError>)
        ensures
            r is Ok <==> config_acceptable(&values),
            r matches Ok(c) ==> {
                &&& Environment::parse_spec(values.environment@) == Some(c.environment)
                &&& c.log_level == log_level_for(c.environment)
                &&& c.port == values.port
                &&& c.frontend_url@ == values.frontend_url@
                &&& c.database_url@ == values.database_url@
                &&& c.jwt_secret@ == values.jwt_secret@
                &&& c.smtp_host@ == values.smtp_host@
                &&& c.smtp_port == values.smtp_port
                &&& c.smtp_user@ == values.smtp_user@
                &&& c.smtp_pass@ == values.smtp_pass@
                &&& c.from_email@ == values.from_email@
                &&& c.ethereal_user@ == values.ethereal_user@
                &&& c.ethereal_pass@ == values.ethereal_pass@
            },
    {
        let environment = match crate::validation::enums::<Environment>().validate(
            values.environment.as_str(),
        ) {
            Ok(Some(e)) => e,
            Ok(None) => {
                return Err(ValidationError::new("environment", "Environment is required"));
            },
            Err(e) => {
                proof {
                    reveal_strlit("development");
                    reveal_strlit("production");
                    reveal_strlit("test");
                }
                return Err(e);
            },
        };

        if values.port < 1 {
            return Err(ValidationError::new("port", "Port must be positive"));
        }
        if values.smtp_port < 1 {
            return Err(ValidationError::new("smtp_port", "Port must be positive"));
        }

        let frontend_url = match UrlSchema::new().validate(values.frontend_url.as_str()) {
            Ok(Some(u)) => u,
            Ok(None) => {
                return Err(ValidationError::new("frontend_url", "URL is required"));
            },
            Err(e) => {
                return Err(e);
            },
        };
        let database_url = match UrlSchema::new().validate(values.database_url.as_str()) {
            Ok(Some(u)) => u,
            Ok(None) => {
                return Err(ValidationError::new("database_url", "URL is required"));
            },
            Err(e) => {
                return Err(e);
            },
        };

        let jwt_secret = match StringSchema::new().min_length(32).validate(
            values.jwt_secret.as_str(),
        ) {
            Ok(s) => s,
            Err(e) => {
                return Err(e);
            },
        };

        let smtp_host = match StringSchema::new().validate(values.smtp_host.as_str()) {
            Ok(s) => s,
            Err(e) => {
                return Err(e);
            },
        };
        let smtp_user = match StringSchema::new().validate(values.smtp_user.as_str()) {
            Ok(s) => s,
            Err(e) => {
                return Err(e);
            },
        };
        let smtp_pass = match StringSchema::new().validate(values.smtp_pass.as_str()) {
            Ok(s) => s,
            Err(e) => {
                return Err(e);
            },
        };

        let from_email = match EmailSchema::new().validate(values.from_email.as_str()) {
            Ok(Some(e)) => e,
            Ok(None) => {
                return Err(ValidationError::new("from_email", "Email is required"));
            },
            Err(e) => {
                return Err(e);
            },
        };

        let ethereal_user = match StringSchema::new().validate(values.ethereal_user.as_str()) {
            Ok(s) => s,
            Err(e) => {
                return Err(e);
            },
        };
        let ethereal_pass = match StringSchema::new().validate(values.ethereal_pass.as_str()) {
            Ok(s) => s,
            Err(e) => {
                return Err(e);
            },
        };

        let log_level = match environment {
            Environment::Development => LogLevel::Debug,
            Environment::Production => LogLevel::Info,
            Environment::Test => LogLevel::Error,
        };

        Ok(
            Config {
                environment,
                port: values.port,
                frontend_url,
                database_url,
                jwt_secret,
                smtp_host,
                smtp_port: values.smtp_port,
                smtp_user,
                smtp_pass,
                from_email,
                ethereal_user,
                ethereal_pass,
                log_level,
            },
        )
    }
}

} // verus!
