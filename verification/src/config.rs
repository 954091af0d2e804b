//! Merging of command-line options, file-supplied options and defaults into
//! the effective application configuration.
//!
//! Reading the configuration file and parsing its TOML happen outside this
//! library; the values found there arrive here as a [`TomlConfig`].
use vstd::prelude::*;

use crate::errors::ConfigError;

verus! {

pub const DEFAULT_ERROR_DAYS: i64 = 14;

pub const DEFAULT_WARNING_DAYS: i64 = 30;

pub const DEFAULT_LOG_LEVEL: &'static str = "info";

/// The effective application configuration.
#[derive(Debug)]
pub struct AppConfig {
    pub urls: Vec<String>,
    pub error_days: i64,
    pub warning_days: i64,
    pub log_level: String,
    pub check_frequency: Option<u32>,
    pub slack_webhook_url: Option<String>,
}

/// The options a configuration file may supply.
#[derive(Debug, Default)]
pub struct TomlConfig {
    pub urls: Option<Vec<String>>,
    pub error_days: Option<i64>,
    pub warning_days: Option<i64>,
    pub log_level: Option<String>,
    pub check_frequency: Option<u32>,
    pub slack_webhook_url: Option<String>,
}

/// The options the command line may supply. The `config_file` path is acted
/// on by the caller, which loads the file and hands its contents in as a
/// [`TomlConfig`].
#[derive(Debug)]
pub struct CliArgs {
    pub urls: Option<Vec<String>>,
    pub error_days: Option<i64>,
    pub warning_days: Option<i64>,
    pub log_level: Option<String>,
    pub slack_webhook_url: Option<String>,
    pub check_frequency: Option<u32>,
    pub config_file: Option<String>,
}

/// The first of two optional values, the command line winning over the file.
pub open spec fn spec_or<T>(cli: Option<T>, toml: Option<T>) -> Option<T> {
    if cli is Some {
        cli
    } else {
        toml
    }
}

/// The URL list that the merge settles on: the command line's if given, else
/// the file's, and `None` when the settled list is missing or empty.
pub open spec fn spec_merged_urls(
    cli: Option<Seq<Seq<char>>>,
    toml: Option<Seq<Seq<char>>>,
) -> Option<Seq<Seq<char>>> {
    match spec_or(cli, toml) {
        Some(u) => if u.len() > 0 {
            Some(u)
        } else {
            None
        },
        None => None,
    }
}

impl AppConfig {
    /// Merge command-line options over file options over defaults.
    ///
    /// The command line wins wherever it supplies a value; the file fills
    /// what is left; the defaults fill the rest. A missing or empty URL list
    /// is the only error.
    pub fn build(args: CliArgs, toml_config: TomlConfig) -> (r: Result<AppConfig, ConfigError>)
        ensures
            r is Err <==> spec_merged_urls(
                args.urls.deep_view(),
                toml_config.urls.deep_view(),
            ) is None,
            r matches Err(e) ==> e is MissingUrls,
            r matches Ok(c) ==> {
                &&& Some(c.urls.deep_view()) == spec_merged_urls(
                    args.urls.deep_view(),
                    toml_config.urls.deep_view(),
                )
                &&& c.error_days == spec_or(args.error_days, toml_config.error_days).unwrap_or(
                    DEFAULT_ERROR_DAYS,
                )
                &&& c.warning_days == spec_or(
                    args.warning_days,
                    toml_config.warning_days,
                ).unwrap_or(DEFAULT_WARNING_DAYS)
                &&& c.log_level.deep_view() == spec_or(
                    args.log_level.deep_view(),
                    toml_config.log_level.deep_view(),
                ).unwrap_or(DEFAULT_LOG_LEVEL@)
                &&& c.check_frequency == spec_or(args.check_frequency, toml_config.check_frequency)
                &&& c.slack_webhook_url.deep_view() == spec_or(
                    args.slack_webhook_url.deep_view(),
                    toml_config.slack_webhook_url.deep_view(),
                )
            },
    {
        let urls_opt = match args.urls {
            Some(u) => Some(u),
            None => toml_config.urls,
        };
        let urls = match urls_opt {
            Some(u) => {
                if u.len() == 0 {
                    return Err(ConfigError::MissingUrls);
                }
                u
            },
            None => {
                return Err(ConfigError::MissingUrls);
            },
        };
        let error_days = match args.error_days {
            Some(d) => d,
            None => match toml_config.error_days {
                Some(d) => d,
                None => DEFAULT_ERROR_DAYS,
            },
        };
        let warning_days = match args.warning_days {
            Some(d) => d,
            None => match toml_config.warning_days {
                Some(d) => d,
                None => DEFAULT_WARNING_DAYS,
            },
        };
        let log_level = match args.log_level {
            Some(l) => l,
            None => match toml_config.log_level {
                Some(l) => l,
                None => DEFAULT_LOG_LEVEL.to_owned(),
            },
        };
        let check_frequency = match args.check_frequency {
            Some(f) => Some(f),
            None => toml_config.check_frequency,
        };
        let slack_webhook_url = match args.slack_webhook_url {
            Some(s) => Some(s),
            None => toml_config.slack_webhook_url,
        };
        Ok(AppConfig { urls, error_days, warning_days, log_level, check_frequency, slack_webhook_url })
    }
}

} // verus!
