//! The settings of one run: what the settings file gives, what the command
//! line overrides, and what must be present before anything is fetched.

use vstd::prelude::*;
use vstd::string::StringExecFns;
use crate::text::{copy_optional, optional_view};

verus! {

/// The number of days before expiry at which a certificate is fetched again,
/// where nothing else is configured.
pub const DEFAULT_REFRESH_DAYS: u64 = 14;

/// The settings that a run works with.
#[derive(Debug, PartialEq, Eq)]
pub struct Config {
    pub domain: String,
    pub refresh_days: u64,
    pub certificate_path: String,
    pub filename: Option<String>,
    pub core: String,
    pub apikey: String,
    pub hub: String,
    pub command: Option<String>,
    pub wildcard: bool,
}

/// What a settings file holds. Every key may be left out.
#[derive(Debug, Default, PartialEq, Eq)]
pub struct ConfigFile {
    pub domain: Option<String>,
    pub refresh_days: Option<u64>,
    pub certificate_path: Option<String>,
    pub filename: Option<String>,
    pub core: Option<String>,
    pub apikey: Option<String>,
    pub hub: Option<String>,
    pub command: Option<String>,
    pub wildcard: Option<bool>,
}

/// The options of the command line. Each one that is given overrides the
/// setting of the same meaning.
#[derive(Debug, Default, PartialEq, Eq)]
pub struct Cli {
    /// Sets a custom config file
    pub config: Option<String>,
    /// The hostname of the desired certificate.
    pub domain: Option<String>,
    /// The path to write the fetched certificate bundle to.
    pub path: Option<String>,
    /// Overrides the filename of the certificate.
    pub filename: Option<String>,
    /// The core the certificate is on.
    pub core: Option<String>,
    /// The API key.
    pub apikey: Option<String>,
    /// The number of days before the expiration to refresh this certificate.
    pub refresh_days: Option<u64>,
    /// The hub ID the DNS record is associated with.
    pub hub: Option<String>,
    /// A command to run after successfully fetching a certificate.
    pub command: Option<String>,
}

/// Why a set of settings cannot be used.
#[derive(Clone, Copy, Debug, PartialEq, Eq, Structural)]
pub enum ConfigError {
    MissingDomain,
    MissingApiKey,
    MissingHub,
}

/// What a `Config` holds.
pub struct ConfigView {
    pub domain: Seq<char>,
    pub refresh_days: u64,
    pub certificate_path: Seq<char>,
    pub filename: Option<Seq<char>>,
    pub core: Seq<char>,
    pub apikey: Seq<char>,
    pub hub: Seq<char>,
    pub command: Option<Seq<char>>,
    pub wildcard: bool,
}

/// What a `ConfigFile` holds.
pub struct ConfigFileView {
    pub domain: Option<Seq<char>>,
    pub refresh_days: Option<u64>,
    pub certificate_path: Option<Seq<char>>,
    pub filename: Option<Seq<char>>,
    pub core: Option<Seq<char>>,
    pub apikey: Option<Seq<char>>,
    pub hub: Option<Seq<char>>,
    pub command: Option<Seq<char>>,
    pub wildcard: Option<bool>,
}

/// What a `Cli` holds.
pub struct CliView {
    pub config: Option<Seq<char>>,
    pub domain: Option<Seq<char>>,
    pub path: Option<Seq<char>>,
    pub filename: Option<Seq<char>>,
    pub core: Option<Seq<char>>,
    pub apikey: Option<Seq<char>>,
    pub refresh_days: Option<u64>,
    pub hub: Option<Seq<char>>,
    pub command: Option<Seq<char>>,
}

impl View for Config {
    type V = ConfigView;

    open spec fn view(&self) -> ConfigView {
        ConfigView {
            domain: self.domain@,
            refresh_days: self.refresh_days,
            certificate_path: self.certificate_path@,
            filename: optional_view(self.filename),
            core: self.core@,
            apikey: self.apikey@,
            hub: self.hub@,
            command: optional_view(self.command),
            wildcard: self.wildcard,
        }
    }
}

impl View for ConfigFile {
    type V = ConfigFileView;

    open spec fn view(&self) -> ConfigFileView {
        ConfigFileView {
            domain: optional_view(self.domain),
            refresh_days: self.refresh_days,
            certificate_path: optional_view(self.certificate_path),
            filename: optional_view(self.filename),
            core: optional_view(self.core),
            apikey: optional_view(self.apikey),
            hub: optional_view(self.hub),
            command: optional_view(self.command),
            wildcard: self.wildcard,
        }
    }
}

impl View for Cli {
    type V = CliView;

    open spec fn view(&self) -> CliView {
        CliView {
            config: optional_view(self.config),
            domain: optional_view(self.domain),
            path: optional_view(self.path),
            filename: optional_view(self.filename),
            core: optional_view(self.core),
            apikey: optional_view(self.apikey),
            refresh_days: self.refresh_days,
            hub: optional_view(self.hub),
            command: optional_view(self.command),
        }
    }
}

/// `value` where it is given, `fallback` where it is not.
pub open spec fn given_or<T>(value: Option<T>, fallback: T) -> T {
    match value {
        Some(v) => v,
        None => fallback,
    }
}

/// `value` where it is given, `fallback` where it is not.
pub open spec fn given_or_else<T>(value: Option<T>, fallback: Option<T>) -> Option<T> {
    match value {
        Some(v) => Some(v),
        None => fallback,
    }
}

/// The settings that hold where no file and no option says otherwise.
pub open spec fn default_settings() -> ConfigView {
    ConfigView {
        domain: ""@,
        refresh_days: DEFAULT_REFRESH_DAYS,
        certificate_path: "."@,
        filename: None,
        core: "api.cycle.io"@,
        apikey: ""@,
        hub: ""@,
        command: None,
        wildcard: false,
    }
}

/// The settings of a file: each key that it leaves out has its default.
pub open spec fn file_settings(file: ConfigFileView) -> ConfigView {
    let d = default_settings();
    ConfigView {
        domain: given_or(file.domain, d.domain),
        refresh_days: given_or(file.refresh_days, d.refresh_days),
        certificate_path: given_or(file.certificate_path, d.certificate_path),
        filename: file.filename,
        core: given_or(file.core, d.core),
        apikey: given_or(file.apikey, d.apikey),
        hub: given_or(file.hub, d.hub),
        command: file.command,
        wildcard: given_or(file.wildcard, d.wildcard),
    }
}

/// The settings after the command line has had its say: an option that is
/// given replaces the setting, one that is not leaves it alone.
pub open spec fn merged_settings(base: ConfigView, cli: CliView) -> ConfigView {
    ConfigView {
        domain: given_or(cli.domain, base.domain),
        refresh_days: given_or(cli.refresh_days, base.refresh_days),
        certificate_path: given_or(cli.path, base.certificate_path),
        filename: given_or_else(cli.filename, base.filename),
        core: given_or(cli.core, base.core),
        apikey: given_or(cli.apikey, base.apikey),
        hub: given_or(cli.hub, base.hub),
        command: given_or_else(cli.command, base.command),
        wildcard: base.wildcard,
    }
}

/// What is missing from `config`, if anything: the domain is looked at
/// first, then the API key, then the hub.
pub open spec fn missing_setting(config: ConfigView) -> Option<ConfigError> {
    if config.domain.len() == 0 {
        Some(ConfigError::MissingDomain)
    } else if config.apikey.len() == 0 {
        Some(ConfigError::MissingApiKey)
    } else if config.hub.len() == 0 {
        Some(ConfigError::MissingHub)
    } else {
        None
    }
}

/// Copies `value` where it is given, `fallback` where it is not.
fn text_or(value: &Option<String>, fallback: &str) -> (text: String)
    ensures
        text@ == given_or(optional_view(*value), fallback@),
{
    match value {
        Some(s) => s.clone(),
        None => String::from_str(fallback),
    }
}

/// Replaces `setting` by `option` where the option is given.
fn override_text(setting: String, option: &Option<String>) -> (text: String)
    ensures
        text@ == given_or(optional_view(*option), setting@),
{
    match option {
        Some(s) => s.clone(),
        None => setting,
    }
}

/// Replaces `setting` by `option` where the option is given.
fn override_optional(setting: Option<String>, option: &Option<String>) -> (text: Option<String>)
    ensures
        optional_view(text) == given_or_else(optional_view(*option), optional_view(setting)),
{
    match option {
        Some(s) => Some(s.clone()),
        None => setting,
    }
}

impl ConfigError {
    /// The message for the operator, without a line break.
    pub open spec fn text(self) -> Seq<char> {
        match self {
            ConfigError::MissingDomain => "No hostname or DNS record provided to fetch certificate for"@,
            ConfigError::MissingApiKey => "Missing API key - An API key must be provided."@,
            ConfigError::MissingHub => "Missing hub ID - A hub ID must be provided."@,
        }
    }

    /// The message for the operator.
    pub fn message(&self) -> (m: String)
        ensures
            m@ == self.text(),
    {
        match self {
            ConfigError::MissingDomain => String::from_str(
                "No hostname or DNS record provided to fetch certificate for",
            ),
            ConfigError::MissingApiKey => String::from_str(
                "Missing API key - An API key must be provided.",
            ),
            ConfigError::MissingHub => String::from_str(
                "Missing hub ID - A hub ID must be provided.",
            ),
        }
    }
}

impl Config {
    /// The name of the settings file to look for: the one asked for, or
    /// `./config`.
    pub fn file_name(source: Option<&str>) -> (name: String)
        ensures
            name@ == (match source {
                Some(s) => s@,
                None => "./config"@,
            }),
    {
        match source {
            Some(s) => String::from_str(s),
            None => String::from_str("./config"),
        }
    }

    /// The settings that `source` gives, with the default for each key that it
    /// leaves out; the defaults alone where there is no file.
    pub fn new(source: Option<&ConfigFile>) -> (config: Config)
        ensures
            config@ == (match source {
                Some(file) => file_settings(file@),
                None => default_settings(),
            }),
    {
        match source {
            Some(file) => Config {
                domain: text_or(&file.domain, ""),
                refresh_days: match file.refresh_days {
                    Some(days) => days,
                    None => DEFAULT_REFRESH_DAYS,
                },
                certificate_path: text_or(&file.certificate_path, "."),
                filename: copy_optional(&file.filename),
                core: text_or(&file.core, "api.cycle.io"),
                apikey: text_or(&file.apikey, ""),
                hub: text_or(&file.hub, ""),
                command: copy_optional(&file.command),
                wildcard: match file.wildcard {
                    Some(w) => w,
                    None => false,
                },
            },
            None => Config {
                domain: String::from_str(""),
                refresh_days: DEFAULT_REFRESH_DAYS,
                certificate_path: String::from_str("."),
                filename: None,
                core: String::from_str("api.cycle.io"),
                apikey: String::from_str(""),
                hub: String::from_str(""),
                command: None,
                wildcard: false,
            },
        }
    }

    /// Merge the CLI options with the config file.
    pub fn merge_args(self, cli: &Cli) -> (merged: Config)
        ensures
            merged@ == merged_settings(self@, cli@),
    {
        Config {
            domain: override_text(self.domain, &cli.domain),
            refresh_days: match cli.refresh_days {
                Some(days) => days,
                None => self.refresh_days,
            },
            certificate_path: override_text(self.certificate_path, &cli.path),
            filename: override_optional(self.filename, &cli.filename),
            core: override_text(self.core, &cli.core),
            apikey: override_text(self.apikey, &cli.apikey),
            hub: override_text(self.hub, &cli.hub),
            command: override_optional(self.command, &cli.command),
            wildcard: self.wildcard,
        }
    }

    /// Hands the settings back where a domain, an API key and a hub are set,
    /// and says which one is missing where one is.
    pub fn validate(self) -> (checked: Result<Config, ConfigError>)
        ensures
            match checked {
                Ok(config) => missing_setting(self@) is None && config == self,
                Err(e) => missing_setting(self@) == Some(e),
            },
    {
        if self.domain.as_str().is_empty() {
            return Err(ConfigError::MissingDomain);
        }
        if self.apikey.as_str().is_empty() {
            return Err(ConfigError::MissingApiKey);
        }
        if self.hub.as_str().is_empty() {
            return Err(ConfigError::MissingHub);
        }
        Ok(self)
    }

    /// The days of lead as a signed number, where they fit one.
    pub fn refresh_lead_days(&self) -> (days: Option<i64>)
        ensures
            days == (if self.refresh_days <= i64::MAX {
                Some(self.refresh_days as i64)
            } else {
                None
            }),
    {
        if self.refresh_days <= 0x7fff_ffff_ffff_ffff {
            Some(self.refresh_days as i64)
        } else {
            None
        }
    }
}

} // verus!
