use cycle_certs::config::{Cli, Config, ConfigError, ConfigFile};

/// Parses command line arguments into the options that the library merges.
fn parse_cli(args: &[&str]) -> Cli {
    let text = |id: &'static str, short: Option<char>| {
        let arg = clap::Arg::new(id).long(id).num_args(1);
        match short {
            Some(c) => arg.short(c),
            None => arg,
        }
    };
    let matches = clap::Command::new("cycle-certs")
        .arg(text("config", Some('c')))
        .arg(text("domain", Some('d')))
        .arg(text("path", Some('p')))
        .arg(text("filename", Some('f')))
        .arg(text("core", None))
        .arg(text("apikey", Some('a')))
        .arg(
            clap::Arg::new("refresh_days")
                .long("refresh-days")
                .short('r')
                .num_args(1)
                .default_value("14"),
        )
        .arg(text("hub", None))
        .arg(text("exec", Some('e')))
        .get_matches_from(args.iter().copied());
    let get = |id: &str| matches.get_one::<String>(id).cloned();
    Cli {
        config: get("config"),
        domain: get("domain"),
        path: get("path"),
        filename: get("filename"),
        core: get("core"),
        apikey: get("apikey"),
        refresh_days: get("refresh_days").map(|days| days.parse::<u64>().unwrap()),
        hub: get("hub"),
        command: get("exec"),
    }
}

/// Reads the settings file of that name, which need not exist.
fn read_settings(source: Option<&str>) -> ConfigFile {
    let name = Config::file_name(source);
    let loaded = config::Config::builder()
        .add_source(config::File::with_name(&name).required(false))
        .build()
        .unwrap();
    ConfigFile {
        domain: loaded.get_string("domain").ok(),
        refresh_days: loaded.get_int("refresh_days").ok().map(|days| days as u64),
        certificate_path: loaded.get_string("certificate_path").ok(),
        filename: loaded.get_string("filename").ok(),
        core: loaded.get_string("core").ok(),
        apikey: loaded.get_string("apikey").ok(),
        hub: loaded.get_string("hub").ok(),
        command: loaded.get_string("exec").ok(),
        wildcard: loaded.get_bool("wildcard").ok(),
    }
}

#[test]
fn test_merged_config() {
    let file = read_settings(None);
    let mut cfg = Config::new(Some(&file));
    let cli = parse_cli(&[
        "cycle-certs",
        "--domain=cycle.io",
        "--apikey=123",
        "--path=./certs",
        "--filename=certs",
        "--core=api.dev.cycle.io",
        "--hub=myhub",
    ]);

    cfg = cfg.merge_args(&cli);

    assert_eq!(cfg.apikey, "123");
    assert_eq!(cfg.domain, "cycle.io");
    assert_eq!(cfg.certificate_path, "./certs");
    assert_eq!(cfg.filename, Some("certs".into()));
    assert_eq!(cfg.core, "api.dev.cycle.io");
    assert_eq!(cfg.hub, "myhub");
}

#[test]
fn test_config_validation() {
    // use fakepath in case there's a config default in the directory.
    let file = read_settings(Some("fakepath"));
    let cfg = Config::new(Some(&file));
    let cli = parse_cli(&[""]);

    assert!(
        cfg.merge_args(&cli).validate().is_err(),
        "Config should fail to validate if apikey, domain, or hub aren't set."
    );
}

#[test]
fn defaults_hold_without_a_file() {
    let cfg = Config::new(None);
    assert_eq!(cfg.domain, "");
    assert_eq!(cfg.refresh_days, 14);
    assert_eq!(cfg.certificate_path, ".");
    assert_eq!(cfg.filename, None);
    assert_eq!(cfg.core, "api.cycle.io");
    assert_eq!(cfg.apikey, "");
    assert_eq!(cfg.hub, "");
    assert_eq!(cfg.command, None);
    assert!(!cfg.wildcard);
}

#[test]
fn an_empty_file_gives_the_defaults() {
    assert_eq!(Config::new(Some(&ConfigFile::default())), Config::new(None));
}

#[test]
fn a_file_overrides_the_defaults_key_by_key() {
    let file = ConfigFile {
        domain: Some("cycle.io".to_string()),
        refresh_days: Some(30),
        filename: Some("site".to_string()),
        command: Some("nginx -s reload".to_string()),
        wildcard: Some(true),
        ..ConfigFile::default()
    };
    let cfg = Config::new(Some(&file));
    assert_eq!(cfg.domain, "cycle.io");
    assert_eq!(cfg.refresh_days, 30);
    assert_eq!(cfg.certificate_path, ".");
    assert_eq!(cfg.filename, Some("site".to_string()));
    assert_eq!(cfg.core, "api.cycle.io");
    assert_eq!(cfg.command, Some("nginx -s reload".to_string()));
    assert!(cfg.wildcard);
}

#[test]
fn options_that_are_not_given_leave_the_settings_alone() {
    let file = ConfigFile {
        domain: Some("cycle.io".to_string()),
        apikey: Some("secret".to_string()),
        hub: Some("hub".to_string()),
        filename: Some("site".to_string()),
        command: Some("true".to_string()),
        refresh_days: Some(21),
        wildcard: Some(true),
        ..ConfigFile::default()
    };
    let merged = Config::new(Some(&file)).merge_args(&Cli::default());
    assert_eq!(merged, Config::new(Some(&file)));
}

#[test]
fn every_option_overrides_its_setting() {
    let cli = Cli {
        config: Some("elsewhere".to_string()),
        domain: Some("petrichor.io".to_string()),
        path: Some("/etc/certs".to_string()),
        filename: Some("cert".to_string()),
        core: Some("api.dev.cycle.io".to_string()),
        apikey: Some("key".to_string()),
        refresh_days: Some(7),
        hub: Some("hub".to_string()),
        command: Some("systemctl reload nginx".to_string()),
    };
    let merged = Config::new(None).merge_args(&cli);
    assert_eq!(merged.domain, "petrichor.io");
    assert_eq!(merged.certificate_path, "/etc/certs");
    assert_eq!(merged.filename, Some("cert".to_string()));
    assert_eq!(merged.core, "api.dev.cycle.io");
    assert_eq!(merged.apikey, "key");
    assert_eq!(merged.refresh_days, 7);
    assert_eq!(merged.hub, "hub");
    assert_eq!(merged.command, Some("systemctl reload nginx".to_string()));
    assert!(!merged.wildcard);
}

fn complete() -> Config {
    Config::new(None).merge_args(&Cli {
        domain: Some("cycle.io".to_string()),
        apikey: Some("123".to_string()),
        hub: Some("myhub".to_string()),
        ..Cli::default()
    })
}

#[test]
fn complete_settings_validate_unchanged() {
    assert_eq!(complete().validate(), Ok(complete()));
}

#[test]
fn a_missing_domain_is_reported_first() {
    assert_eq!(Config::new(None).validate(), Err(ConfigError::MissingDomain));
    let mut cfg = complete();
    cfg.domain = String::new();
    assert_eq!(cfg.validate(), Err(ConfigError::MissingDomain));
}

#[test]
fn a_missing_api_key_is_reported_before_a_missing_hub() {
    let mut cfg = complete();
    cfg.apikey = String::new();
    cfg.hub = String::new();
    assert_eq!(cfg.validate(), Err(ConfigError::MissingApiKey));
}

#[test]
fn a_missing_hub_is_reported() {
    let mut cfg = complete();
    cfg.hub = String::new();
    assert_eq!(cfg.validate(), Err(ConfigError::MissingHub));
}

#[test]
fn config_errors_have_their_messages() {
    assert_eq!(
        ConfigError::MissingDomain.message(),
        "No hostname or DNS record provided to fetch certificate for"
    );
    assert_eq!(
        ConfigError::MissingApiKey.message(),
        "Missing API key - An API key must be provided."
    );
    assert_eq!(ConfigError::MissingHub.message(), "Missing hub ID - A hub ID must be provided.");
}

#[test]
fn the_settings_file_defaults_to_config_in_the_working_directory() {
    assert_eq!(Config::file_name(None), "./config");
    assert_eq!(Config::file_name(Some("fakepath")), "fakepath");
}

#[test]
fn lead_days_are_signed_where_they_fit() {
    let mut cfg = complete();
    assert_eq!(cfg.refresh_lead_days(), Some(14));
    cfg.refresh_days = i64::MAX as u64;
    assert_eq!(cfg.refresh_lead_days(), Some(i64::MAX));
    cfg.refresh_days = i64::MAX as u64 + 1;
    assert_eq!(cfg.refresh_lead_days(), None);
    cfg.refresh_days = u64::MAX;
    assert_eq!(cfg.refresh_lead_days(), None);
}
