use stellar_fees::config::{parse_origins, parse_spike_severity, Cli, Config, StellarNetwork};
use stellar_fees::insights::types::SpikeSeverity;

fn make_cli(network: &str, horizon_url: Option<&str>) -> Cli {
    Cli {
        network: Some(network.to_string()),
        horizon_url: horizon_url.map(str::to_string),
        poll_interval: Some(30),
    }
}

fn no_env() -> Vec<(String, String)> {
    Vec::new()
}

fn vars(pairs: &[(&str, &str)]) -> Vec<(String, String)> {
    pairs
        .iter()
        .map(|(k, v)| (k.to_string(), v.to_string()))
        .collect()
}

fn build(cli: &Cli, overrides: &Vec<(String, String)>) -> Result<Config, String> {
    Config::from_sources_with_overrides(cli, overrides, &no_env())
}

// ---- StellarNetwork::default_horizon_url ----

#[test]
fn testnet_defaults_to_testnet_horizon() {
    assert_eq!(
        StellarNetwork::Testnet.default_horizon_url(),
        "https://horizon-testnet.stellar.org"
    );
}

#[test]
fn mainnet_defaults_to_mainnet_horizon() {
    assert_eq!(
        StellarNetwork::Mainnet.default_horizon_url(),
        "https://horizon.stellar.org"
    );
}

// ---- Config::from_sources_with_overrides ----

#[test]
fn testnet_without_horizon_url_uses_default() {
    let cli = make_cli("testnet", None);
    let config = build(&cli, &no_env()).unwrap();
    assert_eq!(config.horizon_url, "https://horizon-testnet.stellar.org");
}

#[test]
fn mainnet_without_horizon_url_uses_default() {
    let cli = make_cli("mainnet", None);
    let config = build(&cli, &no_env()).unwrap();
    assert_eq!(config.horizon_url, "https://horizon.stellar.org");
}

#[test]
fn explicit_horizon_url_overrides_default() {
    let custom = "https://my-private-horizon.example.com";
    let cli = make_cli("testnet", Some(custom));
    let config = build(&cli, &no_env()).unwrap();
    assert_eq!(config.horizon_url, custom);
}

#[test]
fn invalid_network_returns_error() {
    let cli = make_cli("devnet", None);
    let result = build(&cli, &no_env());
    assert!(result.is_err());
    assert!(result.unwrap_err().contains("Invalid STELLAR_NETWORK"));
}

#[test]
fn api_port_defaults_to_8080() {
    let cli = make_cli("testnet", None);
    let config = build(&cli, &no_env()).unwrap();
    assert_eq!(config.api_port, 8080);
}

#[test]
fn cache_ttl_defaults_to_five_seconds() {
    let cli = make_cli("testnet", None);
    let config = build(&cli, &no_env()).unwrap();
    assert_eq!(config.cache_ttl_seconds, 5);
}

#[test]
fn cache_ttl_uses_env_override() {
    let cli = make_cli("testnet", None);
    let env = vars(&[("CACHE_TTL_SECONDS", "12")]);
    let config = build(&cli, &env).unwrap();
    assert_eq!(config.cache_ttl_seconds, 12);
}

#[test]
fn api_key_defaults_to_none() {
    let cli = make_cli("testnet", None);
    let config = build(&cli, &no_env()).unwrap();
    assert_eq!(config.api_key, None);
}

#[test]
fn rate_limit_defaults_to_sixty_requests_per_minute() {
    let cli = make_cli("testnet", None);
    let config = build(&cli, &no_env()).unwrap();
    assert_eq!(config.rate_limit_per_minute, 60);
}

#[test]
fn rate_limit_uses_env_override() {
    let cli = make_cli("testnet", None);
    let env = vars(&[("RATE_LIMIT_PER_MINUTE", "120")]);
    let config = build(&cli, &env).unwrap();
    assert_eq!(config.rate_limit_per_minute, 120);
}

#[test]
fn rate_limit_zero_falls_back_to_default() {
    let cli = make_cli("testnet", None);
    let env = vars(&[("RATE_LIMIT_PER_MINUTE", "0")]);
    let config = build(&cli, &env).unwrap();
    assert_eq!(config.rate_limit_per_minute, 60);
}

#[test]
fn api_key_reads_from_env() {
    let cli = make_cli("testnet", None);
    let env = vars(&[("API_KEY", "secret")]);
    let config = build(&cli, &env).unwrap();
    assert_eq!(config.api_key.as_deref(), Some("secret"));
}

#[test]
fn empty_api_key_is_treated_as_unset() {
    let cli = make_cli("testnet", None);
    let env = vars(&[("API_KEY", "   ")]);
    let config = build(&cli, &env).unwrap();
    assert!(config.api_key.is_none());
}

#[test]
fn webhook_url_defaults_to_none() {
    let cli = make_cli("testnet", None);
    let config = build(&cli, &no_env()).unwrap();
    assert!(config.webhook_url.is_none());
}

#[test]
fn webhook_url_uses_env_value() {
    let cli = make_cli("testnet", None);
    let env = vars(&[("WEBHOOK_URL", "https://example.com/hook")]);
    let config = build(&cli, &env).unwrap();
    assert_eq!(
        config.webhook_url.as_deref(),
        Some("https://example.com/hook")
    );
}

#[test]
fn alert_threshold_defaults_to_major() {
    let cli = make_cli("testnet", None);
    let config = build(&cli, &no_env()).unwrap();
    assert_eq!(config.alert_threshold, SpikeSeverity::Major);
}

#[test]
fn alert_threshold_parses_from_env() {
    let cli = make_cli("testnet", None);
    let env = vars(&[("ALERT_THRESHOLD", "Critical")]);
    let config = build(&cli, &env).unwrap();
    assert_eq!(config.alert_threshold, SpikeSeverity::Critical);
}

#[test]
fn invalid_alert_threshold_returns_error() {
    let cli = make_cli("testnet", None);
    let env = vars(&[("ALERT_THRESHOLD", "Severe")]);
    let result = build(&cli, &env);
    assert!(result.is_err());
    assert!(result.unwrap_err().contains("Invalid ALERT_THRESHOLD"));
}

#[test]
fn allowed_origins_defaults_to_localhost_3000() {
    let cli = make_cli("testnet", None);
    let config = build(&cli, &no_env()).unwrap();
    assert_eq!(config.allowed_origins, vec!["http://localhost:3000"]);
}

#[test]
fn allowed_origins_parses_comma_separated_list() {
    let cli = make_cli("testnet", None);
    let env = vars(&[(
        "ALLOWED_ORIGINS",
        "http://localhost:3000,https://app.example.com",
    )]);
    let config = build(&cli, &env).unwrap();
    assert_eq!(
        config.allowed_origins,
        vec!["http://localhost:3000", "https://app.example.com"]
    );
}

#[test]
fn allowed_origins_trims_whitespace() {
    let cli = make_cli("testnet", None);
    let env = vars(&[(
        "ALLOWED_ORIGINS",
        "http://localhost:3000 , https://app.example.com ",
    )]);
    let config = build(&cli, &env).unwrap();
    assert_eq!(
        config.allowed_origins,
        vec!["http://localhost:3000", "https://app.example.com"]
    );
}

// ---- further cases ----

#[test]
fn missing_network_is_an_error() {
    let cli = Cli { network: None, horizon_url: None, poll_interval: Some(30) };
    let result = build(&cli, &no_env());
    assert_eq!(result.unwrap_err(), "STELLAR_NETWORK is required");
}

#[test]
fn network_is_read_from_the_environment() {
    let cli = Cli { network: None, horizon_url: None, poll_interval: Some(30) };
    let env = vars(&[("STELLAR_NETWORK", "mainnet")]);
    let config = build(&cli, &env).unwrap();
    assert_eq!(config.stellar_network, StellarNetwork::Mainnet);
    assert_eq!(config.stellar_network.as_str(), "mainnet");
}

#[test]
fn invalid_network_message_names_the_value() {
    let cli = make_cli("devnet", None);
    assert_eq!(build(&cli, &no_env()).unwrap_err(), "Invalid STELLAR_NETWORK: devnet");
}

#[test]
fn missing_poll_interval_is_an_error() {
    let cli = Cli { network: Some("testnet".to_string()), horizon_url: None, poll_interval: None };
    let result = build(&cli, &no_env());
    assert_eq!(result.unwrap_err(), "POLL_INTERVAL_SECONDS is required and must be a number");
}

#[test]
fn poll_interval_is_parsed_from_the_environment() {
    let cli = Cli { network: Some("testnet".to_string()), horizon_url: None, poll_interval: None };
    let env = vars(&[("POLL_INTERVAL_SECONDS", "+45")]);
    assert_eq!(build(&cli, &env).unwrap().poll_interval_seconds, 45);
    let env = vars(&[("POLL_INTERVAL_SECONDS", " 45")]);
    assert!(build(&cli, &env).is_err());
}

#[test]
fn out_of_range_port_falls_back_to_default() {
    let cli = make_cli("testnet", None);
    let env = vars(&[("API_PORT", "70000")]);
    assert_eq!(build(&cli, &env).unwrap().api_port, 8080);
    let env = vars(&[("API_PORT", "65535")]);
    assert_eq!(build(&cli, &env).unwrap().api_port, 65535);
}

#[test]
fn remaining_defaults_hold() {
    let cli = make_cli("testnet", None);
    let config = build(&cli, &no_env()).unwrap();
    assert_eq!(config.retry_attempts, 3);
    assert_eq!(config.base_retry_delay_ms, 1000);
    assert_eq!(config.database_url, "sqlite://stellar_fees.db");
    assert_eq!(config.storage_retention_days, 7);
    assert_eq!(config.poll_interval_seconds, 30);
}

#[test]
fn overrides_take_precedence_over_environment() {
    let cli = make_cli("testnet", None);
    let overrides = vars(&[("CACHE_TTL_SECONDS", "12")]);
    let env = vars(&[("CACHE_TTL_SECONDS", "99"), ("API_KEY", "from-env")]);
    let config = Config::from_sources_with_overrides(&cli, &overrides, &env).unwrap();
    assert_eq!(config.cache_ttl_seconds, 12);
    assert_eq!(config.api_key.as_deref(), Some("from-env"));
}

#[test]
fn from_sources_reads_the_environment_snapshot() {
    let cli = make_cli("testnet", None);
    let env = vars(&[("DATABASE_URL", "sqlite::memory:"), ("DATABASE_URL", "ignored")]);
    let config = Config::from_sources(&cli, &env).unwrap();
    assert_eq!(config.database_url, "sqlite::memory:");
}

#[test]
fn spike_severity_parsing_ignores_case_and_whitespace() {
    assert_eq!(parse_spike_severity(" minor\t"), Ok(SpikeSeverity::Minor));
    assert_eq!(parse_spike_severity("MODERATE"), Ok(SpikeSeverity::Moderate));
    assert_eq!(parse_spike_severity("Major"), Ok(SpikeSeverity::Major));
    assert_eq!(
        parse_spike_severity(" Severe "),
        Err("Invalid ALERT_THRESHOLD:  Severe ".to_string())
    );
}

#[test]
fn origins_drop_empty_pieces() {
    assert_eq!(parse_origins(" a ,, b,"), vec!["a", "b"]);
    assert!(parse_origins("").is_empty());
    assert!(parse_origins(" , ").is_empty());
}
