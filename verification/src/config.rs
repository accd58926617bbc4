//! Service configuration, built from command-line flags and environment
//! variables.
//!
//! The environment is handed in as plain `(name, value)` pairs: first any
//! explicit overrides, then a snapshot of the process environment. A name is
//! looked up in the overrides first and in the snapshot after; within either
//! list the first pair with that name counts.

use vstd::prelude::*;

use crate::insights::types::SpikeSeverity;
use crate::text::{
    chars_eq_str, chars_of, int_opt, lower, parse_unsigned, parse_unsigned_chars, pieces_view,
    split_chars, split_on, string_from_chars, to_ascii_lower, trim, trim_bounds, trim_chars,
};

verus! {

/// Flags given on the command line.
#[derive(Debug, Clone)]
pub struct Cli {
    pub network: Option<String>,
    pub horizon_url: Option<String>,
    pub poll_interval: Option<u64>,
}

/// The Stellar network that the service watches.
#[derive(Debug, Clone, Copy, PartialEq, Eq, Structural)]
pub enum StellarNetwork {
    Testnet,
    Mainnet,
}

/// The well-known public Horizon endpoint of `n`.
pub open spec fn horizon_url_of(n: StellarNetwork) -> Seq<char> {
    match n {
        StellarNetwork::Testnet => "https://horizon-testnet.stellar.org"@,
        StellarNetwork::Mainnet => "https://horizon.stellar.org"@,
    }
}

/// The short name of `n`.
pub open spec fn network_name(n: StellarNetwork) -> Seq<char> {
    match n {
        StellarNetwork::Testnet => "testnet"@,
        StellarNetwork::Mainnet => "mainnet"@,
    }
}

impl StellarNetwork {
    /// Returns the well-known public Horizon URL for this network.
    /// Used as the default when `HORIZON_URL` is not explicitly configured.
    pub fn default_horizon_url(&self) -> (s: &'static str)
        ensures
            s@ == horizon_url_of(*self),
    {
        match self {
            StellarNetwork::Testnet => "https://horizon-testnet.stellar.org",
            StellarNetwork::Mainnet => "https://horizon.stellar.org",
        }
    }

    pub fn as_str(&self) -> (s: &'static str)
        ensures
            s@ == network_name(*self),
    {
        match self {
            StellarNetwork::Testnet => "testnet",
            StellarNetwork::Mainnet => "mainnet",
        }
    }
}

/// The complete service configuration.
#[derive(Debug, Clone)]
pub struct Config {
    pub stellar_network: StellarNetwork,
    pub horizon_url: String,
    pub poll_interval_seconds: u64,
    pub cache_ttl_seconds: u64,
    pub api_key: Option<String>,
    pub rate_limit_per_minute: u32,
    pub webhook_url: Option<String>,
    pub alert_threshold: SpikeSeverity,
    pub api_port: u16,
    pub allowed_origins: Vec<String>,
    pub retry_attempts: u32,
    pub base_retry_delay_ms: u64,
    pub database_url: String,
    pub storage_retention_days: u64,
}

/// A `Config` with its texts as character sequences.
pub struct ConfigView {
    pub stellar_network: StellarNetwork,
    pub horizon_url: Seq<char>,
    pub poll_interval_seconds: u64,
    pub cache_ttl_seconds: u64,
    pub api_key: Option<Seq<char>>,
    pub rate_limit_per_minute: u32,
    pub webhook_url: Option<Seq<char>>,
    pub alert_threshold: SpikeSeverity,
    pub api_port: u16,
    pub allowed_origins: Seq<Seq<char>>,
    pub retry_attempts: u32,
    pub base_retry_delay_ms: u64,
    pub database_url: Seq<char>,
    pub storage_retention_days: u64,
}

pub open spec fn opt_view(o: Option<String>) -> Option<Seq<char>> {
    match o {
        Some(s) => Some(s@),
        None => None,
    }
}

pub open spec fn strings_view(v: Seq<String>) -> Seq<Seq<char>> {
    v.map_values(|s: String| s@)
}

impl View for Config {
    type V = ConfigView;

    open spec fn view(&self) -> ConfigView {
        ConfigView {
            stellar_network: self.stellar_network,
            horizon_url: self.horizon_url@,
            poll_interval_seconds: self.poll_interval_seconds,
            cache_ttl_seconds: self.cache_ttl_seconds,
            api_key: opt_view(self.api_key),
            rate_limit_per_minute: self.rate_limit_per_minute,
            webhook_url: opt_view(self.webhook_url),
            alert_threshold: self.alert_threshold,
            api_port: self.api_port,
            allowed_origins: strings_view(self.allowed_origins@),
            retry_attempts: self.retry_attempts,
            base_retry_delay_ms: self.base_retry_delay_ms,
            database_url: self.database_url@,
            storage_retention_days: self.storage_retention_days,
        }
    }
}

// ---------------------------------------------------------------------------
// Looking names up
// ---------------------------------------------------------------------------

/// A list of `(name, value)` pairs as character sequences.
pub open spec fn pairs_view(t: Seq<(String, String)>) -> Seq<(Seq<char>, Seq<char>)> {
    t.map_values(|p: (String, String)| (p.0@, p.1@))
}

/// The value of the first pair named `key` in `t`.
pub open spec fn first_value(t: Seq<(Seq<char>, Seq<char>)>, key: Seq<char>) -> Option<Seq<char>>
    decreases t.len(),
{
    if t.len() == 0 {
        None
    } else if t[0].0 == key {
        Some(t[0].1)
    } else {
        first_value(t.drop_first(), key)
    }
}

/// The value of `key`: from the overrides when they name it, else from the
/// environment snapshot.
pub open spec fn env_get(
    overrides: Seq<(String, String)>,
    env: Seq<(String, String)>,
    key: Seq<char>,
) -> Option<Seq<char>> {
    match first_value(pairs_view(overrides), key) {
        Some(v) => Some(v),
        None => first_value(pairs_view(env), key),
    }
}

/// An override always wins: when the overrides name `key`, the environment
/// snapshot is not consulted for it; when they do not, the snapshot decides.
pub proof fn law_overrides_take_precedence(
    overrides: Seq<(String, String)>,
    env: Seq<(String, String)>,
    key: Seq<char>,
)
    ensures
        first_value(pairs_view(overrides), key) is Some ==> env_get(overrides, env, key)
            == first_value(pairs_view(overrides), key),
        first_value(pairs_view(overrides), key) is None ==> env_get(overrides, env, key)
            == first_value(pairs_view(env), key),
{
}

/// The Horizon URL of a built configuration: the `--horizon-url` flag when
/// given; else the `HORIZON_URL` variable when set; else the well-known
/// endpoint of the chosen network.
pub proof fn law_horizon_url_source(
    cli: Cli,
    overrides: Seq<(String, String)>,
    env: Seq<(String, String)>,
)
    ensures
        config_result(cli, overrides, env) matches Ok(c) ==> {
            &&& (cli.horizon_url matches Some(u) ==> c.horizon_url == u@)
            &&& (cli.horizon_url is None && env_get(overrides, env, "HORIZON_URL"@) is Some
                ==> Some(c.horizon_url) == env_get(overrides, env, "HORIZON_URL"@))
            &&& (cli.horizon_url is None && env_get(overrides, env, "HORIZON_URL"@) is None
                ==> c.horizon_url == horizon_url_of(c.stellar_network))
        },
{
}

/// The network of a built configuration is the one the `--network` flag
/// names, else the one `STELLAR_NETWORK` names; any other text is an error
/// that names it.
pub proof fn law_network_source(
    cli: Cli,
    overrides: Seq<(String, String)>,
    env: Seq<(String, String)>,
)
    ensures
        ({
            let raw = match cli.network {
                Some(n) => Some(n@),
                None => env_get(overrides, env, "STELLAR_NETWORK"@),
            };
            &&& (raw is None ==> config_result(cli, overrides, env) == Err::<
                ConfigView,
                Seq<char>,
            >("STELLAR_NETWORK is required"@))
            &&& (config_result(cli, overrides, env) matches Ok(c) ==> raw == Some(
                network_name(c.stellar_network),
            ))
        }),
{
}

/// A name that no pair carries has no value.
pub proof fn law_unnamed_key_is_unset(t: Seq<(Seq<char>, Seq<char>)>, key: Seq<char>)
    requires
        forall|i: int| 0 <= i < t.len() ==> (#[trigger] t[i]).0 != key,
    ensures
        first_value(t, key) is None,
{
    lemma_first_value_skip(t, key, t.len() as int);
    assert(t.skip(t.len() as int) =~= Seq::<(Seq<char>, Seq<char>)>::empty());
}

proof fn lemma_first_value_skip(t: Seq<(Seq<char>, Seq<char>)>, key: Seq<char>, i: int)
    requires
        0 <= i <= t.len(),
        forall|j: int| 0 <= j < i ==> (#[trigger] t[j]).0 != key,
    ensures
        first_value(t, key) == first_value(t.skip(i), key),
    decreases i,
{
    if i > 0 {
        let u = t.drop_first();
        assert forall|j: int| 0 <= j < i - 1 implies (#[trigger] u[j]).0 != key by {
            assert(u[j] == t[j + 1]);
        }
        lemma_first_value_skip(u, key, i - 1);
        assert(u.skip(i - 1) =~= t.skip(i));
    } else {
        assert(t.skip(0) =~= t);
    }
}

fn first_value_of(t: &Vec<(String, String)>, key: &String) -> (r: Option<String>)
    ensures
        opt_view(r) == first_value(pairs_view(t@), key@),
{
    let ghost tv = pairs_view(t@);
    let mut i: usize = 0;
    while i < t.len()
        invariant
            i <= t.len(),
            tv == pairs_view(t@),
            forall|j: int| 0 <= j < i ==> (#[trigger] tv[j]).0 != key@,
        decreases t.len() - i,
    {
        if t[i].0 == *key {
            proof {
                lemma_first_value_skip(tv, key@, i as int);
                assert(tv.skip(i as int)[0] == tv[i as int]);
            }
            return Some(t[i].1.clone());
        }
        i = i + 1;
    }
    proof {
        lemma_first_value_skip(tv, key@, i as int);
    }
    None
}

fn env_lookup(overrides: &Vec<(String, String)>, env: &Vec<(String, String)>, key: &str) -> (r:
    Option<String>)
    ensures
        opt_view(r) == env_get(overrides@, env@, key@),
{
    let k = String::from_str(key);
    match first_value_of(overrides, &k) {
        Some(v) => Some(v),
        None => first_value_of(env, &k),
    }
}

// ---------------------------------------------------------------------------
// Reading single settings
// ---------------------------------------------------------------------------

/// The number that `s` writes, for an unsigned type whose largest value is
/// `max`, as `str::parse` reads it.
pub open spec fn parsed(s: Option<Seq<char>>, max: int) -> Option<int> {
    match s {
        Some(t) => parse_unsigned(t, max),
        None => None,
    }
}

/// A number setting: the parsed value when there is one, else `default`.
pub open spec fn number_or(s: Option<Seq<char>>, max: int, default: int) -> int {
    match parsed(s, max) {
        Some(v) => v,
        None => default,
    }
}

/// A text setting that counts only when it holds more than whitespace.
pub open spec fn non_blank(s: Option<Seq<char>>) -> Option<Seq<char>> {
    match s {
        Some(t) => if trim(t).len() > 0 {
            Some(t)
        } else {
            None
        },
        None => None,
    }
}

fn parse_setting(s: &Option<String>, max: u64) -> (r: Option<u64>)
    ensures
        r matches Some(x) ==> x <= max,
        int_opt(r) == parsed(opt_view(*s), max as int),
{
    match s {
        Some(t) => {
            let cs = chars_of(t.as_str());
            parse_unsigned_chars(&cs, max)
        },
        None => None,
    }
}

/// A `u64` setting: the number the text writes, else `default`.
fn setting_u64(s: &Option<String>, default: u64) -> (r: u64)
    ensures
        r as int == number_or(opt_view(*s), u64::MAX as int, default as int),
{
    match parse_setting(s, u64::MAX) {
        Some(v) => v,
        None => default,
    }
}

/// A `u32` setting: the number the text writes, else `default`.
fn setting_u32(s: &Option<String>, default: u32) -> (r: u32)
    ensures
        r as int == number_or(opt_view(*s), u32::MAX as int, default as int),
{
    match parse_setting(s, 4294967295u64) {
        Some(v) => v as u32,
        None => default,
    }
}

/// A `u16` setting: the number the text writes, else `default`.
fn setting_u16(s: &Option<String>, default: u16) -> (r: u16)
    ensures
        r as int == number_or(opt_view(*s), u16::MAX as int, default as int),
{
    match parse_setting(s, 65535u64) {
        Some(v) => v as u16,
        None => default,
    }
}

fn keep_non_blank(s: Option<String>) -> (r: Option<String>)
    ensures
        opt_view(r) == non_blank(opt_view(s)),
{
    match s {
        Some(t) => {
            let cs = chars_of(t.as_str());
            let (a, b) = trim_bounds(&cs);
            if a < b {
                Some(t)
            } else {
                None
            }
        },
        None => None,
    }
}

// ---------------------------------------------------------------------------
// Alert threshold
// ---------------------------------------------------------------------------

/// The severity that `s` names, in lowercase.
pub open spec fn severity_named(s: Seq<char>) -> Option<SpikeSeverity> {
    if s == "minor"@ {
        Some(SpikeSeverity::Minor)
    } else if s == "moderate"@ {
        Some(SpikeSeverity::Moderate)
    } else if s == "major"@ {
        Some(SpikeSeverity::Major)
    } else if s == "critical"@ {
        Some(SpikeSeverity::Critical)
    } else {
        None
    }
}

/// What `parse_spike_severity` gives for `value`: the severity named by its
/// trimmed, ASCII-lowercased text, or the error message naming `value`.
pub open spec fn severity_result(value: Seq<char>) -> Result<SpikeSeverity, Seq<char>> {
    match severity_named(lower(trim(value))) {
        Some(s) => Ok(s),
        None => Err("Invalid ALERT_THRESHOLD: "@ + value),
    }
}

/// Reads an alert threshold: `minor`, `moderate`, `major` or `critical`, in
/// any ASCII case and with surrounding whitespace.
pub fn parse_spike_severity(value: &str) -> (r: Result<SpikeSeverity, String>)
    ensures
        match r {
            Ok(s) => severity_result(value@) == Ok::<SpikeSeverity, Seq<char>>(s),
            Err(e) => severity_result(value@) == Err::<SpikeSeverity, Seq<char>>(e@),
        },
{
    let cs = chars_of(value);
    let t = trim_chars(&cs);
    let l = to_ascii_lower(&t);
    if chars_eq_str(&l, "minor") {
        Ok(SpikeSeverity::Minor)
    } else if chars_eq_str(&l, "moderate") {
        Ok(SpikeSeverity::Moderate)
    } else if chars_eq_str(&l, "major") {
        Ok(SpikeSeverity::Major)
    } else if chars_eq_str(&l, "critical") {
        Ok(SpikeSeverity::Critical)
    } else {
        let mut e = String::from_str("Invalid ALERT_THRESHOLD: ");
        e.append(value);
        Err(e)
    }
}

// ---------------------------------------------------------------------------
// Allowed origins
// ---------------------------------------------------------------------------

/// The trimmed pieces of `pieces` that are not empty, in order.
pub open spec fn kept_trimmed(pieces: Seq<Seq<char>>) -> Seq<Seq<char>>
    decreases pieces.len(),
{
    if pieces.len() == 0 {
        Seq::empty()
    } else {
        let rest = kept_trimmed(pieces.drop_last());
        let t = trim(pieces.last());
        if t.len() > 0 {
            rest.push(t)
        } else {
            rest
        }
    }
}

/// The origins that a comma-separated list names: each piece trimmed, empty
/// pieces dropped.
pub open spec fn origins_of(s: Seq<char>) -> Seq<Seq<char>> {
    kept_trimmed(split_on(s, ','))
}

proof fn lemma_kept_trimmed_push(pieces: Seq<Seq<char>>, p: Seq<char>)
    ensures
        kept_trimmed(pieces.push(p)) == (if trim(p).len() > 0 {
            kept_trimmed(pieces).push(trim(p))
        } else {
            kept_trimmed(pieces)
        }),
{
    assert(pieces.push(p).drop_last() =~= pieces);
}

/// Appends `piece`, trimmed, to `out` unless it is blank.
fn keep_piece(out: &mut Vec<String>, piece: &Vec<char>)
    ensures
        strings_view(final(out)@) == (if trim(piece@).len() > 0 {
            strings_view(old(out)@).push(trim(piece@))
        } else {
            strings_view(old(out)@)
        }),
{
    let t = trim_chars(piece);
    if t.len() > 0 {
        let s = string_from_chars(&t);
        out.push(s);
        assert(strings_view(out@) =~= strings_view(old(out)@).push(trim(piece@)));
    }
}

/// Splits a comma-separated list of origins, trimming each and dropping the
/// empty ones.
pub fn parse_origins(list: &str) -> (v: Vec<String>)
    ensures
        strings_view(v@) == origins_of(list@),
{
    let cs = chars_of(list);
    let pieces = split_chars(&cs, ',');
    let ghost all = pieces_view(pieces@);
    let mut out: Vec<String> = Vec::new();
    let mut i: usize = 0;
    proof {
        assert(all.take(0) =~= Seq::<Seq<char>>::empty());
    }
    while i < pieces.len()
        invariant
            i <= pieces.len(),
            all == pieces_view(pieces@),
            strings_view(out@) == kept_trimmed(all.take(i as int)),
        decreases pieces.len() - i,
    {
        keep_piece(&mut out, &pieces[i]);
        proof {
            assert(pieces[i as int]@ == all[i as int]);
            lemma_kept_trimmed_push(all.take(i as int), all[i as int]);
            assert(all.take(i + 1) =~= all.take(i as int).push(all[i as int]));
        }
        i = i + 1;
    }
    assert(all.take(pieces.len() as int) =~= all);
    out
}

// ---------------------------------------------------------------------------
// The whole configuration
// ---------------------------------------------------------------------------

pub open spec fn cli_or(flag: Option<String>, fallback: Option<Seq<char>>) -> Option<Seq<char>> {
    match flag {
        Some(s) => Some(s@),
        None => fallback,
    }
}

/// The configuration that `cli`, `overrides` and `env` give, or the error
/// message that building it ends with.
pub open spec fn config_result(
    cli: Cli,
    overrides: Seq<(String, String)>,
    env: Seq<(String, String)>,
) -> Result<ConfigView, Seq<char>> {
    let get = |k: Seq<char>| env_get(overrides, env, k);
    match cli_or(cli.network, get("STELLAR_NETWORK"@)) {
        None => Err("STELLAR_NETWORK is required"@),
        Some(raw) => if raw != "testnet"@ && raw != "mainnet"@ {
            Err("Invalid STELLAR_NETWORK: "@ + raw)
        } else {
            let network = if raw == "testnet"@ {
                StellarNetwork::Testnet
            } else {
                StellarNetwork::Mainnet
            };
            let poll: Option<int> = match cli.poll_interval {
                Some(p) => Some(p as int),
                None => parsed(get("POLL_INTERVAL_SECONDS"@), u64::MAX as int),
            };
            match poll {
                None => Err("POLL_INTERVAL_SECONDS is required and must be a number"@),
                Some(poll) => {
                    let threshold: Result<SpikeSeverity, Seq<char>> = match get(
                        "ALERT_THRESHOLD"@,
                    ) {
                        Some(v) => severity_result(v),
                        None => Ok(SpikeSeverity::Major),
                    };
                    match threshold {
                        Err(e) => Err(e),
                        Ok(threshold) => {
                            let rate = number_or(
                                get("RATE_LIMIT_PER_MINUTE"@),
                                u32::MAX as int,
                                60,
                            );
                            Ok(
                                ConfigView {
                                    stellar_network: network,
                                    horizon_url: match cli_or(
                                        cli.horizon_url,
                                        get("HORIZON_URL"@),
                                    ) {
                                        Some(u) => u,
                                        None => horizon_url_of(network),
                                    },
                                    poll_interval_seconds: poll as u64,
                                    cache_ttl_seconds: number_or(
                                        get("CACHE_TTL_SECONDS"@),
                                        u64::MAX as int,
                                        5,
                                    ) as u64,
                                    api_key: non_blank(get("API_KEY"@)),
                                    rate_limit_per_minute: (if rate > 0 {
                                        rate
                                    } else {
                                        60
                                    }) as u32,
                                    webhook_url: non_blank(get("WEBHOOK_URL"@)),
                                    alert_threshold: threshold,
                                    api_port: number_or(
                                        get("API_PORT"@),
                                        u16::MAX as int,
                                        8080,
                                    ) as u16,
                                    allowed_origins: origins_of(
                                        match get("ALLOWED_ORIGINS"@) {
                                            Some(o) => o,
                                            None => "http://localhost:3000"@,
                                        },
                                    ),
                                    retry_attempts: number_or(
                                        get("RETRY_ATTEMPTS"@),
                                        u32::MAX as int,
                                        3,
                                    ) as u32,
                                    base_retry_delay_ms: number_or(
                                        get("BASE_RETRY_DELAY_MS"@),
                                        u64::MAX as int,
                                        1000,
                                    ) as u64,
                                    database_url: match get("DATABASE_URL"@) {
                                        Some(d) => d,
                                        None => "sqlite://stellar_fees.db"@,
                                    },
                                    storage_retention_days: number_or(
                                        get("STORAGE_RETENTION_DAYS"@),
                                        u64::MAX as int,
                                        7,
                                    ) as u64,
                                },
                            )
                        },
                    }
                },
            }
        },
    }
}

impl Config {
    /// Build configuration from CLI flags and a snapshot of the process
    /// environment.
    ///
    /// `HORIZON_URL` is optional — when omitted it defaults to the well-known
    /// public Horizon endpoint for the selected `STELLAR_NETWORK`.
    pub fn from_sources(cli: &Cli, env: &Vec<(String, String)>) -> (r: Result<Self, String>)
        ensures
            match r {
                Ok(c) => config_result(*cli, Seq::empty(), env@) == Ok::<ConfigView, Seq<char>>(
                    c@,
                ),
                Err(e) => config_result(*cli, Seq::empty(), env@) == Err::<ConfigView, Seq<char>>(
                    e@,
                ),
            },
    {
        let none: Vec<(String, String)> = Vec::new();
        Self::from_sources_with_env(cli, &none, env)
    }

    /// Like `from_sources` but with overrides that take precedence over the
    /// environment snapshot.
    pub fn from_sources_with_overrides(
        cli: &Cli,
        overrides: &Vec<(String, String)>,
        env: &Vec<(String, String)>,
    ) -> (r: Result<Self, String>)
        ensures
            match r {
                Ok(c) => config_result(*cli, overrides@, env@) == Ok::<ConfigView, Seq<char>>(c@),
                Err(e) => config_result(*cli, overrides@, env@) == Err::<ConfigView, Seq<char>>(
                    e@,
                ),
            },
    {
        Self::from_sources_with_env(cli, overrides, env)
    }

    fn from_sources_with_env(
        cli: &Cli,
        overrides: &Vec<(String, String)>,
        env: &Vec<(String, String)>,
    ) -> (r: Result<Self, String>)
        ensures
            match r {
                Ok(c) => config_result(*cli, overrides@, env@) == Ok::<ConfigView, Seq<char>>(c@),
                Err(e) => config_result(*cli, overrides@, env@) == Err::<ConfigView, Seq<char>>(
                    e@,
                ),
            },
    {
        // -------- Network --------
        let network_raw = match &cli.network {
            Some(n) => n.clone(),
            None => match env_lookup(overrides, env, "STELLAR_NETWORK") {
                Some(v) => v,
                None => {
                    return Err(String::from_str("STELLAR_NETWORK is required"));
                },
            },
        };
        let raw_chars = chars_of(network_raw.as_str());
        let stellar_network = if chars_eq_str(&raw_chars, "testnet") {
            StellarNetwork::Testnet
        } else if chars_eq_str(&raw_chars, "mainnet") {
            StellarNetwork::Mainnet
        } else {
            let mut e = String::from_str("Invalid STELLAR_NETWORK: ");
            e.append(network_raw.as_str());
            return Err(e);
        };

        // -------- Horizon URL --------
        let horizon_url = match &cli.horizon_url {
            Some(u) => u.clone(),
            None => match env_lookup(overrides, env, "HORIZON_URL") {
                Some(u) => u,
                None => String::from_str(stellar_network.default_horizon_url()),
            },
        };

        // -------- Poll Interval --------
        let poll_interval_seconds = match cli.poll_interval {
            Some(p) => p,
            None => match parse_setting(
                &env_lookup(overrides, env, "POLL_INTERVAL_SECONDS"),
                u64::MAX,
            ) {
                Some(p) => p,
                None => {
                    return Err(
                        String::from_str("POLL_INTERVAL_SECONDS is required and must be a number"),
                    );
                },
            },
        };

        // -------- API Port --------
        let api_port = setting_u16(&env_lookup(overrides, env, "API_PORT"), 8080);

        // -------- Cache TTL --------
        let cache_ttl_seconds = setting_u64(&env_lookup(overrides, env, "CACHE_TTL_SECONDS"), 5);

        // -------- API key --------
        let api_key = keep_non_blank(env_lookup(overrides, env, "API_KEY"));

        // -------- Rate limiting --------
        let rate = setting_u32(&env_lookup(overrides, env, "RATE_LIMIT_PER_MINUTE"), 60);
        let rate_limit_per_minute = if rate > 0 {
            rate
        } else {
            60
        };

        // -------- Alerts --------
        let webhook_url = keep_non_blank(env_lookup(overrides, env, "WEBHOOK_URL"));
        let alert_threshold = match env_lookup(overrides, env, "ALERT_THRESHOLD") {
            Some(v) => match parse_spike_severity(v.as_str()) {
                Ok(s) => s,
                Err(e) => {
                    return Err(e);
                },
            },
            None => SpikeSeverity::Major,
        };

        // -------- Allowed Origins --------
        let origins_raw = match env_lookup(overrides, env, "ALLOWED_ORIGINS") {
            Some(o) => o,
            None => String::from_str("http://localhost:3000"),
        };
        let allowed_origins = parse_origins(origins_raw.as_str());

        // -------- Retry config --------
        let retry_attempts = setting_u32(&env_lookup(overrides, env, "RETRY_ATTEMPTS"), 3);
        let base_retry_delay_ms = setting_u64(
            &env_lookup(overrides, env, "BASE_RETRY_DELAY_MS"),
            1000,
        );

        // -------- Database URL --------
        let database_url = match env_lookup(overrides, env, "DATABASE_URL") {
            Some(d) => d,
            None => String::from_str("sqlite://stellar_fees.db"),
        };

        // -------- Storage retention --------
        let storage_retention_days = setting_u64(
            &env_lookup(overrides, env, "STORAGE_RETENTION_DAYS"),
            7,
        );

        Ok(Config {
            stellar_network,
            horizon_url,
            poll_interval_seconds,
            cache_ttl_seconds,
            api_key,
            rate_limit_per_minute,
            webhook_url,
            alert_threshold,
            api_port,
            allowed_origins,
            retry_attempts,
            base_retry_delay_ms,
            database_url,
            storage_retention_days,
        })
    }
}

} // verus!
