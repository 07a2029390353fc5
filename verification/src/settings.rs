//! Typed configuration: the known keys, their defaults and the values that
//! are accepted when reading them back from the settings store.

use vstd::prelude::*;

use crate::text::{str_eq, string_of};

verus! {

/// Default HTTP port.
pub const DEFAULT_PORT: u16 = 3000;

/// Lowest accepted HTTP port.
pub const MIN_PORT: u16 = 3000;

/// Highest accepted HTTP port.
pub const MAX_PORT: u16 = 3099;

/// Default interval between automatic backups, in hours.
pub const DEFAULT_BACKUP_INTERVAL_HOURS: u64 = 24;

/// Longest accepted backup interval, in hours (one week).
pub const MAX_BACKUP_INTERVAL_HOURS: u64 = 168;

/// Typed representation of the persistent configuration.
#[derive(Debug, Clone)]
pub struct Config {
    /// HTTP server port (3000–3099).
    pub port: u16,
    /// mDNS hostname (`mboacaisse` → `mboacaisse.local`).
    pub hostname: String,
    /// Interval between automatic database backups, in hours (1–168).
    pub backup_interval_hours: u64,
    /// When true, no window is shown on startup.
    pub headless: bool,
    /// When true, wallet payments are accepted even if the balance would go negative.
    pub wallet_negative: bool,
}

/// The port kept from a stored number: kept only within 3000–3099;
/// otherwise (a larger number included) 3000.
pub open spec fn stored_port(v: Option<u64>) -> u16 {
    match v {
        Some(n) => if MIN_PORT <= n <= MAX_PORT { n as u16 } else { DEFAULT_PORT },
        None => DEFAULT_PORT,
    }
}

/// The backup interval kept from a stored number: 1–168, otherwise 24.
pub open spec fn stored_backup_interval(v: Option<u64>) -> u64 {
    match v {
        Some(n) => if 1 <= n <= MAX_BACKUP_INTERVAL_HOURS { n } else { DEFAULT_BACKUP_INTERVAL_HOURS },
        None => DEFAULT_BACKUP_INTERVAL_HOURS,
    }
}

/// The hostname kept from a stored text: non-empty, otherwise `mboacaisse`.
pub open spec fn stored_hostname(v: Option<Seq<char>>) -> Seq<char> {
    match v {
        Some(s) => if s.len() > 0 { s } else { "mboacaisse"@ },
        None => "mboacaisse"@,
    }
}

/// Whether changing `key` takes effect only after a restart.
pub open spec fn restart_key(key: Seq<char>) -> bool {
    key == "port"@ || key == "hostname"@ || key == "headless"@
}

impl Default for Config {
    fn default() -> (r: Self)
        ensures
            r.port == DEFAULT_PORT,
            r.hostname@ == "mboacaisse"@,
            r.backup_interval_hours == DEFAULT_BACKUP_INTERVAL_HOURS,
            !r.headless,
            !r.wallet_negative,
    {
        Config {
            port: DEFAULT_PORT,
            hostname: string_of("mboacaisse"),
            backup_interval_hours: DEFAULT_BACKUP_INTERVAL_HOURS,
            headless: false,
            wallet_negative: false,
        }
    }
}

impl Config {
    /// The configuration from the values read in the store (each absent when
    /// the key is missing or holds a value of another JSON type), each value
    /// that is out of range or empty replaced by its default.
    pub fn from_stored(
        port: Option<u64>,
        hostname: Option<String>,
        backup_interval_hours: Option<u64>,
        headless: Option<bool>,
        wallet_negative: Option<bool>,
    ) -> (r: Config)
        ensures
            r.port == stored_port(port),
            r.hostname@ == stored_hostname(match hostname { Some(h) => Some(h@), None => None }),
            r.backup_interval_hours == stored_backup_interval(backup_interval_hours),
            r.headless == (headless == Some(true)),
            r.wallet_negative == (wallet_negative == Some(true)),
    {
        let port = match port {
            Some(n) => {
                if MIN_PORT as u64 <= n && n <= MAX_PORT as u64 {
                    n as u16
                } else {
                    DEFAULT_PORT
                }
            },
            None => DEFAULT_PORT,
        };
        let hostname = match hostname {
            Some(h) => {
                if h.as_str().unicode_len() > 0 {
                    h
                } else {
                    string_of("mboacaisse")
                }
            },
            None => string_of("mboacaisse"),
        };
        let backup_interval_hours = match backup_interval_hours {
            Some(n) => {
                if 1 <= n && n <= MAX_BACKUP_INTERVAL_HOURS {
                    n
                } else {
                    DEFAULT_BACKUP_INTERVAL_HOURS
                }
            },
            None => DEFAULT_BACKUP_INTERVAL_HOURS,
        };
        let headless = match headless {
            Some(b) => b,
            None => false,
        };
        let wallet_negative = match wallet_negative {
            Some(b) => b,
            None => false,
        };
        Config { port, hostname, backup_interval_hours, headless, wallet_negative }
    }

    /// Whether changing `key` takes effect only after a restart (`port`,
    /// `hostname` and `headless`).
    pub fn requires_restart(key: &str) -> (r: bool)
        ensures
            r == restart_key(key@),
    {
        str_eq(key, "port") || str_eq(key, "hostname") || str_eq(key, "headless")
    }

    /// The keys that the configuration owns in the store.
    pub fn known_keys() -> (r: Vec<&'static str>)
        ensures
            r@.len() == 5,
            r@[0]@ == "port"@,
            r@[1]@ == "hostname"@,
            r@[2]@ == "backup_interval_hours"@,
            r@[3]@ == "headless"@,
            r@[4]@ == "wallet_negative"@,
    {
        vec!["port", "hostname", "backup_interval_hours", "headless", "wallet_negative"]
    }
}

/// Reading back a configuration that was stored with valid values gives the
/// same configuration: a port in 3000–3099, an interval of 1–168 hours and a
/// non-empty hostname come back unchanged.
pub proof fn lemma_stored_values_read_back(port: u16, backup: u64, hostname: Seq<char>)
    requires
        MIN_PORT <= port <= MAX_PORT,
        1 <= backup <= MAX_BACKUP_INTERVAL_HOURS,
        hostname.len() > 0,
    ensures
        stored_port(Some(port as u64)) == port,
        stored_backup_interval(Some(backup)) == backup,
        stored_hostname(Some(hostname)) == hostname,
{
}

} // verus!
