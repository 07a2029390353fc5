//! Settings endpoints: reading, partially updating and resetting the
//! configuration.

use vstd::prelude::*;

use super::{OK, UNPROCESSABLE_ENTITY};
use crate::settings::{
    lemma_stored_values_read_back, restart_key, stored_backup_interval, stored_hostname, stored_port, Config,
    MAX_BACKUP_INTERVAL_HOURS, MAX_PORT, MIN_PORT,
};
use crate::text::{concat3, str_eq, string_of};

verus! {

/// A setting value, as it appears in the JSON replies.
#[derive(Debug, Clone)]
pub enum SettingValue {
    Number(u64),
    Text(String),
    Bool(bool),
}

/// One key-value pair of the settings, with its restart hint.
#[derive(Debug, Clone)]
pub struct SettingEntry {
    pub key: String,
    pub value: SettingValue,
    pub requires_restart: Option<bool>,
}

/// Reply of `GET /api/settings`.
#[derive(Debug, Clone)]
pub struct SettingsResponse {
    pub settings: Vec<SettingEntry>,
}

/// Body of `PATCH /api/settings`: only the given fields change.
#[derive(Debug, Clone)]
pub struct PatchSettingsBody {
    pub port: Option<u16>,
    pub hostname: Option<String>,
    pub backup_interval_hours: Option<u64>,
    pub headless: Option<bool>,
}

/// A field of a patch that was refused, and why.
#[derive(Debug, Clone)]
pub struct ValidationWarning {
    pub field: String,
    pub message: String,
}

/// Reply of `PATCH /api/settings`.
#[derive(Debug, Clone)]
pub struct PatchSettingsResponse {
    pub settings: Vec<SettingEntry>,
    pub warnings: Vec<ValidationWarning>,
}

/// Whether `c` may appear in a hostname: an ASCII letter or digit, `-`, or
/// the label separator `.`.
pub open spec fn hostname_char(c: char) -> bool {
    ('a' <= c && c <= 'z') || ('A' <= c && c <= 'Z') || ('0' <= c && c <= '9') || c == '-' || c == '.'
}

/// The length of the label that ends `s` (the characters after its last `.`).
pub open spec fn trailing_label_len(s: Seq<char>) -> nat
    decreases s.len(),
{
    if s.len() == 0 {
        0
    } else if s.last() == '.' {
        0
    } else {
        trailing_label_len(s.drop_last()) + 1
    }
}

/// Whether `s` is a valid DNS hostname: 1 to 253 characters; `.`-separated
/// labels that are non-empty, at most 63 characters, made of ASCII letters,
/// digits and hyphens, and that neither start nor end with a hyphen.
pub open spec fn valid_hostname(s: Seq<char>) -> bool {
    &&& 1 <= s.len() <= 253
    &&& forall|i: int| 0 <= i < s.len() ==> hostname_char(#[trigger] s[i])
    &&& s[0] != '.' && s[0] != '-'
    &&& s.last() != '.' && s.last() != '-'
    &&& forall|i: int| 0 <= i < s.len() - 1 && #[trigger] s[i] == '.' ==> s[i + 1] != '.' && s[i + 1] != '-'
    &&& forall|i: int| 1 <= i < s.len() && #[trigger] s[i] == '.' ==> s[i - 1] != '-'
    &&& forall|k: int| 0 <= k <= s.len() ==> #[trigger] trailing_label_len(s.take(k)) <= 63
}

fn is_hostname_char(c: char) -> (r: bool)
    ensures
        r == hostname_char(c),
{
    ('a' <= c && c <= 'z') || ('A' <= c && c <= 'Z') || ('0' <= c && c <= '9') || c == '-' || c == '.'
}

/// Whether `s` is a valid DNS hostname (see `valid_hostname`).
pub fn is_valid_hostname(s: &str) -> (r: bool)
    ensures
        r == valid_hostname(s@),
{
    let n = s.unicode_len();
    if n == 0 || n > 253 {
        return false;
    }
    let first = s.get_char(0);
    let last = s.get_char(n - 1);
    if first == '.' || first == '-' || last == '.' || last == '-' {
        return false;
    }
    let mut run: usize = 0;
    let mut i: usize = 0;
    assert(s@.take(0) =~= Seq::<char>::empty());
    while i < n
        invariant
            n == s@.len(),
            1 <= n <= 253,
            i <= n,
            s@[0] != '.' && s@[0] != '-',
            s@.last() != '.' && s@.last() != '-',
            run == trailing_label_len(s@.take(i as int)),
            forall|j: int| 0 <= j < i ==> hostname_char(#[trigger] s@[j]),
            forall|j: int| 0 <= j < i && j < n - 1 && #[trigger] s@[j] == '.' ==> s@[j + 1] != '.' && s@[j + 1] != '-',
            forall|j: int| 1 <= j < i && #[trigger] s@[j] == '.' ==> s@[j - 1] != '-',
            forall|k: int| 0 <= k <= i ==> #[trigger] trailing_label_len(s@.take(k)) <= 63,
        decreases n - i,
    {
        let c = s.get_char(i);
        assert(s@.take(i + 1).drop_last() =~= s@.take(i as int));
        if !is_hostname_char(c) {
            return false;
        }
        if c == '.' {
            if i + 1 < n {
                let d = s.get_char(i + 1);
                if d == '.' || d == '-' {
                    return false;
                }
            }
            if i >= 1 && s.get_char(i - 1) == '-' {
                return false;
            }
            run = 0;
        } else {
            if run >= 63 {
                assert(s@.take(i + 1).last() == c);
                assert(trailing_label_len(s@.take(i + 1)) > 63);
                return false;
            }
            run = run + 1;
        }
        i = i + 1;
    }
    assert(s@.take(n as int) =~= s@);
    true
}

/// The settings listed in replies for a configuration: port, hostname, backup
/// interval and headless mode, those needing a restart marked so.
pub fn entries_from_config(cfg: &Config) -> (r: Vec<SettingEntry>)
    ensures
        r@.len() == 4,
        r@[0].key@ == "port"@ && r@[0].value == SettingValue::Number(cfg.port as u64),
        r@[1].key@ == "hostname"@ && r@[1].value is Text && r@[1].value->Text_0@ == cfg.hostname@,
        r@[2].key@ == "backup_interval_hours"@ && r@[2].value == SettingValue::Number(cfg.backup_interval_hours),
        r@[3].key@ == "headless"@ && r@[3].value == SettingValue::Bool(cfg.headless),
        forall|k: int| 0 <= k < 4 ==> (#[trigger] r@[k]).requires_restart == if restart_key(r@[k].key@) { Some(true) } else { None::<bool> },
{
    let mut v: Vec<SettingEntry> = Vec::new();
    v.push(setting_entry("port", SettingValue::Number(cfg.port as u64)));
    v.push(setting_entry("hostname", SettingValue::Text(cfg.hostname.clone())));
    v.push(setting_entry("backup_interval_hours", SettingValue::Number(cfg.backup_interval_hours)));
    v.push(setting_entry("headless", SettingValue::Bool(cfg.headless)));
    v
}

fn setting_entry(key: &str, value: SettingValue) -> (r: SettingEntry)
    ensures
        r.key@ == key@,
        r.value == value,
        r.requires_restart == if restart_key(key@) { Some(true) } else { None::<bool> },
{
    let requires_restart = if Config::requires_restart(key) {
        Some(true)
    } else {
        None
    };
    SettingEntry { key: string_of(key), value, requires_restart }
}

/// The effect of a settings patch: the values to store, in order, each with
/// its restart hint, and the warnings for the refused fields.
#[derive(Debug, Clone)]
pub struct SettingsPatchPlan {
    pub updates: Vec<SettingEntry>,
    pub warnings: Vec<ValidationWarning>,
}

/// The entries a patch stores, in the order port, hostname, backup interval,
/// headless: each given field whose value is valid (port 3000–3099, a valid
/// hostname, an interval of 1–168 hours; headless is always valid), with the
/// restart hint true except for the backup interval.
pub open spec fn patch_updates(body: PatchSettingsBody) -> Seq<(Seq<char>, SettingValue, bool)> {
    let p: Seq<(Seq<char>, SettingValue, bool)> = match body.port {
        Some(port) => if MIN_PORT <= port <= MAX_PORT { seq![("port"@, SettingValue::Number(port as u64), true)] } else { seq![] },
        None => seq![],
    };
    let h: Seq<(Seq<char>, SettingValue, bool)> = match body.hostname {
        Some(name) => if valid_hostname(name@) { seq![("hostname"@, SettingValue::Text(name), true)] } else { seq![] },
        None => seq![],
    };
    let b: Seq<(Seq<char>, SettingValue, bool)> = match body.backup_interval_hours {
        Some(n) => if 1 <= n <= MAX_BACKUP_INTERVAL_HOURS { seq![("backup_interval_hours"@, SettingValue::Number(n), false)] } else { seq![] },
        None => seq![],
    };
    let d: Seq<(Seq<char>, SettingValue, bool)> = match body.headless {
        Some(x) => seq![("headless"@, SettingValue::Bool(x), true)],
        None => seq![],
    };
    p + h + b + d
}

/// The fields a patch refuses, in order, with their messages.
pub open spec fn patch_warnings(body: PatchSettingsBody) -> Seq<(Seq<char>, Seq<char>)> {
    let p: Seq<(Seq<char>, Seq<char>)> = match body.port {
        Some(port) => if MIN_PORT <= port <= MAX_PORT { seq![] } else { seq![("port"@, "Port must be between 3000 and 3099"@)] },
        None => seq![],
    };
    let h: Seq<(Seq<char>, Seq<char>)> = match body.hostname {
        Some(name) => if valid_hostname(name@) { seq![] } else { seq![("hostname"@, "Hostname must be a valid DNS name (alphanumeric, hyphens, dots)"@)] },
        None => seq![],
    };
    let b: Seq<(Seq<char>, Seq<char>)> = match body.backup_interval_hours {
        Some(n) => if 1 <= n <= MAX_BACKUP_INTERVAL_HOURS { seq![] } else { seq![("backup_interval_hours"@, "Interval must be between 1 and 168 hours"@)] },
        None => seq![],
    };
    p + h + b
}

/// The view of an entry as (key, value, restart hint).
pub open spec fn entry_view(e: SettingEntry) -> (Seq<char>, SettingValue, bool) {
    (e.key@, e.value, e.requires_restart == Some(true))
}

/// The view of a warning as (field, message).
pub open spec fn warning_view(w: ValidationWarning) -> (Seq<char>, Seq<char>) {
    (w.field@, w.message@)
}

fn push_update(v: &mut Vec<SettingEntry>, key: &str, value: SettingValue, restart: bool)
    ensures
        final(v)@.len() == old(v)@.len() + 1,
        forall|k: int| 0 <= k < old(v)@.len() ==> #[trigger] final(v)@[k] == old(v)@[k],
        entry_view(final(v)@[old(v)@.len() as int]) == (key@, value, restart),
        final(v)@[old(v)@.len() as int].requires_restart == Some(restart),
{
    v.push(SettingEntry { key: string_of(key), value, requires_restart: Some(restart) });
}

fn push_warning(v: &mut Vec<ValidationWarning>, field: &str, message: &str)
    ensures
        final(v)@.len() == old(v)@.len() + 1,
        forall|k: int| 0 <= k < old(v)@.len() ==> #[trigger] final(v)@[k] == old(v)@[k],
        warning_view(final(v)@[old(v)@.len() as int]) == (field@, message@),
{
    v.push(ValidationWarning { field: string_of(field), message: string_of(message) });
}

/// The effect of a settings patch (see `patch_updates` and `patch_warnings`).
pub fn plan_settings_patch(body: PatchSettingsBody) -> (r: SettingsPatchPlan)
    ensures
        r.updates@.map_values(|e: SettingEntry| entry_view(e)) == patch_updates(body),
        forall|k: int| 0 <= k < r.updates@.len() ==> (#[trigger] r.updates@[k]).requires_restart is Some,
        r.warnings@.map_values(|w: ValidationWarning| warning_view(w)) == patch_warnings(body),
{
    let ghost b = body;
    let mut updates: Vec<SettingEntry> = Vec::new();
    let mut warnings: Vec<ValidationWarning> = Vec::new();
    let ghost u0 = updates@;
    match body.port {
        Some(port) => {
            if MIN_PORT <= port && port <= MAX_PORT {
                push_update(&mut updates, "port", SettingValue::Number(port as u64), true);
            } else {
                push_warning(&mut warnings, "port", "Port must be between 3000 and 3099");
            }
        },
        None => {},
    }
    let ghost u1 = updates@;
    let ghost w1 = warnings@;
    match body.hostname {
        Some(name) => {
            if is_valid_hostname(name.as_str()) {
                push_update(&mut updates, "hostname", SettingValue::Text(name), true);
            } else {
                push_warning(&mut warnings, "hostname", "Hostname must be a valid DNS name (alphanumeric, hyphens, dots)");
            }
        },
        None => {},
    }
    let ghost u2 = updates@;
    let ghost w2 = warnings@;
    match body.backup_interval_hours {
        Some(n) => {
            if 1 <= n && n <= MAX_BACKUP_INTERVAL_HOURS {
                push_update(&mut updates, "backup_interval_hours", SettingValue::Number(n), false);
            } else {
                push_warning(&mut warnings, "backup_interval_hours", "Interval must be between 1 and 168 hours");
            }
        },
        None => {},
    }
    let ghost u3 = updates@;
    match body.headless {
        Some(x) => {
            push_update(&mut updates, "headless", SettingValue::Bool(x), true);
        },
        None => {},
    }
    assert(updates@.map_values(|e: SettingEntry| entry_view(e)) =~= patch_updates(b));
    assert(warnings@.map_values(|w: ValidationWarning| warning_view(w)) =~= patch_warnings(b));
    SettingsPatchPlan { updates, warnings }
}

/// The status of a patch reply: 422 when a field was refused, 200 otherwise.
pub fn patch_status(plan: &SettingsPatchPlan) -> (r: u16)
    ensures
        r == if plan.warnings@.len() > 0 { UNPROCESSABLE_ENTITY } else { OK },
{
    if plan.warnings.len() > 0 {
        UNPROCESSABLE_ENTITY
    } else {
        OK
    }
}

/// The message when storing the value of `key` failed with `err`.
pub fn save_failure_message(key: &str, err: &str) -> (r: String)
    ensures
        r@ == "Failed to save "@ + (if key@ == "backup_interval_hours"@ { "interval"@ } else { key@ }) + ": "@ + err@,
{
    let label: &str = if str_eq(key, "backup_interval_hours") {
        "interval"
    } else {
        key
    };
    let mut m = concat3("Failed to save ", label, ": ");
    m.append(err);
    m
}

/// A patch stores each value as it was given: every update for a key carries
/// the value the patch gave for that field (headless `x` is stored as `x`,
/// the port, hostname and interval as given), and a headless value, which is
/// always valid, is always stored, with the restart hint.
pub proof fn lemma_patch_stores_given_values(body: PatchSettingsBody)
    ensures
        forall|k: int| 0 <= k < patch_updates(body).len() && #[trigger] patch_updates(body)[k].0 == "headless"@
            ==> body.headless is Some && patch_updates(body)[k].1 == SettingValue::Bool(body.headless->0),
        forall|k: int| 0 <= k < patch_updates(body).len() && #[trigger] patch_updates(body)[k].0 == "port"@
            ==> body.port is Some && patch_updates(body)[k].1 == SettingValue::Number(body.port->0 as u64),
        forall|k: int| 0 <= k < patch_updates(body).len() && #[trigger] patch_updates(body)[k].0 == "hostname"@
            ==> body.hostname is Some && patch_updates(body)[k].1 == SettingValue::Text(body.hostname->0),
        forall|k: int| 0 <= k < patch_updates(body).len() && #[trigger] patch_updates(body)[k].0 == "backup_interval_hours"@
            ==> body.backup_interval_hours is Some
                && patch_updates(body)[k].1 == SettingValue::Number(body.backup_interval_hours->0),
        body.headless matches Some(x) ==> exists|k: int| 0 <= k < patch_updates(body).len()
            && #[trigger] patch_updates(body)[k] == ("headless"@, SettingValue::Bool(x), true),
{
    reveal_strlit("headless");
    reveal_strlit("port");
    reveal_strlit("hostname");
    reveal_strlit("backup_interval_hours");
    let u = patch_updates(body);
    assert("headless"@[0] != "port"@[0] && "headless"@[1] != "hostname"@[1] && "headless"@[0] != "backup_interval_hours"@[0]);
    assert("port"@[0] != "hostname"@[0] && "port"@[0] != "backup_interval_hours"@[0]);
    assert("hostname"@[0] != "backup_interval_hours"@[0]);
    if body.headless is Some {
        assert(u[u.len() - 1] == ("headless"@, SettingValue::Bool(body.headless->0), true));
    }
}

/// What a settings patch stores is what the settings read back afterwards:
/// each value the patch accepts (a port in range, a valid hostname, an
/// interval in range) comes back unchanged through `Config::from_stored`.
pub proof fn lemma_accepted_patch_reads_back(body: PatchSettingsBody)
    ensures
        body.port is Some && MIN_PORT <= body.port->0 <= MAX_PORT ==> stored_port(Some(body.port->0 as u64)) == body.port->0,
        body.hostname is Some && valid_hostname(body.hostname->0@) ==> stored_hostname(Some(body.hostname->0@)) == body.hostname->0@,
        body.backup_interval_hours is Some && 1 <= body.backup_interval_hours->0 <= MAX_BACKUP_INTERVAL_HOURS ==> stored_backup_interval(body.backup_interval_hours) == body.backup_interval_hours->0,
{
    if body.port is Some && MIN_PORT <= body.port->0 <= MAX_PORT {
        lemma_stored_values_read_back(body.port->0, 1, seq!['a']);
    }
    if body.hostname is Some && valid_hostname(body.hostname->0@) {
        lemma_stored_values_read_back(MIN_PORT, 1, body.hostname->0@);
    }
    if body.backup_interval_hours is Some && 1 <= body.backup_interval_hours->0 <= MAX_BACKUP_INTERVAL_HOURS {
        lemma_stored_values_read_back(MIN_PORT, body.backup_interval_hours->0, seq!['a']);
    }
}

} // verus!
