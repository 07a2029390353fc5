//! Where the HTTP server listens: the configured port within 3000–3099, and
//! the ports tried when it is busy.

use vstd::prelude::*;

use crate::settings::{DEFAULT_PORT, MAX_PORT, MIN_PORT};

verus! {

/// The value of a run of ASCII decimal digits.
pub open spec fn digits_value(s: Seq<char>) -> int
    decreases s.len(),
{
    if s.len() == 0 {
        0
    } else {
        digits_value(s.drop_last()) * 10 + (s.last() as int - '0' as int)
    }
}

/// Whether every character of `s` is an ASCII decimal digit.
pub open spec fn all_digits(s: Seq<char>) -> bool {
    forall|i: int| 0 <= i < s.len() ==> '0' <= #[trigger] s[i] && s[i] <= '9'
}

/// What `str::parse::<u16>` accepts, as its documentation puts it: an
/// optional `+` followed by one or more ASCII digits whose value fits in a
/// `u16`; anything else (white space included) is an error.
pub open spec fn u16_text(s: Seq<char>) -> Option<u16> {
    let d = if s.len() > 0 && s[0] == '+' { s.drop_first() } else { s };
    if d.len() > 0 && all_digits(d) && digits_value(d) <= 65535 {
        Some(digits_value(d) as u16)
    } else {
        None
    }
}

/// Parses `s` as a `u16` with `str::parse`; `None` where it fails.
#[verifier::external_body]
fn parse_u16(s: &str) -> (r: Option<u16>)
    ensures
        r == u16_text(s@),
{
    s.parse::<u16>().ok()
}

/// The port chosen from the value of the `TAURI_DEV_PORT` variable.
pub open spec fn chosen_port(dev_port: Option<Seq<char>>) -> u16 {
    match dev_port {
        Some(s) => match u16_text(s) {
            Some(p) => if MIN_PORT <= p <= MAX_PORT { p } else { DEFAULT_PORT },
            None => DEFAULT_PORT,
        },
        None => DEFAULT_PORT,
    }
}

/// The port to listen on, from the value of the `TAURI_DEV_PORT` variable
/// when it is set: a port in 3000–3099 is kept, anything else gives 3000.
pub fn resolve_port(dev_port: Option<String>) -> (r: u16)
    ensures
        r == chosen_port(crate::text::opt_view(dev_port)),
        MIN_PORT <= r <= MAX_PORT,
{
    if let Some(s) = dev_port {
        if let Some(port) = parse_u16(s.as_str()) {
            if MIN_PORT <= port && port <= MAX_PORT {
                return port;
            }
        }
    }
    DEFAULT_PORT
}

/// The ports tried in turn when binding: `base` and the five after it,
/// stopping at 65535.
pub fn port_candidates(base: u16) -> (r: Vec<u16>)
    ensures
        r@.len() == (if base as int + 5 <= 65535 { 6 } else { 65536 - base as int }),
        forall|i: int| 0 <= i < r@.len() ==> r@[i] == base as int + i,
{
    let last: u16 = base.saturating_add(5);
    let mut out: Vec<u16> = Vec::new();
    let mut p: u16 = base;
    loop
        invariant_except_break
            base <= p <= last,
            out@.len() == p - base,
            forall|i: int| 0 <= i < out@.len() ==> out@[i] == base as int + i,
        invariant
            last == if base as int + 5 <= 65535 { (base + 5) as u16 } else { 65535u16 },
        ensures
            out@.len() == last - base + 1,
            forall|i: int| 0 <= i < out@.len() ==> out@[i] == base as int + i,
        decreases last - p,
    {
        out.push(p);
        if p == last {
            break;
        }
        p = p + 1;
    }
    out
}

} // verus!
