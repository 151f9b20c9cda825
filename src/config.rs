//! Resolution of the feature's settings from their layered sources: a value
//! declared in the project's configuration file, then an environment
//! variable, then the packaged manifest, then a built-in default.

use vstd::prelude::*;
use crate::spark::VigilConfig;
use crate::text::same_text;

verus! {

pub const DEFAULT_TEMPLATE_HOT_RELOAD: bool = true;

pub const DEFAULT_REFRESH_INTERVAL: i64 = 1000;

pub const DEFAULT_COOLDOWN_PERIOD: i64 = 3000;

/// What each source says of one setting.
pub struct Setting<T> {
    /// The value declared for the feature in the project's configuration.
    pub declared: Option<T>,
    /// The raw text of the setting's environment variable, when it is set.
    pub environment: Option<String>,
    /// The value under the manifest's defaults section.
    pub manifest_defaults: Option<T>,
    /// The value at the manifest's top level.
    pub manifest_root: Option<T>,
}

pub open spec fn is_digit(c: char) -> bool {
    '0' <= c && c <= '9'
}

pub open spec fn all_digits(d: Seq<char>) -> bool {
    d.len() > 0 && forall|i: int| 0 <= i < d.len() ==> is_digit(#[trigger] d[i])
}

/// The number that the decimal digits `d` write.
pub open spec fn digits_value(d: Seq<char>) -> int
    decreases d.len(),
{
    if d.len() == 0 {
        0
    } else {
        digits_value(d.drop_last()) * 10 + (d.last() as u32 - '0' as u32)
    }
}

/// The integer that `s` writes in decimal, with an optional leading sign.
pub open spec fn decimal_value(s: Seq<char>) -> Option<int> {
    if s.len() > 0 && (s[0] == '+' || s[0] == '-') {
        let d = s.drop_first();
        if all_digits(d) {
            Some(if s[0] == '-' { -digits_value(d) } else { digits_value(d) })
        } else {
            None
        }
    } else if all_digits(s) {
        Some(digits_value(s))
    } else {
        None
    }
}

/// The `i64` that `s` writes, when it writes one in range.
pub open spec fn parsed_i64(s: Seq<char>) -> Option<i64> {
    match decimal_value(s) {
        Some(v) => if i64::MIN <= v <= i64::MAX { Some(v as i64) } else { None },
        None => None,
    }
}

/// The `bool` that `s` writes: exactly `true` or `false`.
pub open spec fn parsed_bool(s: Seq<char>) -> Option<bool> {
    if s == "true"@ {
        Some(true)
    } else if s == "false"@ {
        Some(false)
    } else {
        None
    }
}

/// Relies on `str::parse::<i64>` (i64's `FromStr`): an optional `+` or `-`
/// followed by at least one ASCII digit, in range, and nothing else.
#[verifier::external_body]
fn parse_i64(s: &str) -> (r: Option<i64>)
    ensures
        r == parsed_i64(s@),
{
    s.parse::<i64>().ok()
}

/// Reads `true` or `false`, as bool's `FromStr` does.
pub fn parse_bool(s: &str) -> (r: Option<bool>)
    ensures
        r == parsed_bool(s@),
{
    if same_text(s, "true") {
        Some(true)
    } else if same_text(s, "false") {
        Some(false)
    } else {
        None
    }
}

/// The packaged default of a setting: the manifest's defaults section, then
/// its top level, then the built-in value.
pub open spec fn manifest_value<T>(s: Setting<T>, builtin: T) -> T {
    match s.manifest_defaults {
        Some(v) => v,
        None => match s.manifest_root {
            Some(v) => v,
            None => builtin,
        },
    }
}

pub open spec fn flag_value(s: Setting<bool>, builtin: bool) -> bool {
    match s.declared {
        Some(v) => v,
        None => match s.environment {
            Some(e) => match parsed_bool(e@) {
                Some(v) => v,
                None => manifest_value(s, builtin),
            },
            None => manifest_value(s, builtin),
        },
    }
}

pub open spec fn integer_value(s: Setting<i64>, builtin: i64) -> i64 {
    match s.declared {
        Some(v) => v,
        None => match s.environment {
            Some(e) => match parsed_i64(e@) {
                Some(v) => v,
                None => manifest_value(s, builtin),
            },
            None => manifest_value(s, builtin),
        },
    }
}

fn manifest_flag(s: &Setting<bool>, builtin: bool) -> (r: bool)
    ensures
        r == manifest_value(*s, builtin),
{
    match s.manifest_defaults {
        Some(v) => v,
        None => match s.manifest_root {
            Some(v) => v,
            None => builtin,
        },
    }
}

fn manifest_integer(s: &Setting<i64>, builtin: i64) -> (r: i64)
    ensures
        r == manifest_value(*s, builtin),
{
    match s.manifest_defaults {
        Some(v) => v,
        None => match s.manifest_root {
            Some(v) => v,
            None => builtin,
        },
    }
}

/// A boolean setting: the declared value; else the environment variable, when
/// it reads as a boolean; else the packaged default.
pub fn resolve_flag(s: &Setting<bool>, builtin: bool) -> (r: bool)
    ensures
        r == flag_value(*s, builtin),
{
    match s.declared {
        Some(v) => v,
        None => {
            let fallback = manifest_flag(s, builtin);
            match &s.environment {
                Some(e) => match parse_bool(e.as_str()) {
                    Some(v) => v,
                    None => fallback,
                },
                None => fallback,
            }
        },
    }
}

/// An integer setting: the declared value; else the environment variable,
/// when it reads as an integer; else the packaged default.
pub fn resolve_integer(s: &Setting<i64>, builtin: i64) -> (r: i64)
    ensures
        r == integer_value(*s, builtin),
{
    match s.declared {
        Some(v) => v,
        None => {
            let fallback = manifest_integer(s, builtin);
            match &s.environment {
                Some(e) => match parse_i64(e.as_str()) {
                    Some(v) => v,
                    None => fallback,
                },
                None => fallback,
            }
        },
    }
}

/// Resolves the three settings. The durations keep the low 32 bits of the
/// resolved integer, as a conversion to `u32` does.
pub fn load_config(hot_reload: &Setting<bool>, refresh_interval: &Setting<i64>, cooldown_period: &Setting<i64>) -> (r: VigilConfig)
    ensures
        r.template_hot_reload == flag_value(*hot_reload, DEFAULT_TEMPLATE_HOT_RELOAD),
        r.refresh_interval == integer_value(*refresh_interval, DEFAULT_REFRESH_INTERVAL) as u32,
        r.cooldown_period == integer_value(*cooldown_period, DEFAULT_COOLDOWN_PERIOD) as u32,
{
    VigilConfig {
        template_hot_reload: resolve_flag(hot_reload, DEFAULT_TEMPLATE_HOT_RELOAD),
        refresh_interval: resolve_integer(refresh_interval, DEFAULT_REFRESH_INTERVAL) as u32,
        cooldown_period: resolve_integer(cooldown_period, DEFAULT_COOLDOWN_PERIOD) as u32,
    }
}

} // verus!
