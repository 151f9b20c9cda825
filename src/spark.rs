//! The live-reload feature as a whole: its resolved settings, whether it is
//! active, and the scan that each poll makes.

use vstd::prelude::*;
use crate::detector::{
    categorize, category_of, lemma_newest, mark_after_scan, newest_index, newest_watched,
    scan_reports, ChangeEvent, FileStamp,
};
use crate::text::same_text;
use crate::watermark::Watermark;
use vstd::string::StringExecFns;

verus! {

/// The three tunables of the feature, resolved once at start-up.
#[derive(Clone, Copy, Debug, PartialEq, Eq, Structural)]
pub struct VigilConfig {
    pub template_hot_reload: bool,
    /// Milliseconds between two polls.
    pub refresh_interval: u32,
    /// Milliseconds of silence after a reload message.
    pub cooldown_period: u32,
}

/// The live-reload feature: the environment it runs in and its settings.
pub struct VigilSpark {
    pub environment: String,
    pub config: VigilConfig,
}

/// The environment the feature runs in when none is declared.
pub open spec fn environment_of(declared: Option<String>) -> Seq<char> {
    match declared {
        Some(e) => e@,
        None => "prod"@,
    }
}

/// The policy that lets the injected inline snippet run: the existing policy
/// extended, or a new one.
pub open spec fn policy_with_inline_scripts(existing: Option<Seq<char>>) -> Seq<char> {
    match existing {
        Some(p) => p + " script-src 'self' 'unsafe-inline';"@,
        None => "script-src 'self' 'unsafe-inline';"@,
    }
}

/// The declared environment, or `prod` when none is declared.
pub fn resolve_environment(declared: Option<String>) -> (r: String)
    ensures
        r@ == environment_of(declared),
{
    match declared {
        Some(e) => e,
        None => String::from_str("prod"),
    }
}

/// The content-security-policy value of a decorated HTML response.
pub fn content_security_policy(existing: Option<&str>) -> (r: String)
    ensures
        r@ == policy_with_inline_scripts(
            match existing {
                Some(p) => Some(p@),
                None => None,
            },
        ),
{
    match existing {
        Some(p) => {
            let mut s = String::from_str(p);
            s.append(" script-src 'self' 'unsafe-inline';");
            s
        },
        None => String::from_str("script-src 'self' 'unsafe-inline';"),
    }
}

impl VigilSpark {
    /// The feature's name.
    pub fn name(&self) -> (r: &'static str)
        ensures
            r@ == "vigil"@,
    {
        "vigil"
    }

    /// The feature attaches its routes and response decoration only in the
    /// development environment; elsewhere it does nothing at all.
    pub fn is_active(&self) -> (r: bool)
        ensures
            r == (self.environment@ == "dev"@),
    {
        same_text(self.environment.as_str(), "dev")
    }

    /// The feature for `environment` with the settings `config`.
    pub fn new(environment: String, config: VigilConfig) -> (r: VigilSpark)
        ensures
            r.environment@ == environment@,
            r.config == config,
    {
        VigilSpark { environment, config }
    }

    /// Scans the files found under the watch roots against the watermark.
    ///
    /// A change is reported exactly when the newest watched file is strictly
    /// newer than the watermark; the watermark then moves to that time before
    /// the report is returned, and the report names the first file with that
    /// time. Otherwise nothing is reported and the watermark stays.
    pub fn check_template_changes(watermark: &mut Watermark, files: &Vec<FileStamp>) -> (r: Option<ChangeEvent>)
        ensures
            final(watermark).value == mark_after_scan(old(watermark).value, files@),
            final(watermark).value >= old(watermark).value,
            r.is_some() == scan_reports(old(watermark).value, files@),
            match r {
                Some(e) => {
                    &&& 0 <= newest_index(files@) < files@.len()
                    &&& e.path@ == files@[newest_index(files@)].path@
                    &&& e.category == category_of(e.path@)
                },
                None => true,
            },
    {
        let (latest, pick) = newest_watched(files);
        proof {
            lemma_newest(files@);
        }
        if watermark.advance(latest) {
            match pick {
                Some(i) => {
                    let path = files[i].path.clone();
                    let category = categorize(path.as_str());
                    Some(ChangeEvent { path, category })
                },
                None => None,
            }
        } else {
            None
        }
    }
}

/// Builds the feature from its resolved environment and settings.
pub fn create_spark(environment: String, config: VigilConfig) -> (r: VigilSpark)
    ensures
        r.environment@ == environment@,
        r.config == config,
{
    VigilSpark::new(environment, config)
}

} // verus!
