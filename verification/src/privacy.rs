//! The privacy and stealth presets that rewrite search options.

use vstd::prelude::*;

verus! {

/// Privacy preset for searches.
#[derive(Clone, Copy, Debug, PartialEq, Eq, Structural)]
pub enum PrivacyMode {
    /// Disable personalization and default the region to `no_region`.
    Unpersonalized,
}

/// Stealth preset for searches.
#[derive(Clone, Copy, Debug, PartialEq, Eq, Structural)]
pub enum StealthMode {
    /// Cache locally and pace requests.
    On,
}

/// Cache lifetime, in seconds, that stealth mode asks for by default.
pub const DEFAULT_STEALTH_CACHE_TTL_SECS: u64 = 600;

/// The region after the privacy preset: `no_region` when the preset is on
/// and no region was given.
pub open spec fn privacy_region(mode: Option<PrivacyMode>, region: Option<Seq<char>>) -> Option<Seq<char>> {
    if mode is Some && region is None {
        Some("no_region"@)
    } else {
        region
    }
}

/// The `no_personalized` switch after the privacy preset: set when the
/// preset is on, turning personalization off is allowed, personalization
/// was not explicitly requested and the switch was not given.
pub open spec fn privacy_no_personalized(
    mode: Option<PrivacyMode>,
    personalized: Option<bool>,
    no_personalized: Option<bool>,
    allow_no_personalized: bool,
) -> Option<bool> {
    if mode is Some && allow_no_personalized && personalized != Some(true) && no_personalized is None {
        Some(true)
    } else {
        no_personalized
    }
}

/// Applies the privacy preset to the region and the `no_personalized` switch.
pub fn apply_privacy_mode(
    privacy_mode: Option<PrivacyMode>,
    region: &mut Option<String>,
    personalized: Option<bool>,
    no_personalized: &mut Option<bool>,
    allow_no_personalized: bool,
)
    ensures
        final(region).deep_view() == privacy_region(privacy_mode, old(region).deep_view()),
        *final(no_personalized) == privacy_no_personalized(
            privacy_mode,
            personalized,
            *old(no_personalized),
            allow_no_personalized,
        ),
{
    match privacy_mode {
        Some(PrivacyMode::Unpersonalized) => {
            if region.is_none() {
                *region = Some(crate::text::lit("no_region"));
            }
            let explicit_on = match personalized {
                Some(b) => b,
                None => false,
            };
            if allow_no_personalized && !explicit_on && no_personalized.is_none() {
                *no_personalized = Some(true);
            }
        },
        None => {},
    }
}

/// Applying the privacy preset twice changes nothing more than applying it once.
pub proof fn lemma_privacy_idempotent(
    mode: Option<PrivacyMode>,
    region: Option<Seq<char>>,
    personalized: Option<bool>,
    no_personalized: Option<bool>,
    allow: bool,
)
    ensures
        privacy_region(mode, privacy_region(mode, region)) == privacy_region(mode, region),
        privacy_no_personalized(
            mode,
            personalized,
            privacy_no_personalized(mode, personalized, no_personalized, allow),
            allow,
        ) == privacy_no_personalized(mode, personalized, no_personalized, allow),
{
}

/// Without a preset, region and switch are left as they were.
pub proof fn lemma_privacy_none_is_noop(
    region: Option<Seq<char>>,
    personalized: Option<bool>,
    no_personalized: Option<bool>,
    allow: bool,
)
    ensures
        privacy_region(None, region) == region,
        privacy_no_personalized(None, personalized, no_personalized, allow) == no_personalized,
{
}

/// The preset never overrides an explicit choice: a given region stays, and
/// personalization is never turned off when it was explicitly requested.
pub proof fn lemma_privacy_respects_explicit_choices(
    mode: Option<PrivacyMode>,
    region: Option<Seq<char>>,
    no_personalized: Option<bool>,
    allow: bool,
)
    ensures
        region is Some ==> privacy_region(mode, region) == region,
        privacy_no_personalized(mode, Some(true), no_personalized, allow) == no_personalized,
        no_personalized is Some ==> privacy_no_personalized(mode, None, no_personalized, allow)
            == no_personalized,
{
}

} // verus!
