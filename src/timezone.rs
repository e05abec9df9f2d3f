use vstd::prelude::*;

verus! {

/// Whether `chrono_tz` knows a zone by this exact IANA name.
pub uninterp spec fn tz_known(name: Seq<char>) -> bool;

/// Relies on `<chrono_tz::Tz as FromStr>::from_str`: a lookup of the exact name in the
/// crate's table of zones, which succeeds or fails on the name alone.
#[verifier::external_body]
pub(crate) fn known_timezone(name: &str) -> (r: bool)
    ensures
        r == tz_known(name@),
{
    <chrono_tz::Tz as std::str::FromStr>::from_str(name).is_ok()
}

/// How the registry's timezone was settled.
#[derive(Clone, Copy, Debug, PartialEq, Eq, Structural)]
pub enum TimezoneSource {
    /// The configured name was a known zone.
    Configured,
    /// No name was configured: UTC applies.
    DefaultMissing,
    /// The configured name is unknown: UTC applies, with a warning.
    DefaultInvalid,
}

pub open spec fn timezone_source(name: Option<Seq<char>>) -> TimezoneSource {
    match name {
        None => TimezoneSource::DefaultMissing,
        Some(n) => if tz_known(n) {
            TimezoneSource::Configured
        } else {
            TimezoneSource::DefaultInvalid
        },
    }
}

pub open spec fn utc_name() -> Seq<char> {
    seq!['U', 'T', 'C']
}

/// The zone that applies: the configured one when it is known, UTC otherwise.
pub open spec fn resolved_zone(name: Option<Seq<char>>) -> Seq<char> {
    match name {
        Some(n) => if tz_known(n) {
            n
        } else {
            utc_name()
        },
        None => utc_name(),
    }
}

/// Settles the registry's timezone: the configured zone when it is known, UTC otherwise.
pub fn resolve_timezone(name: Option<&str>) -> (r: (String, TimezoneSource))
    ensures
        r.0@ == resolved_zone(
            match name {
                Some(n) => Some(n@),
                None => None,
            },
        ),
        r.1 == timezone_source(
            match name {
                Some(n) => Some(n@),
                None => None,
            },
        ),
{
    proof {
        reveal_strlit("UTC");
        assert("UTC"@ =~= utc_name());
    }
    match name {
        None => ("UTC".to_string(), TimezoneSource::DefaultMissing),
        Some(n) => if known_timezone(n) {
            (n.to_string(), TimezoneSource::Configured)
        } else {
            ("UTC".to_string(), TimezoneSource::DefaultInvalid)
        },
    }
}

} // verus!
