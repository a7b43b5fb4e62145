//! Selection of the container variant from the build configuration.
//!
//! A build is described by three switches: the ambient profile (development
//! or optimized) and two overrides that force one variant regardless of the
//! profile. The decision table, in priority order:
//!
//! - both overrides on: the configuration is invalid and is rejected;
//! - the "force mutable" override on: the mutable variant;
//! - the "force frozen" override on: the frozen variant;
//! - no override, development profile: the mutable variant;
//! - no override, optimized profile: the frozen variant.

use vstd::prelude::*;

verus! {

/// The variant of the container that a build compiles in.
#[derive(Clone, Copy, PartialEq, Eq, Structural, Debug)]
pub enum Mode {
    /// `replace` overwrites the stored value.
    Mutable,
    /// `replace` leaves the stored value untouched and records a warning.
    Frozen,
}

/// The configuration surface a build supplies: the two override switches and
/// the ambient profile indicator.
#[derive(Clone, Copy, PartialEq, Eq, Structural, Debug)]
pub struct BuildConfig {
    /// Force the mutable variant, whatever the profile.
    pub force_mutable: bool,
    /// Force the frozen variant, whatever the profile.
    pub force_frozen: bool,
    /// True in a development (debug) build, false in an optimized (release)
    /// build.
    pub debug_profile: bool,
}

/// Rejection of a contradictory configuration.
#[derive(Clone, Copy, PartialEq, Eq, Structural, Debug)]
pub enum ConfigError {
    /// Both override switches were enabled at once.
    ConflictingOverrides,
}

/// A configuration is valid unless both overrides are enabled at once.
pub open spec fn config_valid(c: BuildConfig) -> bool {
    !(c.force_mutable && c.force_frozen)
}

/// The decision table selects the mutable variant: either it is forced, or
/// no override is on and the build is a development build.
pub open spec fn selects_mutable(c: BuildConfig) -> bool {
    config_valid(c) && (c.force_mutable || (!c.force_frozen && c.debug_profile))
}

/// The decision table selects the frozen variant: either it is forced, or
/// no override is on and the build is an optimized build.
pub open spec fn selects_frozen(c: BuildConfig) -> bool {
    config_valid(c) && (c.force_frozen || (!c.force_mutable && !c.debug_profile))
}

/// Evaluates the decision table on a configuration: an invalid configuration
/// is rejected, and a valid one names the single variant it compiles in.
pub fn select_mode(c: BuildConfig) -> (r: Result<Mode, ConfigError>)
    ensures
        r is Err <==> !config_valid(c),
        r is Err ==> r == Err::<Mode, ConfigError>(ConfigError::ConflictingOverrides),
        r == Ok::<Mode, ConfigError>(Mode::Mutable) <==> selects_mutable(c),
        r == Ok::<Mode, ConfigError>(Mode::Frozen) <==> selects_frozen(c),
{
    if c.force_mutable && c.force_frozen {
        Err(ConfigError::ConflictingOverrides)
    } else if c.force_mutable {
        Ok(Mode::Mutable)
    } else if c.force_frozen {
        Ok(Mode::Frozen)
    } else if c.debug_profile {
        Ok(Mode::Mutable)
    } else {
        Ok(Mode::Frozen)
    }
}

/// Mode exclusivity: every valid configuration selects exactly one of the
/// two variants, and an invalid one selects neither.
pub proof fn lemma_mode_exclusive(c: BuildConfig)
    ensures
        config_valid(c) ==> (selects_mutable(c) <==> !selects_frozen(c)),
        !config_valid(c) ==> !selects_mutable(c) && !selects_frozen(c),
{
}

} // verus!
