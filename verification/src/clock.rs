//! The pluggable time source.
//!
//! Facilities never read the host clock directly: every operation takes a
//! `SafeTimeProvider` by reference and asks it for the current instant. In
//! production the provider wraps the system clock; in tests it holds a
//! controllable instant. The provider itself comes from an outside crate
//! and stands behind the trusted items below; whatever instant it reports,
//! the verified operations validate the value before acting on it.

use vstd::prelude::*;

verus! {

/// The time provider of the hourglass crate, declared so that it can stand
/// in signatures; the engine treats it as opaque.
#[verifier::external_type_specification]
#[verifier::external_body]
pub struct ExSafeTimeProvider(hourglass_rs::SafeTimeProvider);

/// Relies on hourglass_rs::SafeTimeProvider::new with TimeSource::System:
/// a provider that reads the wall clock.
#[verifier::external_body]
pub fn system_time_provider() -> hourglass_rs::SafeTimeProvider {
    hourglass_rs::SafeTimeProvider::new(hourglass_rs::TimeSource::System)
}

/// Relies on hourglass_rs::SafeTimeProvider::new with TimeSource::Test and
/// on chrono's DateTime::from_timestamp, which is Some for any in-range
/// second count: a provider that starts at the given instant.
#[verifier::external_body]
pub fn test_time_provider(start: i64) -> hourglass_rs::SafeTimeProvider
    requires
        0 <= start <= crate::dates::MAX_TIMESTAMP,
{
    hourglass_rs::SafeTimeProvider::new(hourglass_rs::TimeSource::Test(
        chrono::DateTime::from_timestamp(start, 0).unwrap(),
    ))
}

/// Relies on hourglass_rs::SafeTimeProvider::now and chrono's
/// DateTime::timestamp: the provider's current instant as seconds since
/// the epoch. Nothing is promised of the value: the instant moves between
/// calls, and a test provider reports whatever it was set to.
#[verifier::external_body]
pub fn provider_now(provider: &hourglass_rs::SafeTimeProvider) -> i64 {
    provider.now().timestamp()
}

/// Relies on hourglass_rs::SafeTimeProvider::test_control and
/// TimeControl::set, with chrono's checked instant arithmetic: moves a
/// test provider's instant forward by the given seconds. Reports false
/// for a provider without a test control or an instant that checked
/// addition cannot represent; the cap on `seconds` keeps chrono's
/// second-duration constructor within its documented panic-free range.
#[verifier::external_body]
pub fn advance_test_time(provider: &hourglass_rs::SafeTimeProvider, seconds: i64) -> bool
    requires
        0 <= seconds <= crate::dates::MAX_TIMESTAMP,
{
    match provider.test_control() {
        Some(control) => {
            let now = provider.now();
            match now.checked_add_signed(chrono::Duration::seconds(seconds)) {
                Some(moved) => {
                    control.set(moved);
                    true
                },
                None => false,
            }
        },
        None => false,
    }
}

} // verus!
