//! Global log setup: a tracing subscriber filtered from the environment,
//! with a test-friendly writer for test runs. Installing a subscriber twice
//! is harmless: a later attempt is ignored.
use vstd::prelude::*;

use tracing_subscriber::EnvFilter;

verus! {

/// Relies on `tracing_subscriber::fmt`'s builder and `try_init`: it installs
/// a global subscriber with the environment's filter (or `trace`), and does
/// nothing when one is already installed. Nothing is claimed of it.
#[verifier::external_body]
fn setup(for_tests: bool) {
    let filter = match EnvFilter::try_from_default_env() {
        Ok(f) => f,
        Err(_) => EnvFilter::new("trace"),
    };
    let builder = tracing_subscriber::fmt::fmt()
        .with_env_filter(filter)
        .with_target(true)
        .with_thread_names(true)
        .with_level(true);
    if for_tests {
        let _ = builder.with_test_writer().try_init();
    } else {
        let _ = builder.try_init();
    }
}

/// Initialize a global tracing subscriber for application runtime.
pub fn init() {
    setup(false);
}

/// Initialize tracing with a test-friendly writer so log output is visible
/// during test runs.
pub fn init_for_tests() {
    setup(true);
}

} // verus!
