use vstd::prelude::*;

pub mod decimal;
pub mod lifecycle;
pub mod locator;
pub mod readiness;
pub mod report;
pub mod spawner;
pub mod text;

verus! {

/// Loopback port on which the sidecar server listens.
pub const DEFAULT_PORT: u16 = 3141;

} // verus!
