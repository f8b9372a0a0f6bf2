//! The environments a deployment runs in. Reading the environment and
//! assembling the configuration (mail transport, keys, endpoints) is the
//! binary's work; the library only distinguishes the environments.

use vstd::prelude::*;

verus! {

/// The environment a deployment runs in: it selects, among other things,
/// the database and the mail transport.
#[derive(Clone, Copy, PartialEq, Eq, Structural, Debug)]
pub enum Environment {
    Development,
    Test,
    Production,
}

} // verus!
