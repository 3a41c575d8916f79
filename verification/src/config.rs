//! Process configuration, read once at startup and immutable afterwards.
//!
//! The signing secret is handed to the token codec's constructor
//! explicitly; nothing in the core reads ambient state.

use vstd::prelude::*;

verus! {

/// Startup configuration of the backend.
#[derive(Clone, Debug)]
pub struct Config {
    pub database_url: String,
    pub jwt_secret: String,
    pub frontend_origin: String,
}

} // verus!
