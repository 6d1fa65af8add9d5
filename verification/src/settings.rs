//! The settings a deployment provides: the two tokens and the data-root
//! path. Reading and checking a settings file happens outside the
//! library; the parsed values arrive here as plain strings.

use vstd::prelude::*;

verus! {

/// The parsed settings of one deployment.
pub struct Settings {
    pub verification_token: String,
    pub api_token: String,
    pub data_path: String,
}

} // verus!
