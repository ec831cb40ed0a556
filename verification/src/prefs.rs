//! The operator's saved preferences: logical key/value pairs kept by an
//! external store.  Loading and saving are performed by the surrounding
//! application; a failure to load is non-fatal and simply means "no saved
//! preferences".

use vstd::prelude::*;
use vstd::string::StringExecFns;

verus! {

/// The preferences loaded at startup.
#[derive(Debug)]
pub struct AppPreferences {
    pub language: String,
    pub token: String,
}

/// The logical key the cloud token is stored under.
pub fn token_key() -> (r: String)
    ensures
        r@ == "token"@,
{
    String::from_str("token")
}

/// The logical key the whole preference map is stored under.
pub fn preferences_key() -> (r: String)
    ensures
        r@ == "laundry-control-preferences"@,
{
    String::from_str("laundry-control-preferences")
}

} // verus!
