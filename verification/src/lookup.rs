//! Trusted boundary: the calls into the `dotenv` and `config` crates that
//! reach the process environment, the file system, and a configuration store.
use vstd::prelude::*;

verus! {

#[verifier::external_type_specification]
#[verifier::external_body]
pub struct ExConfig(config::Config);

/// Relies on dotenv::dotenv: loads `.env`-style definitions from the file
/// system into the process environment, best effort. The outcome depends on
/// what is on disk, so nothing is promised of it. The load writes each new
/// definition into the process environment, and that write panics when a
/// value in the file contains a NUL character; no `requires` can speak of
/// disk state, so callers inherit that exposure.
#[verifier::external_body]
pub(crate) fn load_env_file() {
    let _ = dotenv::dotenv();
}

/// Relies on dotenv::var: reads the named process environment variable,
/// after loading a `.env` file into the environment once per process (a
/// load that shares `load_env_file`'s panic exposure on NUL values in that
/// file). `Ok` carries the variable's value; `Err` carries a description of
/// the failure (variable absent, or not valid unicode). Which outcome comes
/// back depends on the process environment, so nothing is promised of it.
#[verifier::external_body]
pub(crate) fn env_lookup(name: &str) -> (r: Result<String, String>) {
    match dotenv::var(name) {
        Ok(value) => Ok(value),
        Err(e) => Err(e.to_string()),
    }
}

/// Relies on config::Config::get_string: looks the key up in the store and
/// coerces the value found there to a string; `None` when the store gives
/// the key no string value (key absent, not parsable as a lookup path, or
/// its value not coercible to a string). The store is only read, and its
/// answer is computed from the store value and the key alone, so the result
/// is stated under its name, `config_string_of`.
#[verifier::external_body]
pub(crate) fn config_get_string(store: &config::Config, key: &str) -> (r: Option<String>)
    ensures
        crate::option_chars(r) == crate::config_string_of(*store, key@),
{
    store.get_string(key).ok()
}

} // verus!
