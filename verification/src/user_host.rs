//! The hostname lookup.

use vstd::prelude::*;

verus! {

/// Relies on hostname::get: the system hostname, `None` when the lookup
/// fails or the name is not valid UTF-8. The result depends on the machine,
/// so nothing more is promised of it.
#[verifier::external_body]
pub fn hostname() -> Option<String> {
    match hostname::get() {
        Ok(name) => match name.into_string() {
            Ok(text) => Some(text),
            Err(_) => None,
        },
        Err(_) => None,
    }
}

} // verus!
