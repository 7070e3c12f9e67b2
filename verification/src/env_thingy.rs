//! Settings that are set once at start-up.
use vstd::prelude::*;

verus! {

/// The message given when a setting is read before it was set: the caller's
/// own, or a general one where the caller gives none.
pub fn komunikat_braku(monit: &str) -> (r: &str)
    ensures
        r@ == if monit@.len() == 0 { "OnceLock accessed before initialization"@ } else { monit@ },
{
    if monit.is_empty() {
        "OnceLock accessed before initialization"
    } else {
        monit
    }
}

} // verus!
