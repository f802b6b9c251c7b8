//! Decomposing a session's uptime into days, hours, minutes, seconds.
//!
//! The session clock itself is the caller's concern; this module only
//! turns its elapsed whole seconds into the parts a notifier renders.

use vstd::prelude::*;

verus! {

/// Split a duration in whole seconds into days, hours, minutes and
/// seconds. The parts are within their calendar ranges and recompose
/// exactly to the input.
pub fn uptime_parts(total_seconds: u64) -> (r: (u64, u64, u64, u64))
    ensures
        r.0 == total_seconds / 86400,
        r.1 == total_seconds % 86400 / 3600,
        r.2 == total_seconds % 3600 / 60,
        r.3 == total_seconds % 60,
        r.1 < 24,
        r.2 < 60,
        r.3 < 60,
        r.0 * 86400 + r.1 * 3600 + r.2 * 60 + r.3 == total_seconds,
{
    let days = total_seconds / 86400;
    let hours = total_seconds % 86400 / 3600;
    let minutes = total_seconds % 3600 / 60;
    let seconds = total_seconds % 60;
    proof {
        let s = total_seconds as int;
        assert(days * 86400 + hours * 3600 + minutes * 60 + seconds == s) by {
            vstd::arithmetic::div_mod::lemma_fundamental_div_mod(s, 86400);
            vstd::arithmetic::div_mod::lemma_fundamental_div_mod(s % 86400, 3600);
            vstd::arithmetic::div_mod::lemma_fundamental_div_mod(s % 3600, 60);
            assert((s % 86400) % 3600 == s % 3600) by {
                vstd::arithmetic::div_mod::lemma_mod_mod(s, 3600, 24);
            }
            assert((s % 3600) % 60 == s % 60) by {
                vstd::arithmetic::div_mod::lemma_mod_mod(s, 60, 60);
            }
        }
    }
    (days, hours, minutes, seconds)
}

} // verus!
