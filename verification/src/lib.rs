//! Acquisition and caching of versioned forecast documents.
//!
//! A remote document store publishes spreadsheet-format avalanche forecasts;
//! this library decides when cached raw bytes and cached parsed data can
//! still be trusted against the store's current listing and how a record is
//! refreshed ([`cache`]), decodes structured metadata out of a forecast
//! file's name ([`forecasts`]), and resolves the ambiguous local wall-clock
//! time in such a name into an absolute instant, safely across
//! daylight-saving transitions ([`timezone`], [`calendar`]). The remote
//! store, the persistent record store and the spreadsheet parser are
//! collaborators supplied by the surrounding runtime.

use vstd::prelude::*;

pub mod cache;
pub mod calendar;
pub mod elevation_hazard;
pub mod forecasts;
pub mod google_drive;
pub mod i18n;
pub mod timezone;

verus! {

/// Compares two string slices character by character.
pub fn str_eq(a: &str, b: &str) -> (r: bool)
    ensures
        r == (a@ == b@),
{
    let a_len = a.unicode_len();
    let b_len = b.unicode_len();
    if a_len != b_len {
        return false;
    }
    let mut i: usize = 0;
    while i < a_len
        invariant
            i <= a_len,
            a_len == a@.len(),
            b_len == b@.len(),
            a_len == b_len,
            forall|j: int| 0 <= j < i ==> a@[j] == b@[j],
        decreases a_len - i,
    {
        if a.get_char(i) != b.get_char(i) {
            return false;
        }
        i += 1;
    }
    proof {
        assert(a@ =~= b@);
    }
    true
}

} // verus!
