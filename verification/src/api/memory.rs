//! Transparent hugepage requests.

use vstd::prelude::*;

use crate::settings::memory::thp_name;
use crate::settings::{Memory, TransparentHugepages};

verus! {

/// The transparent hugepage mode to show: the one set, else the one the system reported
/// (`read`), else the default.
pub open spec fn shown_thp(set: Option<TransparentHugepages>, read: Option<TransparentHugepages>) -> TransparentHugepages {
    match set {
        Some(t) => t,
        None => match read {
            Some(t) => t,
            None => TransparentHugepages::MAdvise,
        },
    }
}

/// The transparent hugepage mode as shown to the front-end.
pub fn get_transparent_hugepages_enabled(settings: &Memory, read: Option<TransparentHugepages>) -> (r: String)
    ensures
        r@ == thp_name(shown_thp(settings.transparent_hugepages, read)),
{
    let t = match settings.transparent_hugepages {
        Some(t) => t,
        None => match read {
            Some(t) => t,
            None => TransparentHugepages::default(),
        },
    };
    t.to_string()
}

/// Unset the transparent hugepage mode and apply it; gives the mode to write, if any (see
/// `Memory::on_set`).
pub fn unset_transparent_hugepages_enabled(settings: &mut Memory) -> (w: Option<TransparentHugepages>)
    ensures
        final(settings).transparent_hugepages is None,
        old(settings).state.transparent_hugepages_set ==> w == Some(TransparentHugepages::MAdvise),
        !old(settings).state.transparent_hugepages_set ==> w is None,
        !final(settings).state.transparent_hugepages_set,
{
    settings.transparent_hugepages = None;
    settings.on_set()
}

} // verus!
