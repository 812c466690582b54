//! Lengths between a drawing and the model, and the grid of the active document.
use vstd::prelude::*;

use crate::app::{AppView, CadApp};
use crate::grid::{clamp64, clamp_i64, nearest, nearest_is_near, nearest_of_multiple, nearest_ratio};

verus! {

impl AppView {
    /// The grid spacing in the active document's units. It is kept in those of the plan, and a
    /// sketch is a document of its own.
    pub open spec fn grid_step(self, stored: i64) -> i64 {
        let active = self.doc.units.nm_per_unit;
        if active == 0 {
            stored
        } else {
            clamp64(nearest(stored * self.plan().units.nm_per_unit, active as int))
        }
    }
}

impl CadApp {
    /// What a unit of the active document measures, in nanometres.
    pub fn doc_k(&self) -> (r: u64)
        ensures
            r == self@.doc.units.nm_per_unit,
    {
        self.doc.units.nm_per_unit
    }

    /// A length of the active document, in micrometres.
    pub fn dlen_m(&self, v: i64) -> (r: i64)
        ensures
            r == clamp64(nearest(v * self@.doc.units.nm_per_unit, 1_000_000_000)),
    {
        clamp_i64(nearest_ratio(v, self.doc_k(), 1_000_000_000))
    }

    /// The grid spacing in the active document's units; `stored` is the one that is set, in units of
    /// the plan.
    pub fn grid_spacing(&self, stored: i64) -> (r: i64)
        ensures
            r == self@.grid_step(stored),
    {
        let active: u64 = self.doc_k();
        if active == 0 {
            stored
        } else {
            clamp_i64(nearest_ratio(stored, self.plan_doc().units.nm_per_unit, active))
        }
    }
}

/// While no sketch is open, the grid is the one that is set.
pub proof fn plan_grid_is_as_set(s: AppView, stored: i64)
    requires
        s.factory.session is None,
    ensures
        s.grid_step(stored) == stored,
{
    let k = s.doc.units.nm_per_unit as int;
    if k > 0 {
        nearest_of_multiple(stored as int, k);
    }
}

/// While a sketch is open, the grid measures what it measures on the plan, as near as the sketch's
/// unit allows.
pub proof fn grid_measures_the_same(s: AppView, stored: i64)
    requires
        s.doc.units.nm_per_unit > 0,
        i64::MIN < s.grid_step(stored) < i64::MAX,
    ensures
        ({
            let plan = match s.factory.session {
                Some(e) => e.saved_doc.units.nm_per_unit,
                None => s.doc.units.nm_per_unit,
            };
            let k = s.doc.units.nm_per_unit;
            -k <= 2 * (s.grid_step(stored) * k - stored * plan) <= k
        }),
{
    nearest_is_near(stored * s.plan().units.nm_per_unit, s.doc.units.nm_per_unit as int);
}

} // verus!
