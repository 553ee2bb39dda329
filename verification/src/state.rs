use vstd::prelude::*;
use crate::numfmt::{dec_of, u64_to_dec};

verus! {

/// Server-side application state: a visit counter. The HTTP layer keeps one
/// instance behind its own lock and hands each request an exclusive
/// reference.
pub struct AppState {
    pub visit_count: u64,
}

impl AppState {
    /// A fresh state with no visits recorded.
    pub fn new() -> (r: AppState)
        ensures
            r.visit_count == 0,
    {
        AppState { visit_count: 0 }
    }

    /// Counts one visit and reports the new total.
    pub fn record_visit(&mut self) -> (r: String)
        requires
            old(self).visit_count < u64::MAX,
        ensures
            final(self).visit_count == old(self).visit_count + 1,
            r@ == "Visitor count: "@ + dec_of(final(self).visit_count),
    {
        self.visit_count = self.visit_count + 1;
        let n = u64_to_dec(self.visit_count);
        String::from_str("Visitor count: ").concat(n.as_str())
    }
}

} // verus!
