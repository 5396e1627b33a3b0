//! The preliminary-results section: one note list.

use vstd::prelude::*;

use crate::note::{NoteV, Notes};

verus! {

/// Results already in hand that support the proposal.
pub struct PrelimResults {
    pub title: String,
    pub prelim_results: Notes,
    pub visible: bool,
}

/// Mathematical image of a [`PrelimResults`].
#[verifier::ext_equal]
pub struct PrelimResultsV {
    pub title: Seq<char>,
    pub prelim_results: Seq<NoteV>,
    pub visible: bool,
}

impl DeepView for PrelimResults {
    type V = PrelimResultsV;

    open spec fn deep_view(&self) -> PrelimResultsV {
        PrelimResultsV {
            title: self.title.deep_view(),
            prelim_results: self.prelim_results.deep_view(),
            visible: self.visible,
        }
    }
}

pub open spec fn prelim_results_default_v() -> PrelimResultsV {
    PrelimResultsV {
        title: "Preliminary Results"@,
        prelim_results: Seq::<NoteV>::empty(),
        visible: false,
    }
}

impl Default for PrelimResults {
    fn default() -> (r: Self)
        ensures
            r.deep_view() == prelim_results_default_v(),
    {
        let r = PrelimResults {
            title: String::from_str("Preliminary Results"),
            prelim_results: Notes::default(),
            visible: false,
        };
        proof {
            assert(r.deep_view() =~= prelim_results_default_v());
        }
        r
    }
}

impl Clone for PrelimResults {
    fn clone(&self) -> (r: Self)
        ensures
            r.deep_view() == self.deep_view(),
    {
        let r = PrelimResults {
            title: self.title.clone(),
            prelim_results: self.prelim_results.clone(),
            visible: self.visible,
        };
        proof {
            assert(r.deep_view() =~= self.deep_view());
        }
        r
    }
}

} // verus!
