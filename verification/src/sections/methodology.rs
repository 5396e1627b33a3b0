//! The research-methodology section: one note list.

use vstd::prelude::*;

use crate::note::{NoteV, Notes};

verus! {

/// Research design, methodology and techniques.
pub struct Methodology {
    pub title: String,
    pub methodology: Notes,
    pub visible: bool,
}

/// Mathematical image of a [`Methodology`].
#[verifier::ext_equal]
pub struct MethodologyV {
    pub title: Seq<char>,
    pub methodology: Seq<NoteV>,
    pub visible: bool,
}

impl DeepView for Methodology {
    type V = MethodologyV;

    open spec fn deep_view(&self) -> MethodologyV {
        MethodologyV {
            title: self.title.deep_view(),
            methodology: self.methodology.deep_view(),
            visible: self.visible,
        }
    }
}

pub open spec fn methodology_default_v() -> MethodologyV {
    MethodologyV {
        title: "Research Methodology"@,
        methodology: Seq::<NoteV>::empty(),
        visible: false,
    }
}

impl Default for Methodology {
    fn default() -> (r: Self)
        ensures
            r.deep_view() == methodology_default_v(),
    {
        let r = Methodology {
            title: String::from_str("Research Methodology"),
            methodology: Notes::default(),
            visible: false,
        };
        proof {
            assert(r.deep_view() =~= methodology_default_v());
        }
        r
    }
}

impl Clone for Methodology {
    fn clone(&self) -> (r: Self)
        ensures
            r.deep_view() == self.deep_view(),
    {
        let r = Methodology {
            title: self.title.clone(),
            methodology: self.methodology.clone(),
            visible: self.visible,
        };
        proof {
            assert(r.deep_view() =~= self.deep_view());
        }
        r
    }
}

} // verus!
