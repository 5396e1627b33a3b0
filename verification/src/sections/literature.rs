//! The literature section: a survey note list and a list of cited sources.

use vstd::prelude::*;

use crate::note::{NoteV, Notes};
use crate::sections::references::{clone_references, Reference, ReferenceV};

verus! {

/// Survey of existing literature with its cited papers.
pub struct Literature {
    pub title: String,
    pub literature_survey: Notes,
    pub references: Vec<Reference>,
    pub visible: bool,
}

/// Mathematical image of a [`Literature`].
#[verifier::ext_equal]
pub struct LiteratureV {
    pub title: Seq<char>,
    pub literature_survey: Seq<NoteV>,
    pub references: Seq<ReferenceV>,
    pub visible: bool,
}

impl DeepView for Literature {
    type V = LiteratureV;

    open spec fn deep_view(&self) -> LiteratureV {
        LiteratureV {
            title: self.title.deep_view(),
            literature_survey: self.literature_survey.deep_view(),
            references: self.references.deep_view(),
            visible: self.visible,
        }
    }
}

pub open spec fn literature_default_v() -> LiteratureV {
    LiteratureV {
        title: "Literature Survey"@,
        literature_survey: Seq::<NoteV>::empty(),
        references: Seq::<ReferenceV>::empty(),
        visible: false,
    }
}

impl Default for Literature {
    fn default() -> (r: Self)
        ensures
            r.deep_view() == literature_default_v(),
    {
        let r = Literature {
            title: String::from_str("Literature Survey"),
            literature_survey: Notes::default(),
            references: Vec::new(),
            visible: false,
        };
        proof {
            assert(r.deep_view() =~= literature_default_v());
        }
        r
    }
}

impl Clone for Literature {
    fn clone(&self) -> (r: Self)
        ensures
            r.deep_view() == self.deep_view(),
    {
        let r = Literature {
            title: self.title.clone(),
            literature_survey: self.literature_survey.clone(),
            references: clone_references(&self.references),
            visible: self.visible,
        };
        proof {
            assert(r.deep_view() =~= self.deep_view());
        }
        r
    }
}

} // verus!
