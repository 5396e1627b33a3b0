//! The resources section: equipment and facilities already available, and
//! what still has to be obtained.

use vstd::prelude::*;

use crate::note::{NoteV, Notes};

verus! {

/// Existing and additionally required resources.
pub struct Resources {
    pub title: String,
    /// Resources available already.
    pub existing: Notes,
    /// Resources required in addition.
    pub further: Notes,
    pub visible: bool,
}

/// Mathematical image of a [`Resources`].
#[verifier::ext_equal]
pub struct ResourcesV {
    pub title: Seq<char>,
    pub existing: Seq<NoteV>,
    pub further: Seq<NoteV>,
    pub visible: bool,
}

impl DeepView for Resources {
    type V = ResourcesV;

    open spec fn deep_view(&self) -> ResourcesV {
        ResourcesV {
            title: self.title.deep_view(),
            existing: self.existing.deep_view(),
            further: self.further.deep_view(),
            visible: self.visible,
        }
    }
}

pub open spec fn resources_default_v() -> ResourcesV {
    ResourcesV {
        title: "Resources"@,
        existing: Seq::<NoteV>::empty(),
        further: Seq::<NoteV>::empty(),
        visible: false,
    }
}

impl Default for Resources {
    fn default() -> (r: Self)
        ensures
            r.deep_view() == resources_default_v(),
    {
        let r = Resources {
            title: String::from_str("Resources"),
            existing: Notes::default(),
            further: Notes::default(),
            visible: false,
        };
        proof {
            assert(r.deep_view() =~= resources_default_v());
        }
        r
    }
}

impl Clone for Resources {
    fn clone(&self) -> (r: Self)
        ensures
            r.deep_view() == self.deep_view(),
    {
        let r = Resources {
            title: self.title.clone(),
            existing: self.existing.clone(),
            further: self.further.clone(),
            visible: self.visible,
        };
        proof {
            assert(r.deep_view() =~= self.deep_view());
        }
        r
    }
}

} // verus!
