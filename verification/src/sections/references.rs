//! Reference entries: a titled link to a source with a note list of details.
//! Used both by the key-references subsection of the idea section and by the
//! literature survey.

use vstd::prelude::*;

use crate::note::{NoteV, Notes};

verus! {

/// One cited source.
pub struct Reference {
    pub title: String,
    pub hyperlink: String,
    pub source_details: Notes,
    pub visible: bool,
}

/// Mathematical image of a [`Reference`].
#[verifier::ext_equal]
pub struct ReferenceV {
    pub title: Seq<char>,
    pub hyperlink: Seq<char>,
    pub source_details: Seq<NoteV>,
    pub visible: bool,
}

impl DeepView for Reference {
    type V = ReferenceV;

    open spec fn deep_view(&self) -> ReferenceV {
        ReferenceV {
            title: self.title.deep_view(),
            hyperlink: self.hyperlink.deep_view(),
            source_details: self.source_details.deep_view(),
            visible: self.visible,
        }
    }
}

pub open spec fn reference_default_v() -> ReferenceV {
    ReferenceV {
        title: Seq::<char>::empty(),
        hyperlink: Seq::<char>::empty(),
        source_details: Seq::<NoteV>::empty(),
        visible: false,
    }
}

impl Default for Reference {
    fn default() -> (r: Self)
        ensures
            r.deep_view() == reference_default_v(),
    {
        let r = Reference {
            title: String::new(),
            hyperlink: String::new(),
            source_details: Notes::default(),
            visible: false,
        };
        proof {
            assert(r.deep_view() =~= reference_default_v());
        }
        r
    }
}

impl Clone for Reference {
    fn clone(&self) -> (r: Self)
        ensures
            r.deep_view() == self.deep_view(),
    {
        let r = Reference {
            title: self.title.clone(),
            hyperlink: self.hyperlink.clone(),
            source_details: self.source_details.clone(),
            visible: self.visible,
        };
        proof {
            assert(r.deep_view() =~= self.deep_view());
        }
        r
    }
}

/// Copies a list of references.
pub fn clone_references(v: &Vec<Reference>) -> (r: Vec<Reference>)
    ensures
        r.deep_view() == v.deep_view(),
{
    let mut out: Vec<Reference> = Vec::new();
    let mut i: usize = 0;
    while i < v.len()
        invariant
            i <= v.len(),
            out.deep_view() =~= v.deep_view().take(i as int),
        decreases v.len() - i,
    {
        let ghost pre = out.deep_view();
        let c = v[i].clone();
        proof {
            assert(c.deep_view() == v.deep_view()[i as int]);
        }
        out.push(c);
        proof {
            assert(out.deep_view() =~= pre.push(v.deep_view()[i as int]));
            assert(out.deep_view() =~= v.deep_view().take(i + 1));
        }
        i = i + 1;
    }
    proof {
        assert(out.deep_view() =~= v.deep_view());
    }
    out
}

/// A titled list of key references.
pub struct References {
    pub title: String,
    pub references: Vec<Reference>,
    pub visible: bool,
}

/// Mathematical image of a [`References`].
#[verifier::ext_equal]
pub struct ReferencesV {
    pub title: Seq<char>,
    pub references: Seq<ReferenceV>,
    pub visible: bool,
}

impl DeepView for References {
    type V = ReferencesV;

    open spec fn deep_view(&self) -> ReferencesV {
        ReferencesV {
            title: self.title.deep_view(),
            references: self.references.deep_view(),
            visible: self.visible,
        }
    }
}

pub open spec fn references_default_v() -> ReferencesV {
    ReferencesV {
        title: "Key References"@,
        references: Seq::<ReferenceV>::empty(),
        visible: false,
    }
}

impl Default for References {
    fn default() -> (r: Self)
        ensures
            r.deep_view() == references_default_v(),
    {
        let r = References {
            title: String::from_str("Key References"),
            references: Vec::new(),
            visible: false,
        };
        proof {
            assert(r.deep_view() =~= references_default_v());
        }
        r
    }
}

impl Clone for References {
    fn clone(&self) -> (r: Self)
        ensures
            r.deep_view() == self.deep_view(),
    {
        let r = References {
            title: self.title.clone(),
            references: clone_references(&self.references),
            visible: self.visible,
        };
        proof {
            assert(r.deep_view() =~= self.deep_view());
        }
        r
    }
}

} // verus!
