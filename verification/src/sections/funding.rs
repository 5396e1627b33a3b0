//! The funding section: a repeatable list of funding programmes, each with
//! an annotation, a link and an application deadline.

use vstd::prelude::*;

use crate::note::{NoteV, Notes};
use crate::sections::timeline::{date_default_v, Date};

verus! {

/// One funding programme under consideration.
pub struct Programme {
    pub title: String,
    pub hyperlink: String,
    pub deadline: Date,
    pub annotation: Notes,
    pub visible: bool,
}

/// Mathematical image of a [`Programme`].
#[verifier::ext_equal]
pub struct ProgrammeV {
    pub title: Seq<char>,
    pub hyperlink: Seq<char>,
    pub deadline: Date,
    pub annotation: Seq<NoteV>,
    pub visible: bool,
}

impl DeepView for Programme {
    type V = ProgrammeV;

    open spec fn deep_view(&self) -> ProgrammeV {
        ProgrammeV {
            title: self.title.deep_view(),
            hyperlink: self.hyperlink.deep_view(),
            deadline: self.deadline,
            annotation: self.annotation.deep_view(),
            visible: self.visible,
        }
    }
}

pub open spec fn programme_default_v() -> ProgrammeV {
    ProgrammeV {
        title: Seq::<char>::empty(),
        hyperlink: Seq::<char>::empty(),
        deadline: date_default_v(),
        annotation: Seq::<NoteV>::empty(),
        visible: false,
    }
}

impl Default for Programme {
    fn default() -> (r: Self)
        ensures
            r.deep_view() == programme_default_v(),
    {
        let r = Programme {
            title: String::new(),
            hyperlink: String::new(),
            deadline: Date::default(),
            annotation: Notes::default(),
            visible: false,
        };
        proof {
            assert(r.deep_view() =~= programme_default_v());
        }
        r
    }
}

impl Clone for Programme {
    fn clone(&self) -> (r: Self)
        ensures
            r.deep_view() == self.deep_view(),
    {
        let r = Programme {
            title: self.title.clone(),
            hyperlink: self.hyperlink.clone(),
            deadline: self.deadline,
            annotation: self.annotation.clone(),
            visible: self.visible,
        };
        proof {
            assert(r.deep_view() =~= self.deep_view());
        }
        r
    }
}

/// Copies a list of programmes.
pub fn clone_programmes(v: &Vec<Programme>) -> (r: Vec<Programme>)
    ensures
        r.deep_view() == v.deep_view(),
{
    let mut out: Vec<Programme> = Vec::new();
    let mut i: usize = 0;
    while i < v.len()
        invariant
            i <= v.len(),
            out.deep_view() =~= v.deep_view().take(i as int),
        decreases v.len() - i,
    {
        let ghost pre = out.deep_view();
        let c = v[i].clone();
        proof {
            assert(c.deep_view() == v.deep_view()[i as int]);
        }
        out.push(c);
        proof {
            assert(out.deep_view() =~= pre.push(v.deep_view()[i as int]));
            assert(out.deep_view() =~= v.deep_view().take(i + 1));
        }
        i = i + 1;
    }
    proof {
        assert(out.deep_view() =~= v.deep_view());
    }
    out
}

/// The list of funding options for the project.
pub struct FundingOptions {
    pub title: String,
    pub funding_options: Vec<Programme>,
    pub visible: bool,
}

/// Mathematical image of a [`FundingOptions`].
#[verifier::ext_equal]
pub struct FundingOptionsV {
    pub title: Seq<char>,
    pub funding_options: Seq<ProgrammeV>,
    pub visible: bool,
}

impl DeepView for FundingOptions {
    type V = FundingOptionsV;

    open spec fn deep_view(&self) -> FundingOptionsV {
        FundingOptionsV {
            title: self.title.deep_view(),
            funding_options: self.funding_options.deep_view(),
            visible: self.visible,
        }
    }
}

pub open spec fn funding_default_v() -> FundingOptionsV {
    FundingOptionsV {
        title: "Funding Options"@,
        funding_options: Seq::<ProgrammeV>::empty(),
        visible: false,
    }
}

impl Default for FundingOptions {
    fn default() -> (r: Self)
        ensures
            r.deep_view() == funding_default_v(),
    {
        let r = FundingOptions {
            title: String::from_str("Funding Options"),
            funding_options: Vec::new(),
            visible: false,
        };
        proof {
            assert(r.deep_view() =~= funding_default_v());
        }
        r
    }
}

impl Clone for FundingOptions {
    fn clone(&self) -> (r: Self)
        ensures
            r.deep_view() == self.deep_view(),
    {
        let r = FundingOptions {
            title: self.title.clone(),
            funding_options: clone_programmes(&self.funding_options),
            visible: self.visible,
        };
        proof {
            assert(r.deep_view() =~= self.deep_view());
        }
        r
    }
}

} // verus!
