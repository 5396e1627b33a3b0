//! The outcomes section: expected results, impact and dissemination.

use vstd::prelude::*;

use crate::chapter::{clone_segments, Segment, Variety};
use crate::note::{NoteV, Notes};

verus! {

/// The subsections of the outcomes section.
#[derive(Clone, Copy, PartialEq, Eq, Debug)]
pub enum SectionOutcomes {
    ExpectedResults,
    Impact,
    Propagation,
}

/// Expected results, impact and dissemination of the project.
pub struct Outcomes {
    pub title: String,
    /// Ordering of the subsections in the editor; never persisted.
    pub index_list: Vec<Segment>,
    pub results: Notes,
    pub impact: Notes,
    pub propagation: Notes,
    pub visible: bool,
}

/// Mathematical image of an [`Outcomes`].
#[verifier::ext_equal]
pub struct OutcomesV {
    pub title: Seq<char>,
    pub index_list: Seq<Segment>,
    pub results: Seq<NoteV>,
    pub impact: Seq<NoteV>,
    pub propagation: Seq<NoteV>,
    pub visible: bool,
}

impl DeepView for Outcomes {
    type V = OutcomesV;

    open spec fn deep_view(&self) -> OutcomesV {
        OutcomesV {
            title: self.title.deep_view(),
            index_list: self.index_list.deep_view(),
            results: self.results.deep_view(),
            impact: self.impact.deep_view(),
            propagation: self.propagation.deep_view(),
            visible: self.visible,
        }
    }
}

pub open spec fn outcomes_index_default() -> Seq<Segment> {
    seq![
        Segment { variety: Variety::SectionOutcomes(SectionOutcomes::ExpectedResults), tier: 1 },
        Segment { variety: Variety::SectionOutcomes(SectionOutcomes::Impact), tier: 1 },
        Segment { variety: Variety::SectionOutcomes(SectionOutcomes::Propagation), tier: 4 },
    ]
}

pub open spec fn outcomes_default_v() -> OutcomesV {
    OutcomesV {
        title: "Expected Results, Impact and Dissemination"@,
        index_list: outcomes_index_default(),
        results: Seq::<NoteV>::empty(),
        impact: Seq::<NoteV>::empty(),
        propagation: Seq::<NoteV>::empty(),
        visible: false,
    }
}

impl Default for Outcomes {
    fn default() -> (r: Self)
        ensures
            r.deep_view() == outcomes_default_v(),
    {
        let mut index_list: Vec<Segment> = Vec::new();
        index_list.push(
            Segment {
                variety: Variety::SectionOutcomes(SectionOutcomes::ExpectedResults),
                tier: 1,
            },
        );
        index_list.push(
            Segment { variety: Variety::SectionOutcomes(SectionOutcomes::Impact), tier: 1 },
        );
        index_list.push(
            Segment { variety: Variety::SectionOutcomes(SectionOutcomes::Propagation), tier: 4 },
        );
        proof {
            assert(index_list.deep_view() =~= outcomes_index_default());
        }
        let r = Outcomes {
            title: String::from_str("Expected Results, Impact and Dissemination"),
            index_list,
            results: Notes::default(),
            impact: Notes::default(),
            propagation: Notes::default(),
            visible: false,
        };
        proof {
            assert(r.deep_view() =~= outcomes_default_v());
        }
        r
    }
}

impl Clone for Outcomes {
    fn clone(&self) -> (r: Self)
        ensures
            r.deep_view() == self.deep_view(),
    {
        let r = Outcomes {
            title: self.title.clone(),
            index_list: clone_segments(&self.index_list),
            results: self.results.clone(),
            impact: self.impact.clone(),
            propagation: self.propagation.clone(),
            visible: self.visible,
        };
        proof {
            assert(r.deep_view() =~= self.deep_view());
        }
        r
    }
}

} // verus!
