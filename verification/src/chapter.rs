//! Content kinds and ordering segments.
//!
//! A `Variety` names what a section or subsection holds; a `Segment` pairs a
//! variety with the detail tier at which the editor exposes it.  Segment
//! lists order the editing view only — persisted addresses never depend on
//! them.

use vstd::prelude::*;

use crate::sections::budget::SectionBudget;
use crate::sections::idea::SectionIdea;
use crate::sections::outcomes::SectionOutcomes;
use crate::sections::scope::SectionScope;
use crate::sections::team::SectionTeam;
use crate::sections::timeline::SectionTimeline;

verus! {

/// One entry of an ordering list: which content, at which detail tier.
#[derive(Clone, Copy, PartialEq, Eq, Debug)]
pub struct Segment {
    pub variety: Variety,
    pub tier: usize,
}

impl DeepView for Segment {
    type V = Segment;

    open spec fn deep_view(&self) -> Segment {
        *self
    }
}

/// The essence of a piece of content: a top-level section, or a subsection
/// of one of the structured sections.
#[derive(Clone, Copy, PartialEq, Eq, Debug)]
pub enum Variety {
    Attachments,
    Budget,
    Funding,
    Idea,
    Literature,
    Methodology,
    Outcomes,
    PrelimResults,
    Resources,
    Scope,
    Scripting,
    Team,
    Timeline,
    WorkingName,
    /// Generic section containing notes.
    Section,
    SectionBudget(SectionBudget),
    SectionIdea(SectionIdea),
    SectionOutcomes(SectionOutcomes),
    SectionScope(SectionScope),
    SectionTeam(SectionTeam),
    SectionTimeline(SectionTimeline),
}

impl DeepView for Variety {
    type V = Variety;

    open spec fn deep_view(&self) -> Variety {
        *self
    }
}

/// Copies an ordering list.
pub fn clone_segments(v: &Vec<Segment>) -> (r: Vec<Segment>)
    ensures
        r.deep_view() == v.deep_view(),
{
    let mut out: Vec<Segment> = Vec::new();
    let mut i: usize = 0;
    while i < v.len()
        invariant
            i <= v.len(),
            out.deep_view() =~= v.deep_view().take(i as int),
        decreases v.len() - i,
    {
        let ghost pre = out.deep_view();
        out.push(v[i]);
        proof {
            assert(out.deep_view() =~= pre.push(v.deep_view()[i as int]));
            assert(out.deep_view() =~= v.deep_view().take(i + 1));
        }
        i = i + 1;
    }
    proof {
        assert(out.deep_view() =~= v.deep_view());
    }
    out
}

} // verus!
