//! The idea section: problem statement, hypothesis, abstract, short
//! description, and the key references, each a tiered subsection.

use vstd::prelude::*;

use crate::chapter::{clone_segments, Segment, Variety};
use crate::note::{NoteV, Notes};
use crate::sections::references::{References, ReferencesV};

verus! {

/// The subsections of the idea section.
#[derive(Clone, Copy, PartialEq, Eq, Debug)]
pub enum SectionIdea {
    Abstract,
    Hypothesis,
    KeyReferences,
    Problem,
    ProjectDescription,
}

/// The idea of the project.
pub struct Idea {
    pub title: String,
    /// Ordering of the subsections in the editor; never persisted.
    pub index_list: Vec<Segment>,
    /// What is the problem to be solved.
    pub problem: Notes,
    /// Main idea, research hypothesis.
    pub hypothesis: Notes,
    /// Abstract of the project.
    pub summary: Notes,
    /// Short description of the project.
    pub description: Notes,
    /// The key references supporting the idea.
    pub references: References,
    pub visible: bool,
}

/// Mathematical image of an [`Idea`].
#[verifier::ext_equal]
pub struct IdeaV {
    pub title: Seq<char>,
    pub index_list: Seq<Segment>,
    pub problem: Seq<NoteV>,
    pub hypothesis: Seq<NoteV>,
    pub summary: Seq<NoteV>,
    pub description: Seq<NoteV>,
    pub references: ReferencesV,
    pub visible: bool,
}

impl DeepView for Idea {
    type V = IdeaV;

    open spec fn deep_view(&self) -> IdeaV {
        IdeaV {
            title: self.title.deep_view(),
            index_list: self.index_list.deep_view(),
            problem: self.problem.deep_view(),
            hypothesis: self.hypothesis.deep_view(),
            summary: self.summary.deep_view(),
            description: self.description.deep_view(),
            references: self.references.deep_view(),
            visible: self.visible,
        }
    }
}

pub open spec fn idea_index_default() -> Seq<Segment> {
    seq![
        Segment { variety: Variety::SectionIdea(SectionIdea::Problem), tier: 1 },
        Segment { variety: Variety::SectionIdea(SectionIdea::Hypothesis), tier: 1 },
        Segment { variety: Variety::SectionIdea(SectionIdea::Abstract), tier: 3 },
        Segment { variety: Variety::SectionIdea(SectionIdea::ProjectDescription), tier: 3 },
        Segment { variety: Variety::SectionIdea(SectionIdea::KeyReferences), tier: 1 },
    ]
}

pub open spec fn idea_default_v() -> IdeaV {
    IdeaV {
        title: "Idea"@,
        index_list: idea_index_default(),
        problem: Seq::<NoteV>::empty(),
        hypothesis: Seq::<NoteV>::empty(),
        summary: Seq::<NoteV>::empty(),
        description: Seq::<NoteV>::empty(),
        references: crate::sections::references::references_default_v(),
        visible: false,
    }
}

impl Default for Idea {
    fn default() -> (r: Self)
        ensures
            r.deep_view() == idea_default_v(),
    {
        let mut index_list: Vec<Segment> = Vec::new();
        index_list.push(Segment { variety: Variety::SectionIdea(SectionIdea::Problem), tier: 1 });
        index_list.push(
            Segment { variety: Variety::SectionIdea(SectionIdea::Hypothesis), tier: 1 },
        );
        index_list.push(Segment { variety: Variety::SectionIdea(SectionIdea::Abstract), tier: 3 });
        index_list.push(
            Segment { variety: Variety::SectionIdea(SectionIdea::ProjectDescription), tier: 3 },
        );
        index_list.push(
            Segment { variety: Variety::SectionIdea(SectionIdea::KeyReferences), tier: 1 },
        );
        proof {
            assert(index_list.deep_view() =~= idea_index_default());
        }
        let r = Idea {
            title: String::from_str("Idea"),
            index_list,
            problem: Notes::default(),
            hypothesis: Notes::default(),
            summary: Notes::default(),
            description: Notes::default(),
            references: References::default(),
            visible: false,
        };
        proof {
            assert(r.deep_view() =~= idea_default_v());
        }
        r
    }
}

impl Clone for Idea {
    fn clone(&self) -> (r: Self)
        ensures
            r.deep_view() == self.deep_view(),
    {
        let r = Idea {
            title: self.title.clone(),
            index_list: clone_segments(&self.index_list),
            problem: self.problem.clone(),
            hypothesis: self.hypothesis.clone(),
            summary: self.summary.clone(),
            description: self.description.clone(),
            references: self.references.clone(),
            visible: self.visible,
        };
        proof {
            assert(r.deep_view() =~= self.deep_view());
        }
        r
    }
}

} // verus!
