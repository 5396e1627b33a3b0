//! The scope section: objectives and planned activities, five tiered note
//! lists.

use vstd::prelude::*;

use crate::chapter::{clone_segments, Segment, Variety};
use crate::note::{NoteV, Notes};

verus! {

/// The subsections of the scope section.
#[derive(Clone, Copy, PartialEq, Eq, Debug)]
pub enum SectionScope {
    Activities,
    Objectives,
    SuggestedTasks,
    Tasks,
    WorkPlan,
}

/// Objectives and planned activities of the project.
pub struct Scope {
    pub title: String,
    /// Ordering of the subsections in the editor; never persisted.
    pub index_list: Vec<Segment>,
    /// Tasks for the partners as suggested by the participants.
    pub suggested_tasks: Notes,
    pub objectives: Notes,
    /// General description of the planned work.
    pub activities: Notes,
    pub work_plan: Notes,
    pub tasks: Notes,
    pub visible: bool,
}

/// Mathematical image of a [`Scope`].
#[verifier::ext_equal]
pub struct ScopeV {
    pub title: Seq<char>,
    pub index_list: Seq<Segment>,
    pub suggested_tasks: Seq<NoteV>,
    pub objectives: Seq<NoteV>,
    pub activities: Seq<NoteV>,
    pub work_plan: Seq<NoteV>,
    pub tasks: Seq<NoteV>,
    pub visible: bool,
}

impl DeepView for Scope {
    type V = ScopeV;

    open spec fn deep_view(&self) -> ScopeV {
        ScopeV {
            title: self.title.deep_view(),
            index_list: self.index_list.deep_view(),
            suggested_tasks: self.suggested_tasks.deep_view(),
            objectives: self.objectives.deep_view(),
            activities: self.activities.deep_view(),
            work_plan: self.work_plan.deep_view(),
            tasks: self.tasks.deep_view(),
            visible: self.visible,
        }
    }
}

pub open spec fn scope_index_default() -> Seq<Segment> {
    seq![
        Segment { variety: Variety::SectionScope(SectionScope::SuggestedTasks), tier: 2 },
        Segment { variety: Variety::SectionScope(SectionScope::Objectives), tier: 3 },
        Segment { variety: Variety::SectionScope(SectionScope::Activities), tier: 3 },
        Segment { variety: Variety::SectionScope(SectionScope::WorkPlan), tier: 3 },
        Segment { variety: Variety::SectionScope(SectionScope::Tasks), tier: 3 },
    ]
}

pub open spec fn scope_default_v() -> ScopeV {
    ScopeV {
        title: "Project Scope: Objectives and Planned Activities"@,
        index_list: scope_index_default(),
        suggested_tasks: Seq::<NoteV>::empty(),
        objectives: Seq::<NoteV>::empty(),
        activities: Seq::<NoteV>::empty(),
        work_plan: Seq::<NoteV>::empty(),
        tasks: Seq::<NoteV>::empty(),
        visible: false,
    }
}

impl Default for Scope {
    fn default() -> (r: Self)
        ensures
            r.deep_view() == scope_default_v(),
    {
        let mut index_list: Vec<Segment> = Vec::new();
        index_list.push(
            Segment { variety: Variety::SectionScope(SectionScope::SuggestedTasks), tier: 2 },
        );
        index_list.push(
            Segment { variety: Variety::SectionScope(SectionScope::Objectives), tier: 3 },
        );
        index_list.push(
            Segment { variety: Variety::SectionScope(SectionScope::Activities), tier: 3 },
        );
        index_list.push(
            Segment { variety: Variety::SectionScope(SectionScope::WorkPlan), tier: 3 },
        );
        index_list.push(Segment { variety: Variety::SectionScope(SectionScope::Tasks), tier: 3 });
        proof {
            assert(index_list.deep_view() =~= scope_index_default());
        }
        let r = Scope {
            title: String::from_str("Project Scope: Objectives and Planned Activities"),
            index_list,
            suggested_tasks: Notes::default(),
            objectives: Notes::default(),
            activities: Notes::default(),
            work_plan: Notes::default(),
            tasks: Notes::default(),
            visible: false,
        };
        proof {
            assert(r.deep_view() =~= scope_default_v());
        }
        r
    }
}

impl Clone for Scope {
    fn clone(&self) -> (r: Self)
        ensures
            r.deep_view() == self.deep_view(),
    {
        let r = Scope {
            title: self.title.clone(),
            index_list: clone_segments(&self.index_list),
            suggested_tasks: self.suggested_tasks.clone(),
            objectives: self.objectives.clone(),
            activities: self.activities.clone(),
            work_plan: self.work_plan.clone(),
            tasks: self.tasks.clone(),
            visible: self.visible,
        };
        proof {
            assert(r.deep_view() =~= self.deep_view());
        }
        r
    }
}

} // verus!
