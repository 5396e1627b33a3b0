//! The root document: owner identity, detail resolution, the ordering list
//! of sections, and the fixed set of fourteen named sections.

use vstd::prelude::*;

use crate::chapter::{clone_segments, Segment, Variety};
use crate::sections::attachments::{attachments_default_v, Attachments, AttachmentsV};
use crate::sections::budget::{budget_default_v, Budget, BudgetV};
use crate::sections::funding::{funding_default_v, FundingOptions, FundingOptionsV};
use crate::sections::idea::{idea_default_v, Idea, IdeaV};
use crate::sections::literature::{literature_default_v, Literature, LiteratureV};
use crate::sections::methodology::{methodology_default_v, Methodology, MethodologyV};
use crate::sections::outcomes::{outcomes_default_v, Outcomes, OutcomesV};
use crate::sections::prelim_results::{prelim_results_default_v, PrelimResults, PrelimResultsV};
use crate::sections::resources::{resources_default_v, Resources, ResourcesV};
use crate::sections::scope::{scope_default_v, Scope, ScopeV};
use crate::sections::scripting::{scripting_default_v, Scripting, ScriptingV};
use crate::sections::team::{team_default_v, Team, TeamV};
use crate::sections::timeline::{timeline_default_v, Timeline, TimelineV};
use crate::sections::working_name::{project_title_default_v, ProjectTitle, ProjectTitleV};

verus! {

/// Who owns the document.  The editing application fills these in from its
/// account settings; an untouched document carries empty strings.
#[derive(PartialEq, Eq, Debug)]
pub struct ProjectOwner {
    pub email: String,
    pub account: String,
}

/// Mathematical image of a [`ProjectOwner`].
#[verifier::ext_equal]
pub struct ProjectOwnerV {
    pub email: Seq<char>,
    pub account: Seq<char>,
}

impl DeepView for ProjectOwner {
    type V = ProjectOwnerV;

    open spec fn deep_view(&self) -> ProjectOwnerV {
        ProjectOwnerV { email: self.email.deep_view(), account: self.account.deep_view() }
    }
}

pub open spec fn project_owner_default_v() -> ProjectOwnerV {
    ProjectOwnerV { email: Seq::<char>::empty(), account: Seq::<char>::empty() }
}

impl Default for ProjectOwner {
    fn default() -> (r: Self)
        ensures
            r.deep_view() == project_owner_default_v(),
    {
        let r = ProjectOwner { email: String::new(), account: String::new() };
        proof {
            assert(r.deep_view() =~= project_owner_default_v());
        }
        r
    }
}

impl Clone for ProjectOwner {
    fn clone(&self) -> (r: Self)
        ensures
            r.deep_view() == self.deep_view(),
    {
        let r = ProjectOwner { email: self.email.clone(), account: self.account.clone() };
        proof {
            assert(r.deep_view() =~= self.deep_view());
        }
        r
    }
}

/// The in-memory document.
pub struct Project {
    /// Record name for named revisions and snapshots.
    pub record: String,
    pub owner: ProjectOwner,
    /// Detail resolution: which tiers the editor exposes.
    pub resolution: usize,
    /// Ordering of the sections in the editor; never persisted.
    pub index_list: Vec<Segment>,
    pub attachments: Attachments,
    pub budget: Budget,
    pub funding: FundingOptions,
    pub idea: Idea,
    pub literature: Literature,
    pub methodology: Methodology,
    pub outcomes: Outcomes,
    pub prelim_results: PrelimResults,
    pub resources: Resources,
    pub scope: Scope,
    pub scripting: Scripting,
    pub team: Team,
    pub timeline: Timeline,
    pub working_name: ProjectTitle,
}

/// Mathematical image of a [`Project`].
#[verifier::ext_equal]
pub struct ProjectV {
    pub record: Seq<char>,
    pub owner: ProjectOwnerV,
    pub resolution: usize,
    pub index_list: Seq<Segment>,
    pub attachments: AttachmentsV,
    pub budget: BudgetV,
    pub funding: FundingOptionsV,
    pub idea: IdeaV,
    pub literature: LiteratureV,
    pub methodology: MethodologyV,
    pub outcomes: OutcomesV,
    pub prelim_results: PrelimResultsV,
    pub resources: ResourcesV,
    pub scope: ScopeV,
    pub scripting: ScriptingV,
    pub team: TeamV,
    pub timeline: TimelineV,
    pub working_name: ProjectTitleV,
}

impl DeepView for Project {
    type V = ProjectV;

    open spec fn deep_view(&self) -> ProjectV {
        ProjectV {
            record: self.record.deep_view(),
            owner: self.owner.deep_view(),
            resolution: self.resolution,
            index_list: self.index_list.deep_view(),
            attachments: self.attachments.deep_view(),
            budget: self.budget.deep_view(),
            funding: self.funding.deep_view(),
            idea: self.idea.deep_view(),
            literature: self.literature.deep_view(),
            methodology: self.methodology.deep_view(),
            outcomes: self.outcomes.deep_view(),
            prelim_results: self.prelim_results.deep_view(),
            resources: self.resources.deep_view(),
            scope: self.scope.deep_view(),
            scripting: self.scripting.deep_view(),
            team: self.team.deep_view(),
            timeline: self.timeline.deep_view(),
            working_name: self.working_name.deep_view(),
        }
    }
}

/// Default ordering and tiers of the fourteen sections.
pub open spec fn project_index_default() -> Seq<Segment> {
    seq![
        Segment { variety: Variety::WorkingName, tier: 1 },
        Segment { variety: Variety::Idea, tier: 1 },
        Segment { variety: Variety::Funding, tier: 1 },
        Segment { variety: Variety::Scope, tier: 2 },
        Segment { variety: Variety::Timeline, tier: 1 },
        Segment { variety: Variety::Scripting, tier: 2 },
        Segment { variety: Variety::Team, tier: 2 },
        Segment { variety: Variety::PrelimResults, tier: 4 },
        Segment { variety: Variety::Methodology, tier: 4 },
        Segment { variety: Variety::Outcomes, tier: 4 },
        Segment { variety: Variety::Literature, tier: 4 },
        Segment { variety: Variety::Resources, tier: 4 },
        Segment { variety: Variety::Budget, tier: 4 },
        Segment { variety: Variety::Attachments, tier: 999 },
    ]
}

/// The document every session starts from.
pub open spec fn project_default_v() -> ProjectV {
    ProjectV {
        record: Seq::<char>::empty(),
        owner: project_owner_default_v(),
        resolution: 1,
        index_list: project_index_default(),
        attachments: attachments_default_v(),
        budget: budget_default_v(),
        funding: funding_default_v(),
        idea: idea_default_v(),
        literature: literature_default_v(),
        methodology: methodology_default_v(),
        outcomes: outcomes_default_v(),
        prelim_results: prelim_results_default_v(),
        resources: resources_default_v(),
        scope: scope_default_v(),
        scripting: scripting_default_v(),
        team: team_default_v(),
        timeline: timeline_default_v(),
        working_name: project_title_default_v(),
    }
}

impl Default for Project {
    fn default() -> (r: Self)
        ensures
            r.deep_view() == project_default_v(),
    {
        let mut index_list: Vec<Segment> = Vec::new();
        index_list.push(Segment { variety: Variety::WorkingName, tier: 1 });
        index_list.push(Segment { variety: Variety::Idea, tier: 1 });
        index_list.push(Segment { variety: Variety::Funding, tier: 1 });
        index_list.push(Segment { variety: Variety::Scope, tier: 2 });
        index_list.push(Segment { variety: Variety::Timeline, tier: 1 });
        index_list.push(Segment { variety: Variety::Scripting, tier: 2 });
        index_list.push(Segment { variety: Variety::Team, tier: 2 });
        index_list.push(Segment { variety: Variety::PrelimResults, tier: 4 });
        index_list.push(Segment { variety: Variety::Methodology, tier: 4 });
        index_list.push(Segment { variety: Variety::Outcomes, tier: 4 });
        index_list.push(Segment { variety: Variety::Literature, tier: 4 });
        index_list.push(Segment { variety: Variety::Resources, tier: 4 });
        index_list.push(Segment { variety: Variety::Budget, tier: 4 });
        index_list.push(Segment { variety: Variety::Attachments, tier: 999 });
        proof {
            assert(index_list.deep_view() =~= project_index_default());
        }
        let r = Project {
            record: String::new(),
            owner: ProjectOwner::default(),
            resolution: 1,
            index_list,
            attachments: Attachments::default(),
            budget: Budget::default(),
            funding: FundingOptions::default(),
            idea: Idea::default(),
            literature: Literature::default(),
            methodology: Methodology::default(),
            outcomes: Outcomes::default(),
            prelim_results: PrelimResults::default(),
            resources: Resources::default(),
            scope: Scope::default(),
            scripting: Scripting::default(),
            team: Team::default(),
            timeline: Timeline::default(),
            working_name: ProjectTitle::default(),
        };
        proof {
            assert(r.deep_view() =~= project_default_v());
        }
        r
    }
}

impl Clone for Project {
    /// A deep copy: snapshots taken from the live document share no state
    /// with it, so later edits cannot reach back into a snapshot.
    fn clone(&self) -> (r: Self)
        ensures
            r.deep_view() == self.deep_view(),
    {
        let r = Project {
            record: self.record.clone(),
            owner: self.owner.clone(),
            resolution: self.resolution,
            index_list: clone_segments(&self.index_list),
            attachments: self.attachments.clone(),
            budget: self.budget.clone(),
            funding: self.funding.clone(),
            idea: self.idea.clone(),
            literature: self.literature.clone(),
            methodology: self.methodology.clone(),
            outcomes: self.outcomes.clone(),
            prelim_results: self.prelim_results.clone(),
            resources: self.resources.clone(),
            scope: self.scope.clone(),
            scripting: self.scripting.clone(),
            team: self.team.clone(),
            timeline: self.timeline.clone(),
            working_name: self.working_name.clone(),
        };
        proof {
            assert(r.deep_view() =~= self.deep_view());
        }
        r
    }
}

} // verus!
