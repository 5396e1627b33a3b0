//! The frozen prior schema tagged `B0003`: a plain nested record tree, not
//! chunk-addressed.  Its record types mirror that schema exactly and never
//! change again; the conversion into the current document is total and
//! field by field, which is stated by giving each frozen type the current
//! mathematical image as its view.

use vstd::prelude::*;

use crate::chapter::{Segment, Variety};
use crate::note::{Note, NoteV, Notes};
use crate::project::{Project, ProjectOwner, ProjectOwnerV, ProjectV};
use crate::sections::attachments::{Attachments, AttachmentsV};
use crate::sections::budget::{Budget, BudgetV, SectionBudget};
use crate::sections::funding::{FundingOptions, FundingOptionsV, Programme, ProgrammeV};
use crate::sections::idea::{Idea, IdeaV, SectionIdea};
use crate::sections::literature::{Literature, LiteratureV};
use crate::sections::methodology::{Methodology, MethodologyV};
use crate::sections::outcomes::{Outcomes, OutcomesV, SectionOutcomes};
use crate::sections::prelim_results::{PrelimResults, PrelimResultsV};
use crate::sections::references::{Reference, ReferenceV, References, ReferencesV};
use crate::sections::resources::{Resources, ResourcesV};
use crate::sections::scope::{Scope, ScopeV, SectionScope};
use crate::sections::scripting::{Scripting, ScriptingOption, ScriptingV};
use crate::sections::team::{
    ModuleParticipant, Participant, ParticipantV, SectionTeam, Team, TeamV,
};
use crate::sections::timeline::{Date, Numeral, SectionTimeline, Timeline, TimelineV};
use crate::sections::working_name::{ProjectTitle, ProjectTitleV};

verus! {

// ~~~~~~~~~~~~~~~~~~~~~~~~~~~~~~~~~~~~~~~~~~~~~~~~~~~~~~~~~~~~~~~~~~~~~~~~~~
// The frozen record types.
// ~~~~~~~~~~~~~~~~~~~~~~~~~~~~~~~~~~~~~~~~~~~~~~~~~~~~~~~~~~~~~~~~~~~~~~~~~~
#[derive(Clone, Copy, PartialEq, Eq, Debug)]
pub enum ScriptingOption0003 {
    Myself,
    Jointly,
    Other,
}

/// The enumerated-value remapping of the old choice type.
pub open spec fn spec_scripting_option_b0003(v: ScriptingOption0003) -> ScriptingOption {
    match v {
        ScriptingOption0003::Myself => ScriptingOption::Myself,
        ScriptingOption0003::Jointly => ScriptingOption::Jointly,
        ScriptingOption0003::Other => ScriptingOption::Other,
    }
}

impl DeepView for ScriptingOption0003 {
    type V = ScriptingOption;

    open spec fn deep_view(&self) -> ScriptingOption {
        spec_scripting_option_b0003(*self)
    }
}

#[derive(Clone, Copy, PartialEq, Eq, Debug)]
pub enum SectionBudget0003 {
    Facilities,
    Materials,
    Miscellaneous,
    Overheads,
    Personnel,
    Workshops,
}

#[derive(Clone, Copy, PartialEq, Eq, Debug)]
pub enum SectionIdea0003 {
    Abstract,
    Hypothesis,
    KeyReferences,
    Problem,
    ProjectDescription,
}

#[derive(Clone, Copy, PartialEq, Eq, Debug)]
pub enum SectionOutcomes0003 {
    ExpectedResults,
    Impact,
    Propagation,
}

#[derive(Clone, Copy, PartialEq, Eq, Debug)]
pub enum SectionScope0003 {
    Activities,
    Objectives,
    SuggestedTasks,
    Tasks,
    WorkPlan,
}

#[derive(Clone, Copy, PartialEq, Eq, Debug)]
pub enum SectionTeam0003 {
    IndustrialPartners,
    Participants,
    ProjectLeader,
    Proponents,
    ProposedPartners,
    ModuleParticipant(ModuleParticipant0003),
}

#[derive(Clone, Copy, PartialEq, Eq, Debug)]
pub enum ModuleParticipant0003 {
    Budget,
    Contribution,
    CV,
    Resources,
    Team,
}

#[derive(Clone, Copy, PartialEq, Eq, Debug)]
pub enum SectionTimeline0003 {
    Milestones,
    ProjectTiming,
}

#[derive(Clone, Copy, PartialEq, Eq, Debug)]
pub enum Variety0003 {
    Attachments,
    Budget,
    Funding,
    Idea,
    Literature,
    Methodology,
    Outcomes,
    PrelimResults,
    Resources,
    Scope,
    Scripting,
    Team,
    Timeline,
    WorkingName,
    Section,
    SectionBudget(SectionBudget0003),
    SectionIdea(SectionIdea0003),
    SectionOutcomes(SectionOutcomes0003),
    SectionScope(SectionScope0003),
    SectionTeam(SectionTeam0003),
    SectionTimeline(SectionTimeline0003),
}

/// The total tag remapping from the old content kinds to the current ones.
pub open spec fn spec_variety_b0003(v: Variety0003) -> Variety {
    match v {
        Variety0003::Attachments => Variety::Attachments,
        Variety0003::Budget => Variety::Budget,
        Variety0003::Funding => Variety::Funding,
        Variety0003::Idea => Variety::Idea,
        Variety0003::Literature => Variety::Literature,
        Variety0003::Methodology => Variety::Methodology,
        Variety0003::Outcomes => Variety::Outcomes,
        Variety0003::PrelimResults => Variety::PrelimResults,
        Variety0003::Resources => Variety::Resources,
        Variety0003::Scope => Variety::Scope,
        Variety0003::Scripting => Variety::Scripting,
        Variety0003::Section => Variety::Section,
        Variety0003::Team => Variety::Team,
        Variety0003::Timeline => Variety::Timeline,
        Variety0003::WorkingName => Variety::WorkingName,
        Variety0003::SectionBudget(SectionBudget0003::Facilities) => Variety::SectionBudget(
            SectionBudget::Facilities,
        ),
        Variety0003::SectionBudget(SectionBudget0003::Materials) => Variety::SectionBudget(
            SectionBudget::Materials,
        ),
        Variety0003::SectionBudget(SectionBudget0003::Miscellaneous) => Variety::SectionBudget(
            SectionBudget::Miscellaneous,
        ),
        Variety0003::SectionBudget(SectionBudget0003::Overheads) => Variety::SectionBudget(
            SectionBudget::Overheads,
        ),
        Variety0003::SectionBudget(SectionBudget0003::Personnel) => Variety::SectionBudget(
            SectionBudget::Personnel,
        ),
        Variety0003::SectionBudget(SectionBudget0003::Workshops) => Variety::SectionBudget(
            SectionBudget::Workshops,
        ),
        Variety0003::SectionIdea(SectionIdea0003::Abstract) => Variety::SectionIdea(
            SectionIdea::Abstract,
        ),
        Variety0003::SectionIdea(SectionIdea0003::Hypothesis) => Variety::SectionIdea(
            SectionIdea::Hypothesis,
        ),
        Variety0003::SectionIdea(SectionIdea0003::KeyReferences) => Variety::SectionIdea(
            SectionIdea::KeyReferences,
        ),
        Variety0003::SectionIdea(SectionIdea0003::Problem) => Variety::SectionIdea(
            SectionIdea::Problem,
        ),
        Variety0003::SectionIdea(SectionIdea0003::ProjectDescription) => Variety::SectionIdea(
            SectionIdea::ProjectDescription,
        ),
        Variety0003::SectionOutcomes(SectionOutcomes0003::ExpectedResults) => {
            Variety::SectionOutcomes(SectionOutcomes::ExpectedResults)
        },
        Variety0003::SectionOutcomes(SectionOutcomes0003::Impact) => Variety::SectionOutcomes(
            SectionOutcomes::Impact,
        ),
        Variety0003::SectionOutcomes(SectionOutcomes0003::Propagation) => Variety::SectionOutcomes(
            SectionOutcomes::Propagation,
        ),
        Variety0003::SectionScope(SectionScope0003::Activities) => Variety::SectionScope(
            SectionScope::Activities,
        ),
        Variety0003::SectionScope(SectionScope0003::Objectives) => Variety::SectionScope(
            SectionScope::Objectives,
        ),
        Variety0003::SectionScope(SectionScope0003::SuggestedTasks) => Variety::SectionScope(
            SectionScope::SuggestedTasks,
        ),
        Variety0003::SectionScope(SectionScope0003::Tasks) => Variety::SectionScope(
            SectionScope::Tasks,
        ),
        Variety0003::SectionScope(SectionScope0003::WorkPlan) => Variety::SectionScope(
            SectionScope::WorkPlan,
        ),
        Variety0003::SectionTeam(SectionTeam0003::IndustrialPartners) => Variety::SectionTeam(
            SectionTeam::IndustrialPartners,
        ),
        Variety0003::SectionTeam(SectionTeam0003::Participants) => Variety::SectionTeam(
            SectionTeam::Participants,
        ),
        Variety0003::SectionTeam(SectionTeam0003::ProjectLeader) => Variety::SectionTeam(
            SectionTeam::ProjectLeader,
        ),
        Variety0003::SectionTeam(SectionTeam0003::Proponents) => Variety::SectionTeam(
            SectionTeam::Proponents,
        ),
        Variety0003::SectionTeam(SectionTeam0003::ProposedPartners) => Variety::SectionTeam(
            SectionTeam::ProposedPartners,
        ),
        Variety0003::SectionTeam(SectionTeam0003::ModuleParticipant(ModuleParticipant0003::Budget))
            => Variety::SectionTeam(SectionTeam::ModuleParticipant(ModuleParticipant::Budget)),
        Variety0003::SectionTeam(
            SectionTeam0003::ModuleParticipant(ModuleParticipant0003::Contribution),
        ) => Variety::SectionTeam(SectionTeam::ModuleParticipant(ModuleParticipant::Contribution)),
        Variety0003::SectionTeam(SectionTeam0003::ModuleParticipant(ModuleParticipant0003::CV))
            => Variety::SectionTeam(SectionTeam::ModuleParticipant(ModuleParticipant::CV)),
        Variety0003::SectionTeam(
            SectionTeam0003::ModuleParticipant(ModuleParticipant0003::Resources),
        ) => Variety::SectionTeam(SectionTeam::ModuleParticipant(ModuleParticipant::Resources)),
        Variety0003::SectionTeam(SectionTeam0003::ModuleParticipant(ModuleParticipant0003::Team))
            => Variety::SectionTeam(SectionTeam::ModuleParticipant(ModuleParticipant::Team)),
        Variety0003::SectionTimeline(SectionTimeline0003::Milestones) => Variety::SectionTimeline(
            SectionTimeline::Milestones,
        ),
        Variety0003::SectionTimeline(SectionTimeline0003::ProjectTiming) => {
            Variety::SectionTimeline(SectionTimeline::ProjectTiming)
        },
    }
}

impl DeepView for Variety0003 {
    type V = Variety;

    open spec fn deep_view(&self) -> Variety {
        spec_variety_b0003(*self)
    }
}

#[derive(Clone, Copy, PartialEq, Eq, Debug)]
pub struct Segment0003 {
    pub variety: Variety0003,
    pub tier: usize,
}

impl DeepView for Segment0003 {
    type V = Segment;

    open spec fn deep_view(&self) -> Segment {
        Segment { variety: spec_variety_b0003(self.variety), tier: self.tier }
    }
}

pub struct Note0003 {
    pub note: String,
    pub hint: String,
    pub visible: bool,
}

impl DeepView for Note0003 {
    type V = NoteV;

    open spec fn deep_view(&self) -> NoteV {
        NoteV { note: self.note.deep_view(), hint: self.hint.deep_view(), visible: self.visible }
    }
}

pub struct Notes0003 {
    pub notes: Vec<Note0003>,
}

impl DeepView for Notes0003 {
    type V = Seq<NoteV>;

    open spec fn deep_view(&self) -> Seq<NoteV> {
        self.notes.deep_view()
    }
}

/// The old date record carried a live calendar value beside the three
/// numbers; only the numbers are part of the document.
#[derive(Clone, Copy, PartialEq, Eq, Debug)]
pub struct Date0003 {
    pub year: i32,
    pub month: u32,
    pub day: u32,
}

impl DeepView for Date0003 {
    type V = Date;

    open spec fn deep_view(&self) -> Date {
        Date { year: self.year, month: self.month, day: self.day }
    }
}

pub struct ProjectOwner0003 {
    pub email: String,
    pub account: String,
}

impl DeepView for ProjectOwner0003 {
    type V = ProjectOwnerV;

    open spec fn deep_view(&self) -> ProjectOwnerV {
        ProjectOwnerV { email: self.email.deep_view(), account: self.account.deep_view() }
    }
}

pub struct ProjectTitle0003 {
    pub title: String,
    pub options: Notes0003,
    pub visible: bool,
}

impl DeepView for ProjectTitle0003 {
    type V = ProjectTitleV;

    open spec fn deep_view(&self) -> ProjectTitleV {
        ProjectTitleV {
            title: self.title.deep_view(),
            options: self.options.deep_view(),
            visible: self.visible,
        }
    }
}

pub struct Reference0003 {
    pub title: String,
    pub hyperlink: String,
    pub source_details: Notes0003,
    pub visible: bool,
}

impl DeepView for Reference0003 {
    type V = ReferenceV;

    open spec fn deep_view(&self) -> ReferenceV {
        ReferenceV {
            title: self.title.deep_view(),
            hyperlink: self.hyperlink.deep_view(),
            source_details: self.source_details.deep_view(),
            visible: self.visible,
        }
    }
}

pub struct References0003 {
    pub title: String,
    pub references: Vec<Reference0003>,
    pub visible: bool,
}

impl DeepView for References0003 {
    type V = ReferencesV;

    open spec fn deep_view(&self) -> ReferencesV {
        ReferencesV {
            title: self.title.deep_view(),
            references: self.references.deep_view(),
            visible: self.visible,
        }
    }
}

pub struct Programme0003 {
    pub title: String,
    pub hyperlink: String,
    pub deadline: Date0003,
    pub annotation: Notes0003,
    pub visible: bool,
}

impl DeepView for Programme0003 {
    type V = ProgrammeV;

    open spec fn deep_view(&self) -> ProgrammeV {
        ProgrammeV {
            title: self.title.deep_view(),
            hyperlink: self.hyperlink.deep_view(),
            deadline: self.deadline.deep_view(),
            annotation: self.annotation.deep_view(),
            visible: self.visible,
        }
    }
}

pub struct FundingOptions0003 {
    pub title: String,
    pub funding_options: Vec<Programme0003>,
    pub visible: bool,
}

impl DeepView for FundingOptions0003 {
    type V = FundingOptionsV;

    open spec fn deep_view(&self) -> FundingOptionsV {
        FundingOptionsV {
            title: self.title.deep_view(),
            funding_options: self.funding_options.deep_view(),
            visible: self.visible,
        }
    }
}

pub struct Idea0003 {
    pub title: String,
    pub index_list: Vec<Segment0003>,
    pub problem: Notes0003,
    pub hypothesis: Notes0003,
    pub summary: Notes0003,
    pub description: Notes0003,
    pub references: References0003,
    pub visible: bool,
}

impl DeepView for Idea0003 {
    type V = IdeaV;

    open spec fn deep_view(&self) -> IdeaV {
        IdeaV {
            title: self.title.deep_view(),
            index_list: self.index_list.deep_view(),
            problem: self.problem.deep_view(),
            hypothesis: self.hypothesis.deep_view(),
            summary: self.summary.deep_view(),
            description: self.description.deep_view(),
            references: self.references.deep_view(),
            visible: self.visible,
        }
    }
}

pub struct Literature0003 {
    pub title: String,
    pub literature_survey: Notes0003,
    pub references: Vec<Reference0003>,
    pub visible: bool,
}

impl DeepView for Literature0003 {
    type V = LiteratureV;

    open spec fn deep_view(&self) -> LiteratureV {
        LiteratureV {
            title: self.title.deep_view(),
            literature_survey: self.literature_survey.deep_view(),
            references: self.references.deep_view(),
            visible: self.visible,
        }
    }
}

pub struct Methodology0003 {
    pub title: String,
    pub methodology: Notes0003,
    pub visible: bool,
}

impl DeepView for Methodology0003 {
    type V = MethodologyV;

    open spec fn deep_view(&self) -> MethodologyV {
        MethodologyV {
            title: self.title.deep_view(),
            methodology: self.methodology.deep_view(),
            visible: self.visible,
        }
    }
}

pub struct Outcomes0003 {
    pub title: String,
    pub index_list: Vec<Segment0003>,
    pub results: Notes0003,
    pub impact: Notes0003,
    pub propagation: Notes0003,
    pub visible: bool,
}

impl DeepView for Outcomes0003 {
    type V = OutcomesV;

    open spec fn deep_view(&self) -> OutcomesV {
        OutcomesV {
            title: self.title.deep_view(),
            index_list: self.index_list.deep_view(),
            results: self.results.deep_view(),
            impact: self.impact.deep_view(),
            propagation: self.propagation.deep_view(),
            visible: self.visible,
        }
    }
}

pub struct Participant0003 {
    pub index_list: Vec<Segment0003>,
    pub name: String,
    pub role: String,
    pub affiliation: String,
    pub hyperlink: String,
    pub country: String,
    pub expertise: String,
    pub contribution: Notes0003,
    pub team: Notes0003,
    pub cv: Notes0003,
    pub resources: Notes0003,
    pub budget: Notes0003,
    pub visible: bool,
}

impl DeepView for Participant0003 {
    type V = ParticipantV;

    open spec fn deep_view(&self) -> ParticipantV {
        ParticipantV {
            index_list: self.index_list.deep_view(),
            name: self.name.deep_view(),
            role: self.role.deep_view(),
            affiliation: self.affiliation.deep_view(),
            hyperlink: self.hyperlink.deep_view(),
            country: self.country.deep_view(),
            expertise: self.expertise.deep_view(),
            contribution: self.contribution.deep_view(),
            team: self.team.deep_view(),
            cv: self.cv.deep_view(),
            resources: self.resources.deep_view(),
            budget: self.budget.deep_view(),
            visible: self.visible,
        }
    }
}

pub struct PrelimResults0003 {
    pub title: String,
    pub prelim_results: Notes0003,
    pub visible: bool,
}

impl DeepView for PrelimResults0003 {
    type V = PrelimResultsV;

    open spec fn deep_view(&self) -> PrelimResultsV {
        PrelimResultsV {
            title: self.title.deep_view(),
            prelim_results: self.prelim_results.deep_view(),
            visible: self.visible,
        }
    }
}

pub struct Resources0003 {
    pub title: String,
    pub existing: Notes0003,
    pub further: Notes0003,
    pub visible: bool,
}

impl DeepView for Resources0003 {
    type V = ResourcesV;

    open spec fn deep_view(&self) -> ResourcesV {
        ResourcesV {
            title: self.title.deep_view(),
            existing: self.existing.deep_view(),
            further: self.further.deep_view(),
            visible: self.visible,
        }
    }
}

pub struct Scope0003 {
    pub title: String,
    pub index_list: Vec<Segment0003>,
    pub suggested_tasks: Notes0003,
    pub objectives: Notes0003,
    pub activities: Notes0003,
    pub work_plan: Notes0003,
    pub tasks: Notes0003,
    pub visible: bool,
}

impl DeepView for Scope0003 {
    type V = ScopeV;

    open spec fn deep_view(&self) -> ScopeV {
        ScopeV {
            title: self.title.deep_view(),
            index_list: self.index_list.deep_view(),
            suggested_tasks: self.suggested_tasks.deep_view(),
            objectives: self.objectives.deep_view(),
            activities: self.activities.deep_view(),
            work_plan: self.work_plan.deep_view(),
            tasks: self.tasks.deep_view(),
            visible: self.visible,
        }
    }
}

pub struct Scripting0003 {
    pub title: String,
    pub answer: ScriptingOption0003,
    pub scripting: Notes0003,
    pub visible: bool,
}

impl DeepView for Scripting0003 {
    type V = ScriptingV;

    open spec fn deep_view(&self) -> ScriptingV {
        ScriptingV {
            title: self.title.deep_view(),
            answer: spec_scripting_option_b0003(self.answer),
            scripting: self.scripting.deep_view(),
            visible: self.visible,
        }
    }
}

pub struct Team0003 {
    pub title: String,
    pub index_list: Vec<Segment0003>,
    pub proposed_partners: Notes0003,
    pub project_leader: Notes0003,
    pub industrial_partners: Notes0003,
    pub proponents: Notes0003,
    pub participants: Vec<Participant0003>,
    pub visible: bool,
}

impl DeepView for Team0003 {
    type V = TeamV;

    open spec fn deep_view(&self) -> TeamV {
        TeamV {
            title: self.title.deep_view(),
            index_list: self.index_list.deep_view(),
            proposed_partners: self.proposed_partners.deep_view(),
            project_leader: self.project_leader.deep_view(),
            industrial_partners: self.industrial_partners.deep_view(),
            proponents: self.proponents.deep_view(),
            participants: self.participants.deep_view(),
            visible: self.visible,
        }
    }
}

pub struct Timeline0003 {
    pub title: String,
    pub index_list: Vec<Segment0003>,
    pub project_start: Date0003,
    pub duration_years: Numeral,
    pub milestones: Notes0003,
    pub visible: bool,
}

impl DeepView for Timeline0003 {
    type V = TimelineV;

    open spec fn deep_view(&self) -> TimelineV {
        TimelineV {
            title: self.title.deep_view(),
            index_list: self.index_list.deep_view(),
            project_start: self.project_start.deep_view(),
            duration_years: self.duration_years,
            milestones: self.milestones.deep_view(),
            visible: self.visible,
        }
    }
}

pub struct Attachments0003 {
    pub title: String,
    pub tables: Notes0003,
    pub figures: Notes0003,
    pub other: Notes0003,
    pub visible: bool,
}

impl DeepView for Attachments0003 {
    type V = AttachmentsV;

    open spec fn deep_view(&self) -> AttachmentsV {
        AttachmentsV {
            title: self.title.deep_view(),
            tables: self.tables.deep_view(),
            figures: self.figures.deep_view(),
            other: self.other.deep_view(),
            visible: self.visible,
        }
    }
}

pub struct ProjectVersion0003 {
    pub record: String,
    pub owner: ProjectOwner0003,
    pub resolution: usize,
    pub index_list: Vec<Segment0003>,
    pub attachments: Attachments0003,
    pub budget: Budget0003,
    pub funding: FundingOptions0003,
    pub idea: Idea0003,
    pub literature: Literature0003,
    pub methodology: Methodology0003,
    pub outcomes: Outcomes0003,
    pub prelim_results: PrelimResults0003,
    pub resources: Resources0003,
    pub scope: Scope0003,
    pub scripting: Scripting0003,
    pub team: Team0003,
    pub timeline: Timeline0003,
    pub working_name: ProjectTitle0003,
}

pub struct Budget0003 {
    pub title: String,
    pub index_list: Vec<Segment0003>,
    pub personnel: Notes0003,
    pub facilities: Notes0003,
    pub materials: Notes0003,
    pub workshops: Notes0003,
    pub overheads: Notes0003,
    pub misc: Notes0003,
    pub visible: bool,
}

impl DeepView for Budget0003 {
    type V = BudgetV;

    open spec fn deep_view(&self) -> BudgetV {
        BudgetV {
            title: self.title.deep_view(),
            index_list: self.index_list.deep_view(),
            personnel: self.personnel.deep_view(),
            facilities: self.facilities.deep_view(),
            materials: self.materials.deep_view(),
            workshops: self.workshops.deep_view(),
            overheads: self.overheads.deep_view(),
            misc: self.misc.deep_view(),
            visible: self.visible,
        }
    }
}

impl DeepView for ProjectVersion0003 {
    type V = ProjectV;

    open spec fn deep_view(&self) -> ProjectV {
        ProjectV {
            record: self.record.deep_view(),
            owner: self.owner.deep_view(),
            resolution: self.resolution,
            index_list: self.index_list.deep_view(),
            attachments: self.attachments.deep_view(),
            budget: self.budget.deep_view(),
            funding: self.funding.deep_view(),
            idea: self.idea.deep_view(),
            literature: self.literature.deep_view(),
            methodology: self.methodology.deep_view(),
            outcomes: self.outcomes.deep_view(),
            prelim_results: self.prelim_results.deep_view(),
            resources: self.resources.deep_view(),
            scope: self.scope.deep_view(),
            scripting: self.scripting.deep_view(),
            team: self.team.deep_view(),
            timeline: self.timeline.deep_view(),
            working_name: self.working_name.deep_view(),
        }
    }
}

/// One whole stored file of the `B0003` era: the tag, the live document, and
/// the in-file snapshots.
pub struct WorkVersionB0003 {
    pub format: String,
    pub project: ProjectVersion0003,
    pub stored: Vec<ProjectVersion0003>,
}

// ~~~~~~~~~~~~~~~~~~~~~~~~~~~~~~~~~~~~~~~~~~~~~~~~~~~~~~~~~~~~~~~~~~~~~~~~~~
// Conversion into the current document, field by field.
// ~~~~~~~~~~~~~~~~~~~~~~~~~~~~~~~~~~~~~~~~~~~~~~~~~~~~~~~~~~~~~~~~~~~~~~~~~~
pub fn convert_variety_b0003(v: Variety0003) -> (r: Variety)
    ensures
        r == spec_variety_b0003(v),
{
    match v {
        Variety0003::Attachments => Variety::Attachments,
        Variety0003::Budget => Variety::Budget,
        Variety0003::Funding => Variety::Funding,
        Variety0003::Idea => Variety::Idea,
        Variety0003::Literature => Variety::Literature,
        Variety0003::Methodology => Variety::Methodology,
        Variety0003::Outcomes => Variety::Outcomes,
        Variety0003::PrelimResults => Variety::PrelimResults,
        Variety0003::Resources => Variety::Resources,
        Variety0003::Scope => Variety::Scope,
        Variety0003::Scripting => Variety::Scripting,
        Variety0003::Section => Variety::Section,
        Variety0003::Team => Variety::Team,
        Variety0003::Timeline => Variety::Timeline,
        Variety0003::WorkingName => Variety::WorkingName,
        Variety0003::SectionBudget(s) => Variety::SectionBudget(
            match s {
                SectionBudget0003::Facilities => SectionBudget::Facilities,
                SectionBudget0003::Materials => SectionBudget::Materials,
                SectionBudget0003::Miscellaneous => SectionBudget::Miscellaneous,
                SectionBudget0003::Overheads => SectionBudget::Overheads,
                SectionBudget0003::Personnel => SectionBudget::Personnel,
                SectionBudget0003::Workshops => SectionBudget::Workshops,
            },
        ),
        Variety0003::SectionIdea(s) => Variety::SectionIdea(
            match s {
                SectionIdea0003::Abstract => SectionIdea::Abstract,
                SectionIdea0003::Hypothesis => SectionIdea::Hypothesis,
                SectionIdea0003::KeyReferences => SectionIdea::KeyReferences,
                SectionIdea0003::Problem => SectionIdea::Problem,
                SectionIdea0003::ProjectDescription => SectionIdea::ProjectDescription,
            },
        ),
        Variety0003::SectionOutcomes(s) => Variety::SectionOutcomes(
            match s {
                SectionOutcomes0003::ExpectedResults => SectionOutcomes::ExpectedResults,
                SectionOutcomes0003::Impact => SectionOutcomes::Impact,
                SectionOutcomes0003::Propagation => SectionOutcomes::Propagation,
            },
        ),
        Variety0003::SectionScope(s) => Variety::SectionScope(
            match s {
                SectionScope0003::Activities => SectionScope::Activities,
                SectionScope0003::Objectives => SectionScope::Objectives,
                SectionScope0003::SuggestedTasks => SectionScope::SuggestedTasks,
                SectionScope0003::Tasks => SectionScope::Tasks,
                SectionScope0003::WorkPlan => SectionScope::WorkPlan,
            },
        ),
        Variety0003::SectionTeam(s) => Variety::SectionTeam(
            match s {
                SectionTeam0003::IndustrialPartners => SectionTeam::IndustrialPartners,
                SectionTeam0003::Participants => SectionTeam::Participants,
                SectionTeam0003::ProjectLeader => SectionTeam::ProjectLeader,
                SectionTeam0003::Proponents => SectionTeam::Proponents,
                SectionTeam0003::ProposedPartners => SectionTeam::ProposedPartners,
                SectionTeam0003::ModuleParticipant(m) => SectionTeam::ModuleParticipant(
                    match m {
                        ModuleParticipant0003::Budget => ModuleParticipant::Budget,
                        ModuleParticipant0003::Contribution => ModuleParticipant::Contribution,
                        ModuleParticipant0003::CV => ModuleParticipant::CV,
                        ModuleParticipant0003::Resources => ModuleParticipant::Resources,
                        ModuleParticipant0003::Team => ModuleParticipant::Team,
                    },
                ),
            },
        ),
        Variety0003::SectionTimeline(s) => Variety::SectionTimeline(
            match s {
                SectionTimeline0003::Milestones => SectionTimeline::Milestones,
                SectionTimeline0003::ProjectTiming => SectionTimeline::ProjectTiming,
            },
        ),
    }
}

pub fn convert_segments_b0003(v: &Vec<Segment0003>) -> (r: Vec<Segment>)
    ensures
        r.deep_view() == v.deep_view(),
{
    let mut out: Vec<Segment> = Vec::new();
    let mut i: usize = 0;
    while i < v.len()
        invariant
            i <= v.len(),
            out.deep_view() =~= v.deep_view().take(i as int),
        decreases v.len() - i,
    {
        let ghost pre = out.deep_view();
        let s = Segment { variety: convert_variety_b0003(v[i].variety), tier: v[i].tier };
        proof {
            assert(s.deep_view() == v.deep_view()[i as int]);
        }
        out.push(s);
        proof {
            assert(out.deep_view() =~= pre.push(v.deep_view()[i as int]));
            assert(out.deep_view() =~= v.deep_view().take(i + 1));
        }
        i = i + 1;
    }
    proof {
        assert(out.deep_view() =~= v.deep_view());
    }
    out
}

pub fn convert_notes_b0003(v: &Notes0003) -> (r: Notes)
    ensures
        r.deep_view() == v.deep_view(),
{
    let mut out: Vec<Note> = Vec::new();
    let mut i: usize = 0;
    while i < v.notes.len()
        invariant
            i <= v.notes.len(),
            out.deep_view() =~= v.notes.deep_view().take(i as int),
        decreases v.notes.len() - i,
    {
        let ghost pre = out.deep_view();
        let n = Note {
            note: v.notes[i].note.clone(),
            hint: v.notes[i].hint.clone(),
            visible: v.notes[i].visible,
        };
        proof {
            assert(n.deep_view() == v.notes.deep_view()[i as int]);
        }
        out.push(n);
        proof {
            assert(out.deep_view() =~= pre.push(v.notes.deep_view()[i as int]));
            assert(out.deep_view() =~= v.notes.deep_view().take(i + 1));
        }
        i = i + 1;
    }
    let r = Notes { notes: out };
    proof {
        assert(r.deep_view() =~= v.deep_view());
    }
    r
}

pub fn convert_reference_b0003(v: &Reference0003) -> (r: Reference)
    ensures
        r.deep_view() == v.deep_view(),
{
    let r = Reference {
        title: v.title.clone(),
        hyperlink: v.hyperlink.clone(),
        source_details: convert_notes_b0003(&v.source_details),
        visible: v.visible,
    };
    proof {
        assert(r.deep_view() =~= v.deep_view());
    }
    r
}

pub fn convert_references_b0003(v: &Vec<Reference0003>) -> (r: Vec<Reference>)
    ensures
        r.deep_view() == v.deep_view(),
{
    let mut out: Vec<Reference> = Vec::new();
    let mut i: usize = 0;
    while i < v.len()
        invariant
            i <= v.len(),
            out.deep_view() =~= v.deep_view().take(i as int),
        decreases v.len() - i,
    {
        let ghost pre = out.deep_view();
        let c = convert_reference_b0003(&v[i]);
        proof {
            assert(c.deep_view() == v.deep_view()[i as int]);
        }
        out.push(c);
        proof {
            assert(out.deep_view() =~= pre.push(v.deep_view()[i as int]));
            assert(out.deep_view() =~= v.deep_view().take(i + 1));
        }
        i = i + 1;
    }
    proof {
        assert(out.deep_view() =~= v.deep_view());
    }
    out
}

pub fn convert_participant_b0003(v: &Participant0003) -> (r: Participant)
    ensures
        r.deep_view() == v.deep_view(),
{
    let r = Participant {
        index_list: convert_segments_b0003(&v.index_list),
        name: v.name.clone(),
        role: v.role.clone(),
        affiliation: v.affiliation.clone(),
        hyperlink: v.hyperlink.clone(),
        country: v.country.clone(),
        expertise: v.expertise.clone(),
        contribution: convert_notes_b0003(&v.contribution),
        team: convert_notes_b0003(&v.team),
        cv: convert_notes_b0003(&v.cv),
        resources: convert_notes_b0003(&v.resources),
        budget: convert_notes_b0003(&v.budget),
        visible: v.visible,
    };
    proof {
        assert(r.deep_view() =~= v.deep_view());
    }
    r
}

#[verifier::rlimit(100)]
pub fn convert_project_b0003(val: &ProjectVersion0003) -> (r: Project)
    ensures
        r.deep_view() == val.deep_view(),
{
    let mut funding_options: Vec<Programme> = Vec::new();
    let mut i: usize = 0;
    while i < val.funding.funding_options.len()
        invariant
            i <= val.funding.funding_options.len(),
            funding_options.deep_view() =~= val.funding.funding_options.deep_view().take(i as int),
        decreases val.funding.funding_options.len() - i,
    {
        let ghost pre = funding_options.deep_view();
        let p = &val.funding.funding_options[i];
        let c = Programme {
            title: p.title.clone(),
            hyperlink: p.hyperlink.clone(),
            deadline: Date { year: p.deadline.year, month: p.deadline.month, day: p.deadline.day },
            annotation: convert_notes_b0003(&p.annotation),
            visible: p.visible,
        };
        proof {
            assert(c.deep_view() == val.funding.funding_options.deep_view()[i as int]);
        }
        funding_options.push(c);
        proof {
            assert(funding_options.deep_view() =~= pre.push(
                val.funding.funding_options.deep_view()[i as int],
            ));
            assert(funding_options.deep_view() =~= val.funding.funding_options.deep_view().take(
                i + 1,
            ));
        }
        i = i + 1;
    }
    proof {
        assert(funding_options.deep_view() =~= val.funding.funding_options.deep_view());
    }
    let mut participants: Vec<Participant> = Vec::new();
    let mut j: usize = 0;
    while j < val.team.participants.len()
        invariant
            j <= val.team.participants.len(),
            participants.deep_view() =~= val.team.participants.deep_view().take(j as int),
        decreases val.team.participants.len() - j,
    {
        let ghost pre = participants.deep_view();
        let c = convert_participant_b0003(&val.team.participants[j]);
        proof {
            assert(c.deep_view() == val.team.participants.deep_view()[j as int]);
        }
        participants.push(c);
        proof {
            assert(participants.deep_view() =~= pre.push(
                val.team.participants.deep_view()[j as int],
            ));
            assert(participants.deep_view() =~= val.team.participants.deep_view().take(j + 1));
        }
        j = j + 1;
    }
    proof {
        assert(participants.deep_view() =~= val.team.participants.deep_view());
    }
    let r = Project {
        record: val.record.clone(),
        owner: ProjectOwner { email: val.owner.email.clone(), account: val.owner.account.clone() },
        resolution: val.resolution,
        index_list: convert_segments_b0003(&val.index_list),
        attachments: Attachments {
            title: val.attachments.title.clone(),
            tables: convert_notes_b0003(&val.attachments.tables),
            figures: convert_notes_b0003(&val.attachments.figures),
            other: convert_notes_b0003(&val.attachments.other),
            visible: val.attachments.visible,
        },
        budget: Budget {
            title: val.budget.title.clone(),
            index_list: convert_segments_b0003(&val.budget.index_list),
            personnel: convert_notes_b0003(&val.budget.personnel),
            facilities: convert_notes_b0003(&val.budget.facilities),
            materials: convert_notes_b0003(&val.budget.materials),
            workshops: convert_notes_b0003(&val.budget.workshops),
            overheads: convert_notes_b0003(&val.budget.overheads),
            misc: convert_notes_b0003(&val.budget.misc),
            visible: val.budget.visible,
        },
        funding: FundingOptions {
            title: val.funding.title.clone(),
            funding_options,
            visible: val.funding.visible,
        },
        idea: Idea {
            title: val.idea.title.clone(),
            index_list: convert_segments_b0003(&val.idea.index_list),
            problem: convert_notes_b0003(&val.idea.problem),
            hypothesis: convert_notes_b0003(&val.idea.hypothesis),
            summary: convert_notes_b0003(&val.idea.summary),
            description: convert_notes_b0003(&val.idea.description),
            references: References {
                title: val.idea.references.title.clone(),
                references: convert_references_b0003(&val.idea.references.references),
                visible: val.idea.references.visible,
            },
            visible: val.idea.visible,
        },
        literature: Literature {
            title: val.literature.title.clone(),
            literature_survey: convert_notes_b0003(&val.literature.literature_survey),
            references: convert_references_b0003(&val.literature.references),
            visible: val.literature.visible,
        },
        methodology: Methodology {
            title: val.methodology.title.clone(),
            methodology: convert_notes_b0003(&val.methodology.methodology),
            visible: val.methodology.visible,
        },
        outcomes: Outcomes {
            title: val.outcomes.title.clone(),
            index_list: convert_segments_b0003(&val.outcomes.index_list),
            results: convert_notes_b0003(&val.outcomes.results),
            impact: convert_notes_b0003(&val.outcomes.impact),
            propagation: convert_notes_b0003(&val.outcomes.propagation),
            visible: val.outcomes.visible,
        },
        prelim_results: PrelimResults {
            title: val.prelim_results.title.clone(),
            prelim_results: convert_notes_b0003(&val.prelim_results.prelim_results),
            visible: val.prelim_results.visible,
        },
        resources: Resources {
            title: val.resources.title.clone(),
            existing: convert_notes_b0003(&val.resources.existing),
            further: convert_notes_b0003(&val.resources.further),
            visible: val.resources.visible,
        },
        scope: Scope {
            title: val.scope.title.clone(),
            index_list: convert_segments_b0003(&val.scope.index_list),
            suggested_tasks: convert_notes_b0003(&val.scope.suggested_tasks),
            objectives: convert_notes_b0003(&val.scope.objectives),
            activities: convert_notes_b0003(&val.scope.activities),
            work_plan: convert_notes_b0003(&val.scope.work_plan),
            tasks: convert_notes_b0003(&val.scope.tasks),
            visible: val.scope.visible,
        },
        scripting: Scripting {
            title: val.scripting.title.clone(),
            answer: match val.scripting.answer {
                ScriptingOption0003::Myself => ScriptingOption::Myself,
                ScriptingOption0003::Jointly => ScriptingOption::Jointly,
                ScriptingOption0003::Other => ScriptingOption::Other,
            },
            scripting: convert_notes_b0003(&val.scripting.scripting),
            visible: val.scripting.visible,
        },
        team: Team {
            title: val.team.title.clone(),
            index_list: convert_segments_b0003(&val.team.index_list),
            proposed_partners: convert_notes_b0003(&val.team.proposed_partners),
            project_leader: convert_notes_b0003(&val.team.project_leader),
            industrial_partners: convert_notes_b0003(&val.team.industrial_partners),
            proponents: convert_notes_b0003(&val.team.proponents),
            participants,
            visible: val.team.visible,
        },
        timeline: Timeline {
            title: val.timeline.title.clone(),
            index_list: convert_segments_b0003(&val.timeline.index_list),
            project_start: Date {
                year: val.timeline.project_start.year,
                month: val.timeline.project_start.month,
                day: val.timeline.project_start.day,
            },
            duration_years: val.timeline.duration_years,
            milestones: convert_notes_b0003(&val.timeline.milestones),
            visible: val.timeline.visible,
        },
        working_name: ProjectTitle {
            title: val.working_name.title.clone(),
            options: convert_notes_b0003(&val.working_name.options),
            visible: val.working_name.visible,
        },
    };
    proof {
        assert(r.deep_view() =~~= val.deep_view());
    }
    r
}

/// Legacy migration, `B0003` to current: the live document and every stored
/// snapshot are carried over field by field — every field of the old schema
/// keeps exactly its old value, and the old schema had no others.
pub fn apply_format_b0003(work: &WorkVersionB0003) -> (r: (Project, Vec<Project>))
    ensures
        r.0.deep_view() == work.project.deep_view(),
        r.1.deep_view() == work.stored.deep_view(),
{
    let live = convert_project_b0003(&work.project);
    let mut stored: Vec<Project> = Vec::new();
    let mut i: usize = 0;
    while i < work.stored.len()
        invariant
            i <= work.stored.len(),
            stored.deep_view() =~= work.stored.deep_view().take(i as int),
        decreases work.stored.len() - i,
    {
        let ghost pre = stored.deep_view();
        let c = convert_project_b0003(&work.stored[i]);
        proof {
            assert(c.deep_view() == work.stored.deep_view()[i as int]);
        }
        stored.push(c);
        proof {
            assert(stored.deep_view() =~= pre.push(work.stored.deep_view()[i as int]));
            assert(stored.deep_view() =~= work.stored.deep_view().take(i + 1));
        }
        i = i + 1;
    }
    proof {
        assert(stored.deep_view() =~= work.stored.deep_view());
    }
    (live, stored)
}

} // verus!
