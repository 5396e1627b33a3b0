//! The frozen oldest schema, tagged `B0002`: a flat record with one funding
//! programme, no budget or resources sections, no detail resolution, and the
//! project timing folded into the funding programme.  Converting it is an
//! explicit, total, field-by-field mapping: every old field keeps its value,
//! every field the old schema lacked takes the current schema's default.

use vstd::prelude::*;

use crate::note::{Note, NoteV, Notes};
use crate::project::{
    project_index_default, Project, ProjectOwner, ProjectOwnerV, ProjectV,
};
use crate::sections::attachments::{Attachments, AttachmentsV};
use crate::sections::budget::budget_default_v;
use crate::sections::funding::{FundingOptions, FundingOptionsV, Programme, ProgrammeV};
use crate::sections::idea::{idea_index_default, IdeaV};
use crate::sections::literature::{Literature, LiteratureV};
use crate::sections::methodology::{Methodology, MethodologyV};
use crate::sections::outcomes::{outcomes_index_default, OutcomesV};
use crate::sections::prelim_results::{PrelimResults, PrelimResultsV};
use crate::sections::references::{Reference, ReferenceV, References, ReferencesV};
use crate::sections::resources::resources_default_v;
use crate::sections::scope::{scope_index_default, ScopeV};
use crate::sections::scripting::{Scripting, ScriptingOption, ScriptingV};
use crate::sections::team::{participant_index_default, team_index_default, Participant, ParticipantV, TeamV};
use crate::sections::timeline::{timeline_index_default, Date, Numeral, Timeline, TimelineV};
use crate::sections::working_name::ProjectTitleV;

verus! {

// ~~~~~~~~~~~~~~~~~~~~~~~~~~~~~~~~~~~~~~~~~~~~~~~~~~~~~~~~~~~~~~~~~~~~~~~~~~
// The frozen record types.
// ~~~~~~~~~~~~~~~~~~~~~~~~~~~~~~~~~~~~~~~~~~~~~~~~~~~~~~~~~~~~~~~~~~~~~~~~~~
#[derive(Clone, Copy, PartialEq, Eq, Debug)]
pub enum ScriptingOption0002 {
    Myself,
    Jointly,
    Other,
}

/// The enumerated-value remapping of the old three-variant choice type.
pub open spec fn spec_scripting_option_b0002(v: ScriptingOption0002) -> ScriptingOption {
    match v {
        ScriptingOption0002::Myself => ScriptingOption::Myself,
        ScriptingOption0002::Jointly => ScriptingOption::Jointly,
        ScriptingOption0002::Other => ScriptingOption::Other,
    }
}

impl DeepView for ScriptingOption0002 {
    type V = ScriptingOption;

    open spec fn deep_view(&self) -> ScriptingOption {
        spec_scripting_option_b0002(*self)
    }
}

pub struct Note0002 {
    pub note: String,
    pub hint: String,
    pub visible: bool,
}

impl DeepView for Note0002 {
    type V = NoteV;

    open spec fn deep_view(&self) -> NoteV {
        NoteV { note: self.note.deep_view(), hint: self.hint.deep_view(), visible: self.visible }
    }
}

pub struct Notes0002 {
    pub notes: Vec<Note0002>,
}

impl DeepView for Notes0002 {
    type V = Seq<NoteV>;

    open spec fn deep_view(&self) -> Seq<NoteV> {
        self.notes.deep_view()
    }
}

/// The old date record, reduced to the three numbers the document keeps.
#[derive(Clone, Copy, PartialEq, Eq, Debug)]
pub struct Date0002 {
    pub year: i32,
    pub month: u32,
    pub day: u32,
}

impl DeepView for Date0002 {
    type V = Date;

    open spec fn deep_view(&self) -> Date {
        Date { year: self.year, month: self.month, day: self.day }
    }
}

pub struct ProjectOwner0002 {
    pub email: String,
    pub account: String,
}

impl DeepView for ProjectOwner0002 {
    type V = ProjectOwnerV;

    open spec fn deep_view(&self) -> ProjectOwnerV {
        ProjectOwnerV { email: self.email.deep_view(), account: self.account.deep_view() }
    }
}

pub struct Attachments0002 {
    pub title: String,
    pub tables: Notes0002,
    pub figures: Notes0002,
    pub other: Notes0002,
    pub visible: bool,
}

impl DeepView for Attachments0002 {
    type V = AttachmentsV;

    open spec fn deep_view(&self) -> AttachmentsV {
        AttachmentsV {
            title: self.title.deep_view(),
            tables: self.tables.deep_view(),
            figures: self.figures.deep_view(),
            other: self.other.deep_view(),
            visible: self.visible,
        }
    }
}

pub struct Idea0002 {
    pub title: String,
    pub idea: Notes0002,
    pub visible: bool,
}

/// Mathematical image of an [`Idea0002`].
#[verifier::ext_equal]
pub struct Idea0002V {
    pub title: Seq<char>,
    pub idea: Seq<NoteV>,
    pub visible: bool,
}

impl DeepView for Idea0002 {
    type V = Idea0002V;

    open spec fn deep_view(&self) -> Idea0002V {
        Idea0002V {
            title: self.title.deep_view(),
            idea: self.idea.deep_view(),
            visible: self.visible,
        }
    }
}

pub struct PrelimResults0002 {
    pub title: String,
    pub prelim_results: Notes0002,
    pub visible: bool,
}

impl DeepView for PrelimResults0002 {
    type V = PrelimResultsV;

    open spec fn deep_view(&self) -> PrelimResultsV {
        PrelimResultsV {
            title: self.title.deep_view(),
            prelim_results: self.prelim_results.deep_view(),
            visible: self.visible,
        }
    }
}

pub struct Scripting0002 {
    pub title: String,
    pub answer: ScriptingOption0002,
    pub scripting: Notes0002,
    pub visible: bool,
}

impl DeepView for Scripting0002 {
    type V = ScriptingV;

    open spec fn deep_view(&self) -> ScriptingV {
        ScriptingV {
            title: self.title.deep_view(),
            answer: spec_scripting_option_b0002(self.answer),
            scripting: self.scripting.deep_view(),
            visible: self.visible,
        }
    }
}

/// The single funding programme of the old schema, which also carried the
/// project timing.
pub struct Programme0002 {
    pub title: String,
    pub name: String,
    pub hyperlink: String,
    pub deadline: Date0002,
    pub project_start: Date0002,
    pub duration_years: Numeral,
    pub annotation: Notes0002,
    pub visible: bool,
}

/// Mathematical image of a [`Programme0002`].
#[verifier::ext_equal]
pub struct Programme0002V {
    pub title: Seq<char>,
    pub name: Seq<char>,
    pub hyperlink: Seq<char>,
    pub deadline: Date,
    pub project_start: Date,
    pub duration_years: Numeral,
    pub annotation: Seq<NoteV>,
    pub visible: bool,
}

impl DeepView for Programme0002 {
    type V = Programme0002V;

    open spec fn deep_view(&self) -> Programme0002V {
        Programme0002V {
            title: self.title.deep_view(),
            name: self.name.deep_view(),
            hyperlink: self.hyperlink.deep_view(),
            deadline: self.deadline.deep_view(),
            project_start: self.project_start.deep_view(),
            duration_years: self.duration_years,
            annotation: self.annotation.deep_view(),
            visible: self.visible,
        }
    }
}

/// A partner of the old schema.  It lacked the CV chapter and the chapter
/// ordering list, so its image is a participant with an empty CV and the
/// default ordering.
pub struct Partner0002 {
    pub name: String,
    pub role: String,
    pub affiliation: String,
    pub hyperlink: String,
    pub country: String,
    pub expertise: String,
    pub contribution: Notes0002,
    pub team: Notes0002,
    pub resources: Notes0002,
    pub budget: Notes0002,
    pub visible: bool,
}

impl DeepView for Partner0002 {
    type V = ParticipantV;

    open spec fn deep_view(&self) -> ParticipantV {
        ParticipantV {
            index_list: participant_index_default(),
            name: self.name.deep_view(),
            role: self.role.deep_view(),
            affiliation: self.affiliation.deep_view(),
            hyperlink: self.hyperlink.deep_view(),
            country: self.country.deep_view(),
            expertise: self.expertise.deep_view(),
            contribution: self.contribution.deep_view(),
            team: self.team.deep_view(),
            cv: Seq::<NoteV>::empty(),
            resources: self.resources.deep_view(),
            budget: self.budget.deep_view(),
            visible: self.visible,
        }
    }
}

pub struct Team0002 {
    pub title: String,
    pub partners: Vec<Partner0002>,
    pub industrial_partners: Notes0002,
    pub proponents: Notes0002,
    pub visible: bool,
}

/// Mathematical image of a [`Team0002`].
#[verifier::ext_equal]
pub struct Team0002V {
    pub title: Seq<char>,
    pub partners: Seq<ParticipantV>,
    pub industrial_partners: Seq<NoteV>,
    pub proponents: Seq<NoteV>,
    pub visible: bool,
}

impl DeepView for Team0002 {
    type V = Team0002V;

    open spec fn deep_view(&self) -> Team0002V {
        Team0002V {
            title: self.title.deep_view(),
            partners: self.partners.deep_view(),
            industrial_partners: self.industrial_partners.deep_view(),
            proponents: self.proponents.deep_view(),
            visible: self.visible,
        }
    }
}

/// The old contribution section, which became the scope section's
/// activities.
pub struct Contribution0002 {
    pub title: String,
    pub contribution: Notes0002,
    pub visible: bool,
}

/// Mathematical image of a [`Contribution0002`].
#[verifier::ext_equal]
pub struct Contribution0002V {
    pub title: Seq<char>,
    pub contribution: Seq<NoteV>,
    pub visible: bool,
}

impl DeepView for Contribution0002 {
    type V = Contribution0002V;

    open spec fn deep_view(&self) -> Contribution0002V {
        Contribution0002V {
            title: self.title.deep_view(),
            contribution: self.contribution.deep_view(),
            visible: self.visible,
        }
    }
}

/// The old offer section, which became the methodology section.
pub struct Offer0002 {
    pub title: String,
    pub offer: Notes0002,
    pub visible: bool,
}

/// Mathematical image of an [`Offer0002`].
#[verifier::ext_equal]
pub struct Offer0002V {
    pub title: Seq<char>,
    pub offer: Seq<NoteV>,
    pub visible: bool,
}

impl DeepView for Offer0002 {
    type V = Offer0002V;

    open spec fn deep_view(&self) -> Offer0002V {
        Offer0002V {
            title: self.title.deep_view(),
            offer: self.offer.deep_view(),
            visible: self.visible,
        }
    }
}

pub struct Reference0002 {
    pub title: String,
    pub hyperlink: String,
    pub source_details: Notes0002,
    pub visible: bool,
}

impl DeepView for Reference0002 {
    type V = ReferenceV;

    open spec fn deep_view(&self) -> ReferenceV {
        ReferenceV {
            title: self.title.deep_view(),
            hyperlink: self.hyperlink.deep_view(),
            source_details: self.source_details.deep_view(),
            visible: self.visible,
        }
    }
}

pub struct References0002 {
    pub title: String,
    pub references: Vec<Reference0002>,
    pub visible: bool,
}

impl DeepView for References0002 {
    type V = ReferencesV;

    open spec fn deep_view(&self) -> ReferencesV {
        ReferencesV {
            title: self.title.deep_view(),
            references: self.references.deep_view(),
            visible: self.visible,
        }
    }
}

pub struct Literature0002 {
    pub title: String,
    pub literature_survey: Notes0002,
    pub references: Vec<Reference0002>,
    pub visible: bool,
}

impl DeepView for Literature0002 {
    type V = LiteratureV;

    open spec fn deep_view(&self) -> LiteratureV {
        LiteratureV {
            title: self.title.deep_view(),
            literature_survey: self.literature_survey.deep_view(),
            references: self.references.deep_view(),
            visible: self.visible,
        }
    }
}

/// The old expected-results section, which became the outcomes section.
pub struct ExpectedResults0002 {
    pub title: String,
    pub results: Notes0002,
    pub visible: bool,
}

/// Mathematical image of an [`ExpectedResults0002`].
#[verifier::ext_equal]
pub struct ExpectedResults0002V {
    pub title: Seq<char>,
    pub results: Seq<NoteV>,
    pub visible: bool,
}

impl DeepView for ExpectedResults0002 {
    type V = ExpectedResults0002V;

    open spec fn deep_view(&self) -> ExpectedResults0002V {
        ExpectedResults0002V {
            title: self.title.deep_view(),
            results: self.results.deep_view(),
            visible: self.visible,
        }
    }
}

pub struct ProjectVersion0002 {
    pub record: String,
    pub owner: ProjectOwner0002,
    pub working_name: String,
    pub funding_program: Programme0002,
    pub idea: Idea0002,
    pub references: References0002,
    pub prelim_results: PrelimResults0002,
    pub contribution: Contribution0002,
    pub offer: Offer0002,
    pub team: Team0002,
    pub scripting: Scripting0002,
    pub survey: Literature0002,
    pub expected_results: ExpectedResults0002,
    pub attachments: Attachments0002,
}

/// Mathematical image of a [`ProjectVersion0002`].
#[verifier::ext_equal]
pub struct ProjectVersion0002V {
    pub record: Seq<char>,
    pub owner: ProjectOwnerV,
    pub working_name: Seq<char>,
    pub funding_program: Programme0002V,
    pub idea: Idea0002V,
    pub references: ReferencesV,
    pub prelim_results: PrelimResultsV,
    pub contribution: Contribution0002V,
    pub offer: Offer0002V,
    pub team: Team0002V,
    pub scripting: ScriptingV,
    pub survey: LiteratureV,
    pub expected_results: ExpectedResults0002V,
    pub attachments: AttachmentsV,
}

impl DeepView for ProjectVersion0002 {
    type V = ProjectVersion0002V;

    open spec fn deep_view(&self) -> ProjectVersion0002V {
        ProjectVersion0002V {
            record: self.record.deep_view(),
            owner: self.owner.deep_view(),
            working_name: self.working_name.deep_view(),
            funding_program: self.funding_program.deep_view(),
            idea: self.idea.deep_view(),
            references: self.references.deep_view(),
            prelim_results: self.prelim_results.deep_view(),
            contribution: self.contribution.deep_view(),
            offer: self.offer.deep_view(),
            team: self.team.deep_view(),
            scripting: self.scripting.deep_view(),
            survey: self.survey.deep_view(),
            expected_results: self.expected_results.deep_view(),
            attachments: self.attachments.deep_view(),
        }
    }
}

/// One whole stored file of the `B0002` era: the tag, the live document, and
/// the in-file snapshots.
pub struct WorkVersionB0002 {
    pub format: String,
    pub project: ProjectVersion0002,
    pub stored: Vec<ProjectVersion0002>,
}

// ~~~~~~~~~~~~~~~~~~~~~~~~~~~~~~~~~~~~~~~~~~~~~~~~~~~~~~~~~~~~~~~~~~~~~~~~~~
// The total field-by-field mapping into the current document.
// ~~~~~~~~~~~~~~~~~~~~~~~~~~~~~~~~~~~~~~~~~~~~~~~~~~~~~~~~~~~~~~~~~~~~~~~~~~
/// What a `B0002` document means today.  Every field the old schema had
/// keeps its value (the old contribution is the scope's activities, the old
/// offer is the methodology, the single funding programme also supplies the
/// project timing); every field the old schema lacked is the current
/// default.
pub open spec fn spec_b0002_to_project(v: ProjectVersion0002V) -> ProjectV {
    ProjectV {
        record: v.record,
        owner: v.owner,
        resolution: 1,
        index_list: project_index_default(),
        working_name: ProjectTitleV {
            title: v.working_name,
            options: Seq::<NoteV>::empty(),
            visible: true,
        },
        funding: FundingOptionsV {
            title: v.funding_program.title,
            funding_options: seq![
                ProgrammeV {
                    title: v.funding_program.name,
                    hyperlink: v.funding_program.hyperlink,
                    deadline: v.funding_program.deadline,
                    annotation: v.funding_program.annotation,
                    visible: v.funding_program.visible,
                },
            ],
            visible: v.funding_program.visible,
        },
        idea: IdeaV {
            title: v.idea.title,
            index_list: idea_index_default(),
            problem: Seq::<NoteV>::empty(),
            hypothesis: v.idea.idea,
            summary: Seq::<NoteV>::empty(),
            description: Seq::<NoteV>::empty(),
            references: v.references,
            visible: v.idea.visible,
        },
        literature: v.survey,
        methodology: MethodologyV {
            title: v.offer.title,
            methodology: v.offer.offer,
            visible: v.offer.visible,
        },
        outcomes: OutcomesV {
            title: v.expected_results.title,
            index_list: outcomes_index_default(),
            results: v.expected_results.results,
            impact: Seq::<NoteV>::empty(),
            propagation: Seq::<NoteV>::empty(),
            visible: v.expected_results.visible,
        },
        prelim_results: v.prelim_results,
        scope: ScopeV {
            title: v.contribution.title,
            index_list: scope_index_default(),
            suggested_tasks: Seq::<NoteV>::empty(),
            objectives: Seq::<NoteV>::empty(),
            activities: v.contribution.contribution,
            work_plan: Seq::<NoteV>::empty(),
            tasks: Seq::<NoteV>::empty(),
            visible: v.contribution.visible,
        },
        scripting: v.scripting,
        team: TeamV {
            title: v.team.title,
            index_list: team_index_default(),
            proposed_partners: Seq::<NoteV>::empty(),
            project_leader: Seq::<NoteV>::empty(),
            industrial_partners: v.team.industrial_partners,
            proponents: v.team.proponents,
            participants: v.team.partners,
            visible: v.team.visible,
        },
        timeline: TimelineV {
            title: "Timeline"@,
            index_list: timeline_index_default(),
            project_start: v.funding_program.project_start,
            duration_years: v.funding_program.duration_years,
            milestones: Seq::<NoteV>::empty(),
            visible: false,
        },
        attachments: v.attachments,
        resources: resources_default_v(),
        budget: budget_default_v(),
    }
}

pub fn convert_notes_b0002(v: &Notes0002) -> (r: Notes)
    ensures
        r.deep_view() == v.deep_view(),
{
    let mut out: Vec<Note> = Vec::new();
    let mut i: usize = 0;
    while i < v.notes.len()
        invariant
            i <= v.notes.len(),
            out.deep_view() =~= v.notes.deep_view().take(i as int),
        decreases v.notes.len() - i,
    {
        let ghost pre = out.deep_view();
        let n = Note {
            note: v.notes[i].note.clone(),
            hint: v.notes[i].hint.clone(),
            visible: v.notes[i].visible,
        };
        proof {
            assert(n.deep_view() == v.notes.deep_view()[i as int]);
        }
        out.push(n);
        proof {
            assert(out.deep_view() =~= pre.push(v.notes.deep_view()[i as int]));
            assert(out.deep_view() =~= v.notes.deep_view().take(i + 1));
        }
        i = i + 1;
    }
    let r = Notes { notes: out };
    proof {
        assert(r.deep_view() =~= v.deep_view());
    }
    r
}

pub fn convert_reference_b0002(v: &Reference0002) -> (r: Reference)
    ensures
        r.deep_view() == v.deep_view(),
{
    let r = Reference {
        title: v.title.clone(),
        hyperlink: v.hyperlink.clone(),
        source_details: convert_notes_b0002(&v.source_details),
        visible: v.visible,
    };
    proof {
        assert(r.deep_view() =~= v.deep_view());
    }
    r
}

pub fn convert_references_b0002(v: &Vec<Reference0002>) -> (r: Vec<Reference>)
    ensures
        r.deep_view() == v.deep_view(),
{
    let mut out: Vec<Reference> = Vec::new();
    let mut i: usize = 0;
    while i < v.len()
        invariant
            i <= v.len(),
            out.deep_view() =~= v.deep_view().take(i as int),
        decreases v.len() - i,
    {
        let ghost pre = out.deep_view();
        let c = convert_reference_b0002(&v[i]);
        proof {
            assert(c.deep_view() == v.deep_view()[i as int]);
        }
        out.push(c);
        proof {
            assert(out.deep_view() =~= pre.push(v.deep_view()[i as int]));
            assert(out.deep_view() =~= v.deep_view().take(i + 1));
        }
        i = i + 1;
    }
    proof {
        assert(out.deep_view() =~= v.deep_view());
    }
    out
}

pub fn convert_partner_b0002(v: &Partner0002) -> (r: Participant)
    ensures
        r.deep_view() == v.deep_view(),
{
    let mut r = Participant::default();
    r.name = v.name.clone();
    r.role = v.role.clone();
    r.affiliation = v.affiliation.clone();
    r.hyperlink = v.hyperlink.clone();
    r.country = v.country.clone();
    r.expertise = v.expertise.clone();
    r.contribution = convert_notes_b0002(&v.contribution);
    r.team = convert_notes_b0002(&v.team);
    r.resources = convert_notes_b0002(&v.resources);
    r.budget = convert_notes_b0002(&v.budget);
    r.visible = v.visible;
    proof {
        assert(r.deep_view() =~= v.deep_view());
    }
    r
}

/// Converts one `B0002` document, exactly as [`spec_b0002_to_project`] says.
pub fn convert_project_b0002(val: &ProjectVersion0002) -> (r: Project)
    ensures
        r.deep_view() == spec_b0002_to_project(val.deep_view()),
{
    let mut r = Project::default();
    r.record = val.record.clone();
    r.owner = ProjectOwner { email: val.owner.email.clone(), account: val.owner.account.clone() };
    r.working_name.title = val.working_name.clone();
    r.working_name.visible = true;
    let mut funding_options: Vec<Programme> = Vec::new();
    funding_options.push(
        Programme {
            title: val.funding_program.name.clone(),
            hyperlink: val.funding_program.hyperlink.clone(),
            deadline: Date {
                year: val.funding_program.deadline.year,
                month: val.funding_program.deadline.month,
                day: val.funding_program.deadline.day,
            },
            annotation: convert_notes_b0002(&val.funding_program.annotation),
            visible: val.funding_program.visible,
        },
    );
    r.funding = FundingOptions {
        title: val.funding_program.title.clone(),
        funding_options,
        visible: val.funding_program.visible,
    };
    r.idea.title = val.idea.title.clone();
    r.idea.hypothesis = convert_notes_b0002(&val.idea.idea);
    r.idea.references = References {
        title: val.references.title.clone(),
        references: convert_references_b0002(&val.references.references),
        visible: val.references.visible,
    };
    r.idea.visible = val.idea.visible;
    r.literature = Literature {
        title: val.survey.title.clone(),
        literature_survey: convert_notes_b0002(&val.survey.literature_survey),
        references: convert_references_b0002(&val.survey.references),
        visible: val.survey.visible,
    };
    r.methodology = Methodology {
        title: val.offer.title.clone(),
        methodology: convert_notes_b0002(&val.offer.offer),
        visible: val.offer.visible,
    };
    r.outcomes.title = val.expected_results.title.clone();
    r.outcomes.results = convert_notes_b0002(&val.expected_results.results);
    r.outcomes.visible = val.expected_results.visible;
    r.prelim_results = PrelimResults {
        title: val.prelim_results.title.clone(),
        prelim_results: convert_notes_b0002(&val.prelim_results.prelim_results),
        visible: val.prelim_results.visible,
    };
    r.scope.title = val.contribution.title.clone();
    r.scope.activities = convert_notes_b0002(&val.contribution.contribution);
    r.scope.visible = val.contribution.visible;
    r.scripting = Scripting {
        title: val.scripting.title.clone(),
        answer: match val.scripting.answer {
            ScriptingOption0002::Myself => ScriptingOption::Myself,
            ScriptingOption0002::Jointly => ScriptingOption::Jointly,
            ScriptingOption0002::Other => ScriptingOption::Other,
        },
        scripting: convert_notes_b0002(&val.scripting.scripting),
        visible: val.scripting.visible,
    };
    let mut participants: Vec<Participant> = Vec::new();
    let mut i: usize = 0;
    while i < val.team.partners.len()
        invariant
            i <= val.team.partners.len(),
            participants.deep_view() =~= val.team.partners.deep_view().take(i as int),
        decreases val.team.partners.len() - i,
    {
        let ghost pre = participants.deep_view();
        let c = convert_partner_b0002(&val.team.partners[i]);
        proof {
            assert(c.deep_view() == val.team.partners.deep_view()[i as int]);
        }
        participants.push(c);
        proof {
            assert(participants.deep_view() =~= pre.push(
                val.team.partners.deep_view()[i as int],
            ));
            assert(participants.deep_view() =~= val.team.partners.deep_view().take(i + 1));
        }
        i = i + 1;
    }
    proof {
        assert(participants.deep_view() =~= val.team.partners.deep_view());
    }
    r.team.title = val.team.title.clone();
    r.team.industrial_partners = convert_notes_b0002(&val.team.industrial_partners);
    r.team.proponents = convert_notes_b0002(&val.team.proponents);
    r.team.participants = participants;
    r.team.visible = val.team.visible;
    r.timeline.project_start = Date {
        year: val.funding_program.project_start.year,
        month: val.funding_program.project_start.month,
        day: val.funding_program.project_start.day,
    };
    r.timeline.duration_years = val.funding_program.duration_years;
    r.attachments = Attachments {
        title: val.attachments.title.clone(),
        tables: convert_notes_b0002(&val.attachments.tables),
        figures: convert_notes_b0002(&val.attachments.figures),
        other: convert_notes_b0002(&val.attachments.other),
        visible: val.attachments.visible,
    };
    proof {
        assert(r.deep_view() =~~= spec_b0002_to_project(val.deep_view()));
    }
    r
}

/// Legacy migration, `B0002` to current: the live document and every stored
/// snapshot are mapped by [`spec_b0002_to_project`].
pub fn apply_format_b0002(work: &WorkVersionB0002) -> (r: (Project, Vec<Project>))
    ensures
        r.0.deep_view() == spec_b0002_to_project(work.project.deep_view()),
        r.1.deep_view() == work.stored.deep_view().map_values(
            |q: ProjectVersion0002V| spec_b0002_to_project(q),
        ),
{
    let live = convert_project_b0002(&work.project);
    let mut stored: Vec<Project> = Vec::new();
    let mut i: usize = 0;
    while i < work.stored.len()
        invariant
            i <= work.stored.len(),
            stored.deep_view() =~= work.stored.deep_view().take(i as int).map_values(
                |q: ProjectVersion0002V| spec_b0002_to_project(q),
            ),
        decreases work.stored.len() - i,
    {
        let ghost pre = stored.deep_view();
        let c = convert_project_b0002(&work.stored[i]);
        proof {
            assert(c.deep_view() == spec_b0002_to_project(work.stored.deep_view()[i as int]));
        }
        stored.push(c);
        proof {
            assert(stored.deep_view() =~= pre.push(
                spec_b0002_to_project(work.stored.deep_view()[i as int]),
            ));
            assert(stored.deep_view() =~= work.stored.deep_view().take(i + 1).map_values(
                |q: ProjectVersion0002V| spec_b0002_to_project(q),
            ));
        }
        i = i + 1;
    }
    proof {
        assert(work.stored.deep_view().take(work.stored.len() as int) =~= work.stored.deep_view());
    }
    (live, stored)
}

} // verus!
