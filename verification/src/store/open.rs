//! The chunk decoder: one forward pass over a stored chunk list, rebuilding
//! the document.
//!
//! Each chunk is routed by its parent/address pair alone; chunk order
//! matters only in that an entity's title chunk arrives before the entity's
//! field chunks, which the encoder guarantees.  A title chunk on a middle
//! rank appends a fresh entity to its list; a field chunk on a low rank
//! writes into the entity its parent address picks.  A field chunk whose
//! entity does not exist, a top-level chunk beyond the association table,
//! and a timeline chunk beyond the known slots end the decode with a
//! structural-route error; other unknown pairs are reserved and skipped.

use vstd::prelude::*;

use crate::error::FormatError;
use crate::project::{project_default_v, Project, ProjectV};
use crate::sections::attachments::AttachmentsV;
use crate::sections::budget::BudgetV;
use crate::sections::funding::{programme_default_v, FundingOptionsV, Programme, ProgrammeV};
use crate::sections::idea::IdeaV;
use crate::sections::literature::LiteratureV;
use crate::sections::methodology::MethodologyV;
use crate::sections::outcomes::OutcomesV;
use crate::sections::prelim_results::PrelimResultsV;
use crate::sections::references::{reference_default_v, Reference, ReferenceV, ReferencesV};
use crate::sections::resources::ResourcesV;
use crate::sections::scope::ScopeV;
use crate::sections::scripting::ScriptingV;
use crate::sections::team::{participant_default_v, Participant, ParticipantV, TeamV};
use crate::sections::timeline::{Date, TimelineV};
use crate::sections::working_name::ProjectTitleV;
use crate::store::route::{spec_route, Route, RouteOutcome};
use crate::store::v_b0004::{
    sections_table, spec_date_of, Chunk, ChunkV, Parent, Rank, Store, StoreV,
};
use crate::chapter::Variety;

verus! {

/// The entity a title chunk of a cited-source list appends: a default
/// reference carrying the chunk's title and visibility.
pub open spec fn pushed_reference(c: ChunkV) -> ReferenceV {
    ReferenceV { title: c.title, visible: c.visible, ..reference_default_v() }
}

/// The entity a title chunk of the funding list appends.
pub open spec fn pushed_programme(c: ChunkV) -> ProgrammeV {
    ProgrammeV { title: c.title, visible: c.visible, ..programme_default_v() }
}

/// The entity a title chunk of the participant list appends.
pub open spec fn pushed_participant(c: ChunkV) -> ParticipantV {
    ParticipantV { name: c.title, visible: c.visible, ..participant_default_v() }
}

/// What a section-title chunk writes: the title and visibility of the
/// section its table tag names.  A tag that names no top-level section
/// leaves the document unchanged.
pub open spec fn apply_section_title(p: ProjectV, v: Variety, c: ChunkV) -> ProjectV {
    match v {
        Variety::WorkingName => ProjectV {
            working_name: ProjectTitleV { title: c.title, visible: c.visible, ..p.working_name },
            ..p
        },
        Variety::Idea => ProjectV {
            idea: IdeaV { title: c.title, visible: c.visible, ..p.idea },
            ..p
        },
        Variety::Funding => ProjectV {
            funding: FundingOptionsV { title: c.title, visible: c.visible, ..p.funding },
            ..p
        },
        Variety::Scope => ProjectV {
            scope: ScopeV { title: c.title, visible: c.visible, ..p.scope },
            ..p
        },
        Variety::Timeline => ProjectV {
            timeline: TimelineV { title: c.title, visible: c.visible, ..p.timeline },
            ..p
        },
        Variety::Scripting => ProjectV {
            scripting: ScriptingV { title: c.title, visible: c.visible, ..p.scripting },
            ..p
        },
        Variety::Team => ProjectV {
            team: TeamV { title: c.title, visible: c.visible, ..p.team },
            ..p
        },
        Variety::PrelimResults => ProjectV {
            prelim_results: PrelimResultsV { title: c.title, visible: c.visible, ..p.prelim_results },
            ..p
        },
        Variety::Methodology => ProjectV {
            methodology: MethodologyV { title: c.title, visible: c.visible, ..p.methodology },
            ..p
        },
        Variety::Outcomes => ProjectV {
            outcomes: OutcomesV { title: c.title, visible: c.visible, ..p.outcomes },
            ..p
        },
        Variety::Literature => ProjectV {
            literature: LiteratureV { title: c.title, visible: c.visible, ..p.literature },
            ..p
        },
        Variety::Resources => ProjectV {
            resources: ResourcesV { title: c.title, visible: c.visible, ..p.resources },
            ..p
        },
        Variety::Budget => ProjectV {
            budget: BudgetV { title: c.title, visible: c.visible, ..p.budget },
            ..p
        },
        Variety::Attachments => ProjectV {
            attachments: AttachmentsV { title: c.title, visible: c.visible, ..p.attachments },
            ..p
        },
        _ => p,
    }
}

/// What one chunk does to the document once its route is known.  Entity
/// field routes are defined only while the entity exists; a field chunk that
/// arrives before its entity's title chunk fails the decode.
pub open spec fn spec_apply(p: ProjectV, r: Route, c: ChunkV) -> Option<ProjectV> {
    match r {
        Route::Section(v) => Some(apply_section_title(p, v, c)),
        Route::WorkingNameOptions => Some(
            ProjectV {
                working_name: ProjectTitleV { options: c.body.notes, ..p.working_name },
                ..p
            },
        ),
        Route::IdeaProblem => Some(ProjectV { idea: IdeaV { problem: c.body.notes, ..p.idea }, ..p }),
        Route::IdeaHypothesis => Some(
            ProjectV { idea: IdeaV { hypothesis: c.body.notes, ..p.idea }, ..p },
        ),
        Route::IdeaSummary => Some(ProjectV { idea: IdeaV { summary: c.body.notes, ..p.idea }, ..p }),
        Route::IdeaDescription => Some(
            ProjectV { idea: IdeaV { description: c.body.notes, ..p.idea }, ..p },
        ),
        Route::IdeaReferencesTitle => Some(
            ProjectV {
                idea: IdeaV {
                    references: ReferencesV {
                        title: c.title,
                        visible: c.visible,
                        ..p.idea.references
                    },
                    ..p.idea
                },
                ..p
            },
        ),
        Route::IdeaReferenceEntry(_) => Some(
            ProjectV {
                idea: IdeaV {
                    references: ReferencesV {
                        references: p.idea.references.references.push(pushed_reference(c)),
                        ..p.idea.references
                    },
                    ..p.idea
                },
                ..p
            },
        ),
        Route::IdeaReferenceHyperlink(k) => if 0 <= k < p.idea.references.references.len() {
            Some(
                ProjectV {
                    idea: IdeaV {
                        references: ReferencesV {
                            references: p.idea.references.references.update(
                                k,
                                ReferenceV {
                                    hyperlink: c.body.phrase,
                                    ..p.idea.references.references[k]
                                },
                            ),
                            ..p.idea.references
                        },
                        ..p.idea
                    },
                    ..p
                },
            )
        } else {
            None
        },
        Route::IdeaReferenceDetails(k) => if 0 <= k < p.idea.references.references.len() {
            Some(
                ProjectV {
                    idea: IdeaV {
                        references: ReferencesV {
                            references: p.idea.references.references.update(
                                k,
                                ReferenceV {
                                    source_details: c.body.notes,
                                    ..p.idea.references.references[k]
                                },
                            ),
                            ..p.idea.references
                        },
                        ..p.idea
                    },
                    ..p
                },
            )
        } else {
            None
        },
        Route::FundingProgrammeEntry(_) => Some(
            ProjectV {
                funding: FundingOptionsV {
                    funding_options: p.funding.funding_options.push(pushed_programme(c)),
                    ..p.funding
                },
                ..p
            },
        ),
        Route::FundingAnnotation(j) => if 0 <= j < p.funding.funding_options.len() {
            Some(
                ProjectV {
                    funding: FundingOptionsV {
                        funding_options: p.funding.funding_options.update(
                            j,
                            ProgrammeV { annotation: c.body.notes, ..p.funding.funding_options[j] },
                        ),
                        ..p.funding
                    },
                    ..p
                },
            )
        } else {
            None
        },
        Route::FundingHyperlink(j) => if 0 <= j < p.funding.funding_options.len() {
            Some(
                ProjectV {
                    funding: FundingOptionsV {
                        funding_options: p.funding.funding_options.update(
                            j,
                            ProgrammeV { hyperlink: c.body.phrase, ..p.funding.funding_options[j] },
                        ),
                        ..p.funding
                    },
                    ..p
                },
            )
        } else {
            None
        },
        Route::FundingDeadline(j) => if 0 <= j < p.funding.funding_options.len() {
            Some(
                ProjectV {
                    funding: FundingOptionsV {
                        funding_options: p.funding.funding_options.update(
                            j,
                            ProgrammeV {
                                deadline: spec_date_of(c.body.date),
                                ..p.funding.funding_options[j]
                            },
                        ),
                        ..p.funding
                    },
                    ..p
                },
            )
        } else {
            None
        },
        Route::ScopeSuggestedTasks => Some(
            ProjectV { scope: ScopeV { suggested_tasks: c.body.notes, ..p.scope }, ..p },
        ),
        Route::ScopeObjectives => Some(
            ProjectV { scope: ScopeV { objectives: c.body.notes, ..p.scope }, ..p },
        ),
        Route::ScopeActivities => Some(
            ProjectV { scope: ScopeV { activities: c.body.notes, ..p.scope }, ..p },
        ),
        Route::ScopeWorkPlan => Some(
            ProjectV { scope: ScopeV { work_plan: c.body.notes, ..p.scope }, ..p },
        ),
        Route::ScopeTasks => Some(ProjectV { scope: ScopeV { tasks: c.body.notes, ..p.scope }, ..p }),
        Route::TimelineStart => Some(
            ProjectV {
                timeline: TimelineV { project_start: spec_date_of(c.body.date), ..p.timeline },
                ..p
            },
        ),
        Route::TimelineDuration => Some(
            ProjectV { timeline: TimelineV { duration_years: c.body.numeral, ..p.timeline }, ..p },
        ),
        Route::TimelineMilestones => Some(
            ProjectV { timeline: TimelineV { milestones: c.body.notes, ..p.timeline }, ..p },
        ),
        Route::ScriptingAnswer => Some(
            ProjectV { scripting: ScriptingV { answer: c.body.option, ..p.scripting }, ..p },
        ),
        Route::ScriptingNotes => Some(
            ProjectV { scripting: ScriptingV { scripting: c.body.notes, ..p.scripting }, ..p },
        ),
        Route::TeamProposedPartners => Some(
            ProjectV { team: TeamV { proposed_partners: c.body.notes, ..p.team }, ..p },
        ),
        Route::TeamProjectLeader => Some(
            ProjectV { team: TeamV { project_leader: c.body.notes, ..p.team }, ..p },
        ),
        Route::TeamIndustrialPartners => Some(
            ProjectV { team: TeamV { industrial_partners: c.body.notes, ..p.team }, ..p },
        ),
        Route::TeamProponents => Some(
            ProjectV { team: TeamV { proponents: c.body.notes, ..p.team }, ..p },
        ),
        Route::ParticipantEntry(_) => Some(
            ProjectV {
                team: TeamV { participants: p.team.participants.push(pushed_participant(c)), ..p.team },
                ..p
            },
        ),
        Route::ParticipantRole(k) => if 0 <= k < p.team.participants.len() {
            Some(
                ProjectV {
                    team: TeamV {
                        participants: p.team.participants.update(
                            k,
                            ParticipantV { role: c.body.phrase, ..p.team.participants[k] },
                        ),
                        ..p.team
                    },
                    ..p
                },
            )
        } else {
            None
        },
        Route::ParticipantAffiliation(k) => if 0 <= k < p.team.participants.len() {
            Some(
                ProjectV {
                    team: TeamV {
                        participants: p.team.participants.update(
                            k,
                            ParticipantV { affiliation: c.body.phrase, ..p.team.participants[k] },
                        ),
                        ..p.team
                    },
                    ..p
                },
            )
        } else {
            None
        },
        Route::ParticipantHyperlink(k) => if 0 <= k < p.team.participants.len() {
            Some(
                ProjectV {
                    team: TeamV {
                        participants: p.team.participants.update(
                            k,
                            ParticipantV { hyperlink: c.body.phrase, ..p.team.participants[k] },
                        ),
                        ..p.team
                    },
                    ..p
                },
            )
        } else {
            None
        },
        Route::ParticipantCountry(k) => if 0 <= k < p.team.participants.len() {
            Some(
                ProjectV {
                    team: TeamV {
                        participants: p.team.participants.update(
                            k,
                            ParticipantV { country: c.body.phrase, ..p.team.participants[k] },
                        ),
                        ..p.team
                    },
                    ..p
                },
            )
        } else {
            None
        },
        Route::ParticipantExpertise(k) => if 0 <= k < p.team.participants.len() {
            Some(
                ProjectV {
                    team: TeamV {
                        participants: p.team.participants.update(
                            k,
                            ParticipantV { expertise: c.body.phrase, ..p.team.participants[k] },
                        ),
                        ..p.team
                    },
                    ..p
                },
            )
        } else {
            None
        },
        Route::ParticipantContribution(k) => if 0 <= k < p.team.participants.len() {
            Some(
                ProjectV {
                    team: TeamV {
                        participants: p.team.participants.update(
                            k,
                            ParticipantV { contribution: c.body.notes, ..p.team.participants[k] },
                        ),
                        ..p.team
                    },
                    ..p
                },
            )
        } else {
            None
        },
        Route::ParticipantTeam(k) => if 0 <= k < p.team.participants.len() {
            Some(
                ProjectV {
                    team: TeamV {
                        participants: p.team.participants.update(
                            k,
                            ParticipantV { team: c.body.notes, ..p.team.participants[k] },
                        ),
                        ..p.team
                    },
                    ..p
                },
            )
        } else {
            None
        },
        Route::ParticipantCv(k) => if 0 <= k < p.team.participants.len() {
            Some(
                ProjectV {
                    team: TeamV {
                        participants: p.team.participants.update(
                            k,
                            ParticipantV { cv: c.body.notes, ..p.team.participants[k] },
                        ),
                        ..p.team
                    },
                    ..p
                },
            )
        } else {
            None
        },
        Route::ParticipantResources(k) => if 0 <= k < p.team.participants.len() {
            Some(
                ProjectV {
                    team: TeamV {
                        participants: p.team.participants.update(
                            k,
                            ParticipantV { resources: c.body.notes, ..p.team.participants[k] },
                        ),
                        ..p.team
                    },
                    ..p
                },
            )
        } else {
            None
        },
        Route::ParticipantBudget(k) => if 0 <= k < p.team.participants.len() {
            Some(
                ProjectV {
                    team: TeamV {
                        participants: p.team.participants.update(
                            k,
                            ParticipantV { budget: c.body.notes, ..p.team.participants[k] },
                        ),
                        ..p.team
                    },
                    ..p
                },
            )
        } else {
            None
        },
        Route::PrelimResultsNotes => Some(
            ProjectV {
                prelim_results: PrelimResultsV { prelim_results: c.body.notes, ..p.prelim_results },
                ..p
            },
        ),
        Route::MethodologyNotes => Some(
            ProjectV {
                methodology: MethodologyV { methodology: c.body.notes, ..p.methodology },
                ..p
            },
        ),
        Route::OutcomesResults => Some(
            ProjectV { outcomes: OutcomesV { results: c.body.notes, ..p.outcomes }, ..p },
        ),
        Route::OutcomesImpact => Some(
            ProjectV { outcomes: OutcomesV { impact: c.body.notes, ..p.outcomes }, ..p },
        ),
        Route::OutcomesPropagation => Some(
            ProjectV { outcomes: OutcomesV { propagation: c.body.notes, ..p.outcomes }, ..p },
        ),
        Route::LiteratureSurvey => Some(
            ProjectV {
                literature: LiteratureV { literature_survey: c.body.notes, ..p.literature },
                ..p
            },
        ),
        Route::LiteratureSourceEntry(_) => Some(
            ProjectV {
                literature: LiteratureV {
                    references: p.literature.references.push(pushed_reference(c)),
                    ..p.literature
                },
                ..p
            },
        ),
        Route::LiteratureSourceHyperlink(k) => if 0 <= k < p.literature.references.len() {
            Some(
                ProjectV {
                    literature: LiteratureV {
                        references: p.literature.references.update(
                            k,
                            ReferenceV { hyperlink: c.body.phrase, ..p.literature.references[k] },
                        ),
                        ..p.literature
                    },
                    ..p
                },
            )
        } else {
            None
        },
        Route::LiteratureSourceDetails(k) => if 0 <= k < p.literature.references.len() {
            Some(
                ProjectV {
                    literature: LiteratureV {
                        references: p.literature.references.update(
                            k,
                            ReferenceV {
                                source_details: c.body.notes,
                                ..p.literature.references[k]
                            },
                        ),
                        ..p.literature
                    },
                    ..p
                },
            )
        } else {
            None
        },
        Route::ResourcesExisting => Some(
            ProjectV { resources: ResourcesV { existing: c.body.notes, ..p.resources }, ..p },
        ),
        Route::ResourcesFurther => Some(
            ProjectV { resources: ResourcesV { further: c.body.notes, ..p.resources }, ..p },
        ),
        Route::BudgetPersonnel => Some(
            ProjectV { budget: BudgetV { personnel: c.body.notes, ..p.budget }, ..p },
        ),
        Route::BudgetFacilities => Some(
            ProjectV { budget: BudgetV { facilities: c.body.notes, ..p.budget }, ..p },
        ),
        Route::BudgetMaterials => Some(
            ProjectV { budget: BudgetV { materials: c.body.notes, ..p.budget }, ..p },
        ),
        Route::BudgetWorkshops => Some(
            ProjectV { budget: BudgetV { workshops: c.body.notes, ..p.budget }, ..p },
        ),
        Route::BudgetOverheads => Some(
            ProjectV { budget: BudgetV { overheads: c.body.notes, ..p.budget }, ..p },
        ),
        Route::BudgetMisc => Some(ProjectV { budget: BudgetV { misc: c.body.notes, ..p.budget }, ..p }),
        Route::AttachmentsTables => Some(
            ProjectV { attachments: AttachmentsV { tables: c.body.notes, ..p.attachments }, ..p },
        ),
        Route::AttachmentsFigures => Some(
            ProjectV { attachments: AttachmentsV { figures: c.body.notes, ..p.attachments }, ..p },
        ),
        Route::AttachmentsOther => Some(
            ProjectV { attachments: AttachmentsV { other: c.body.notes, ..p.attachments }, ..p },
        ),
    }
}

/// What one chunk does to the document: routed, then applied; a reserved
/// pair changes nothing; an invalid pair fails the decode.
pub open spec fn spec_step(p: ProjectV, c: ChunkV) -> Option<ProjectV> {
    match spec_route(c.parent, c.address) {
        RouteOutcome::Known(r) => spec_apply(p, r, c),
        RouteOutcome::Ignored => Some(p),
        RouteOutcome::Invalid => None,
    }
}

/// Folds a chunk sequence over a document, first chunk first.
pub open spec fn spec_decode_chunks(p: ProjectV, cs: Seq<ChunkV>) -> Option<ProjectV>
    decreases cs.len(),
{
    if cs.len() == 0 {
        Some(p)
    } else {
        match spec_step(p, cs[0]) {
            Some(p2) => spec_decode_chunks(p2, cs.drop_first()),
            None => None,
        }
    }
}

/// The document a decode starts from: the default document carrying the
/// store's record name, owner and resolution.
pub open spec fn initial_project(s: StoreV) -> ProjectV {
    ProjectV { record: s.record, owner: s.owner, resolution: s.resolution, ..project_default_v() }
}

/// The document a stored image decodes to, or nothing when a structurally
/// mandatory chunk routes nowhere.
pub open spec fn spec_decode(s: StoreV) -> Option<ProjectV> {
    spec_decode_chunks(initial_project(s), s.chunks)
}

#[verifier::rlimit(50)]
fn apply_root(project: &mut Project, chunk: &Chunk) -> (r: Result<(), FormatError>)
    requires
        chunk.parent is None,
    ensures
        r is Ok ==> spec_step(old(project).deep_view(), chunk.deep_view()) == Some(
            final(project).deep_view(),
        ),
        r is Err ==> spec_step(old(project).deep_view(), chunk.deep_view()) is None,
        r matches Err(e) ==> e is StructuralRoute,
{
    let ghost p0 = project.deep_view();
    let ghost cv = chunk.deep_view();
    let fail = FormatError::StructuralRoute { parent: chunk.parent, address: chunk.address };

            proof {
                assert(sections_table().len() == 14);
            }
            match chunk.address {
                0 => {
                    proof {
                        assert(sections_table()[0] == Variety::WorkingName);
                    }
                    project.working_name.title = chunk.title.clone();
                    project.working_name.visible = chunk.visible;
                    proof {
                        assert(project.deep_view() =~~= apply_section_title(
                            p0,
                            Variety::WorkingName,
                            cv,
                        ));
                    }
                },
                1 => {
                    proof {
                        assert(sections_table()[1] == Variety::Idea);
                    }
                    project.idea.title = chunk.title.clone();
                    project.idea.visible = chunk.visible;
                    proof {
                        assert(project.deep_view() =~~= apply_section_title(p0, Variety::Idea, cv));
                    }
                },
                2 => {
                    proof {
                        assert(sections_table()[2] == Variety::Funding);
                    }
                    project.funding.title = chunk.title.clone();
                    project.funding.visible = chunk.visible;
                    proof {
                        assert(project.deep_view() =~~= apply_section_title(
                            p0,
                            Variety::Funding,
                            cv,
                        ));
                    }
                },
                3 => {
                    proof {
                        assert(sections_table()[3] == Variety::Scope);
                    }
                    project.scope.title = chunk.title.clone();
                    project.scope.visible = chunk.visible;
                    proof {
                        assert(project.deep_view() =~~= apply_section_title(p0, Variety::Scope, cv));
                    }
                },
                4 => {
                    proof {
                        assert(sections_table()[4] == Variety::Timeline);
                    }
                    project.timeline.title = chunk.title.clone();
                    project.timeline.visible = chunk.visible;
                    proof {
                        assert(project.deep_view() =~~= apply_section_title(
                            p0,
                            Variety::Timeline,
                            cv,
                        ));
                    }
                },
                5 => {
                    proof {
                        assert(sections_table()[5] == Variety::Scripting);
                    }
                    project.scripting.title = chunk.title.clone();
                    project.scripting.visible = chunk.visible;
                    proof {
                        assert(project.deep_view() =~~= apply_section_title(
                            p0,
                            Variety::Scripting,
                            cv,
                        ));
                    }
                },
                6 => {
                    proof {
                        assert(sections_table()[6] == Variety::Team);
                    }
                    project.team.title = chunk.title.clone();
                    project.team.visible = chunk.visible;
                    proof {
                        assert(project.deep_view() =~~= apply_section_title(p0, Variety::Team, cv));
                    }
                },
                7 => {
                    proof {
                        assert(sections_table()[7] == Variety::PrelimResults);
                    }
                    project.prelim_results.title = chunk.title.clone();
                    project.prelim_results.visible = chunk.visible;
                    proof {
                        assert(project.deep_view() =~~= apply_section_title(
                            p0,
                            Variety::PrelimResults,
                            cv,
                        ));
                    }
                },
                8 => {
                    proof {
                        assert(sections_table()[8] == Variety::Methodology);
                    }
                    project.methodology.title = chunk.title.clone();
                    project.methodology.visible = chunk.visible;
                    proof {
                        assert(project.deep_view() =~~= apply_section_title(
                            p0,
                            Variety::Methodology,
                            cv,
                        ));
                    }
                },
                9 => {
                    proof {
                        assert(sections_table()[9] == Variety::Outcomes);
                    }
                    project.outcomes.title = chunk.title.clone();
                    project.outcomes.visible = chunk.visible;
                    proof {
                        assert(project.deep_view() =~~= apply_section_title(
                            p0,
                            Variety::Outcomes,
                            cv,
                        ));
                    }
                },
                10 => {
                    proof {
                        assert(sections_table()[10] == Variety::Literature);
                    }
                    project.literature.title = chunk.title.clone();
                    project.literature.visible = chunk.visible;
                    proof {
                        assert(project.deep_view() =~~= apply_section_title(
                            p0,
                            Variety::Literature,
                            cv,
                        ));
                    }
                },
                11 => {
                    proof {
                        assert(sections_table()[11] == Variety::Resources);
                    }
                    project.resources.title = chunk.title.clone();
                    project.resources.visible = chunk.visible;
                    proof {
                        assert(project.deep_view() =~~= apply_section_title(
                            p0,
                            Variety::Resources,
                            cv,
                        ));
                    }
                },
                12 => {
                    proof {
                        assert(sections_table()[12] == Variety::Budget);
                    }
                    project.budget.title = chunk.title.clone();
                    project.budget.visible = chunk.visible;
                    proof {
                        assert(project.deep_view() =~~= apply_section_title(p0, Variety::Budget, cv));
                    }
                },
                13 => {
                    proof {
                        assert(sections_table()[13] == Variety::Attachments);
                    }
                    project.attachments.title = chunk.title.clone();
                    project.attachments.visible = chunk.visible;
                    proof {
                        assert(project.deep_view() =~~= apply_section_title(
                            p0,
                            Variety::Attachments,
                            cv,
                        ));
                    }
                },
                _ => {
                    return Err(fail);
                },
            }
        
    Ok(())
}

#[verifier::rlimit(50)]
fn apply_top_low(project: &mut Project, chunk: &Chunk, par: Parent) -> (r: Result<(), FormatError>)
    requires
        chunk.parent == Some(par),
        par.variety == Rank::Top,
        par.address <= 6,
    ensures
        r is Ok ==> spec_step(old(project).deep_view(), chunk.deep_view()) == Some(
            final(project).deep_view(),
        ),
        r is Err ==> spec_step(old(project).deep_view(), chunk.deep_view()) is None,
        r matches Err(e) ==> e is StructuralRoute,
{
    let ghost p0 = project.deep_view();
    let ghost cv = chunk.deep_view();
    let fail = FormatError::StructuralRoute { parent: chunk.parent, address: chunk.address };
    match par.address {
        0 => {
                            if chunk.address == 0 || chunk.address == 1 {
                                project.working_name.options = chunk.body.notes.clone();
                                proof {
                                    assert(project.deep_view() =~~= (ProjectV {
                                        working_name: ProjectTitleV {
                                            options: cv.body.notes,
                                            ..p0.working_name
                                        },
                                        ..p0
                                    }));
                                }
                            }
                        },
        1 => {
                            match chunk.address {
                                0 => {
                                    project.idea.problem = chunk.body.notes.clone();
                                    proof {
                                        assert(project.deep_view() =~~= (ProjectV {
                                            idea: IdeaV { problem: cv.body.notes, ..p0.idea },
                                            ..p0
                                        }));
                                    }
                                },
                                1 => {
                                    project.idea.hypothesis = chunk.body.notes.clone();
                                    proof {
                                        assert(project.deep_view() =~~= (ProjectV {
                                            idea: IdeaV { hypothesis: cv.body.notes, ..p0.idea },
                                            ..p0
                                        }));
                                    }
                                },
                                2 => {
                                    project.idea.summary = chunk.body.notes.clone();
                                    proof {
                                        assert(project.deep_view() =~~= (ProjectV {
                                            idea: IdeaV { summary: cv.body.notes, ..p0.idea },
                                            ..p0
                                        }));
                                    }
                                },
                                3 => {
                                    project.idea.description = chunk.body.notes.clone();
                                    proof {
                                        assert(project.deep_view() =~~= (ProjectV {
                                            idea: IdeaV { description: cv.body.notes, ..p0.idea },
                                            ..p0
                                        }));
                                    }
                                },
                                4 => {
                                    project.idea.references.title = chunk.title.clone();
                                    project.idea.references.visible = chunk.visible;
                                    proof {
                                        assert(project.deep_view() =~~= (ProjectV {
                                            idea: IdeaV {
                                                references: ReferencesV {
                                                    title: cv.title,
                                                    visible: cv.visible,
                                                    ..p0.idea.references
                                                },
                                                ..p0.idea
                                            },
                                            ..p0
                                        }));
                                    }
                                },
                                _ => {},
                            }
                        },
        2 => {
                            let mut entry = Programme::default();
                            entry.title = chunk.title.clone();
                            entry.visible = chunk.visible;
                            proof {
                                assert(entry.deep_view() =~~= pushed_programme(cv));
                            }
                            project.funding.funding_options.push(entry);
                            proof {
                                assert(project.deep_view() =~~= (ProjectV {
                                    funding: FundingOptionsV {
                                        funding_options: p0.funding.funding_options.push(
                                            pushed_programme(cv),
                                        ),
                                        ..p0.funding
                                    },
                                    ..p0
                                }));
                            }
                        },
        3 => {
                            match chunk.address {
                                0 => {
                                    project.scope.suggested_tasks = chunk.body.notes.clone();
                                    proof {
                                        assert(project.deep_view() =~~= (ProjectV {
                                            scope: ScopeV {
                                                suggested_tasks: cv.body.notes,
                                                ..p0.scope
                                            },
                                            ..p0
                                        }));
                                    }
                                },
                                1 => {
                                    project.scope.objectives = chunk.body.notes.clone();
                                    proof {
                                        assert(project.deep_view() =~~= (ProjectV {
                                            scope: ScopeV { objectives: cv.body.notes, ..p0.scope },
                                            ..p0
                                        }));
                                    }
                                },
                                2 => {
                                    project.scope.activities = chunk.body.notes.clone();
                                    proof {
                                        assert(project.deep_view() =~~= (ProjectV {
                                            scope: ScopeV { activities: cv.body.notes, ..p0.scope },
                                            ..p0
                                        }));
                                    }
                                },
                                3 => {
                                    project.scope.work_plan = chunk.body.notes.clone();
                                    proof {
                                        assert(project.deep_view() =~~= (ProjectV {
                                            scope: ScopeV { work_plan: cv.body.notes, ..p0.scope },
                                            ..p0
                                        }));
                                    }
                                },
                                4 => {
                                    project.scope.tasks = chunk.body.notes.clone();
                                    proof {
                                        assert(project.deep_view() =~~= (ProjectV {
                                            scope: ScopeV { tasks: cv.body.notes, ..p0.scope },
                                            ..p0
                                        }));
                                    }
                                },
                                _ => {},
                            }
                        },
        4 => {
                            match chunk.address {
                                0 => {
                                    project.timeline.project_start = Date::from(chunk.body.date);
                                    proof {
                                        assert(project.deep_view() =~~= (ProjectV {
                                            timeline: TimelineV {
                                                project_start: spec_date_of(cv.body.date),
                                                ..p0.timeline
                                            },
                                            ..p0
                                        }));
                                    }
                                },
                                1 => {
                                    project.timeline.duration_years = chunk.body.numeral;
                                    proof {
                                        assert(project.deep_view() =~~= (ProjectV {
                                            timeline: TimelineV {
                                                duration_years: cv.body.numeral,
                                                ..p0.timeline
                                            },
                                            ..p0
                                        }));
                                    }
                                },
                                2 => {
                                    project.timeline.milestones = chunk.body.notes.clone();
                                    proof {
                                        assert(project.deep_view() =~~= (ProjectV {
                                            timeline: TimelineV {
                                                milestones: cv.body.notes,
                                                ..p0.timeline
                                            },
                                            ..p0
                                        }));
                                    }
                                },
                                _ => {
                                    return Err(fail);
                                },
                            }
                        },
        5 => {
                            match chunk.address {
                                0 => {
                                    project.scripting.answer = chunk.body.option;
                                    proof {
                                        assert(project.deep_view() =~~= (ProjectV {
                                            scripting: ScriptingV {
                                                answer: cv.body.option,
                                                ..p0.scripting
                                            },
                                            ..p0
                                        }));
                                    }
                                },
                                1 => {
                                    project.scripting.scripting = chunk.body.notes.clone();
                                    proof {
                                        assert(project.deep_view() =~~= (ProjectV {
                                            scripting: ScriptingV {
                                                scripting: cv.body.notes,
                                                ..p0.scripting
                                            },
                                            ..p0
                                        }));
                                    }
                                },
                                _ => {},
                            }
                        },
        6 => {
                            match chunk.address {
                                0 => {
                                    project.team.proposed_partners = chunk.body.notes.clone();
                                    proof {
                                        assert(project.deep_view() =~~= (ProjectV {
                                            team: TeamV {
                                                proposed_partners: cv.body.notes,
                                                ..p0.team
                                            },
                                            ..p0
                                        }));
                                    }
                                },
                                1 => {
                                    project.team.project_leader = chunk.body.notes.clone();
                                    proof {
                                        assert(project.deep_view() =~~= (ProjectV {
                                            team: TeamV { project_leader: cv.body.notes, ..p0.team },
                                            ..p0
                                        }));
                                    }
                                },
                                2 => {
                                    project.team.industrial_partners = chunk.body.notes.clone();
                                    proof {
                                        assert(project.deep_view() =~~= (ProjectV {
                                            team: TeamV {
                                                industrial_partners: cv.body.notes,
                                                ..p0.team
                                            },
                                            ..p0
                                        }));
                                    }
                                },
                                3 => {
                                    project.team.proponents = chunk.body.notes.clone();
                                    proof {
                                        assert(project.deep_view() =~~= (ProjectV {
                                            team: TeamV { proponents: cv.body.notes, ..p0.team },
                                            ..p0
                                        }));
                                    }
                                },
                                _ => {},
                            }
                        },
        _ => {},
    }
    Ok(())
}

#[verifier::rlimit(50)]
fn apply_top_high(project: &mut Project, chunk: &Chunk, par: Parent) -> (r: Result<(), FormatError>)
    requires
        chunk.parent == Some(par),
        par.variety == Rank::Top,
        par.address >= 7,
    ensures
        r is Ok ==> spec_step(old(project).deep_view(), chunk.deep_view()) == Some(
            final(project).deep_view(),
        ),
        r is Err ==> spec_step(old(project).deep_view(), chunk.deep_view()) is None,
        r matches Err(e) ==> e is StructuralRoute,
{
    let ghost p0 = project.deep_view();
    let ghost cv = chunk.deep_view();
    match par.address {
        7 => {
                            if chunk.address == 0 {
                                project.prelim_results.prelim_results = chunk.body.notes.clone();
                                proof {
                                    assert(project.deep_view() =~~= (ProjectV {
                                        prelim_results: PrelimResultsV {
                                            prelim_results: cv.body.notes,
                                            ..p0.prelim_results
                                        },
                                        ..p0
                                    }));
                                }
                            }
                        },
        8 => {
                            if chunk.address == 0 {
                                project.methodology.methodology = chunk.body.notes.clone();
                                proof {
                                    assert(project.deep_view() =~~= (ProjectV {
                                        methodology: MethodologyV {
                                            methodology: cv.body.notes,
                                            ..p0.methodology
                                        },
                                        ..p0
                                    }));
                                }
                            }
                        },
        9 => {
                            match chunk.address {
                                0 => {
                                    project.outcomes.results = chunk.body.notes.clone();
                                    proof {
                                        assert(project.deep_view() =~~= (ProjectV {
                                            outcomes: OutcomesV {
                                                results: cv.body.notes,
                                                ..p0.outcomes
                                            },
                                            ..p0
                                        }));
                                    }
                                },
                                1 => {
                                    project.outcomes.impact = chunk.body.notes.clone();
                                    proof {
                                        assert(project.deep_view() =~~= (ProjectV {
                                            outcomes: OutcomesV { impact: cv.body.notes, ..p0.outcomes },
                                            ..p0
                                        }));
                                    }
                                },
                                2 => {
                                    project.outcomes.propagation = chunk.body.notes.clone();
                                    proof {
                                        assert(project.deep_view() =~~= (ProjectV {
                                            outcomes: OutcomesV {
                                                propagation: cv.body.notes,
                                                ..p0.outcomes
                                            },
                                            ..p0
                                        }));
                                    }
                                },
                                _ => {},
                            }
                        },
        10 => {
                            if chunk.address == 0 {
                                project.literature.literature_survey = chunk.body.notes.clone();
                                proof {
                                    assert(project.deep_view() =~~= (ProjectV {
                                        literature: LiteratureV {
                                            literature_survey: cv.body.notes,
                                            ..p0.literature
                                        },
                                        ..p0
                                    }));
                                }
                            }
                        },
        11 => {
                            match chunk.address {
                                0 => {
                                    project.resources.existing = chunk.body.notes.clone();
                                    proof {
                                        assert(project.deep_view() =~~= (ProjectV {
                                            resources: ResourcesV {
                                                existing: cv.body.notes,
                                                ..p0.resources
                                            },
                                            ..p0
                                        }));
                                    }
                                },
                                1 => {
                                    project.resources.further = chunk.body.notes.clone();
                                    proof {
                                        assert(project.deep_view() =~~= (ProjectV {
                                            resources: ResourcesV {
                                                further: cv.body.notes,
                                                ..p0.resources
                                            },
                                            ..p0
                                        }));
                                    }
                                },
                                _ => {},
                            }
                        },
        12 => {
                            match chunk.address {
                                0 => {
                                    project.budget.personnel = chunk.body.notes.clone();
                                    proof {
                                        assert(project.deep_view() =~~= (ProjectV {
                                            budget: BudgetV { personnel: cv.body.notes, ..p0.budget },
                                            ..p0
                                        }));
                                    }
                                },
                                1 => {
                                    project.budget.facilities = chunk.body.notes.clone();
                                    proof {
                                        assert(project.deep_view() =~~= (ProjectV {
                                            budget: BudgetV { facilities: cv.body.notes, ..p0.budget },
                                            ..p0
                                        }));
                                    }
                                },
                                2 => {
                                    project.budget.materials = chunk.body.notes.clone();
                                    proof {
                                        assert(project.deep_view() =~~= (ProjectV {
                                            budget: BudgetV { materials: cv.body.notes, ..p0.budget },
                                            ..p0
                                        }));
                                    }
                                },
                                3 => {
                                    project.budget.workshops = chunk.body.notes.clone();
                                    proof {
                                        assert(project.deep_view() =~~= (ProjectV {
                                            budget: BudgetV { workshops: cv.body.notes, ..p0.budget },
                                            ..p0
                                        }));
                                    }
                                },
                                4 => {
                                    project.budget.overheads = chunk.body.notes.clone();
                                    proof {
                                        assert(project.deep_view() =~~= (ProjectV {
                                            budget: BudgetV { overheads: cv.body.notes, ..p0.budget },
                                            ..p0
                                        }));
                                    }
                                },
                                5 => {
                                    project.budget.misc = chunk.body.notes.clone();
                                    proof {
                                        assert(project.deep_view() =~~= (ProjectV {
                                            budget: BudgetV { misc: cv.body.notes, ..p0.budget },
                                            ..p0
                                        }));
                                    }
                                },
                                _ => {},
                            }
                        },
        13 => {
                            match chunk.address {
                                0 => {
                                    project.attachments.tables = chunk.body.notes.clone();
                                    proof {
                                        assert(project.deep_view() =~~= (ProjectV {
                                            attachments: AttachmentsV {
                                                tables: cv.body.notes,
                                                ..p0.attachments
                                            },
                                            ..p0
                                        }));
                                    }
                                },
                                1 => {
                                    project.attachments.figures = chunk.body.notes.clone();
                                    proof {
                                        assert(project.deep_view() =~~= (ProjectV {
                                            attachments: AttachmentsV {
                                                figures: cv.body.notes,
                                                ..p0.attachments
                                            },
                                            ..p0
                                        }));
                                    }
                                },
                                2 => {
                                    project.attachments.other = chunk.body.notes.clone();
                                    proof {
                                        assert(project.deep_view() =~~= (ProjectV {
                                            attachments: AttachmentsV {
                                                other: cv.body.notes,
                                                ..p0.attachments
                                            },
                                            ..p0
                                        }));
                                    }
                                },
                                _ => {},
                            }
                        },
        _ => {},
    }
    Ok(())
}

#[verifier::rlimit(50)]
fn apply_idea_reference_entry(project: &mut Project, chunk: &Chunk, par: Parent) -> (r: Result<(), FormatError>)
    requires
        chunk.parent == Some(par),
        par.variety == Rank::IdeaReferences,
    ensures
        r is Ok ==> spec_step(old(project).deep_view(), chunk.deep_view()) == Some(
            final(project).deep_view(),
        ),
        r is Err ==> spec_step(old(project).deep_view(), chunk.deep_view()) is None,
        r matches Err(e) ==> e is StructuralRoute,
{
    let ghost p0 = project.deep_view();
    let ghost cv = chunk.deep_view();

                    if par.address == 4 {
                        let mut entry = Reference::default();
                        entry.title = chunk.title.clone();
                        entry.visible = chunk.visible;
                        proof {
                            assert(entry.deep_view() =~~= pushed_reference(cv));
                        }
                        project.idea.references.references.push(entry);
                        proof {
                            assert(project.deep_view() =~~= (ProjectV {
                                idea: IdeaV {
                                    references: ReferencesV {
                                        references: p0.idea.references.references.push(
                                            pushed_reference(cv),
                                        ),
                                        ..p0.idea.references
                                    },
                                    ..p0.idea
                                },
                                ..p0
                            }));
                        }
                    }
                
    Ok(())
}

#[verifier::rlimit(50)]
fn apply_idea_citation_field(project: &mut Project, chunk: &Chunk, par: Parent) -> (r: Result<(), FormatError>)
    requires
        chunk.parent == Some(par),
        par.variety == Rank::IdeaReferencesCitation,
    ensures
        r is Ok ==> spec_step(old(project).deep_view(), chunk.deep_view()) == Some(
            final(project).deep_view(),
        ),
        r is Err ==> spec_step(old(project).deep_view(), chunk.deep_view()) is None,
        r matches Err(e) ==> e is StructuralRoute,
{
    let ghost p0 = project.deep_view();
    let ghost cv = chunk.deep_view();
    let fail = FormatError::StructuralRoute { parent: chunk.parent, address: chunk.address };

                    let k = par.address;
                    match chunk.address {
                        0 => {
                            if k < project.idea.references.references.len() {
                                project.idea.references.references[k].hyperlink =
                                    chunk.body.phrase.clone();
                                proof {
                                    assert(project.deep_view() =~~= (ProjectV {
                                        idea: IdeaV {
                                            references: ReferencesV {
                                                references: p0.idea.references.references.update(
                                                    k as int,
                                                    ReferenceV {
                                                        hyperlink: cv.body.phrase,
                                                        ..p0.idea.references.references[k as int]
                                                    },
                                                ),
                                                ..p0.idea.references
                                            },
                                            ..p0.idea
                                        },
                                        ..p0
                                    }));
                                }
                            } else {
                                return Err(fail);
                            }
                        },
                        1 => {
                            if k < project.idea.references.references.len() {
                                project.idea.references.references[k].source_details =
                                    chunk.body.notes.clone();
                                proof {
                                    assert(project.deep_view() =~~= (ProjectV {
                                        idea: IdeaV {
                                            references: ReferencesV {
                                                references: p0.idea.references.references.update(
                                                    k as int,
                                                    ReferenceV {
                                                        source_details: cv.body.notes,
                                                        ..p0.idea.references.references[k as int]
                                                    },
                                                ),
                                                ..p0.idea.references
                                            },
                                            ..p0.idea
                                        },
                                        ..p0
                                    }));
                                }
                            } else {
                                return Err(fail);
                            }
                        },
                        _ => {},
                    }
                
    Ok(())
}

#[verifier::rlimit(50)]
fn apply_programme_field(project: &mut Project, chunk: &Chunk, par: Parent) -> (r: Result<(), FormatError>)
    requires
        chunk.parent == Some(par),
        par.variety == Rank::FundingProgram,
    ensures
        r is Ok ==> spec_step(old(project).deep_view(), chunk.deep_view()) == Some(
            final(project).deep_view(),
        ),
        r is Err ==> spec_step(old(project).deep_view(), chunk.deep_view()) is None,
        r matches Err(e) ==> e is StructuralRoute,
{
    let ghost p0 = project.deep_view();
    let ghost cv = chunk.deep_view();
    let fail = FormatError::StructuralRoute { parent: chunk.parent, address: chunk.address };

                    let j = par.address;
                    match chunk.address {
                        0 => {
                            if j < project.funding.funding_options.len() {
                                project.funding.funding_options[j].annotation =
                                    chunk.body.notes.clone();
                                proof {
                                    assert(project.deep_view() =~~= (ProjectV {
                                        funding: FundingOptionsV {
                                            funding_options: p0.funding.funding_options.update(
                                                j as int,
                                                ProgrammeV {
                                                    annotation: cv.body.notes,
                                                    ..p0.funding.funding_options[j as int]
                                                },
                                            ),
                                            ..p0.funding
                                        },
                                        ..p0
                                    }));
                                }
                            } else {
                                return Err(fail);
                            }
                        },
                        1 => {
                            if j < project.funding.funding_options.len() {
                                project.funding.funding_options[j].hyperlink =
                                    chunk.body.phrase.clone();
                                proof {
                                    assert(project.deep_view() =~~= (ProjectV {
                                        funding: FundingOptionsV {
                                            funding_options: p0.funding.funding_options.update(
                                                j as int,
                                                ProgrammeV {
                                                    hyperlink: cv.body.phrase,
                                                    ..p0.funding.funding_options[j as int]
                                                },
                                            ),
                                            ..p0.funding
                                        },
                                        ..p0
                                    }));
                                }
                            } else {
                                return Err(fail);
                            }
                        },
                        2 => {
                            if j < project.funding.funding_options.len() {
                                project.funding.funding_options[j].deadline = Date::from(
                                    chunk.body.date,
                                );
                                proof {
                                    assert(project.deep_view() =~~= (ProjectV {
                                        funding: FundingOptionsV {
                                            funding_options: p0.funding.funding_options.update(
                                                j as int,
                                                ProgrammeV {
                                                    deadline: spec_date_of(cv.body.date),
                                                    ..p0.funding.funding_options[j as int]
                                                },
                                            ),
                                            ..p0.funding
                                        },
                                        ..p0
                                    }));
                                }
                            } else {
                                return Err(fail);
                            }
                        },
                        _ => {},
                    }
                
    Ok(())
}

#[verifier::rlimit(50)]
fn apply_participant_entry(project: &mut Project, chunk: &Chunk, par: Parent) -> (r: Result<(), FormatError>)
    requires
        chunk.parent == Some(par),
        par.variety == Rank::TeamParticipants,
    ensures
        r is Ok ==> spec_step(old(project).deep_view(), chunk.deep_view()) == Some(
            final(project).deep_view(),
        ),
        r is Err ==> spec_step(old(project).deep_view(), chunk.deep_view()) is None,
        r matches Err(e) ==> e is StructuralRoute,
{
    let ghost p0 = project.deep_view();
    let ghost cv = chunk.deep_view();

                    if par.address == 4 {
                        let mut entry = Participant::default();
                        entry.name = chunk.title.clone();
                        entry.visible = chunk.visible;
                        proof {
                            assert(entry.deep_view() =~~= pushed_participant(cv));
                        }
                        project.team.participants.push(entry);
                        proof {
                            assert(project.deep_view() =~~= (ProjectV {
                                team: TeamV {
                                    participants: p0.team.participants.push(pushed_participant(cv)),
                                    ..p0.team
                                },
                                ..p0
                            }));
                        }
                    }
                
    Ok(())
}

#[verifier::rlimit(80)]
fn apply_participant_field(project: &mut Project, chunk: &Chunk, par: Parent) -> (r: Result<(), FormatError>)
    requires
        chunk.parent == Some(par),
        par.variety == Rank::TeamParticipantsPartner,
    ensures
        r is Ok ==> spec_step(old(project).deep_view(), chunk.deep_view()) == Some(
            final(project).deep_view(),
        ),
        r is Err ==> spec_step(old(project).deep_view(), chunk.deep_view()) is None,
        r matches Err(e) ==> e is StructuralRoute,
{
    let ghost p0 = project.deep_view();
    let ghost cv = chunk.deep_view();
    let fail = FormatError::StructuralRoute { parent: chunk.parent, address: chunk.address };

                    let k = par.address;
                    if k < project.team.participants.len() {
                        match chunk.address {
                            0 => {
                                project.team.participants[k].role = chunk.body.phrase.clone();
                                proof {
                                    assert(project.deep_view() =~~= (ProjectV {
                                        team: TeamV {
                                            participants: p0.team.participants.update(
                                                k as int,
                                                ParticipantV {
                                                    role: cv.body.phrase,
                                                    ..p0.team.participants[k as int]
                                                },
                                            ),
                                            ..p0.team
                                        },
                                        ..p0
                                    }));
                                }
                            },
                            1 => {
                                project.team.participants[k].affiliation =
                                    chunk.body.phrase.clone();
                                proof {
                                    assert(project.deep_view() =~~= (ProjectV {
                                        team: TeamV {
                                            participants: p0.team.participants.update(
                                                k as int,
                                                ParticipantV {
                                                    affiliation: cv.body.phrase,
                                                    ..p0.team.participants[k as int]
                                                },
                                            ),
                                            ..p0.team
                                        },
                                        ..p0
                                    }));
                                }
                            },
                            2 => {
                                project.team.participants[k].hyperlink = chunk.body.phrase.clone();
                                proof {
                                    assert(project.deep_view() =~~= (ProjectV {
                                        team: TeamV {
                                            participants: p0.team.participants.update(
                                                k as int,
                                                ParticipantV {
                                                    hyperlink: cv.body.phrase,
                                                    ..p0.team.participants[k as int]
                                                },
                                            ),
                                            ..p0.team
                                        },
                                        ..p0
                                    }));
                                }
                            },
                            3 => {
                                project.team.participants[k].country = chunk.body.phrase.clone();
                                proof {
                                    assert(project.deep_view() =~~= (ProjectV {
                                        team: TeamV {
                                            participants: p0.team.participants.update(
                                                k as int,
                                                ParticipantV {
                                                    country: cv.body.phrase,
                                                    ..p0.team.participants[k as int]
                                                },
                                            ),
                                            ..p0.team
                                        },
                                        ..p0
                                    }));
                                }
                            },
                            4 => {
                                project.team.participants[k].expertise = chunk.body.phrase.clone();
                                proof {
                                    assert(project.deep_view() =~~= (ProjectV {
                                        team: TeamV {
                                            participants: p0.team.participants.update(
                                                k as int,
                                                ParticipantV {
                                                    expertise: cv.body.phrase,
                                                    ..p0.team.participants[k as int]
                                                },
                                            ),
                                            ..p0.team
                                        },
                                        ..p0
                                    }));
                                }
                            },
                            5 => {
                                project.team.participants[k].contribution =
                                    chunk.body.notes.clone();
                                proof {
                                    assert(project.deep_view() =~~= (ProjectV {
                                        team: TeamV {
                                            participants: p0.team.participants.update(
                                                k as int,
                                                ParticipantV {
                                                    contribution: cv.body.notes,
                                                    ..p0.team.participants[k as int]
                                                },
                                            ),
                                            ..p0.team
                                        },
                                        ..p0
                                    }));
                                }
                            },
                            6 => {
                                project.team.participants[k].team = chunk.body.notes.clone();
                                proof {
                                    assert(project.deep_view() =~~= (ProjectV {
                                        team: TeamV {
                                            participants: p0.team.participants.update(
                                                k as int,
                                                ParticipantV {
                                                    team: cv.body.notes,
                                                    ..p0.team.participants[k as int]
                                                },
                                            ),
                                            ..p0.team
                                        },
                                        ..p0
                                    }));
                                }
                            },
                            7 => {
                                project.team.participants[k].cv = chunk.body.notes.clone();
                                proof {
                                    assert(project.deep_view() =~~= (ProjectV {
                                        team: TeamV {
                                            participants: p0.team.participants.update(
                                                k as int,
                                                ParticipantV {
                                                    cv: cv.body.notes,
                                                    ..p0.team.participants[k as int]
                                                },
                                            ),
                                            ..p0.team
                                        },
                                        ..p0
                                    }));
                                }
                            },
                            8 => {
                                project.team.participants[k].resources = chunk.body.notes.clone();
                                proof {
                                    assert(project.deep_view() =~~= (ProjectV {
                                        team: TeamV {
                                            participants: p0.team.participants.update(
                                                k as int,
                                                ParticipantV {
                                                    resources: cv.body.notes,
                                                    ..p0.team.participants[k as int]
                                                },
                                            ),
                                            ..p0.team
                                        },
                                        ..p0
                                    }));
                                }
                            },
                            9 => {
                                project.team.participants[k].budget = chunk.body.notes.clone();
                                proof {
                                    assert(project.deep_view() =~~= (ProjectV {
                                        team: TeamV {
                                            participants: p0.team.participants.update(
                                                k as int,
                                                ParticipantV {
                                                    budget: cv.body.notes,
                                                    ..p0.team.participants[k as int]
                                                },
                                            ),
                                            ..p0.team
                                        },
                                        ..p0
                                    }));
                                }
                            },
                            _ => {},
                        }
                    } else {
                        match chunk.address {
                            0 | 1 | 2 | 3 | 4 | 5 | 6 | 7 | 8 | 9 => {
                                return Err(fail);
                            },
                            _ => {},
                        }
                    }
                
    Ok(())
}

#[verifier::rlimit(50)]
fn apply_literature_source_entry(project: &mut Project, chunk: &Chunk, par: Parent) -> (r: Result<(), FormatError>)
    requires
        chunk.parent == Some(par),
        par.variety == Rank::LiteratureSources,
    ensures
        r is Ok ==> spec_step(old(project).deep_view(), chunk.deep_view()) == Some(
            final(project).deep_view(),
        ),
        r is Err ==> spec_step(old(project).deep_view(), chunk.deep_view()) is None,
        r matches Err(e) ==> e is StructuralRoute,
{
    let ghost p0 = project.deep_view();
    let ghost cv = chunk.deep_view();

                    if par.address == 1 {
                        let mut entry = Reference::default();
                        entry.title = chunk.title.clone();
                        entry.visible = chunk.visible;
                        proof {
                            assert(entry.deep_view() =~~= pushed_reference(cv));
                        }
                        project.literature.references.push(entry);
                        proof {
                            assert(project.deep_view() =~~= (ProjectV {
                                literature: LiteratureV {
                                    references: p0.literature.references.push(pushed_reference(cv)),
                                    ..p0.literature
                                },
                                ..p0
                            }));
                        }
                    }
                
    Ok(())
}

#[verifier::rlimit(50)]
fn apply_literature_citation_field(project: &mut Project, chunk: &Chunk, par: Parent) -> (r: Result<(), FormatError>)
    requires
        chunk.parent == Some(par),
        par.variety == Rank::LiteratureSourcesCitation,
    ensures
        r is Ok ==> spec_step(old(project).deep_view(), chunk.deep_view()) == Some(
            final(project).deep_view(),
        ),
        r is Err ==> spec_step(old(project).deep_view(), chunk.deep_view()) is None,
        r matches Err(e) ==> e is StructuralRoute,
{
    let ghost p0 = project.deep_view();
    let ghost cv = chunk.deep_view();
    let fail = FormatError::StructuralRoute { parent: chunk.parent, address: chunk.address };

                    let k = par.address;
                    match chunk.address {
                        0 => {
                            if k < project.literature.references.len() {
                                project.literature.references[k].hyperlink =
                                    chunk.body.phrase.clone();
                                proof {
                                    assert(project.deep_view() =~~= (ProjectV {
                                        literature: LiteratureV {
                                            references: p0.literature.references.update(
                                                k as int,
                                                ReferenceV {
                                                    hyperlink: cv.body.phrase,
                                                    ..p0.literature.references[k as int]
                                                },
                                            ),
                                            ..p0.literature
                                        },
                                        ..p0
                                    }));
                                }
                            } else {
                                return Err(fail);
                            }
                        },
                        1 => {
                            if k < project.literature.references.len() {
                                project.literature.references[k].source_details =
                                    chunk.body.notes.clone();
                                proof {
                                    assert(project.deep_view() =~~= (ProjectV {
                                        literature: LiteratureV {
                                            references: p0.literature.references.update(
                                                k as int,
                                                ReferenceV {
                                                    source_details: cv.body.notes,
                                                    ..p0.literature.references[k as int]
                                                },
                                            ),
                                            ..p0.literature
                                        },
                                        ..p0
                                    }));
                                }
                            } else {
                                return Err(fail);
                            }
                        },
                        _ => {},
                    }
                
    Ok(())
}

/// Routes one chunk into the document, exactly as [`spec_step`] says.
fn apply_chunk(project: &mut Project, chunk: &Chunk) -> (r: Result<(), FormatError>)
    ensures
        r is Ok ==> spec_step(old(project).deep_view(), chunk.deep_view()) == Some(
            final(project).deep_view(),
        ),
        r is Err ==> spec_step(old(project).deep_view(), chunk.deep_view()) is None,
        r matches Err(e) ==> e is StructuralRoute,
{
    match &chunk.parent {
        None => apply_root(project, chunk),
        Some(par) => {
            let par = *par;
            match par.variety {
                Rank::Top => {
                    if par.address <= 6 {
                        apply_top_low(project, chunk, par)
                    } else {
                        apply_top_high(project, chunk, par)
                    }
                },
                Rank::IdeaReferences => apply_idea_reference_entry(project, chunk, par),
                Rank::IdeaReferencesCitation => apply_idea_citation_field(project, chunk, par),
                Rank::FundingProgram => apply_programme_field(project, chunk, par),
                Rank::TeamParticipants => apply_participant_entry(project, chunk, par),
                Rank::TeamParticipantsPartner => apply_participant_field(project, chunk, par),
                Rank::LiteratureSources => apply_literature_source_entry(project, chunk, par),
                Rank::LiteratureSourcesCitation => apply_literature_citation_field(project, chunk, par),
            }
        },
    }
}

impl Project {
    /// Decodes a stored image into a document: record name, owner and
    /// resolution are taken over, then the chunk list is folded over the
    /// default document in one forward pass.  Fails with a structural-route
    /// error exactly when [`spec_decode`] is undefined on the image.
    pub fn from(val: Store) -> (r: Result<Project, FormatError>)
        ensures
            r matches Ok(p) ==> spec_decode(val.deep_view()) == Some(p.deep_view()),
            r is Err ==> spec_decode(val.deep_view()) is None,
            r matches Err(e) ==> e is StructuralRoute,
    {
        let Store { format: _, owner, record, resolution, chunks } = val;
        let mut project = Project::default();
        project.owner = owner;
        project.record = record;
        project.resolution = resolution;
        proof {
            assert(project.deep_view() =~~= initial_project(val.deep_view()));
            assert(chunks.deep_view() =~= val.deep_view().chunks);
            assert(chunks.deep_view().skip(0) =~= chunks.deep_view());
        }
        let mut i: usize = 0;
        while i < chunks.len()
            invariant
                i <= chunks.len(),
                chunks.deep_view() == val.deep_view().chunks,
                spec_decode_chunks(project.deep_view(), chunks.deep_view().skip(i as int))
                    == spec_decode(val.deep_view()),
            decreases chunks.len() - i,
        {
            let ghost before = project.deep_view();
            let ghost rest = chunks.deep_view().skip(i as int);
            let step = apply_chunk(&mut project, &chunks[i]);
            proof {
                assert(rest[0] == chunks.deep_view()[i as int]);
                assert(rest.drop_first() =~= chunks.deep_view().skip(i + 1));
            }
            match step {
                Ok(()) => {},
                Err(e) => {
                    proof {
                        assert(spec_decode_chunks(before, rest) is None);
                    }
                    return Err(e);
                },
            }
            i = i + 1;
        }
        proof {
            assert(chunks.deep_view().skip(chunks.len() as int) =~= Seq::<ChunkV>::empty());
        }
        Ok(project)
    }
}

} // verus!

