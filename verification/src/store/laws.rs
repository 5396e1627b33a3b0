//! The laws tying the encoder and the decoder together: decoding what the
//! encoder produced restores the document, with every note list passed
//! through the visible-note filter and every ordering list at its default.

use vstd::prelude::*;

use crate::note::{lemma_stock_all_visible, spec_stock, NoteV};
use crate::project::{project_index_default, ProjectV};
use crate::sections::budget::budget_index_default;
use crate::sections::funding::{FundingOptionsV, ProgrammeV};
use crate::sections::idea::{idea_index_default, IdeaV};
use crate::sections::literature::LiteratureV;
use crate::sections::methodology::MethodologyV;
use crate::sections::outcomes::{outcomes_index_default, OutcomesV};
use crate::sections::prelim_results::PrelimResultsV;
use crate::sections::references::{ReferenceV, ReferencesV};
use crate::sections::resources::ResourcesV;
use crate::sections::scope::{scope_index_default, ScopeV};
use crate::sections::scripting::ScriptingV;
use crate::sections::team::{
    participant_index_default, team_index_default, ParticipantV, TeamV,
};
use crate::sections::timeline::{timeline_index_default, TimelineV};
use crate::sections::working_name::ProjectTitleV;
use crate::sections::attachments::AttachmentsV;
use crate::sections::budget::BudgetV;
use crate::store::open::{
    initial_project, pushed_participant, pushed_programme, pushed_reference, spec_decode,
    spec_decode_chunks, spec_step,
};
use crate::store::save::{
    empty_title, note_body_v, sub_chunk_v, title_chunk_v,
    enc_attachments, enc_budget, enc_citation, enc_citations, enc_funding, enc_idea,
    enc_literature, enc_methodology, enc_outcomes, enc_participant, enc_participants,
    enc_prelim_results, enc_programme, enc_programmes, enc_resources, enc_scope, enc_scripting,
    enc_team, enc_timeline, enc_working_name, spec_store_of,
};
use crate::store::v_b0004::{
    body_default_v, sections_table, spec_date_of, spec_ymd_of, ChunkV, Rank,
};

verus! {

// ~~~~~~~~~~~~~~~~~~~~~~~~~~~~~~~~~~~~~~~~~~~~~~~~~~~~~~~~~~~~~~~~~~~~~~~~~~
// What a saved-and-reopened document looks like.
// ~~~~~~~~~~~~~~~~~~~~~~~~~~~~~~~~~~~~~~~~~~~~~~~~~~~~~~~~~~~~~~~~~~~~~~~~~~
/// A reference after one save/open cycle: its hidden detail notes are gone.
pub open spec fn filter_reference(r: ReferenceV) -> ReferenceV {
    ReferenceV { source_details: spec_stock(r.source_details), ..r }
}

pub open spec fn filter_references(rs: Seq<ReferenceV>) -> Seq<ReferenceV> {
    rs.map_values(|r: ReferenceV| filter_reference(r))
}

/// A funding programme after one save/open cycle.
pub open spec fn filter_programme(p: ProgrammeV) -> ProgrammeV {
    ProgrammeV { annotation: spec_stock(p.annotation), ..p }
}

pub open spec fn filter_programmes(ps: Seq<ProgrammeV>) -> Seq<ProgrammeV> {
    ps.map_values(|p: ProgrammeV| filter_programme(p))
}

/// A participant after one save/open cycle: hidden notes gone, the chapter
/// ordering back at its default (ordering lists are never persisted).
pub open spec fn filter_participant(q: ParticipantV) -> ParticipantV {
    ParticipantV {
        index_list: participant_index_default(),
        contribution: spec_stock(q.contribution),
        team: spec_stock(q.team),
        cv: spec_stock(q.cv),
        resources: spec_stock(q.resources),
        budget: spec_stock(q.budget),
        ..q
    }
}

pub open spec fn filter_participants(qs: Seq<ParticipantV>) -> Seq<ParticipantV> {
    qs.map_values(|q: ParticipantV| filter_participant(q))
}

/// The document that saving and reopening `p` yields: every note list passed
/// through the visible-note filter, every ordering list at its default,
/// everything else exactly as it was.
pub open spec fn spec_filter_project(p: ProjectV) -> ProjectV {
    ProjectV {
        record: p.record,
        owner: p.owner,
        resolution: p.resolution,
        index_list: project_index_default(),
        working_name: ProjectTitleV {
            title: p.working_name.title,
            options: spec_stock(p.working_name.options),
            visible: p.working_name.visible,
        },
        idea: IdeaV {
            title: p.idea.title,
            index_list: idea_index_default(),
            problem: spec_stock(p.idea.problem),
            hypothesis: spec_stock(p.idea.hypothesis),
            summary: spec_stock(p.idea.summary),
            description: spec_stock(p.idea.description),
            references: ReferencesV {
                title: p.idea.references.title,
                references: filter_references(p.idea.references.references),
                visible: p.idea.references.visible,
            },
            visible: p.idea.visible,
        },
        funding: FundingOptionsV {
            title: p.funding.title,
            funding_options: filter_programmes(p.funding.funding_options),
            visible: p.funding.visible,
        },
        scope: ScopeV {
            title: p.scope.title,
            index_list: scope_index_default(),
            suggested_tasks: spec_stock(p.scope.suggested_tasks),
            objectives: spec_stock(p.scope.objectives),
            activities: spec_stock(p.scope.activities),
            work_plan: spec_stock(p.scope.work_plan),
            tasks: spec_stock(p.scope.tasks),
            visible: p.scope.visible,
        },
        timeline: TimelineV {
            title: p.timeline.title,
            index_list: timeline_index_default(),
            project_start: p.timeline.project_start,
            duration_years: p.timeline.duration_years,
            milestones: spec_stock(p.timeline.milestones),
            visible: p.timeline.visible,
        },
        scripting: ScriptingV {
            title: p.scripting.title,
            answer: p.scripting.answer,
            scripting: spec_stock(p.scripting.scripting),
            visible: p.scripting.visible,
        },
        team: TeamV {
            title: p.team.title,
            index_list: team_index_default(),
            proposed_partners: spec_stock(p.team.proposed_partners),
            project_leader: spec_stock(p.team.project_leader),
            industrial_partners: spec_stock(p.team.industrial_partners),
            proponents: spec_stock(p.team.proponents),
            participants: filter_participants(p.team.participants),
            visible: p.team.visible,
        },
        prelim_results: PrelimResultsV {
            title: p.prelim_results.title,
            prelim_results: spec_stock(p.prelim_results.prelim_results),
            visible: p.prelim_results.visible,
        },
        methodology: MethodologyV {
            title: p.methodology.title,
            methodology: spec_stock(p.methodology.methodology),
            visible: p.methodology.visible,
        },
        outcomes: OutcomesV {
            title: p.outcomes.title,
            index_list: outcomes_index_default(),
            results: spec_stock(p.outcomes.results),
            impact: spec_stock(p.outcomes.impact),
            propagation: spec_stock(p.outcomes.propagation),
            visible: p.outcomes.visible,
        },
        literature: LiteratureV {
            title: p.literature.title,
            literature_survey: spec_stock(p.literature.literature_survey),
            references: filter_references(p.literature.references),
            visible: p.literature.visible,
        },
        resources: ResourcesV {
            title: p.resources.title,
            existing: spec_stock(p.resources.existing),
            further: spec_stock(p.resources.further),
            visible: p.resources.visible,
        },
        budget: BudgetV {
            title: p.budget.title,
            index_list: budget_index_default(),
            personnel: spec_stock(p.budget.personnel),
            facilities: spec_stock(p.budget.facilities),
            materials: spec_stock(p.budget.materials),
            workshops: spec_stock(p.budget.workshops),
            overheads: spec_stock(p.budget.overheads),
            misc: spec_stock(p.budget.misc),
            visible: p.budget.visible,
        },
        attachments: AttachmentsV {
            title: p.attachments.title,
            tables: spec_stock(p.attachments.tables),
            figures: spec_stock(p.attachments.figures),
            other: spec_stock(p.attachments.other),
            visible: p.attachments.visible,
        },
    }
}

// ~~~~~~~~~~~~~~~~~~~~~~~~~~~~~~~~~~~~~~~~~~~~~~~~~~~~~~~~~~~~~~~~~~~~~~~~~~
// Folding machinery.
// ~~~~~~~~~~~~~~~~~~~~~~~~~~~~~~~~~~~~~~~~~~~~~~~~~~~~~~~~~~~~~~~~~~~~~~~~~~
/// Folding a concatenation is folding the first part, then the second.
pub proof fn lemma_decode_append(p: ProjectV, a: Seq<ChunkV>, b: Seq<ChunkV>)
    ensures
        spec_decode_chunks(p, a + b) == match spec_decode_chunks(p, a) {
            Some(q) => spec_decode_chunks(q, b),
            None => None,
        },
    decreases a.len(),
{
    if a.len() == 0 {
        assert(a + b =~= b);
    } else {
        assert((a + b).len() > 0);
        assert((a + b)[0] == a[0]);
        assert((a + b).drop_first() =~= a.drop_first() + b);
        match spec_step(p, a[0]) {
            Some(p2) => {
                lemma_decode_append(p2, a.drop_first(), b);
            },
            None => {},
        }
    }
}

/// One step of the fold, made explicit.
pub proof fn lemma_decode_step(p: ProjectV, cs: Seq<ChunkV>, q: ProjectV)
    requires
        cs.len() > 0,
        spec_step(p, cs[0]) == Some(q),
    ensures
        spec_decode_chunks(p, cs) == spec_decode_chunks(q, cs.drop_first()),
{
}

// ~~~~~~~~~~~~~~~~~~~~~~~~~~~~~~~~~~~~~~~~~~~~~~~~~~~~~~~~~~~~~~~~~~~~~~~~~~
// Decoding the chunks of one section.
// ~~~~~~~~~~~~~~~~~~~~~~~~~~~~~~~~~~~~~~~~~~~~~~~~~~~~~~~~~~~~~~~~~~~~~~~~~~
pub open spec fn dec_working_name(s: ProjectV, x: ProjectTitleV) -> ProjectV {
    ProjectV {
        working_name: ProjectTitleV {
            title: x.title,
            options: spec_stock(x.options),
            visible: x.visible,
        },
        ..s
    }
}

pub proof fn lemma_dec_working_name(s: ProjectV, x: ProjectTitleV)
    ensures
        spec_decode_chunks(s, enc_working_name(x)) == Some(dec_working_name(s, x)),
{
    let cs = enc_working_name(x);
    assert(sections_table().len() == 14);
    let s1 = ProjectV {
        working_name: ProjectTitleV {
            title: x.title,
            visible: x.visible,
            ..s.working_name
        },
        ..s
    };
    assert(spec_step(s, cs[0]) == Some(s1));
    lemma_decode_step(s, cs, s1);
    let r1 = cs.drop_first();
    let s2 = ProjectV {
        working_name: ProjectTitleV {
            options: spec_stock(x.options),
            ..s1.working_name
        },
        ..s1
    };
    assert(r1[0] == cs[1]);
    assert(spec_step(s1, r1[0]) == Some(s2));
    lemma_decode_step(s1, r1, s2);
    let r2 = r1.drop_first();
    assert(r2.len() == 0);
    assert(s2 =~~= dec_working_name(s, x));
}

pub open spec fn dec_scope(s: ProjectV, x: ScopeV) -> ProjectV {
    ProjectV {
        scope: ScopeV {
            title: x.title,
            index_list: s.scope.index_list,
            suggested_tasks: spec_stock(x.suggested_tasks),
            objectives: spec_stock(x.objectives),
            activities: spec_stock(x.activities),
            work_plan: spec_stock(x.work_plan),
            tasks: spec_stock(x.tasks),
            visible: x.visible,
        },
        ..s
    }
}

pub proof fn lemma_dec_scope(s: ProjectV, x: ScopeV)
    ensures
        spec_decode_chunks(s, enc_scope(x)) == Some(dec_scope(s, x)),
{
    let cs = enc_scope(x);
    assert(sections_table().len() == 14);
    let s1 = ProjectV {
        scope: ScopeV {
            title: x.title,
            visible: x.visible,
            ..s.scope
        },
        ..s
    };
    assert(spec_step(s, cs[0]) == Some(s1));
    lemma_decode_step(s, cs, s1);
    let r1 = cs.drop_first();
    let s2 = ProjectV {
        scope: ScopeV {
            suggested_tasks: spec_stock(x.suggested_tasks),
            ..s1.scope
        },
        ..s1
    };
    assert(r1[0] == cs[1]);
    assert(spec_step(s1, r1[0]) == Some(s2));
    lemma_decode_step(s1, r1, s2);
    let r2 = r1.drop_first();
    let s3 = ProjectV {
        scope: ScopeV {
            objectives: spec_stock(x.objectives),
            ..s2.scope
        },
        ..s2
    };
    assert(r2[0] == cs[2]);
    assert(spec_step(s2, r2[0]) == Some(s3));
    lemma_decode_step(s2, r2, s3);
    let r3 = r2.drop_first();
    let s4 = ProjectV {
        scope: ScopeV {
            activities: spec_stock(x.activities),
            ..s3.scope
        },
        ..s3
    };
    assert(r3[0] == cs[3]);
    assert(spec_step(s3, r3[0]) == Some(s4));
    lemma_decode_step(s3, r3, s4);
    let r4 = r3.drop_first();
    let s5 = ProjectV {
        scope: ScopeV {
            work_plan: spec_stock(x.work_plan),
            ..s4.scope
        },
        ..s4
    };
    assert(r4[0] == cs[4]);
    assert(spec_step(s4, r4[0]) == Some(s5));
    lemma_decode_step(s4, r4, s5);
    let r5 = r4.drop_first();
    let s6 = ProjectV {
        scope: ScopeV {
            tasks: spec_stock(x.tasks),
            ..s5.scope
        },
        ..s5
    };
    assert(r5[0] == cs[5]);
    assert(spec_step(s5, r5[0]) == Some(s6));
    lemma_decode_step(s5, r5, s6);
    let r6 = r5.drop_first();
    assert(r6.len() == 0);
    assert(s6 =~~= dec_scope(s, x));
}

pub open spec fn dec_timeline(s: ProjectV, x: TimelineV) -> ProjectV {
    ProjectV {
        timeline: TimelineV {
            title: x.title,
            index_list: s.timeline.index_list,
            project_start: x.project_start,
            duration_years: x.duration_years,
            milestones: spec_stock(x.milestones),
            visible: x.visible,
        },
        ..s
    }
}

pub proof fn lemma_dec_timeline(s: ProjectV, x: TimelineV)
    ensures
        spec_decode_chunks(s, enc_timeline(x)) == Some(dec_timeline(s, x)),
{
    let cs = enc_timeline(x);
    assert(sections_table().len() == 14);
    let s1 = ProjectV {
        timeline: TimelineV {
            title: x.title,
            visible: x.visible,
            ..s.timeline
        },
        ..s
    };
    assert(spec_step(s, cs[0]) == Some(s1));
    lemma_decode_step(s, cs, s1);
    let r1 = cs.drop_first();
    let s2 = ProjectV {
        timeline: TimelineV {
            project_start: x.project_start,
            ..s1.timeline
        },
        ..s1
    };
    assert(r1[0] == cs[1]);
    assert(spec_step(s1, r1[0]) == Some(s2));
    lemma_decode_step(s1, r1, s2);
    let r2 = r1.drop_first();
    let s3 = ProjectV {
        timeline: TimelineV {
            duration_years: x.duration_years,
            ..s2.timeline
        },
        ..s2
    };
    assert(r2[0] == cs[2]);
    assert(spec_step(s2, r2[0]) == Some(s3));
    lemma_decode_step(s2, r2, s3);
    let r3 = r2.drop_first();
    let s4 = ProjectV {
        timeline: TimelineV {
            milestones: spec_stock(x.milestones),
            ..s3.timeline
        },
        ..s3
    };
    assert(r3[0] == cs[3]);
    assert(spec_step(s3, r3[0]) == Some(s4));
    lemma_decode_step(s3, r3, s4);
    let r4 = r3.drop_first();
    assert(r4.len() == 0);
    assert(s4 =~~= dec_timeline(s, x));
}

pub open spec fn dec_scripting(s: ProjectV, x: ScriptingV) -> ProjectV {
    ProjectV {
        scripting: ScriptingV {
            title: x.title,
            answer: x.answer,
            scripting: spec_stock(x.scripting),
            visible: x.visible,
        },
        ..s
    }
}

pub proof fn lemma_dec_scripting(s: ProjectV, x: ScriptingV)
    ensures
        spec_decode_chunks(s, enc_scripting(x)) == Some(dec_scripting(s, x)),
{
    let cs = enc_scripting(x);
    assert(sections_table().len() == 14);
    let s1 = ProjectV {
        scripting: ScriptingV {
            title: x.title,
            visible: x.visible,
            ..s.scripting
        },
        ..s
    };
    assert(spec_step(s, cs[0]) == Some(s1));
    lemma_decode_step(s, cs, s1);
    let r1 = cs.drop_first();
    let s2 = ProjectV {
        scripting: ScriptingV {
            answer: x.answer,
            ..s1.scripting
        },
        ..s1
    };
    assert(r1[0] == cs[1]);
    assert(spec_step(s1, r1[0]) == Some(s2));
    lemma_decode_step(s1, r1, s2);
    let r2 = r1.drop_first();
    let s3 = ProjectV {
        scripting: ScriptingV {
            scripting: spec_stock(x.scripting),
            ..s2.scripting
        },
        ..s2
    };
    assert(r2[0] == cs[2]);
    assert(spec_step(s2, r2[0]) == Some(s3));
    lemma_decode_step(s2, r2, s3);
    let r3 = r2.drop_first();
    assert(r3.len() == 0);
    assert(s3 =~~= dec_scripting(s, x));
}

pub open spec fn dec_prelim_results(s: ProjectV, x: PrelimResultsV) -> ProjectV {
    ProjectV {
        prelim_results: PrelimResultsV {
            title: x.title,
            prelim_results: spec_stock(x.prelim_results),
            visible: x.visible,
        },
        ..s
    }
}

pub proof fn lemma_dec_prelim_results(s: ProjectV, x: PrelimResultsV)
    ensures
        spec_decode_chunks(s, enc_prelim_results(x)) == Some(dec_prelim_results(s, x)),
{
    let cs = enc_prelim_results(x);
    assert(sections_table().len() == 14);
    let s1 = ProjectV {
        prelim_results: PrelimResultsV {
            title: x.title,
            visible: x.visible,
            ..s.prelim_results
        },
        ..s
    };
    assert(spec_step(s, cs[0]) == Some(s1));
    lemma_decode_step(s, cs, s1);
    let r1 = cs.drop_first();
    let s2 = ProjectV {
        prelim_results: PrelimResultsV {
            prelim_results: spec_stock(x.prelim_results),
            ..s1.prelim_results
        },
        ..s1
    };
    assert(r1[0] == cs[1]);
    assert(spec_step(s1, r1[0]) == Some(s2));
    lemma_decode_step(s1, r1, s2);
    let r2 = r1.drop_first();
    assert(r2.len() == 0);
    assert(s2 =~~= dec_prelim_results(s, x));
}

pub open spec fn dec_methodology(s: ProjectV, x: MethodologyV) -> ProjectV {
    ProjectV {
        methodology: MethodologyV {
            title: x.title,
            methodology: spec_stock(x.methodology),
            visible: x.visible,
        },
        ..s
    }
}

pub proof fn lemma_dec_methodology(s: ProjectV, x: MethodologyV)
    ensures
        spec_decode_chunks(s, enc_methodology(x)) == Some(dec_methodology(s, x)),
{
    let cs = enc_methodology(x);
    assert(sections_table().len() == 14);
    let s1 = ProjectV {
        methodology: MethodologyV {
            title: x.title,
            visible: x.visible,
            ..s.methodology
        },
        ..s
    };
    assert(spec_step(s, cs[0]) == Some(s1));
    lemma_decode_step(s, cs, s1);
    let r1 = cs.drop_first();
    let s2 = ProjectV {
        methodology: MethodologyV {
            methodology: spec_stock(x.methodology),
            ..s1.methodology
        },
        ..s1
    };
    assert(r1[0] == cs[1]);
    assert(spec_step(s1, r1[0]) == Some(s2));
    lemma_decode_step(s1, r1, s2);
    let r2 = r1.drop_first();
    assert(r2.len() == 0);
    assert(s2 =~~= dec_methodology(s, x));
}

pub open spec fn dec_outcomes(s: ProjectV, x: OutcomesV) -> ProjectV {
    ProjectV {
        outcomes: OutcomesV {
            title: x.title,
            index_list: s.outcomes.index_list,
            results: spec_stock(x.results),
            impact: spec_stock(x.impact),
            propagation: spec_stock(x.propagation),
            visible: x.visible,
        },
        ..s
    }
}

pub proof fn lemma_dec_outcomes(s: ProjectV, x: OutcomesV)
    ensures
        spec_decode_chunks(s, enc_outcomes(x)) == Some(dec_outcomes(s, x)),
{
    let cs = enc_outcomes(x);
    assert(sections_table().len() == 14);
    let s1 = ProjectV {
        outcomes: OutcomesV {
            title: x.title,
            visible: x.visible,
            ..s.outcomes
        },
        ..s
    };
    assert(spec_step(s, cs[0]) == Some(s1));
    lemma_decode_step(s, cs, s1);
    let r1 = cs.drop_first();
    let s2 = ProjectV {
        outcomes: OutcomesV {
            results: spec_stock(x.results),
            ..s1.outcomes
        },
        ..s1
    };
    assert(r1[0] == cs[1]);
    assert(spec_step(s1, r1[0]) == Some(s2));
    lemma_decode_step(s1, r1, s2);
    let r2 = r1.drop_first();
    let s3 = ProjectV {
        outcomes: OutcomesV {
            impact: spec_stock(x.impact),
            ..s2.outcomes
        },
        ..s2
    };
    assert(r2[0] == cs[2]);
    assert(spec_step(s2, r2[0]) == Some(s3));
    lemma_decode_step(s2, r2, s3);
    let r3 = r2.drop_first();
    let s4 = ProjectV {
        outcomes: OutcomesV {
            propagation: spec_stock(x.propagation),
            ..s3.outcomes
        },
        ..s3
    };
    assert(r3[0] == cs[3]);
    assert(spec_step(s3, r3[0]) == Some(s4));
    lemma_decode_step(s3, r3, s4);
    let r4 = r3.drop_first();
    assert(r4.len() == 0);
    assert(s4 =~~= dec_outcomes(s, x));
}

pub open spec fn dec_resources(s: ProjectV, x: ResourcesV) -> ProjectV {
    ProjectV {
        resources: ResourcesV {
            title: x.title,
            existing: spec_stock(x.existing),
            further: spec_stock(x.further),
            visible: x.visible,
        },
        ..s
    }
}

pub proof fn lemma_dec_resources(s: ProjectV, x: ResourcesV)
    ensures
        spec_decode_chunks(s, enc_resources(x)) == Some(dec_resources(s, x)),
{
    let cs = enc_resources(x);
    assert(sections_table().len() == 14);
    let s1 = ProjectV {
        resources: ResourcesV {
            title: x.title,
            visible: x.visible,
            ..s.resources
        },
        ..s
    };
    assert(spec_step(s, cs[0]) == Some(s1));
    lemma_decode_step(s, cs, s1);
    let r1 = cs.drop_first();
    let s2 = ProjectV {
        resources: ResourcesV {
            existing: spec_stock(x.existing),
            ..s1.resources
        },
        ..s1
    };
    assert(r1[0] == cs[1]);
    assert(spec_step(s1, r1[0]) == Some(s2));
    lemma_decode_step(s1, r1, s2);
    let r2 = r1.drop_first();
    let s3 = ProjectV {
        resources: ResourcesV {
            further: spec_stock(x.further),
            ..s2.resources
        },
        ..s2
    };
    assert(r2[0] == cs[2]);
    assert(spec_step(s2, r2[0]) == Some(s3));
    lemma_decode_step(s2, r2, s3);
    let r3 = r2.drop_first();
    assert(r3.len() == 0);
    assert(s3 =~~= dec_resources(s, x));
}

pub open spec fn dec_budget(s: ProjectV, x: BudgetV) -> ProjectV {
    ProjectV {
        budget: BudgetV {
            title: x.title,
            index_list: s.budget.index_list,
            personnel: spec_stock(x.personnel),
            facilities: spec_stock(x.facilities),
            materials: spec_stock(x.materials),
            workshops: spec_stock(x.workshops),
            overheads: spec_stock(x.overheads),
            misc: spec_stock(x.misc),
            visible: x.visible,
        },
        ..s
    }
}

pub proof fn lemma_dec_budget(s: ProjectV, x: BudgetV)
    ensures
        spec_decode_chunks(s, enc_budget(x)) == Some(dec_budget(s, x)),
{
    let cs = enc_budget(x);
    assert(sections_table().len() == 14);
    let s1 = ProjectV {
        budget: BudgetV {
            title: x.title,
            visible: x.visible,
            ..s.budget
        },
        ..s
    };
    assert(spec_step(s, cs[0]) == Some(s1));
    lemma_decode_step(s, cs, s1);
    let r1 = cs.drop_first();
    let s2 = ProjectV {
        budget: BudgetV {
            personnel: spec_stock(x.personnel),
            ..s1.budget
        },
        ..s1
    };
    assert(r1[0] == cs[1]);
    assert(spec_step(s1, r1[0]) == Some(s2));
    lemma_decode_step(s1, r1, s2);
    let r2 = r1.drop_first();
    let s3 = ProjectV {
        budget: BudgetV {
            facilities: spec_stock(x.facilities),
            ..s2.budget
        },
        ..s2
    };
    assert(r2[0] == cs[2]);
    assert(spec_step(s2, r2[0]) == Some(s3));
    lemma_decode_step(s2, r2, s3);
    let r3 = r2.drop_first();
    let s4 = ProjectV {
        budget: BudgetV {
            materials: spec_stock(x.materials),
            ..s3.budget
        },
        ..s3
    };
    assert(r3[0] == cs[3]);
    assert(spec_step(s3, r3[0]) == Some(s4));
    lemma_decode_step(s3, r3, s4);
    let r4 = r3.drop_first();
    let s5 = ProjectV {
        budget: BudgetV {
            workshops: spec_stock(x.workshops),
            ..s4.budget
        },
        ..s4
    };
    assert(r4[0] == cs[4]);
    assert(spec_step(s4, r4[0]) == Some(s5));
    lemma_decode_step(s4, r4, s5);
    let r5 = r4.drop_first();
    let s6 = ProjectV {
        budget: BudgetV {
            overheads: spec_stock(x.overheads),
            ..s5.budget
        },
        ..s5
    };
    assert(r5[0] == cs[5]);
    assert(spec_step(s5, r5[0]) == Some(s6));
    lemma_decode_step(s5, r5, s6);
    let r6 = r5.drop_first();
    let s7 = ProjectV {
        budget: BudgetV {
            misc: spec_stock(x.misc),
            ..s6.budget
        },
        ..s6
    };
    assert(r6[0] == cs[6]);
    assert(spec_step(s6, r6[0]) == Some(s7));
    lemma_decode_step(s6, r6, s7);
    let r7 = r6.drop_first();
    assert(r7.len() == 0);
    assert(s7 =~~= dec_budget(s, x));
}

pub open spec fn dec_attachments(s: ProjectV, x: AttachmentsV) -> ProjectV {
    ProjectV {
        attachments: AttachmentsV {
            title: x.title,
            tables: spec_stock(x.tables),
            figures: spec_stock(x.figures),
            other: spec_stock(x.other),
            visible: x.visible,
        },
        ..s
    }
}

pub proof fn lemma_dec_attachments(s: ProjectV, x: AttachmentsV)
    ensures
        spec_decode_chunks(s, enc_attachments(x)) == Some(dec_attachments(s, x)),
{
    let cs = enc_attachments(x);
    assert(sections_table().len() == 14);
    let s1 = ProjectV {
        attachments: AttachmentsV {
            title: x.title,
            visible: x.visible,
            ..s.attachments
        },
        ..s
    };
    assert(spec_step(s, cs[0]) == Some(s1));
    lemma_decode_step(s, cs, s1);
    let r1 = cs.drop_first();
    let s2 = ProjectV {
        attachments: AttachmentsV {
            tables: spec_stock(x.tables),
            ..s1.attachments
        },
        ..s1
    };
    assert(r1[0] == cs[1]);
    assert(spec_step(s1, r1[0]) == Some(s2));
    lemma_decode_step(s1, r1, s2);
    let r2 = r1.drop_first();
    let s3 = ProjectV {
        attachments: AttachmentsV {
            figures: spec_stock(x.figures),
            ..s2.attachments
        },
        ..s2
    };
    assert(r2[0] == cs[2]);
    assert(spec_step(s2, r2[0]) == Some(s3));
    lemma_decode_step(s2, r2, s3);
    let r3 = r2.drop_first();
    let s4 = ProjectV {
        attachments: AttachmentsV {
            other: spec_stock(x.other),
            ..s3.attachments
        },
        ..s3
    };
    assert(r3[0] == cs[3]);
    assert(spec_step(s3, r3[0]) == Some(s4));
    lemma_decode_step(s3, r3, s4);
    let r4 = r3.drop_first();
    assert(r4.len() == 0);
    assert(s4 =~~= dec_attachments(s, x));
}


// ~~~~~~~~~~~~~~~~~~~~~~~~~~~~~~~~~~~~~~~~~~~~~~~~~~~~~~~~~~~~~~~~~~~~~~~~~~
// Decoding the chunks of one repeatable-entity list.
// ~~~~~~~~~~~~~~~~~~~~~~~~~~~~~~~~~~~~~~~~~~~~~~~~~~~~~~~~~~~~~~~~~~~~~~~~~~
/// Decoding the chunks of the key-reference list appends the filtered
/// references, in order, to whatever the list already holds.
pub proof fn lemma_dec_idea_citations(s: ProjectV, rs: Seq<ReferenceV>)
    ensures
        spec_decode_chunks(
            s,
            enc_citations(
                Rank::IdeaReferences,
                Rank::IdeaReferencesCitation,
                4,
                rs,
                s.idea.references.references.len() as int,
            ),
        ) == Some(
            ProjectV {
                idea: IdeaV {
                    references: ReferencesV {
                        references: s.idea.references.references + filter_references(rs),
                        ..s.idea.references
                    },
                    ..s.idea
                },
                ..s
            },
        ),
    decreases rs.len(),
{
    let k = s.idea.references.references.len() as int;
    let target = ProjectV {
        idea: IdeaV {
            references: ReferencesV {
                references: s.idea.references.references + filter_references(rs),
                ..s.idea.references
            },
            ..s.idea
        },
        ..s
    };
    if rs.len() == 0 {
        assert(filter_references(rs) =~= Seq::<ReferenceV>::empty());
        assert(s.idea.references.references + filter_references(rs) =~= s.idea.references
            .references);
        assert(target =~~= s);
    } else {
        let r0 = rs[0];
        let cit = enc_citation(Rank::IdeaReferences, Rank::IdeaReferencesCitation, 4, k, r0);
        let rest = enc_citations(
            Rank::IdeaReferences,
            Rank::IdeaReferencesCitation,
            4,
            rs.drop_first(),
            k + 1,
        );
        let s1 = ProjectV {
            idea: IdeaV {
                references: ReferencesV {
                    references: s.idea.references.references.push(pushed_reference(cit[0])),
                    ..s.idea.references
                },
                ..s.idea
            },
            ..s
        };
        assert(spec_step(s, cit[0]) == Some(s1));
        lemma_decode_step(s, cit, s1);
        let c1s = cit.drop_first();
        assert(c1s[0] == cit[1]);
        let s2 = ProjectV {
            idea: IdeaV {
                references: ReferencesV {
                    references: s1.idea.references.references.update(
                        k,
                        ReferenceV { hyperlink: r0.hyperlink, ..s1.idea.references.references[k] },
                    ),
                    ..s1.idea.references
                },
                ..s1.idea
            },
            ..s1
        };
        assert(spec_step(s1, c1s[0]) == Some(s2));
        lemma_decode_step(s1, c1s, s2);
        let c2s = c1s.drop_first();
        assert(c2s[0] == cit[2]);
        let s3 = ProjectV {
            idea: IdeaV {
                references: ReferencesV {
                    references: s2.idea.references.references.update(
                        k,
                        ReferenceV {
                            source_details: spec_stock(r0.source_details),
                            ..s2.idea.references.references[k]
                        },
                    ),
                    ..s2.idea.references
                },
                ..s2.idea
            },
            ..s2
        };
        assert(spec_step(s2, c2s[0]) == Some(s3));
        lemma_decode_step(s2, c2s, s3);
        assert(c2s.drop_first().len() == 0);
        assert(spec_decode_chunks(s, cit) == Some(s3));
        assert(s3.idea.references.references =~= s.idea.references.references.push(
            filter_reference(r0),
        ));
        assert(s3.idea.references.references.len() as int == k + 1);
        lemma_dec_idea_citations(s3, rs.drop_first());
        lemma_decode_append(s, cit, rest);
        assert(s3.idea.references.references + filter_references(rs.drop_first()) =~= s.idea
            .references.references + filter_references(rs));
        assert(spec_decode_chunks(s, cit + rest) == Some(target));
    }
}

/// Decoding the chunks of the cited-source list of the literature section
/// appends the filtered sources, in order.
pub proof fn lemma_dec_literature_citations(s: ProjectV, rs: Seq<ReferenceV>)
    ensures
        spec_decode_chunks(
            s,
            enc_citations(
                Rank::LiteratureSources,
                Rank::LiteratureSourcesCitation,
                1,
                rs,
                s.literature.references.len() as int,
            ),
        ) == Some(
            ProjectV {
                literature: LiteratureV {
                    references: s.literature.references + filter_references(rs),
                    ..s.literature
                },
                ..s
            },
        ),
    decreases rs.len(),
{
    let k = s.literature.references.len() as int;
    let target = ProjectV {
        literature: LiteratureV {
            references: s.literature.references + filter_references(rs),
            ..s.literature
        },
        ..s
    };
    if rs.len() == 0 {
        assert(filter_references(rs) =~= Seq::<ReferenceV>::empty());
        assert(s.literature.references + filter_references(rs) =~= s.literature.references);
        assert(target =~~= s);
    } else {
        let r0 = rs[0];
        let cit = enc_citation(Rank::LiteratureSources, Rank::LiteratureSourcesCitation, 1, k, r0);
        let rest = enc_citations(
            Rank::LiteratureSources,
            Rank::LiteratureSourcesCitation,
            1,
            rs.drop_first(),
            k + 1,
        );
        let s1 = ProjectV {
            literature: LiteratureV {
                references: s.literature.references.push(pushed_reference(cit[0])),
                ..s.literature
            },
            ..s
        };
        assert(spec_step(s, cit[0]) == Some(s1));
        lemma_decode_step(s, cit, s1);
        let c1s = cit.drop_first();
        assert(c1s[0] == cit[1]);
        let s2 = ProjectV {
            literature: LiteratureV {
                references: s1.literature.references.update(
                    k,
                    ReferenceV { hyperlink: r0.hyperlink, ..s1.literature.references[k] },
                ),
                ..s1.literature
            },
            ..s1
        };
        assert(spec_step(s1, c1s[0]) == Some(s2));
        lemma_decode_step(s1, c1s, s2);
        let c2s = c1s.drop_first();
        assert(c2s[0] == cit[2]);
        let s3 = ProjectV {
            literature: LiteratureV {
                references: s2.literature.references.update(
                    k,
                    ReferenceV {
                        source_details: spec_stock(r0.source_details),
                        ..s2.literature.references[k]
                    },
                ),
                ..s2.literature
            },
            ..s2
        };
        assert(spec_step(s2, c2s[0]) == Some(s3));
        lemma_decode_step(s2, c2s, s3);
        assert(c2s.drop_first().len() == 0);
        assert(spec_decode_chunks(s, cit) == Some(s3));
        assert(s3.literature.references =~= s.literature.references.push(filter_reference(r0)));
        assert(s3.literature.references.len() as int == k + 1);
        lemma_dec_literature_citations(s3, rs.drop_first());
        lemma_decode_append(s, cit, rest);
        assert(s3.literature.references + filter_references(rs.drop_first()) =~= s.literature
            .references + filter_references(rs));
        assert(spec_decode_chunks(s, cit + rest) == Some(target));
    }
}

/// Decoding the chunks of the funding-programme list appends the filtered
/// programmes, in order.
pub proof fn lemma_dec_programmes(s: ProjectV, ps: Seq<ProgrammeV>)
    ensures
        spec_decode_chunks(
            s,
            enc_programmes(ps, s.funding.funding_options.len() as int),
        ) == Some(
            ProjectV {
                funding: FundingOptionsV {
                    funding_options: s.funding.funding_options + filter_programmes(ps),
                    ..s.funding
                },
                ..s
            },
        ),
    decreases ps.len(),
{
    let k = s.funding.funding_options.len() as int;
    let target = ProjectV {
        funding: FundingOptionsV {
            funding_options: s.funding.funding_options + filter_programmes(ps),
            ..s.funding
        },
        ..s
    };
    if ps.len() == 0 {
        assert(filter_programmes(ps) =~= Seq::<ProgrammeV>::empty());
        assert(s.funding.funding_options + filter_programmes(ps) =~= s.funding.funding_options);
        assert(target =~~= s);
    } else {
        let p0 = ps[0];
        let ent = enc_programme(k, p0);
        let rest = enc_programmes(ps.drop_first(), k + 1);
        let s1 = ProjectV {
            funding: FundingOptionsV {
                funding_options: s.funding.funding_options.push(pushed_programme(ent[0])),
                ..s.funding
            },
            ..s
        };
        assert(spec_step(s, ent[0]) == Some(s1));
        lemma_decode_step(s, ent, s1);
        let c1s = ent.drop_first();
        assert(c1s[0] == ent[1]);
        let s2 = ProjectV {
            funding: FundingOptionsV {
                funding_options: s1.funding.funding_options.update(
                    k,
                    ProgrammeV {
                        annotation: spec_stock(p0.annotation),
                        ..s1.funding.funding_options[k]
                    },
                ),
                ..s1.funding
            },
            ..s1
        };
        assert(spec_step(s1, c1s[0]) == Some(s2));
        lemma_decode_step(s1, c1s, s2);
        let c2s = c1s.drop_first();
        assert(c2s[0] == ent[2]);
        let s3 = ProjectV {
            funding: FundingOptionsV {
                funding_options: s2.funding.funding_options.update(
                    k,
                    ProgrammeV { hyperlink: p0.hyperlink, ..s2.funding.funding_options[k] },
                ),
                ..s2.funding
            },
            ..s2
        };
        assert(spec_step(s2, c2s[0]) == Some(s3));
        lemma_decode_step(s2, c2s, s3);
        let c3s = c2s.drop_first();
        assert(c3s[0] == ent[3]);
        let s4 = ProjectV {
            funding: FundingOptionsV {
                funding_options: s3.funding.funding_options.update(
                    k,
                    ProgrammeV {
                        deadline: spec_date_of(spec_ymd_of(p0.deadline)),
                        ..s3.funding.funding_options[k]
                    },
                ),
                ..s3.funding
            },
            ..s3
        };
        assert(spec_step(s3, c3s[0]) == Some(s4));
        lemma_decode_step(s3, c3s, s4);
        assert(c3s.drop_first().len() == 0);
        assert(spec_decode_chunks(s, ent) == Some(s4));
        assert(spec_date_of(spec_ymd_of(p0.deadline)) == p0.deadline);
        assert(s4.funding.funding_options =~= s.funding.funding_options.push(filter_programme(p0)));
        assert(s4.funding.funding_options.len() as int == k + 1);
        lemma_dec_programmes(s4, ps.drop_first());
        lemma_decode_append(s, ent, rest);
        assert(s4.funding.funding_options + filter_programmes(ps.drop_first()) =~= s.funding
            .funding_options + filter_programmes(ps));
        assert(spec_decode_chunks(s, ent + rest) == Some(target));
    }
}


/// Decoding the chunks of the participant list appends the filtered
/// participants, in order.
#[verifier::rlimit(100)]
pub proof fn lemma_dec_participants(s: ProjectV, ps: Seq<ParticipantV>)
    ensures
        spec_decode_chunks(
            s,
            enc_participants(ps, s.team.participants.len() as int),
        ) == Some(
            ProjectV {
                team: TeamV {
                    participants: s.team.participants + filter_participants(ps),
                    ..s.team
                },
                ..s
            },
        ),
    decreases ps.len(),
{
    let k = s.team.participants.len() as int;
    let target = ProjectV {
        team: TeamV { participants: s.team.participants + filter_participants(ps), ..s.team },
        ..s
    };
    if ps.len() == 0 {
        assert(filter_participants(ps) =~= Seq::<ParticipantV>::empty());
        assert(s.team.participants + filter_participants(ps) =~= s.team.participants);
        assert(target =~~= s);
    } else {
        let p0 = ps[0];
        let ent = enc_participant(k, p0);
        let rest = enc_participants(ps.drop_first(), k + 1);
        let s1 = ProjectV {
            team: TeamV {
                participants: s.team.participants.push(pushed_participant(ent[0])),
                ..s.team
            },
            ..s
        };
        assert(spec_step(s, ent[0]) == Some(s1));
        lemma_decode_step(s, ent, s1);
        let c1s = ent.drop_first();
        assert(c1s[0] == ent[1]);
        let s2 = ProjectV {
            team: TeamV {
                participants: s1.team.participants.update(
                    k,
                    ParticipantV { role: p0.role, ..s1.team.participants[k] },
                ),
                ..s1.team
            },
            ..s1
        };
        assert(spec_step(s1, c1s[0]) == Some(s2));
        lemma_decode_step(s1, c1s, s2);
        let c2s = c1s.drop_first();
        assert(c2s[0] == ent[2]);
        let s3 = ProjectV {
            team: TeamV {
                participants: s2.team.participants.update(
                    k,
                    ParticipantV { affiliation: p0.affiliation, ..s2.team.participants[k] },
                ),
                ..s2.team
            },
            ..s2
        };
        assert(spec_step(s2, c2s[0]) == Some(s3));
        lemma_decode_step(s2, c2s, s3);
        let c3s = c2s.drop_first();
        assert(c3s[0] == ent[3]);
        let s4 = ProjectV {
            team: TeamV {
                participants: s3.team.participants.update(
                    k,
                    ParticipantV { hyperlink: p0.hyperlink, ..s3.team.participants[k] },
                ),
                ..s3.team
            },
            ..s3
        };
        assert(spec_step(s3, c3s[0]) == Some(s4));
        lemma_decode_step(s3, c3s, s4);
        let c4s = c3s.drop_first();
        assert(c4s[0] == ent[4]);
        let s5 = ProjectV {
            team: TeamV {
                participants: s4.team.participants.update(
                    k,
                    ParticipantV { country: p0.country, ..s4.team.participants[k] },
                ),
                ..s4.team
            },
            ..s4
        };
        assert(spec_step(s4, c4s[0]) == Some(s5));
        lemma_decode_step(s4, c4s, s5);
        let c5s = c4s.drop_first();
        assert(c5s[0] == ent[5]);
        let s6 = ProjectV {
            team: TeamV {
                participants: s5.team.participants.update(
                    k,
                    ParticipantV { expertise: p0.expertise, ..s5.team.participants[k] },
                ),
                ..s5.team
            },
            ..s5
        };
        assert(spec_step(s5, c5s[0]) == Some(s6));
        lemma_decode_step(s5, c5s, s6);
        let c6s = c5s.drop_first();
        assert(c6s[0] == ent[6]);
        let s7 = ProjectV {
            team: TeamV {
                participants: s6.team.participants.update(
                    k,
                    ParticipantV { contribution: spec_stock(p0.contribution), ..s6.team.participants[k] },
                ),
                ..s6.team
            },
            ..s6
        };
        assert(spec_step(s6, c6s[0]) == Some(s7));
        lemma_decode_step(s6, c6s, s7);
        let c7s = c6s.drop_first();
        assert(c7s[0] == ent[7]);
        let s8 = ProjectV {
            team: TeamV {
                participants: s7.team.participants.update(
                    k,
                    ParticipantV { team: spec_stock(p0.team), ..s7.team.participants[k] },
                ),
                ..s7.team
            },
            ..s7
        };
        assert(spec_step(s7, c7s[0]) == Some(s8));
        lemma_decode_step(s7, c7s, s8);
        let c8s = c7s.drop_first();
        assert(c8s[0] == ent[8]);
        let s9 = ProjectV {
            team: TeamV {
                participants: s8.team.participants.update(
                    k,
                    ParticipantV { cv: spec_stock(p0.cv), ..s8.team.participants[k] },
                ),
                ..s8.team
            },
            ..s8
        };
        assert(spec_step(s8, c8s[0]) == Some(s9));
        lemma_decode_step(s8, c8s, s9);
        let c9s = c8s.drop_first();
        assert(c9s[0] == ent[9]);
        let s10 = ProjectV {
            team: TeamV {
                participants: s9.team.participants.update(
                    k,
                    ParticipantV { resources: spec_stock(p0.resources), ..s9.team.participants[k] },
                ),
                ..s9.team
            },
            ..s9
        };
        assert(spec_step(s9, c9s[0]) == Some(s10));
        lemma_decode_step(s9, c9s, s10);
        let c10s = c9s.drop_first();
        assert(c10s[0] == ent[10]);
        let s11 = ProjectV {
            team: TeamV {
                participants: s10.team.participants.update(
                    k,
                    ParticipantV { budget: spec_stock(p0.budget), ..s10.team.participants[k] },
                ),
                ..s10.team
            },
            ..s10
        };
        assert(spec_step(s10, c10s[0]) == Some(s11));
        lemma_decode_step(s10, c10s, s11);
        let c11s = c10s.drop_first();
        assert(c11s.len() == 0);
        assert(spec_decode_chunks(s, ent) == Some(s11));
        assert(s11.team.participants =~= s.team.participants.push(filter_participant(p0)));
        assert(s11.team.participants.len() as int == k + 1);
        lemma_dec_participants(s11, ps.drop_first());
        lemma_decode_append(s, ent, rest);
        assert(s11.team.participants + filter_participants(ps.drop_first()) =~= s.team
            .participants + filter_participants(ps));
        assert(spec_decode_chunks(s, ent + rest) == Some(target));
    }
}


// ~~~~~~~~~~~~~~~~~~~~~~~~~~~~~~~~~~~~~~~~~~~~~~~~~~~~~~~~~~~~~~~~~~~~~~~~~~
// Decoding the sections that carry repeatable-entity lists.
// ~~~~~~~~~~~~~~~~~~~~~~~~~~~~~~~~~~~~~~~~~~~~~~~~~~~~~~~~~~~~~~~~~~~~~~~~~~
pub open spec fn dec_idea(s: ProjectV, x: IdeaV) -> ProjectV {
    ProjectV {
        idea: IdeaV {
            title: x.title,
            index_list: s.idea.index_list,
            problem: spec_stock(x.problem),
            hypothesis: spec_stock(x.hypothesis),
            summary: spec_stock(x.summary),
            description: spec_stock(x.description),
            references: ReferencesV {
                title: x.references.title,
                references: filter_references(x.references.references),
                visible: x.references.visible,
            },
            visible: x.visible,
        },
        ..s
    }
}

pub proof fn lemma_dec_idea(s: ProjectV, x: IdeaV)
    requires
        s.idea.references.references.len() == 0,
    ensures
        spec_decode_chunks(s, enc_idea(x)) == Some(dec_idea(s, x)),
{
    let head = seq![
        title_chunk_v(1, x.title, x.visible),
        sub_chunk_v(1, Rank::Top, 0, empty_title(), note_body_v(spec_stock(x.problem)), true),
        sub_chunk_v(1, Rank::Top, 1, empty_title(), note_body_v(spec_stock(x.hypothesis)), true),
        sub_chunk_v(1, Rank::Top, 2, empty_title(), note_body_v(spec_stock(x.summary)), true),
        sub_chunk_v(1, Rank::Top, 3, empty_title(), note_body_v(spec_stock(x.description)), true),
        sub_chunk_v(1, Rank::Top, 4, x.references.title, body_default_v(), x.references.visible),
    ];
    let tail = enc_citations(
        Rank::IdeaReferences,
        Rank::IdeaReferencesCitation,
        4,
        x.references.references,
        0,
    );
    assert(enc_idea(x) == head + tail);
    assert(sections_table().len() == 14);
    let s1 = ProjectV {
        idea: IdeaV {
            title: x.title,
            visible: x.visible,
            ..s.idea
        },
        ..s
    };
    assert(head[0] == title_chunk_v(1, x.title, x.visible));
    assert(spec_step(s, head[0]) == Some(s1));
    lemma_decode_step(s, head, s1);
    let r1 = head.drop_first();
    assert(r1[0] == head[1]);
    let s2 = ProjectV {
        idea: IdeaV {
            problem: spec_stock(x.problem),
            ..s1.idea
        },
        ..s1
    };
    assert(spec_step(s1, r1[0]) == Some(s2));
    lemma_decode_step(s1, r1, s2);
    let r2 = r1.drop_first();
    assert(r2[0] == head[2]);
    let s3 = ProjectV {
        idea: IdeaV {
            hypothesis: spec_stock(x.hypothesis),
            ..s2.idea
        },
        ..s2
    };
    assert(spec_step(s2, r2[0]) == Some(s3));
    lemma_decode_step(s2, r2, s3);
    let r3 = r2.drop_first();
    assert(r3[0] == head[3]);
    let s4 = ProjectV {
        idea: IdeaV {
            summary: spec_stock(x.summary),
            ..s3.idea
        },
        ..s3
    };
    assert(spec_step(s3, r3[0]) == Some(s4));
    lemma_decode_step(s3, r3, s4);
    let r4 = r3.drop_first();
    assert(r4[0] == head[4]);
    let s5 = ProjectV {
        idea: IdeaV {
            description: spec_stock(x.description),
            ..s4.idea
        },
        ..s4
    };
    assert(spec_step(s4, r4[0]) == Some(s5));
    lemma_decode_step(s4, r4, s5);
    let r5 = r4.drop_first();
    assert(r5[0] == head[5]);
    let s6 = ProjectV {
        idea: IdeaV {
            references: ReferencesV {
                title: x.references.title,
                visible: x.references.visible,
                ..s5.idea.references
            },
            ..s5.idea
        },
        ..s5
    };
    assert(spec_step(s5, r5[0]) == Some(s6));
    lemma_decode_step(s5, r5, s6);
    assert(r5.drop_first().len() == 0);
    assert(spec_decode_chunks(s, head) == Some(s6));
    assert(s6.idea.references.references.len() as int == 0);
    lemma_dec_idea_citations(s6, x.references.references);
    lemma_decode_append(s, head, tail);
    assert(s6.idea.references.references + filter_references(x.references.references)
        =~= filter_references(x.references.references));
    assert(spec_decode_chunks(s, head + tail) == Some(dec_idea(s, x)));
}

pub open spec fn dec_funding(s: ProjectV, f: FundingOptionsV) -> ProjectV {
    ProjectV {
        funding: FundingOptionsV {
            title: f.title,
            funding_options: filter_programmes(f.funding_options),
            visible: f.visible,
        },
        ..s
    }
}

pub proof fn lemma_dec_funding(s: ProjectV, f: FundingOptionsV)
    requires
        s.funding.funding_options.len() == 0,
    ensures
        spec_decode_chunks(s, enc_funding(f)) == Some(dec_funding(s, f)),
{
    let head = seq![title_chunk_v(2, f.title, f.visible)];
    let tail = enc_programmes(f.funding_options, 0);
    assert(enc_funding(f) == head + tail);
    assert(sections_table().len() == 14);
    let s1 = ProjectV {
        funding: FundingOptionsV {
            title: f.title,
            visible: f.visible,
            ..s.funding
        },
        ..s
    };
    assert(head[0] == title_chunk_v(2, f.title, f.visible));
    assert(spec_step(s, head[0]) == Some(s1));
    lemma_decode_step(s, head, s1);
    assert(head.drop_first().len() == 0);
    assert(spec_decode_chunks(s, head) == Some(s1));
    assert(s1.funding.funding_options.len() as int == 0);
    lemma_dec_programmes(s1, f.funding_options);
    lemma_decode_append(s, head, tail);
    assert(s1.funding.funding_options + filter_programmes(f.funding_options)
        =~= filter_programmes(f.funding_options));
    assert(spec_decode_chunks(s, head + tail) == Some(dec_funding(s, f)));
}

pub open spec fn dec_team(s: ProjectV, x: TeamV) -> ProjectV {
    ProjectV {
        team: TeamV {
            title: x.title,
            index_list: s.team.index_list,
            proposed_partners: spec_stock(x.proposed_partners),
            project_leader: spec_stock(x.project_leader),
            industrial_partners: spec_stock(x.industrial_partners),
            proponents: spec_stock(x.proponents),
            participants: filter_participants(x.participants),
            visible: x.visible,
        },
        ..s
    }
}

pub proof fn lemma_dec_team(s: ProjectV, x: TeamV)
    requires
        s.team.participants.len() == 0,
    ensures
        spec_decode_chunks(s, enc_team(x)) == Some(dec_team(s, x)),
{
    let head = seq![
        title_chunk_v(6, x.title, x.visible),
        sub_chunk_v(6, Rank::Top, 0, empty_title(), note_body_v(spec_stock(x.proposed_partners)), true),
        sub_chunk_v(6, Rank::Top, 1, empty_title(), note_body_v(spec_stock(x.project_leader)), true),
        sub_chunk_v(
            6,
            Rank::Top,
            2,
            empty_title(),
            note_body_v(spec_stock(x.industrial_partners)),
            true,
        ),
        sub_chunk_v(6, Rank::Top, 3, empty_title(), note_body_v(spec_stock(x.proponents)), true),
    ];
    let tail = enc_participants(x.participants, 0);
    assert(enc_team(x) == head + tail);
    assert(sections_table().len() == 14);
    let s1 = ProjectV {
        team: TeamV {
            title: x.title,
            visible: x.visible,
            ..s.team
        },
        ..s
    };
    assert(head[0] == title_chunk_v(6, x.title, x.visible));
    assert(spec_step(s, head[0]) == Some(s1));
    lemma_decode_step(s, head, s1);
    let r1 = head.drop_first();
    assert(r1[0] == head[1]);
    let s2 = ProjectV {
        team: TeamV { proposed_partners: spec_stock(x.proposed_partners), ..s1.team },
        ..s1
    };
    assert(spec_step(s1, r1[0]) == Some(s2));
    lemma_decode_step(s1, r1, s2);
    let r2 = r1.drop_first();
    assert(r2[0] == head[2]);
    let s3 = ProjectV {
        team: TeamV { project_leader: spec_stock(x.project_leader), ..s2.team },
        ..s2
    };
    assert(spec_step(s2, r2[0]) == Some(s3));
    lemma_decode_step(s2, r2, s3);
    let r3 = r2.drop_first();
    assert(r3[0] == head[3]);
    let s4 = ProjectV {
        team: TeamV { industrial_partners: spec_stock(x.industrial_partners), ..s3.team },
        ..s3
    };
    assert(spec_step(s3, r3[0]) == Some(s4));
    lemma_decode_step(s3, r3, s4);
    let r4 = r3.drop_first();
    assert(r4[0] == head[4]);
    let s5 = ProjectV {
        team: TeamV {
            proponents: spec_stock(x.proponents),
            ..s4.team
        },
        ..s4
    };
    assert(spec_step(s4, r4[0]) == Some(s5));
    lemma_decode_step(s4, r4, s5);
    assert(r4.drop_first().len() == 0);
    assert(spec_decode_chunks(s, head) == Some(s5));
    assert(s5.team.participants.len() as int == 0);
    lemma_dec_participants(s5, x.participants);
    lemma_decode_append(s, head, tail);
    assert(s5.team.participants + filter_participants(x.participants) =~= filter_participants(
        x.participants,
    ));
    assert(spec_decode_chunks(s, head + tail) == Some(dec_team(s, x)));
}

pub open spec fn dec_literature(s: ProjectV, x: LiteratureV) -> ProjectV {
    ProjectV {
        literature: LiteratureV {
            title: x.title,
            literature_survey: spec_stock(x.literature_survey),
            references: filter_references(x.references),
            visible: x.visible,
        },
        ..s
    }
}

pub proof fn lemma_dec_literature(s: ProjectV, x: LiteratureV)
    requires
        s.literature.references.len() == 0,
    ensures
        spec_decode_chunks(s, enc_literature(x)) == Some(dec_literature(s, x)),
{
    let head = seq![
        title_chunk_v(10, x.title, x.visible),
        sub_chunk_v(
            10,
            Rank::Top,
            0,
            empty_title(),
            note_body_v(spec_stock(x.literature_survey)),
            x.visible,
        ),
    ];
    let tail = enc_citations(
        Rank::LiteratureSources,
        Rank::LiteratureSourcesCitation,
        1,
        x.references,
        0,
    );
    assert(enc_literature(x) == head + tail);
    assert(sections_table().len() == 14);
    let s1 = ProjectV {
        literature: LiteratureV { title: x.title, visible: x.visible, ..s.literature },
        ..s
    };
    assert(head[0] == title_chunk_v(10, x.title, x.visible));
    assert(spec_step(s, head[0]) == Some(s1));
    lemma_decode_step(s, head, s1);
    let r1 = head.drop_first();
    assert(r1[0] == head[1]);
    let s2 = ProjectV {
        literature: LiteratureV { literature_survey: spec_stock(x.literature_survey), ..s1.literature },
        ..s1
    };
    assert(spec_step(s1, r1[0]) == Some(s2));
    lemma_decode_step(s1, r1, s2);
    assert(r1.drop_first().len() == 0);
    assert(spec_decode_chunks(s, head) == Some(s2));
    assert(s2.literature.references.len() as int == 0);
    lemma_dec_literature_citations(s2, x.references);
    lemma_decode_append(s, head, tail);
    assert(s2.literature.references + filter_references(x.references) =~= filter_references(
        x.references,
    ));
    assert(spec_decode_chunks(s, head + tail) == Some(dec_literature(s, x)));
}


// ~~~~~~~~~~~~~~~~~~~~~~~~~~~~~~~~~~~~~~~~~~~~~~~~~~~~~~~~~~~~~~~~~~~~~~~~~~
// The save/open laws.
// ~~~~~~~~~~~~~~~~~~~~~~~~~~~~~~~~~~~~~~~~~~~~~~~~~~~~~~~~~~~~~~~~~~~~~~~~~~
/// Visible-only persistence: decoding what the encoder produced always
/// succeeds and yields the document with every note list passed through the
/// visible-note filter — the visible notes survive in their original
/// relative order and the hidden notes are gone — and with every ordering
/// list back at its default, since ordering lists are never persisted.
#[verifier::rlimit(100)]
pub proof fn lemma_save_open(p: ProjectV)
    ensures
        spec_decode(spec_store_of(p)) == Some(spec_filter_project(p)),
{
    let st = spec_store_of(p);
    let p0 = initial_project(st);
    let e1 = enc_working_name(p.working_name);
    let e2 = enc_idea(p.idea);
    let e3 = enc_funding(p.funding);
    let e4 = enc_scope(p.scope);
    let e5 = enc_timeline(p.timeline);
    let e6 = enc_scripting(p.scripting);
    let e7 = enc_team(p.team);
    let e8 = enc_prelim_results(p.prelim_results);
    let e9 = enc_methodology(p.methodology);
    let e10 = enc_outcomes(p.outcomes);
    let e11 = enc_literature(p.literature);
    let e12 = enc_resources(p.resources);
    let e13 = enc_budget(p.budget);
    let e14 = enc_attachments(p.attachments);
    assert(st.chunks == e1 + e2 + e3 + e4 + e5 + e6 + e7 + e8 + e9 + e10 + e11 + e12 + e13 + e14);
    lemma_dec_working_name(p0, p.working_name);
    let q1 = dec_working_name(p0, p.working_name);
    assert(q1.idea.references.references.len() == 0);
    lemma_dec_idea(q1, p.idea);
    let q2 = dec_idea(q1, p.idea);
    lemma_decode_append(p0, e1, e2);
    assert(spec_decode_chunks(p0, e1 + e2) == Some(q2));
    assert(q2.funding.funding_options.len() == 0);
    lemma_dec_funding(q2, p.funding);
    let q3 = dec_funding(q2, p.funding);
    lemma_decode_append(p0, e1 + e2, e3);
    assert(spec_decode_chunks(p0, e1 + e2 + e3) == Some(q3));
    lemma_dec_scope(q3, p.scope);
    let q4 = dec_scope(q3, p.scope);
    lemma_decode_append(p0, e1 + e2 + e3, e4);
    assert(spec_decode_chunks(p0, e1 + e2 + e3 + e4) == Some(q4));
    lemma_dec_timeline(q4, p.timeline);
    let q5 = dec_timeline(q4, p.timeline);
    lemma_decode_append(p0, e1 + e2 + e3 + e4, e5);
    assert(spec_decode_chunks(p0, e1 + e2 + e3 + e4 + e5) == Some(q5));
    lemma_dec_scripting(q5, p.scripting);
    let q6 = dec_scripting(q5, p.scripting);
    lemma_decode_append(p0, e1 + e2 + e3 + e4 + e5, e6);
    assert(spec_decode_chunks(p0, e1 + e2 + e3 + e4 + e5 + e6) == Some(q6));
    assert(q6.team.participants.len() == 0);
    lemma_dec_team(q6, p.team);
    let q7 = dec_team(q6, p.team);
    lemma_decode_append(p0, e1 + e2 + e3 + e4 + e5 + e6, e7);
    assert(spec_decode_chunks(p0, e1 + e2 + e3 + e4 + e5 + e6 + e7) == Some(q7));
    lemma_dec_prelim_results(q7, p.prelim_results);
    let q8 = dec_prelim_results(q7, p.prelim_results);
    lemma_decode_append(p0, e1 + e2 + e3 + e4 + e5 + e6 + e7, e8);
    assert(spec_decode_chunks(p0, e1 + e2 + e3 + e4 + e5 + e6 + e7 + e8) == Some(q8));
    lemma_dec_methodology(q8, p.methodology);
    let q9 = dec_methodology(q8, p.methodology);
    lemma_decode_append(p0, e1 + e2 + e3 + e4 + e5 + e6 + e7 + e8, e9);
    assert(spec_decode_chunks(p0, e1 + e2 + e3 + e4 + e5 + e6 + e7 + e8 + e9) == Some(q9));
    lemma_dec_outcomes(q9, p.outcomes);
    let q10 = dec_outcomes(q9, p.outcomes);
    lemma_decode_append(p0, e1 + e2 + e3 + e4 + e5 + e6 + e7 + e8 + e9, e10);
    assert(spec_decode_chunks(p0, e1 + e2 + e3 + e4 + e5 + e6 + e7 + e8 + e9 + e10) == Some(q10));
    assert(q10.literature.references.len() == 0);
    lemma_dec_literature(q10, p.literature);
    let q11 = dec_literature(q10, p.literature);
    lemma_decode_append(p0, e1 + e2 + e3 + e4 + e5 + e6 + e7 + e8 + e9 + e10, e11);
    assert(spec_decode_chunks(p0, e1 + e2 + e3 + e4 + e5 + e6 + e7 + e8 + e9 + e10 + e11) == Some(q11));
    lemma_dec_resources(q11, p.resources);
    let q12 = dec_resources(q11, p.resources);
    lemma_decode_append(p0, e1 + e2 + e3 + e4 + e5 + e6 + e7 + e8 + e9 + e10 + e11, e12);
    assert(spec_decode_chunks(p0, e1 + e2 + e3 + e4 + e5 + e6 + e7 + e8 + e9 + e10 + e11 + e12) == Some(q12));
    lemma_dec_budget(q12, p.budget);
    let q13 = dec_budget(q12, p.budget);
    lemma_decode_append(p0, e1 + e2 + e3 + e4 + e5 + e6 + e7 + e8 + e9 + e10 + e11 + e12, e13);
    assert(spec_decode_chunks(p0, e1 + e2 + e3 + e4 + e5 + e6 + e7 + e8 + e9 + e10 + e11 + e12 + e13) == Some(q13));
    lemma_dec_attachments(q13, p.attachments);
    let q14 = dec_attachments(q13, p.attachments);
    lemma_decode_append(p0, e1 + e2 + e3 + e4 + e5 + e6 + e7 + e8 + e9 + e10 + e11 + e12 + e13, e14);
    assert(spec_decode_chunks(p0, e1 + e2 + e3 + e4 + e5 + e6 + e7 + e8 + e9 + e10 + e11 + e12 + e13 + e14) == Some(q14));
    assert(q14 =~~= spec_filter_project(p));
}

// ~~~~~~~~~~~~~~~~~~~~~~~~~~~~~~~~~~~~~~~~~~~~~~~~~~~~~~~~~~~~~~~~~~~~~~~~~~
// Round-trip identity.
// ~~~~~~~~~~~~~~~~~~~~~~~~~~~~~~~~~~~~~~~~~~~~~~~~~~~~~~~~~~~~~~~~~~~~~~~~~~
pub open spec fn all_notes_visible(ns: Seq<NoteV>) -> bool {
    forall|i: int| 0 <= i < ns.len() ==> ns[i].visible
}

pub open spec fn reference_all_visible(r: ReferenceV) -> bool {
    all_notes_visible(r.source_details)
}

pub open spec fn participant_all_visible(q: ParticipantV) -> bool {
    &&& all_notes_visible(q.contribution)
    &&& all_notes_visible(q.team)
    &&& all_notes_visible(q.cv)
    &&& all_notes_visible(q.resources)
    &&& all_notes_visible(q.budget)
}

/// Every note of every note list of the document is visible, so the
/// visible-note filter has nothing to strip.
pub open spec fn all_visible(p: ProjectV) -> bool {
    &&& all_notes_visible(p.working_name.options)
    &&& all_notes_visible(p.idea.problem)
    &&& all_notes_visible(p.idea.hypothesis)
    &&& all_notes_visible(p.idea.summary)
    &&& all_notes_visible(p.idea.description)
    &&& forall|i: int|
        0 <= i < p.idea.references.references.len() ==> reference_all_visible(
            #[trigger] p.idea.references.references[i],
        )
    &&& forall|i: int|
        0 <= i < p.funding.funding_options.len() ==> all_notes_visible(
            (#[trigger] p.funding.funding_options[i]).annotation,
        )
    &&& all_notes_visible(p.scope.suggested_tasks)
    &&& all_notes_visible(p.scope.objectives)
    &&& all_notes_visible(p.scope.activities)
    &&& all_notes_visible(p.scope.work_plan)
    &&& all_notes_visible(p.scope.tasks)
    &&& all_notes_visible(p.timeline.milestones)
    &&& all_notes_visible(p.scripting.scripting)
    &&& all_notes_visible(p.team.proposed_partners)
    &&& all_notes_visible(p.team.project_leader)
    &&& all_notes_visible(p.team.industrial_partners)
    &&& all_notes_visible(p.team.proponents)
    &&& forall|i: int|
        0 <= i < p.team.participants.len() ==> participant_all_visible(
            #[trigger] p.team.participants[i],
        )
    &&& all_notes_visible(p.prelim_results.prelim_results)
    &&& all_notes_visible(p.methodology.methodology)
    &&& all_notes_visible(p.outcomes.results)
    &&& all_notes_visible(p.outcomes.impact)
    &&& all_notes_visible(p.outcomes.propagation)
    &&& all_notes_visible(p.literature.literature_survey)
    &&& forall|i: int|
        0 <= i < p.literature.references.len() ==> reference_all_visible(
            #[trigger] p.literature.references[i],
        )
    &&& all_notes_visible(p.resources.existing)
    &&& all_notes_visible(p.resources.further)
    &&& all_notes_visible(p.budget.personnel)
    &&& all_notes_visible(p.budget.facilities)
    &&& all_notes_visible(p.budget.materials)
    &&& all_notes_visible(p.budget.workshops)
    &&& all_notes_visible(p.budget.overheads)
    &&& all_notes_visible(p.budget.misc)
    &&& all_notes_visible(p.attachments.tables)
    &&& all_notes_visible(p.attachments.figures)
    &&& all_notes_visible(p.attachments.other)
}

/// Every ordering list of the document is at its built-in default.  The
/// persisted format does not carry ordering lists, so only such documents
/// can come back exactly as they were saved.
pub open spec fn default_ordering(p: ProjectV) -> bool {
    &&& p.index_list == project_index_default()
    &&& p.idea.index_list == idea_index_default()
    &&& p.scope.index_list == scope_index_default()
    &&& p.timeline.index_list == timeline_index_default()
    &&& p.team.index_list == team_index_default()
    &&& p.outcomes.index_list == outcomes_index_default()
    &&& p.budget.index_list == budget_index_default()
    &&& forall|i: int|
        0 <= i < p.team.participants.len() ==> (#[trigger] p.team.participants[i]).index_list
            == participant_index_default()
}

proof fn lemma_filter_visible_reference(r: ReferenceV)
    requires
        reference_all_visible(r),
    ensures
        filter_reference(r) == r,
{
    lemma_stock_all_visible(r.source_details);
}

proof fn lemma_filter_visible_references(rs: Seq<ReferenceV>)
    requires
        forall|i: int| 0 <= i < rs.len() ==> reference_all_visible(#[trigger] rs[i]),
    ensures
        filter_references(rs) == rs,
{
    assert forall|i: int| 0 <= i < rs.len() implies filter_references(rs)[i] == rs[i] by {
        lemma_filter_visible_reference(rs[i]);
    }
    assert(filter_references(rs) =~= rs);
}

/// Round-trip identity: a document whose notes are all visible and whose
/// ordering lists are at their defaults is reproduced exactly,
/// field for field, by encoding and decoding.
pub proof fn lemma_round_trip_identity(p: ProjectV)
    requires
        all_visible(p),
        default_ordering(p),
    ensures
        spec_decode(spec_store_of(p)) == Some(p),
{
    lemma_save_open(p);
    lemma_stock_all_visible(p.working_name.options);
    lemma_stock_all_visible(p.idea.problem);
    lemma_stock_all_visible(p.idea.hypothesis);
    lemma_stock_all_visible(p.idea.summary);
    lemma_stock_all_visible(p.idea.description);
    lemma_filter_visible_references(p.idea.references.references);
    assert forall|i: int|
        0 <= i < p.funding.funding_options.len() implies filter_programmes(
        p.funding.funding_options,
    )[i] == p.funding.funding_options[i] by {
        lemma_stock_all_visible(p.funding.funding_options[i].annotation);
    }
    assert(filter_programmes(p.funding.funding_options) =~= p.funding.funding_options);
    lemma_stock_all_visible(p.scope.suggested_tasks);
    lemma_stock_all_visible(p.scope.objectives);
    lemma_stock_all_visible(p.scope.activities);
    lemma_stock_all_visible(p.scope.work_plan);
    lemma_stock_all_visible(p.scope.tasks);
    lemma_stock_all_visible(p.timeline.milestones);
    lemma_stock_all_visible(p.scripting.scripting);
    lemma_stock_all_visible(p.team.proposed_partners);
    lemma_stock_all_visible(p.team.project_leader);
    lemma_stock_all_visible(p.team.industrial_partners);
    lemma_stock_all_visible(p.team.proponents);
    assert forall|i: int|
        0 <= i < p.team.participants.len() implies filter_participants(p.team.participants)[i]
        == p.team.participants[i] by {
        lemma_stock_all_visible(p.team.participants[i].contribution);
        lemma_stock_all_visible(p.team.participants[i].team);
        lemma_stock_all_visible(p.team.participants[i].cv);
        lemma_stock_all_visible(p.team.participants[i].resources);
        lemma_stock_all_visible(p.team.participants[i].budget);
    }
    assert(filter_participants(p.team.participants) =~= p.team.participants);
    lemma_stock_all_visible(p.prelim_results.prelim_results);
    lemma_stock_all_visible(p.methodology.methodology);
    lemma_stock_all_visible(p.outcomes.results);
    lemma_stock_all_visible(p.outcomes.impact);
    lemma_stock_all_visible(p.outcomes.propagation);
    lemma_stock_all_visible(p.literature.literature_survey);
    lemma_filter_visible_references(p.literature.references);
    lemma_stock_all_visible(p.resources.existing);
    lemma_stock_all_visible(p.resources.further);
    lemma_stock_all_visible(p.budget.personnel);
    lemma_stock_all_visible(p.budget.facilities);
    lemma_stock_all_visible(p.budget.materials);
    lemma_stock_all_visible(p.budget.workshops);
    lemma_stock_all_visible(p.budget.overheads);
    lemma_stock_all_visible(p.budget.misc);
    lemma_stock_all_visible(p.attachments.tables);
    lemma_stock_all_visible(p.attachments.figures);
    lemma_stock_all_visible(p.attachments.other);
    assert(spec_filter_project(p) =~~= p);
}

} // verus!
