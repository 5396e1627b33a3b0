//! The legacy migrations: every field the old schemas carried keeps its
//! value, every field they lacked ends up at the current default, and the
//! old enumerated choice remaps variant for variant.

use workbook::legacy_formats::v_b0002::{
    apply_format_b0002, Attachments0002, Contribution0002, Date0002, ExpectedResults0002,
    Idea0002, Literature0002, Note0002, Notes0002, Offer0002, Partner0002, PrelimResults0002,
    Programme0002, ProjectOwner0002, ProjectVersion0002, Reference0002, References0002,
    Scripting0002, ScriptingOption0002, Team0002, WorkVersionB0002,
};
use workbook::legacy_formats::v_b0003::{
    apply_format_b0003, Attachments0003, Budget0003, Date0003, FundingOptions0003, Idea0003,
    Literature0003, Methodology0003, Note0003, Notes0003, Outcomes0003, PrelimResults0003,
    Programme0003, ProjectOwner0003, ProjectTitle0003, ProjectVersion0003, Reference0003,
    References0003, Resources0003, Scope0003, Scripting0003, ScriptingOption0003, Team0003,
    Timeline0003, WorkVersionB0003,
};
use workbook::project::Project;
use workbook::sections::scripting::ScriptingOption;
use workbook::sections::timeline::Numeral;

fn notes0002(text: &str) -> Notes0002 {
    Notes0002 {
        notes: vec![Note0002 {
            note: text.to_string(),
            hint: String::new(),
            visible: true,
        }],
    }
}

fn notes0003(text: &str) -> Notes0003 {
    Notes0003 {
        notes: vec![Note0003 {
            note: text.to_string(),
            hint: String::new(),
            visible: true,
        }],
    }
}

fn sample_b0002() -> ProjectVersion0002 {
    ProjectVersion0002 {
        record: "old record".to_string(),
        owner: ProjectOwner0002 {
            email: "old@site.tst".to_string(),
            account: "old01".to_string(),
        },
        working_name: "Old working name".to_string(),
        funding_program: Programme0002 {
            title: "Funding".to_string(),
            name: "Programme name".to_string(),
            hyperlink: "prog link".to_string(),
            deadline: Date0002 {
                year: 2024,
                month: 5,
                day: 20,
            },
            project_start: Date0002 {
                year: 2024,
                month: 9,
                day: 1,
            },
            duration_years: Numeral {
                bits: 3.0f32.to_bits(),
            },
            annotation: notes0002("programme annotation"),
            visible: true,
        },
        idea: Idea0002 {
            title: "Old idea".to_string(),
            idea: notes0002("old hypothesis"),
            visible: true,
        },
        references: References0002 {
            title: "Old references".to_string(),
            references: vec![Reference0002 {
                title: "old source".to_string(),
                hyperlink: "old link".to_string(),
                source_details: notes0002("old details"),
                visible: true,
            }],
            visible: true,
        },
        prelim_results: PrelimResults0002 {
            title: "Old prelim".to_string(),
            prelim_results: notes0002("old results"),
            visible: false,
        },
        contribution: Contribution0002 {
            title: "Old contribution".to_string(),
            contribution: notes0002("old activities"),
            visible: true,
        },
        offer: Offer0002 {
            title: "Old offer".to_string(),
            offer: notes0002("old methodology"),
            visible: true,
        },
        team: Team0002 {
            title: "Old team".to_string(),
            partners: vec![Partner0002 {
                name: "Old partner".to_string(),
                role: "old role".to_string(),
                affiliation: "old affiliation".to_string(),
                hyperlink: "old partner link".to_string(),
                country: "old country".to_string(),
                expertise: "old expertise".to_string(),
                contribution: notes0002("partner contribution"),
                team: notes0002("partner team"),
                resources: notes0002("partner resources"),
                budget: notes0002("partner budget"),
                visible: true,
            }],
            industrial_partners: notes0002("old industrial"),
            proponents: notes0002("old proponents"),
            visible: true,
        },
        scripting: Scripting0002 {
            title: "Old scripting".to_string(),
            answer: ScriptingOption0002::Jointly,
            scripting: notes0002("old scripting note"),
            visible: true,
        },
        survey: Literature0002 {
            title: "Old survey".to_string(),
            literature_survey: notes0002("old survey note"),
            references: vec![Reference0002 {
                title: "old cited".to_string(),
                hyperlink: "cited link".to_string(),
                source_details: notes0002("cited details"),
                visible: true,
            }],
            visible: true,
        },
        expected_results: ExpectedResults0002 {
            title: "Old expected".to_string(),
            results: notes0002("old expected note"),
            visible: true,
        },
        attachments: Attachments0002 {
            title: "Old attachments".to_string(),
            tables: notes0002("old table"),
            figures: notes0002("old figure"),
            other: notes0002("old other"),
            visible: false,
        },
    }
}

/// Migration fidelity for the oldest schema: old fields keep their values
/// under the documented remapping, absent fields take the current defaults.
#[test]
fn migration_b0002_fidelity() {
    let work = WorkVersionB0002 {
        format: "B0002".to_string(),
        project: sample_b0002(),
        stored: vec![sample_b0002()],
    };
    let (live, stored) = apply_format_b0002(&work);

    assert_eq!(live.record, "old record");
    assert_eq!(live.owner.email, "old@site.tst");
    assert_eq!(live.owner.account, "old01");
    // Fields absent from the old schema carry the current defaults.
    assert_eq!(live.resolution, 1);
    let fresh = Project::default();
    assert_eq!(live.budget.title, fresh.budget.title);
    assert_eq!(live.budget.personnel.notes.len(), 0);
    assert_eq!(live.resources.title, fresh.resources.title);
    assert_eq!(live.resources.existing.notes.len(), 0);
    // The working name becomes a visible title with no alternatives.
    assert_eq!(live.working_name.title, "Old working name");
    assert!(live.working_name.visible);
    assert_eq!(live.working_name.options.notes.len(), 0);
    // The single programme: its name is the entry title, its enclosing title
    // names the section.
    assert_eq!(live.funding.title, "Funding");
    assert_eq!(live.funding.funding_options.len(), 1);
    assert_eq!(live.funding.funding_options[0].title, "Programme name");
    assert_eq!(live.funding.funding_options[0].hyperlink, "prog link");
    assert_eq!(live.funding.funding_options[0].deadline.year, 2024);
    assert_eq!(live.funding.funding_options[0].deadline.month, 5);
    assert_eq!(live.funding.funding_options[0].deadline.day, 20);
    assert_eq!(
        live.funding.funding_options[0].annotation.notes[0].note,
        "programme annotation"
    );
    // The old idea notes are the hypothesis of the current idea section.
    assert_eq!(live.idea.title, "Old idea");
    assert_eq!(live.idea.hypothesis.notes[0].note, "old hypothesis");
    assert_eq!(live.idea.problem.notes.len(), 0);
    assert_eq!(live.idea.references.title, "Old references");
    assert_eq!(live.idea.references.references[0].title, "old source");
    // Contribution became the scope's activities.
    assert_eq!(live.scope.title, "Old contribution");
    assert_eq!(live.scope.activities.notes[0].note, "old activities");
    assert_eq!(live.scope.objectives.notes.len(), 0);
    // The offer became the methodology.
    assert_eq!(live.methodology.title, "Old offer");
    assert_eq!(live.methodology.methodology.notes[0].note, "old methodology");
    // Expected results became the outcomes.
    assert_eq!(live.outcomes.title, "Old expected");
    assert_eq!(live.outcomes.results.notes[0].note, "old expected note");
    assert_eq!(live.outcomes.impact.notes.len(), 0);
    // The three-variant choice remaps variant for variant.
    assert_eq!(live.scripting.title, "Old scripting");
    assert_eq!(live.scripting.answer, ScriptingOption::Jointly);
    // The partner list becomes the participant list; the CV chapter, absent
    // before, is empty.
    assert_eq!(live.team.title, "Old team");
    assert_eq!(live.team.participants.len(), 1);
    assert_eq!(live.team.participants[0].name, "Old partner");
    assert_eq!(live.team.participants[0].role, "old role");
    assert_eq!(live.team.participants[0].cv.notes.len(), 0);
    assert_eq!(
        live.team.participants[0].contribution.notes[0].note,
        "partner contribution"
    );
    assert_eq!(live.team.industrial_partners.notes[0].note, "old industrial");
    assert_eq!(live.team.proponents.notes[0].note, "old proponents");
    assert_eq!(live.team.proposed_partners.notes.len(), 0);
    // The timing lived in the funding programme.
    assert_eq!(live.timeline.title, fresh.timeline.title);
    assert_eq!(live.timeline.project_start.year, 2024);
    assert_eq!(live.timeline.project_start.month, 9);
    assert_eq!(live.timeline.project_start.day, 1);
    assert_eq!(live.timeline.duration_years, Numeral { bits: 3.0f32.to_bits() });
    assert!(!live.timeline.visible);
    // Literature and attachments carry over directly.
    assert_eq!(live.literature.title, "Old survey");
    assert_eq!(live.literature.references[0].title, "old cited");
    assert_eq!(live.attachments.title, "Old attachments");
    assert_eq!(live.attachments.figures.notes[0].note, "old figure");
    assert!(!live.attachments.visible);
    // Stored snapshots convert by the same mapping.
    assert_eq!(stored.len(), 1);
    assert_eq!(stored[0].record, "old record");
    assert_eq!(stored[0].scripting.answer, ScriptingOption::Jointly);
}

fn sample_b0003() -> ProjectVersion0003 {
    ProjectVersion0003 {
        record: "later record".to_string(),
        owner: ProjectOwner0003 {
            email: "later@site.tst".to_string(),
            account: "later02".to_string(),
        },
        resolution: 4,
        index_list: Vec::new(),
        attachments: Attachments0003 {
            title: "Later attachments".to_string(),
            tables: notes0003("later table"),
            figures: notes0003("later figure"),
            other: notes0003("later other"),
            visible: true,
        },
        budget: Budget0003 {
            title: "Later budget".to_string(),
            index_list: Vec::new(),
            personnel: notes0003("later personnel"),
            facilities: notes0003("later facilities"),
            materials: notes0003("later materials"),
            workshops: notes0003("later workshops"),
            overheads: notes0003("later overheads"),
            misc: notes0003("later misc"),
            visible: true,
        },
        funding: FundingOptions0003 {
            title: "Later funding".to_string(),
            funding_options: vec![Programme0003 {
                title: "Later programme".to_string(),
                hyperlink: "later prog link".to_string(),
                deadline: Date0003 {
                    year: 2026,
                    month: 2,
                    day: 28,
                },
                annotation: notes0003("later annotation"),
                visible: true,
            }],
            visible: true,
        },
        idea: Idea0003 {
            title: "Later idea".to_string(),
            index_list: Vec::new(),
            problem: notes0003("later problem"),
            hypothesis: notes0003("later hypothesis"),
            summary: notes0003("later summary"),
            description: notes0003("later description"),
            references: References0003 {
                title: "Later references".to_string(),
                references: vec![Reference0003 {
                    title: "later source".to_string(),
                    hyperlink: "later link".to_string(),
                    source_details: notes0003("later details"),
                    visible: true,
                }],
                visible: true,
            },
            visible: true,
        },
        literature: Literature0003 {
            title: "Later survey".to_string(),
            literature_survey: notes0003("later survey note"),
            references: Vec::new(),
            visible: false,
        },
        methodology: Methodology0003 {
            title: "Later methodology".to_string(),
            methodology: notes0003("later methodology note"),
            visible: true,
        },
        outcomes: Outcomes0003 {
            title: "Later outcomes".to_string(),
            index_list: Vec::new(),
            results: notes0003("later results"),
            impact: notes0003("later impact"),
            propagation: notes0003("later propagation"),
            visible: true,
        },
        prelim_results: PrelimResults0003 {
            title: "Later prelim".to_string(),
            prelim_results: notes0003("later prelim note"),
            visible: true,
        },
        resources: Resources0003 {
            title: "Later resources".to_string(),
            existing: notes0003("later existing"),
            further: notes0003("later further"),
            visible: true,
        },
        scope: Scope0003 {
            title: "Later scope".to_string(),
            index_list: Vec::new(),
            suggested_tasks: notes0003("later suggested"),
            objectives: notes0003("later objectives"),
            activities: notes0003("later activities"),
            work_plan: notes0003("later work plan"),
            tasks: notes0003("later tasks"),
            visible: true,
        },
        scripting: Scripting0003 {
            title: "Later scripting".to_string(),
            answer: ScriptingOption0003::Other,
            scripting: notes0003("later scripting note"),
            visible: true,
        },
        team: Team0003 {
            title: "Later team".to_string(),
            index_list: Vec::new(),
            proposed_partners: notes0003("later proposed"),
            project_leader: notes0003("later leader"),
            industrial_partners: notes0003("later industrial"),
            proponents: notes0003("later proponents"),
            participants: Vec::new(),
            visible: true,
        },
        timeline: Timeline0003 {
            title: "Later timeline".to_string(),
            index_list: Vec::new(),
            project_start: Date0003 {
                year: 2026,
                month: 10,
                day: 5,
            },
            duration_years: Numeral {
                bits: 2.5f32.to_bits(),
            },
            milestones: notes0003("later milestone"),
            visible: true,
        },
        working_name: ProjectTitle0003 {
            title: "Later working name".to_string(),
            options: notes0003("later option"),
            visible: true,
        },
    }
}

/// Migration fidelity for the later frozen schema: its shape matches the
/// current one, so every field carries over unchanged.
#[test]
fn migration_b0003_fidelity() {
    let work = WorkVersionB0003 {
        format: "B0003".to_string(),
        project: sample_b0003(),
        stored: Vec::new(),
    };
    let (live, stored) = apply_format_b0003(&work);
    assert!(stored.is_empty());

    assert_eq!(live.record, "later record");
    assert_eq!(live.owner.email, "later@site.tst");
    assert_eq!(live.resolution, 4);
    assert_eq!(live.working_name.title, "Later working name");
    assert_eq!(live.working_name.options.notes[0].note, "later option");
    assert_eq!(live.funding.funding_options[0].title, "Later programme");
    assert_eq!(live.funding.funding_options[0].deadline.day, 28);
    assert_eq!(live.idea.problem.notes[0].note, "later problem");
    assert_eq!(live.idea.summary.notes[0].note, "later summary");
    assert_eq!(live.idea.references.references[0].hyperlink, "later link");
    assert_eq!(live.budget.misc.notes[0].note, "later misc");
    assert_eq!(live.scope.work_plan.notes[0].note, "later work plan");
    assert_eq!(live.scripting.answer, ScriptingOption::Other);
    assert_eq!(live.team.project_leader.notes[0].note, "later leader");
    assert_eq!(live.timeline.project_start.month, 10);
    assert_eq!(live.timeline.duration_years, Numeral { bits: 2.5f32.to_bits() });
    assert!(!live.literature.visible);
    assert_eq!(live.attachments.other.notes[0].note, "later other");
}

/// The three-variant choice remaps variant for variant in both frozen
/// schemas.
#[test]
fn scripting_option_remaps_variant_for_variant() {
    for (old, new) in [
        (ScriptingOption0002::Myself, ScriptingOption::Myself),
        (ScriptingOption0002::Jointly, ScriptingOption::Jointly),
        (ScriptingOption0002::Other, ScriptingOption::Other),
    ] {
        let mut sample = sample_b0002();
        sample.scripting.answer = old;
        let work = WorkVersionB0002 {
            format: "B0002".to_string(),
            project: sample,
            stored: Vec::new(),
        };
        let (live, _) = apply_format_b0002(&work);
        assert_eq!(live.scripting.answer, new);
    }
    for (old, new) in [
        (ScriptingOption0003::Myself, ScriptingOption::Myself),
        (ScriptingOption0003::Jointly, ScriptingOption::Jointly),
        (ScriptingOption0003::Other, ScriptingOption::Other),
    ] {
        let mut sample = sample_b0003();
        sample.scripting.answer = old;
        let work = WorkVersionB0003 {
            format: "B0003".to_string(),
            project: sample,
            stored: Vec::new(),
        };
        let (live, _) = apply_format_b0003(&work);
        assert_eq!(live.scripting.answer, new);
    }
}
