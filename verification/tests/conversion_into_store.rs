//! Checks the chunk encoder against the expected flat record list: a fully
//! populated document is encoded and every emitted chunk's address, parent,
//! payload and visibility are compared with the format's fixed layout.

use workbook::note::{Note, Notes};
use workbook::project::{Project, ProjectOwner};
use workbook::sections::attachments::Attachments;
use workbook::sections::budget::Budget;
use workbook::sections::funding::{FundingOptions, Programme};
use workbook::sections::idea::Idea;
use workbook::sections::literature::Literature;
use workbook::sections::methodology::Methodology;
use workbook::sections::outcomes::Outcomes;
use workbook::sections::prelim_results::PrelimResults;
use workbook::sections::references::{Reference, References};
use workbook::sections::resources::Resources;
use workbook::sections::scope::Scope;
use workbook::sections::scripting::{Scripting, ScriptingOption};
use workbook::sections::team::{Participant, Team};
use workbook::sections::timeline::{Date, Numeral, Timeline};
use workbook::sections::working_name::ProjectTitle;
use workbook::store::v_b0004::{Association, Parent, Rank, Store};

#[test]
fn conversion_into_store() {
    let test = &mut Project::default();
    test.owner = ProjectOwner {
        email: "abc@email.tst".to_string(),
        account: "abc123".to_string(),
    };
    test.record = "test_record".to_string();
    test.resolution = 3;

    test.working_name = ProjectTitle {
        title: "Test project name".to_string(),
        options: Notes {
            notes: vec![Note {
                note: "Name option 1".to_string(),
                visible: true,
                ..Default::default()
            }],
        },
        visible: true,
    };

    test.idea = Idea {
        title: "Idea".to_string(),
        problem: Notes {
            notes: vec![Note {
                note: "Problem note 1".to_string(),
                visible: true,
                ..Default::default()
            }],
        },
        hypothesis: Notes {
            notes: vec![Note {
                note: "Hypothesis note 1".to_string(),
                visible: true,
                ..Default::default()
            }],
        },
        summary: Notes::default(),
        description: Notes::default(),
        references: References {
            title: "Key References".to_string(),
            references: vec![
                Reference {
                    title: "Key source 1".to_string(),
                    hyperlink: "link source 1".to_string(),
                    source_details: Notes {
                        notes: vec![Note {
                            note: "Source 1 details".to_string(),
                            visible: true,
                            ..Default::default()
                        }],
                    },
                    visible: true,
                },
                Reference {
                    title: "Key source 2".to_string(),
                    hyperlink: "link source 2".to_string(),
                    source_details: Notes {
                        notes: vec![Note {
                            note: "Source 2 details".to_string(),
                            visible: true,
                            ..Default::default()
                        }],
                    },
                    visible: true,
                },
            ],
            visible: true,
        },
        visible: true,
        ..Default::default()
    };

    test.funding = FundingOptions {
        title: "Funding Options".to_string(),
        funding_options: vec![
            Programme {
                title: "Funding Option 1".to_string(),
                annotation: Notes {
                    notes: vec![Note {
                        note: "Funding Option 1 annotation".to_string(),
                        visible: true,
                        ..Default::default()
                    }],
                },
                hyperlink: "link funding option 1".to_string(),
                deadline: Date::default(),
                visible: true,
            },
            Programme {
                title: "Funding Option 2".to_string(),
                // The second funding option carries no details.
                ..Default::default()
            },
        ],
        visible: true,
    };

    test.scope = Scope {
        title: "Project Scope: Objectives and Planned Activities".to_string(),
        suggested_tasks: Notes {
            notes: vec![Note {
                note: "Suggested Tasks note 1".to_string(),
                visible: true,
                ..Default::default()
            }],
        },
        objectives: Notes {
            notes: vec![Note {
                note: "Objectives note 1".to_string(),
                visible: true,
                ..Default::default()
            }],
        },
        activities: Notes {
            notes: vec![Note {
                note: "Activities note 1".to_string(),
                visible: true,
                ..Default::default()
            }],
        },
        work_plan: Notes {
            notes: vec![Note {
                note: "Work Plan note 1".to_string(),
                visible: true,
                ..Default::default()
            }],
        },
        tasks: Notes {
            notes: vec![Note {
                note: "Tasks note 1".to_string(),
                visible: true,
                ..Default::default()
            }],
        },
        visible: true,
        ..Default::default()
    };

    test.timeline = Timeline {
        title: "Timeline".to_string(),
        project_start: Date::default(),
        duration_years: Numeral { bits: 4.5f32.to_bits() },
        milestones: Notes {
            notes: vec![Note {
                note: "Milestones note 1".to_string(),
                visible: true,
                ..Default::default()
            }],
        },
        visible: true,
        ..Default::default()
    };

    test.scripting = Scripting {
        title: "Who Will Write The Project Proposal".to_string(),
        answer: ScriptingOption::Jointly,
        scripting: Notes {
            notes: vec![Note {
                note: "Scripting Option note 1".to_string(),
                visible: true,
                ..Default::default()
            }],
        },
        visible: true,
    };

    test.team = Team {
        title: "Team".to_string(),
        proposed_partners: Notes {
            notes: vec![Note {
                note: "Proposed Partners note 1".to_string(),
                visible: true,
                ..Default::default()
            }],
        },
        project_leader: Notes {
            notes: vec![Note {
                note: "Project Leader note 1".to_string(),
                visible: true,
                ..Default::default()
            }],
        },
        industrial_partners: Notes {
            notes: vec![Note {
                note: "Industrial Partners note 1".to_string(),
                visible: true,
                ..Default::default()
            }],
        },
        proponents: Notes {
            notes: vec![Note {
                note: "Proponents note 1".to_string(),
                visible: true,
                ..Default::default()
            }],
        },
        participants: vec![
            Participant {
                name: "Partner 1 Name".to_string(),
                role: "Partner 1 role".to_string(),
                affiliation: "Partner 1 affiliation".to_string(),
                hyperlink: "Partner 1 hyperlink".to_string(),
                country: "Partner 1 country".to_string(),
                expertise: "Partner 1 expertise".to_string(),
                contribution: Notes {
                    notes: vec![Note {
                        note: "Partner 1 contribution note 1".to_string(),
                        visible: true,
                        ..Default::default()
                    }],
                },
                team: Notes {
                    notes: vec![Note {
                        note: "Partner 1 team note 1".to_string(),
                        visible: true,
                        ..Default::default()
                    }],
                },
                cv: Notes {
                    notes: vec![Note {
                        note: "Partner 1 CV note 1".to_string(),
                        visible: true,
                        ..Default::default()
                    }],
                },
                resources: Notes {
                    notes: vec![Note {
                        note: "Partner 1 resources note 1".to_string(),
                        visible: true,
                        ..Default::default()
                    }],
                },
                budget: Notes {
                    notes: vec![Note {
                        note: "Partner 1 budget note 1".to_string(),
                        visible: true,
                        ..Default::default()
                    }],
                },
                visible: true,
                ..Default::default()
            },
            Participant {
                name: "Partner 2 Name".to_string(),
                role: "Partner 2 role".to_string(),
                affiliation: "Partner 2 affiliation".to_string(),
                hyperlink: "Partner 2 hyperlink".to_string(),
                country: "Partner 2 country".to_string(),
                expertise: "Partner 2 expertise".to_string(),
                contribution: Notes {
                    notes: vec![Note {
                        note: "Partner 2 contribution note 1".to_string(),
                        visible: true,
                        ..Default::default()
                    }],
                },
                team: Notes {
                    notes: vec![Note {
                        note: "Partner 2 team note 1".to_string(),
                        visible: true,
                        ..Default::default()
                    }],
                },
                cv: Notes {
                    notes: vec![Note {
                        note: "Partner 2 CV note 1".to_string(),
                        visible: true,
                        ..Default::default()
                    }],
                },
                resources: Notes {
                    notes: vec![Note {
                        note: "Partner 2 resources note 1".to_string(),
                        visible: true,
                        ..Default::default()
                    }],
                },
                budget: Notes {
                    notes: vec![Note {
                        note: "Partner 2 budget note 1".to_string(),
                        visible: true,
                        ..Default::default()
                    }],
                },
                visible: true,
                ..Default::default()
            },
        ],
        visible: true,
        ..Default::default()
    };

    test.prelim_results = PrelimResults {
        title: "Preliminary Results".to_string(),
        prelim_results: Notes {
            notes: vec![Note {
                note: "Preliminary Results note 1".to_string(),
                visible: true,
                ..Default::default()
            }],
        },
        visible: true,
    };

    test.methodology = Methodology {
        title: "Research Methodology".to_string(),
        methodology: Notes {
            notes: vec![Note {
                note: "Methodology note 1".to_string(),
                visible: true,
                ..Default::default()
            }],
        },
        visible: true,
    };

    test.outcomes = Outcomes {
        title: "Expected Results, Impact and Dissemination".to_string(),
        results: Notes {
            notes: vec![Note {
                note: "Expected Results note 1".to_string(),
                visible: true,
                ..Default::default()
            }],
        },
        impact: Notes {
            notes: vec![Note {
                note: "Impact note 1".to_string(),
                visible: true,
                ..Default::default()
            }],
        },
        propagation: Notes {
            notes: vec![Note {
                note: "Propagation note 1".to_string(),
                visible: true,
                ..Default::default()
            }],
        },
        visible: true,
        ..Default::default()
    };

    test.literature = Literature {
        title: "Literature Survey".to_string(),
        literature_survey: Notes {
            notes: vec![Note {
                note: "Literature Survey note 1".to_string(),
                visible: true,
                ..Default::default()
            }],
        },
        references: vec![
            Reference {
                title: "Literature source 1".to_string(),
                hyperlink: "Literature link source 1".to_string(),
                source_details: Notes {
                    notes: vec![Note {
                        note: "Literature Source 1 details".to_string(),
                        visible: true,
                        ..Default::default()
                    }],
                },
                visible: true,
            },
            Reference {
                title: "Literature source 2".to_string(),
                hyperlink: "Literature link source 2".to_string(),
                source_details: Notes {
                    notes: vec![Note {
                        note: "Literature Source 2 details".to_string(),
                        visible: true,
                        ..Default::default()
                    }],
                },
                visible: true,
            },
        ],
        visible: true,
        ..Default::default()
    };

    test.resources = Resources {
        title: "Resources".to_string(),
        existing: Notes {
            notes: vec![Note {
                note: "Existing Resources note 1".to_string(),
                visible: true,
                ..Default::default()
            }],
        },
        further: Notes {
            notes: vec![Note {
                note: "Additional Resources note 1".to_string(),
                visible: true,
                ..Default::default()
            }],
        },
        visible: true,
        ..Default::default()
    };

    test.budget = Budget {
        title: "Budget Estimates".to_string(),
        personnel: Notes {
            notes: vec![Note {
                note: "Budget Personnel note 1".to_string(),
                visible: true,
                ..Default::default()
            }],
        },
        facilities: Notes {
            notes: vec![Note {
                note: "Budget Facilities note 1".to_string(),
                visible: true,
                ..Default::default()
            }],
        },
        materials: Notes {
            notes: vec![Note {
                note: "Budget Materials note 1".to_string(),
                visible: true,
                ..Default::default()
            }],
        },
        workshops: Notes {
            notes: vec![Note {
                note: "Budget Workshops note 1".to_string(),
                visible: true,
                ..Default::default()
            }],
        },
        overheads: Notes {
            notes: vec![Note {
                note: "Budget Overheads note 1".to_string(),
                visible: true,
                ..Default::default()
            }],
        },
        misc: Notes {
            notes: vec![Note {
                note: "Budget Miscellaneous note 1".to_string(),
                visible: true,
                ..Default::default()
            }],
        },
        visible: true,
        ..Default::default()
    };

    test.attachments = Attachments {
        title: "Attachments".to_string(),
        tables: Notes {
            notes: vec![Note {
                note: "Attachments Tables note 1".to_string(),
                visible: true,
                ..Default::default()
            }],
        },
        figures: Notes {
            notes: vec![Note {
                note: "Attachments Figures note 1".to_string(),
                visible: true,
                ..Default::default()
            }],
        },
        other: Notes {
            notes: vec![Note {
                note: "Attachments Other note 1".to_string(),
                visible: true,
                ..Default::default()
            }],
        },
        visible: true,
        ..Default::default()
    };

    // Chapter counter.
    let mut nn: usize;
    let stored: Store = Store::from((*test).clone());

    assert_eq!(test.index_list.len(), 14);
    assert_eq!(test.index_list.len(), Association::default().sections.len());

    assert_eq!(test.owner, stored.owner);
    assert_eq!(test.record, stored.record);
    assert_eq!(test.resolution, stored.resolution);

    // nn = 0;

    // ProjectTitle = WorkingName
    assert_eq!(stored.chunks[0].address, 0);
    assert_eq!(stored.chunks[0].parent, None);
    assert_eq!(stored.chunks[0].visible, test.working_name.visible);
    assert_eq!(stored.chunks[0].title, test.working_name.title);
    assert_eq!(stored.chunks[0].title, "Test project name".to_string());

    // WorkingNameOptions
    assert_eq!(stored.chunks[1].address, 1);
    assert_eq!(
        stored.chunks[1].parent,
        Some(Parent {
            address: 0,
            variety: Rank::Top
        })
    );
    assert_eq!(
        stored.chunks[1].body.notes.notes.len(),
        test.working_name.options.notes.len()
    );
    assert_eq!(
        stored.chunks[1].body.notes.notes[0].visible,
        test.working_name.options.notes[0].visible
    );
    assert_eq!(
        stored.chunks[1].body.notes.notes[0].note,
        test.working_name.options.notes[0].note
    );
    assert_eq!(
        stored.chunks[1].body.notes.notes[0].note,
        "Name option 1".to_string()
    );

    // Idea
    assert_eq!(stored.chunks[2].address, 1);
    assert_eq!(stored.chunks[2].parent, None);
    assert_eq!(stored.chunks[2].visible, test.idea.visible);
    assert_eq!(stored.chunks[2].title, test.idea.title);
    assert_eq!(stored.chunks[2].title, "Idea".to_string());

    // IdeaProblem
    assert_eq!(stored.chunks[3].address, 0);
    assert_eq!(
        stored.chunks[3].parent,
        Some(Parent {
            address: 1,
            variety: Rank::Top
        })
    );
    assert_eq!(
        stored.chunks[3].body.notes.notes.len(),
        test.idea.problem.notes.len()
    );
    assert_eq!(
        stored.chunks[3].body.notes.notes[0].visible,
        test.idea.problem.notes[0].visible
    );
    assert_eq!(
        stored.chunks[3].body.notes.notes[0].note,
        test.idea.problem.notes[0].note
    );
    assert_eq!(
        stored.chunks[3].body.notes.notes[0].note,
        "Problem note 1".to_string()
    );

    // IdeaHypothesis
    assert_eq!(stored.chunks[4].address, 1);
    assert_eq!(
        stored.chunks[4].parent,
        Some(Parent {
            address: 1,
            variety: Rank::Top
        })
    );
    assert_eq!(
        stored.chunks[4].body.notes.notes.len(),
        test.idea.hypothesis.notes.len()
    );
    assert_eq!(
        stored.chunks[4].body.notes.notes[0].visible,
        test.idea.hypothesis.notes[0].visible
    );
    assert_eq!(
        stored.chunks[4].body.notes.notes[0].note,
        test.idea.hypothesis.notes[0].note
    );
    assert_eq!(
        stored.chunks[4].body.notes.notes[0].note,
        "Hypothesis note 1".to_string()
    );

    // IdeaSummary
    assert_eq!(stored.chunks[5].address, 2);
    assert_eq!(
        stored.chunks[5].parent,
        Some(Parent {
            address: 1,
            variety: Rank::Top
        })
    );
    assert_eq!(
        stored.chunks[5].body.notes.notes.len(),
        test.idea.summary.notes.len()
    );

    // IdeaDescription
    assert_eq!(stored.chunks[6].address, 3);
    assert_eq!(
        stored.chunks[6].parent,
        Some(Parent {
            address: 1,
            variety: Rank::Top
        })
    );
    assert_eq!(
        stored.chunks[6].body.notes.notes.len(),
        test.idea.description.notes.len()
    );

    // IdeaReferences
    assert_eq!(stored.chunks[7].address, 4);
    assert_eq!(
        stored.chunks[7].parent,
        Some(Parent {
            address: 1,
            variety: Rank::Top
        })
    );
    assert_eq!(stored.chunks[7].visible, test.idea.references.visible);
    assert_eq!(stored.chunks[7].title, test.idea.references.title);
    assert_eq!(stored.chunks[7].title, "Key References".to_string());

    // IdeaReferencesCitation = IdeaReferencesCitationName
    assert_eq!(stored.chunks[8].address, 0);
    assert_eq!(
        stored.chunks[8].parent,
        Some(Parent {
            address: 4,
            variety: Rank::IdeaReferences
        })
    );
    assert_eq!(
        stored.chunks[8].visible,
        test.idea.references.references[0].visible
    );
    assert_eq!(
        stored.chunks[8].title,
        test.idea.references.references[0].title
    );
    assert_eq!(stored.chunks[8].title, "Key source 1".to_string());

    // IdeaReferencesCitationHyperlink
    assert_eq!(stored.chunks[9].address, 0);
    assert_eq!(
        stored.chunks[9].parent,
        Some(Parent {
            address: 0,
            variety: Rank::IdeaReferencesCitation
        })
    );
    assert_eq!(
        stored.chunks[9].body.phrase,
        test.idea.references.references[0].hyperlink
    );
    assert_eq!(stored.chunks[9].body.phrase, "link source 1".to_string());

    // IdeaReferencesCitationDetails
    assert_eq!(stored.chunks[10].address, 1);
    assert_eq!(
        stored.chunks[10].parent,
        Some(Parent {
            address: 0,
            variety: Rank::IdeaReferencesCitation
        })
    );
    assert_eq!(
        stored.chunks[10].body.notes.notes[0].visible,
        test.idea.references.references[0].source_details.notes[0].visible
    );
    assert_eq!(
        stored.chunks[10].body.notes.notes[0].note,
        test.idea.references.references[0].source_details.notes[0].note
    );
    assert_eq!(
        stored.chunks[10].body.notes.notes[0].note,
        "Source 1 details".to_string()
    );

    // IdeaReferencesCitation = IdeaReferencesCitationName
    assert_eq!(stored.chunks[11].address, 1);
    assert_eq!(
        stored.chunks[11].parent,
        Some(Parent {
            address: 4,
            variety: Rank::IdeaReferences
        })
    );
    assert_eq!(
        stored.chunks[11].visible,
        test.idea.references.references[1].visible
    );
    assert_eq!(
        stored.chunks[11].title,
        test.idea.references.references[1].title
    );
    assert_eq!(stored.chunks[11].title, "Key source 2".to_string());

    // IdeaReferencesCitationHyperlink
    assert_eq!(stored.chunks[12].address, 0);
    assert_eq!(
        stored.chunks[12].parent,
        Some(Parent {
            address: 1,
            variety: Rank::IdeaReferencesCitation
        })
    );
    assert_eq!(
        stored.chunks[12].body.phrase,
        test.idea.references.references[1].hyperlink
    );
    assert_eq!(stored.chunks[12].body.phrase, "link source 2".to_string());

    // IdeaReferencesCitationDetails
    assert_eq!(stored.chunks[13].address, 1);
    assert_eq!(
        stored.chunks[13].parent,
        Some(Parent {
            address: 1,
            variety: Rank::IdeaReferencesCitation
        })
    );
    assert_eq!(
        stored.chunks[13].body.notes.notes[0].visible,
        test.idea.references.references[1].source_details.notes[0].visible
    );
    assert_eq!(
        stored.chunks[13].body.notes.notes[0].note,
        test.idea.references.references[1].source_details.notes[0].note
    );
    assert_eq!(
        stored.chunks[13].body.notes.notes[0].note,
        "Source 2 details".to_string()
    );

    // Funding
    assert_eq!(stored.chunks[14].address, 2);
    assert_eq!(stored.chunks[14].parent, None);
    assert_eq!(stored.chunks[14].visible, test.funding.visible);
    assert_eq!(stored.chunks[14].title, test.funding.title);
    assert_eq!(stored.chunks[14].title, "Funding Options".to_string());

    // FundingOptions

    // FundingProgram = FundingProgramName
    assert_eq!(stored.chunks[15].address, 0);
    assert_eq!(
        stored.chunks[15].parent,
        Some(Parent {
            address: 2,
            variety: Rank::Top
        })
    );
    assert_eq!(
        stored.chunks[15].visible,
        test.funding.funding_options[0].visible
    );
    assert_eq!(
        stored.chunks[15].title,
        test.funding.funding_options[0].title
    );
    assert_eq!(stored.chunks[15].title, "Funding Option 1".to_string());

    // Fields not used by this chunk stay at their empty defaults.
    assert_eq!(stored.chunks[15].body.phrase, "".to_string());
    assert_eq!(stored.chunks[15].body.notes.notes.len(), 0);

    // FundingProgramAnnotation
    assert_eq!(stored.chunks[16].address, 0);
    assert_eq!(
        stored.chunks[16].parent,
        Some(Parent {
            address: 0,
            variety: Rank::FundingProgram
        })
    );
    assert_eq!(
        stored.chunks[16].body.notes.notes[0].visible,
        test.funding.funding_options[0].annotation.notes[0].visible
    );
    assert_eq!(
        stored.chunks[16].body.notes.notes[0].note,
        test.funding.funding_options[0].annotation.notes[0].note
    );
    assert_eq!(
        stored.chunks[16].body.notes.notes[0].note,
        "Funding Option 1 annotation".to_string()
    );

    // Fields not used by this chunk stay at their empty defaults.
    assert_eq!(stored.chunks[16].title, "".to_string());
    assert_eq!(stored.chunks[16].body.phrase, "".to_string());

    // FundingProgramHyperlink
    assert_eq!(stored.chunks[17].address, 1);
    assert_eq!(
        stored.chunks[17].parent,
        Some(Parent {
            address: 0,
            variety: Rank::FundingProgram
        })
    );
    assert_eq!(
        stored.chunks[17].body.phrase,
        test.funding.funding_options[0].hyperlink
    );
    assert_eq!(
        stored.chunks[17].body.phrase,
        "link funding option 1".to_string()
    );

    // FundingProgramDeadline
    assert_eq!(stored.chunks[18].address, 2);
    assert_eq!(
        stored.chunks[18].parent,
        Some(Parent {
            address: 0,
            variety: Rank::FundingProgram
        })
    );
    assert_eq!(
        stored.chunks[18].body.date.year,
        test.funding.funding_options[0].deadline.year
    ); // default deadline
    assert_eq!(
        stored.chunks[18].body.date.month,
        test.funding.funding_options[0].deadline.month
    ); // default deadline
    assert_eq!(
        stored.chunks[18].body.date.day,
        test.funding.funding_options[0].deadline.day
    ); // default deadline

    // FundingProgram = FundingProgramName
    assert_eq!(stored.chunks[19].address, 1);
    assert_eq!(
        stored.chunks[19].parent,
        Some(Parent {
            address: 2,
            variety: Rank::Top
        })
    );
    assert_eq!(
        stored.chunks[19].visible,
        test.funding.funding_options[1].visible
    );
    assert_eq!(
        stored.chunks[19].title,
        test.funding.funding_options[1].title
    );
    assert_eq!(stored.chunks[19].title, "Funding Option 2".to_string());

    // Fields not used by this chunk stay at their empty defaults.
    assert_eq!(stored.chunks[19].body.phrase, "".to_string());
    assert_eq!(stored.chunks[19].body.notes.notes.len(), 0);

    // FundingProgramAnnotation
    assert_eq!(stored.chunks[20].address, 0);
    assert_eq!(
        stored.chunks[20].parent,
        Some(Parent {
            address: 1,
            variety: Rank::FundingProgram
        })
    );
    assert_eq!(
        stored.chunks[20].body.notes.notes.len(),
        test.funding.funding_options[1].annotation.notes.len()
    ); // empty field
    assert_eq!(stored.chunks[20].body.notes.notes.len(), 0); // empty field

    // FundingProgramHyperlink
    assert_eq!(stored.chunks[21].address, 1);
    assert_eq!(
        stored.chunks[21].parent,
        Some(Parent {
            address: 1,
            variety: Rank::FundingProgram
        })
    );
    assert_eq!(
        stored.chunks[21].body.phrase,
        test.funding.funding_options[1].hyperlink
    );
    assert_eq!(stored.chunks[21].body.phrase, "".to_string()); // empty field

    // FundingProgramDeadline
    assert_eq!(stored.chunks[22].address, 2);
    assert_eq!(
        stored.chunks[22].parent,
        Some(Parent {
            address: 1,
            variety: Rank::FundingProgram
        })
    );
    assert_eq!(
        stored.chunks[22].body.date.year,
        test.funding.funding_options[0].deadline.year
    ); // default deadline
    assert_eq!(
        stored.chunks[22].body.date.month,
        test.funding.funding_options[0].deadline.month
    ); // default deadline
    assert_eq!(
        stored.chunks[22].body.date.day,
        test.funding.funding_options[0].deadline.day
    ); // default deadline

    // Fields not used by this chunk stay at their empty defaults.
    assert_eq!(stored.chunks[22].body.phrase, "".to_string());
    assert_eq!(stored.chunks[22].body.notes.notes.len(), 0);

    // Scope
    assert_eq!(stored.chunks[23].address, 3);
    assert_eq!(stored.chunks[23].parent, None);
    assert_eq!(stored.chunks[23].visible, test.scope.visible);
    assert_eq!(stored.chunks[23].title, test.scope.title);
    assert_eq!(
        stored.chunks[23].title,
        "Project Scope: Objectives and Planned Activities".to_string()
    );

    // ScopeSuggestedTasks
    assert_eq!(
        stored.chunks[24].body.notes.notes.len(),
        test.scope.suggested_tasks.notes.len()
    );
    assert_eq!(
        stored.chunks[24].body.notes.notes[0].note,
        test.scope.suggested_tasks.notes[0].note
    );
    assert_eq!(
        stored.chunks[24].body.notes.notes[0].note,
        "Suggested Tasks note 1".to_string()
    );

    // ScopeObjectives
    assert_eq!(
        stored.chunks[25].body.notes.notes.len(),
        test.scope.objectives.notes.len()
    );
    assert_eq!(
        stored.chunks[25].body.notes.notes[0].visible,
        test.scope.objectives.notes[0].visible
    );
    assert_eq!(
        stored.chunks[25].body.notes.notes[0].note,
        test.scope.objectives.notes[0].note
    );
    assert_eq!(
        stored.chunks[25].body.notes.notes[0].note,
        "Objectives note 1".to_string()
    );

    // ScopeActivities
    assert_eq!(
        stored.chunks[26].body.notes.notes.len(),
        test.scope.activities.notes.len()
    );
    assert_eq!(
        stored.chunks[26].body.notes.notes[0].visible,
        test.scope.activities.notes[0].visible
    );
    assert_eq!(
        stored.chunks[26].body.notes.notes[0].note,
        test.scope.activities.notes[0].note
    );
    assert_eq!(
        stored.chunks[26].body.notes.notes[0].note,
        "Activities note 1".to_string()
    );

    // ScopeWorkPlan
    assert_eq!(
        stored.chunks[27].body.notes.notes.len(),
        test.scope.work_plan.notes.len()
    );
    assert_eq!(
        stored.chunks[27].body.notes.notes[0].visible,
        test.scope.work_plan.notes[0].visible
    );
    assert_eq!(
        stored.chunks[27].body.notes.notes[0].note,
        test.scope.work_plan.notes[0].note
    );
    assert_eq!(
        stored.chunks[27].body.notes.notes[0].note,
        "Work Plan note 1".to_string()
    );

    // ScopeTasks
    assert_eq!(
        stored.chunks[28].body.notes.notes.len(),
        test.scope.tasks.notes.len()
    );
    assert_eq!(
        stored.chunks[28].body.notes.notes[0].visible,
        test.scope.tasks.notes[0].visible
    );
    assert_eq!(
        stored.chunks[28].body.notes.notes[0].note,
        test.scope.tasks.notes[0].note
    );
    assert_eq!(
        stored.chunks[28].body.notes.notes[0].note,
        "Tasks note 1".to_string()
    );

    // Timeline
    assert_eq!(stored.chunks[29].address, 4);
    assert_eq!(stored.chunks[29].parent, None);
    assert_eq!(stored.chunks[29].visible, test.timeline.visible);
    assert_eq!(stored.chunks[29].title, test.timeline.title);
    assert_eq!(stored.chunks[29].title, "Timeline".to_string());

    // TimelineProjectTiming - ProjectStart
    assert_eq!(
        stored.chunks[30].body.date.year,
        test.timeline.project_start.year
    );
    assert_eq!(
        stored.chunks[30].body.date.month,
        test.timeline.project_start.month
    );
    assert_eq!(
        stored.chunks[30].body.date.day,
        test.timeline.project_start.day
    );
    assert_eq!(
        stored.chunks[30].body.date.year,
        test.timeline.project_start.year
    );
    assert_eq!(
        stored.chunks[30].body.date.month,
        test.timeline.project_start.month
    );
    assert_eq!(
        stored.chunks[30].body.date.day,
        test.timeline.project_start.day
    );

    // TimelineProjectTiming - ProjectDuration
    assert_eq!(stored.chunks[31].body.numeral, test.timeline.duration_years);
    assert_eq!(stored.chunks[31].body.numeral, Numeral { bits: 4.5f32.to_bits() });

    // TimelineMilestones
    assert_eq!(
        stored.chunks[32].body.notes.notes.len(),
        test.timeline.milestones.notes.len()
    );
    assert_eq!(
        stored.chunks[32].body.notes.notes[0].visible,
        test.timeline.milestones.notes[0].visible
    );
    assert_eq!(
        stored.chunks[32].body.notes.notes[0].note,
        test.timeline.milestones.notes[0].note
    );
    assert_eq!(
        stored.chunks[32].body.notes.notes[0].note,
        "Milestones note 1".to_string()
    );

    // Scripting
    assert_eq!(stored.chunks[33].address, 5);
    assert_eq!(stored.chunks[33].parent, None);
    assert_eq!(stored.chunks[33].visible, test.scripting.visible);
    assert_eq!(stored.chunks[33].title, test.scripting.title);
    assert_eq!(
        stored.chunks[33].title,
        "Who Will Write The Project Proposal".to_string()
    );

    // Scripting - ScriptingOption
    assert_eq!(stored.chunks[34].body.option, test.scripting.answer);
    assert_eq!(stored.chunks[34].body.option, ScriptingOption::Jointly);

    // Scripting - ScriptingNotes
    assert_eq!(
        stored.chunks[35].body.notes.notes.len(),
        test.scripting.scripting.notes.len()
    );
    assert_eq!(
        stored.chunks[35].body.notes.notes[0].visible,
        test.scripting.scripting.notes[0].visible
    );
    assert_eq!(
        stored.chunks[35].body.notes.notes[0].note,
        test.scripting.scripting.notes[0].note
    );
    assert_eq!(
        stored.chunks[35].body.notes.notes[0].note,
        "Scripting Option note 1".to_string()
    );

    nn = 35;
    nn += 1;

    // Team
    assert_eq!(stored.chunks[nn].address, 6);
    assert_eq!(stored.chunks[nn].parent, None);
    assert_eq!(stored.chunks[nn].visible, test.team.visible);
    assert_eq!(stored.chunks[nn].title, test.team.title);
    assert_eq!(stored.chunks[nn].title, "Team".to_string());

    nn += 1;

    // TeamProposedPartners
    assert_eq!(stored.chunks[nn].address, 0);
    assert_eq!(
        stored.chunks[nn].parent,
        Some(Parent {
            address: 6,
            variety: Rank::Top
        })
    );
    assert_eq!(
        stored.chunks[nn].body.notes.notes.len(),
        test.team.proposed_partners.notes.len()
    );
    assert_eq!(
        stored.chunks[nn].body.notes.notes[0].visible,
        test.team.proposed_partners.notes[0].visible
    );
    assert_eq!(
        stored.chunks[nn].body.notes.notes[0].note,
        test.team.proposed_partners.notes[0].note
    );
    assert_eq!(
        stored.chunks[nn].body.notes.notes[0].note,
        "Proposed Partners note 1".to_string()
    );

    nn += 1;

    // TeamProjectLeader
    assert_eq!(stored.chunks[nn].address, 1);
    assert_eq!(
        stored.chunks[nn].parent,
        Some(Parent {
            address: 6,
            variety: Rank::Top
        })
    );
    assert_eq!(
        stored.chunks[nn].body.notes.notes.len(),
        test.team.project_leader.notes.len()
    );
    assert_eq!(
        stored.chunks[nn].body.notes.notes[0].visible,
        test.team.project_leader.notes[0].visible
    );
    assert_eq!(
        stored.chunks[nn].body.notes.notes[0].note,
        test.team.project_leader.notes[0].note
    );
    assert_eq!(
        stored.chunks[nn].body.notes.notes[0].note,
        "Project Leader note 1".to_string()
    );

    nn += 1;

    // TeamIndustrialPartners
    assert_eq!(stored.chunks[nn].address, 2);
    assert_eq!(
        stored.chunks[nn].parent,
        Some(Parent {
            address: 6,
            variety: Rank::Top
        })
    );
    assert_eq!(
        stored.chunks[nn].body.notes.notes.len(),
        test.team.industrial_partners.notes.len()
    );
    assert_eq!(
        stored.chunks[nn].body.notes.notes[0].visible,
        test.team.industrial_partners.notes[0].visible
    );
    assert_eq!(
        stored.chunks[nn].body.notes.notes[0].note,
        test.team.industrial_partners.notes[0].note
    );
    assert_eq!(
        stored.chunks[nn].body.notes.notes[0].note,
        "Industrial Partners note 1".to_string()
    );

    nn += 1;

    // TeamProponents
    assert_eq!(stored.chunks[nn].address, 3);
    assert_eq!(
        stored.chunks[nn].parent,
        Some(Parent {
            address: 6,
            variety: Rank::Top
        })
    );
    assert_eq!(
        stored.chunks[nn].body.notes.notes.len(),
        test.team.proponents.notes.len()
    );
    assert_eq!(
        stored.chunks[nn].body.notes.notes[0].visible,
        test.team.proponents.notes[0].visible
    );
    assert_eq!(
        stored.chunks[nn].body.notes.notes[0].note,
        test.team.proponents.notes[0].note
    );
    assert_eq!(
        stored.chunks[nn].body.notes.notes[0].note,
        "Proponents note 1".to_string()
    );

    nn += 1;

    // TeamParticipantsPartner
    assert_eq!(stored.chunks[nn].address, 0);
    assert_eq!(
        stored.chunks[nn].parent,
        Some(Parent {
            address: 4,
            variety: Rank::TeamParticipants
        })
    );
    assert_eq!(stored.chunks[nn].visible, test.team.participants[0].visible);
    assert_eq!(stored.chunks[nn].title, test.team.participants[0].name);
    assert_eq!(stored.chunks[nn].title, "Partner 1 Name".to_string());

    nn += 1;

    // TeamParticipantsPartner - Role
    assert_eq!(stored.chunks[nn].address, 0);
    assert_eq!(
        stored.chunks[nn].parent,
        Some(Parent {
            address: 0,
            variety: Rank::TeamParticipantsPartner
        })
    );
    assert_eq!(
        stored.chunks[nn].body.phrase,
        test.team.participants[0].role
    );
    assert_eq!(stored.chunks[nn].body.phrase, "Partner 1 role".to_string());

    nn += 1;

    // TeamParticipantsPartner - Affiliation
    assert_eq!(stored.chunks[nn].address, 1);
    assert_eq!(
        stored.chunks[nn].parent,
        Some(Parent {
            address: 0,
            variety: Rank::TeamParticipantsPartner
        })
    );
    assert_eq!(
        stored.chunks[nn].body.phrase,
        test.team.participants[0].affiliation
    );
    assert_eq!(
        stored.chunks[nn].body.phrase,
        "Partner 1 affiliation".to_string()
    );

    nn += 1;

    // TeamParticipantsPartner - Hyperlink
    assert_eq!(stored.chunks[nn].address, 2);
    assert_eq!(
        stored.chunks[nn].parent,
        Some(Parent {
            address: 0,
            variety: Rank::TeamParticipantsPartner
        })
    );
    assert_eq!(
        stored.chunks[nn].body.phrase,
        test.team.participants[0].hyperlink
    );
    assert_eq!(
        stored.chunks[nn].body.phrase,
        "Partner 1 hyperlink".to_string()
    );

    nn += 1;

    // TeamParticipantsPartner - Country
    assert_eq!(stored.chunks[nn].address, 3);
    assert_eq!(
        stored.chunks[nn].parent,
        Some(Parent {
            address: 0,
            variety: Rank::TeamParticipantsPartner
        })
    );
    assert_eq!(
        stored.chunks[nn].body.phrase,
        test.team.participants[0].country
    );
    assert_eq!(
        stored.chunks[nn].body.phrase,
        "Partner 1 country".to_string()
    );

    nn += 1;

    // TeamParticipantsPartner - Expertise
    assert_eq!(stored.chunks[nn].address, 4);
    assert_eq!(
        stored.chunks[nn].parent,
        Some(Parent {
            address: 0,
            variety: Rank::TeamParticipantsPartner
        })
    );
    assert_eq!(
        stored.chunks[nn].body.phrase,
        test.team.participants[0].expertise
    );
    assert_eq!(
        stored.chunks[nn].body.phrase,
        "Partner 1 expertise".to_string()
    );

    nn += 1;

    // TeamParticipantsPartner - Contribution
    assert_eq!(stored.chunks[nn].address, 5);
    assert_eq!(
        stored.chunks[nn].parent,
        Some(Parent {
            address: 0,
            variety: Rank::TeamParticipantsPartner
        })
    );
    assert_eq!(
        stored.chunks[nn].body.notes.notes.len(),
        test.team.participants[0].contribution.notes.len()
    );
    assert_eq!(
        stored.chunks[nn].body.notes.notes[0].visible,
        test.team.participants[0].contribution.notes[0].visible
    );
    assert_eq!(
        stored.chunks[nn].body.notes.notes[0].note,
        test.team.participants[0].contribution.notes[0].note
    );
    assert_eq!(
        stored.chunks[nn].body.notes.notes[0].note,
        "Partner 1 contribution note 1".to_string()
    );

    nn += 1;

    // TeamParticipantsPartner - Team
    assert_eq!(stored.chunks[nn].address, 6);
    assert_eq!(
        stored.chunks[nn].parent,
        Some(Parent {
            address: 0,
            variety: Rank::TeamParticipantsPartner
        })
    );
    assert_eq!(
        stored.chunks[nn].body.notes.notes.len(),
        test.team.participants[0].team.notes.len()
    );
    assert_eq!(
        stored.chunks[nn].body.notes.notes[0].visible,
        test.team.participants[0].team.notes[0].visible
    );
    assert_eq!(
        stored.chunks[nn].body.notes.notes[0].note,
        test.team.participants[0].team.notes[0].note
    );
    assert_eq!(
        stored.chunks[nn].body.notes.notes[0].note,
        "Partner 1 team note 1".to_string()
    );

    nn += 1;

    // TeamParticipantsPartner - CV
    assert_eq!(stored.chunks[nn].address, 7);
    assert_eq!(
        stored.chunks[nn].parent,
        Some(Parent {
            address: 0,
            variety: Rank::TeamParticipantsPartner
        })
    );
    assert_eq!(
        stored.chunks[nn].body.notes.notes.len(),
        test.team.participants[0].cv.notes.len()
    );
    assert_eq!(
        stored.chunks[nn].body.notes.notes[0].visible,
        test.team.participants[0].cv.notes[0].visible
    );
    assert_eq!(
        stored.chunks[nn].body.notes.notes[0].note,
        test.team.participants[0].cv.notes[0].note
    );
    assert_eq!(
        stored.chunks[nn].body.notes.notes[0].note,
        "Partner 1 CV note 1".to_string()
    );

    nn += 1;

    // TeamParticipantsPartner - Resources
    assert_eq!(stored.chunks[nn].address, 8);
    assert_eq!(
        stored.chunks[nn].parent,
        Some(Parent {
            address: 0,
            variety: Rank::TeamParticipantsPartner
        })
    );
    assert_eq!(
        stored.chunks[nn].body.notes.notes.len(),
        test.team.participants[0].resources.notes.len()
    );
    assert_eq!(
        stored.chunks[nn].body.notes.notes[0].visible,
        test.team.participants[0].resources.notes[0].visible
    );
    assert_eq!(
        stored.chunks[nn].body.notes.notes[0].note,
        test.team.participants[0].resources.notes[0].note
    );
    assert_eq!(
        stored.chunks[nn].body.notes.notes[0].note,
        "Partner 1 resources note 1".to_string()
    );

    nn += 1;

    // TeamParticipantsPartner - Budget
    assert_eq!(stored.chunks[nn].address, 9);
    assert_eq!(
        stored.chunks[nn].parent,
        Some(Parent {
            address: 0,
            variety: Rank::TeamParticipantsPartner
        })
    );
    assert_eq!(
        stored.chunks[nn].body.notes.notes.len(),
        test.team.participants[0].budget.notes.len()
    );
    assert_eq!(
        stored.chunks[nn].body.notes.notes[0].visible,
        test.team.participants[0].budget.notes[0].visible
    );
    assert_eq!(
        stored.chunks[nn].body.notes.notes[0].note,
        test.team.participants[0].budget.notes[0].note
    );
    assert_eq!(
        stored.chunks[nn].body.notes.notes[0].note,
        "Partner 1 budget note 1".to_string()
    );

    nn += 1;
    // ~~~~~~~~~~~~~~~~~~~~~~~~~~~~~~

    // TeamParticipantsPartner
    assert_eq!(stored.chunks[nn].address, 1);
    assert_eq!(
        stored.chunks[nn].parent,
        Some(Parent {
            address: 4,
            variety: Rank::TeamParticipants
        })
    );
    assert_eq!(stored.chunks[nn].visible, test.team.participants[1].visible);
    assert_eq!(stored.chunks[nn].title, test.team.participants[1].name);
    assert_eq!(stored.chunks[nn].title, "Partner 2 Name".to_string());

    nn += 1;

    // TeamParticipantsPartner - Role
    assert_eq!(stored.chunks[nn].address, 0);
    assert_eq!(
        stored.chunks[nn].parent,
        Some(Parent {
            address: 1,
            variety: Rank::TeamParticipantsPartner
        })
    );
    assert_eq!(
        stored.chunks[nn].body.phrase,
        test.team.participants[1].role
    );
    assert_eq!(stored.chunks[nn].body.phrase, "Partner 2 role".to_string());

    nn += 1;

    // TeamParticipantsPartner - Affiliation
    assert_eq!(stored.chunks[nn].address, 1);
    assert_eq!(
        stored.chunks[nn].parent,
        Some(Parent {
            address: 1,
            variety: Rank::TeamParticipantsPartner
        })
    );
    assert_eq!(
        stored.chunks[nn].body.phrase,
        test.team.participants[1].affiliation
    );
    assert_eq!(
        stored.chunks[nn].body.phrase,
        "Partner 2 affiliation".to_string()
    );

    nn += 1;

    // TeamParticipantsPartner - Hyperlink
    assert_eq!(stored.chunks[nn].address, 2);
    assert_eq!(
        stored.chunks[nn].parent,
        Some(Parent {
            address: 1,
            variety: Rank::TeamParticipantsPartner
        })
    );
    assert_eq!(
        stored.chunks[nn].body.phrase,
        test.team.participants[1].hyperlink
    );
    assert_eq!(
        stored.chunks[nn].body.phrase,
        "Partner 2 hyperlink".to_string()
    );

    nn += 1;

    // TeamParticipantsPartner - Country
    assert_eq!(stored.chunks[nn].address, 3);
    assert_eq!(
        stored.chunks[nn].parent,
        Some(Parent {
            address: 1,
            variety: Rank::TeamParticipantsPartner
        })
    );
    assert_eq!(
        stored.chunks[nn].body.phrase,
        test.team.participants[1].country
    );
    assert_eq!(
        stored.chunks[nn].body.phrase,
        "Partner 2 country".to_string()
    );

    nn += 1;

    // TeamParticipantsPartner - Expertise
    assert_eq!(stored.chunks[nn].address, 4);
    assert_eq!(
        stored.chunks[nn].parent,
        Some(Parent {
            address: 1,
            variety: Rank::TeamParticipantsPartner
        })
    );
    assert_eq!(
        stored.chunks[nn].body.phrase,
        test.team.participants[1].expertise
    );
    assert_eq!(
        stored.chunks[nn].body.phrase,
        "Partner 2 expertise".to_string()
    );

    nn += 1;

    // TeamParticipantsPartner - Contribution
    assert_eq!(stored.chunks[nn].address, 5);
    assert_eq!(
        stored.chunks[nn].parent,
        Some(Parent {
            address: 1,
            variety: Rank::TeamParticipantsPartner
        })
    );
    assert_eq!(
        stored.chunks[nn].body.notes.notes.len(),
        test.team.participants[1].contribution.notes.len()
    );
    assert_eq!(
        stored.chunks[nn].body.notes.notes[0].visible,
        test.team.participants[1].contribution.notes[0].visible
    );
    assert_eq!(
        stored.chunks[nn].body.notes.notes[0].note,
        test.team.participants[1].contribution.notes[0].note
    );
    assert_eq!(
        stored.chunks[nn].body.notes.notes[0].note,
        "Partner 2 contribution note 1".to_string()
    );

    nn += 1;

    // TeamParticipantsPartner - Team
    assert_eq!(stored.chunks[nn].address, 6);
    assert_eq!(
        stored.chunks[nn].parent,
        Some(Parent {
            address: 1,
            variety: Rank::TeamParticipantsPartner
        })
    );
    assert_eq!(
        stored.chunks[nn].body.notes.notes.len(),
        test.team.participants[1].team.notes.len()
    );
    assert_eq!(
        stored.chunks[nn].body.notes.notes[0].visible,
        test.team.participants[1].team.notes[0].visible
    );
    assert_eq!(
        stored.chunks[nn].body.notes.notes[0].note,
        test.team.participants[1].team.notes[0].note
    );
    assert_eq!(
        stored.chunks[nn].body.notes.notes[0].note,
        "Partner 2 team note 1".to_string()
    );

    nn += 1;

    // TeamParticipantsPartner - CV
    assert_eq!(stored.chunks[nn].address, 7);
    assert_eq!(
        stored.chunks[nn].parent,
        Some(Parent {
            address: 1,
            variety: Rank::TeamParticipantsPartner
        })
    );
    assert_eq!(
        stored.chunks[nn].body.notes.notes.len(),
        test.team.participants[1].cv.notes.len()
    );
    assert_eq!(
        stored.chunks[nn].body.notes.notes[0].visible,
        test.team.participants[1].cv.notes[0].visible
    );
    assert_eq!(
        stored.chunks[nn].body.notes.notes[0].note,
        test.team.participants[1].cv.notes[0].note
    );
    assert_eq!(
        stored.chunks[nn].body.notes.notes[0].note,
        "Partner 2 CV note 1".to_string()
    );

    nn += 1;

    // TeamParticipantsPartner - Resources
    assert_eq!(stored.chunks[nn].address, 8);
    assert_eq!(
        stored.chunks[nn].parent,
        Some(Parent {
            address: 1,
            variety: Rank::TeamParticipantsPartner
        })
    );
    assert_eq!(
        stored.chunks[nn].body.notes.notes.len(),
        test.team.participants[1].resources.notes.len()
    );
    assert_eq!(
        stored.chunks[nn].body.notes.notes[0].visible,
        test.team.participants[1].resources.notes[0].visible
    );
    assert_eq!(
        stored.chunks[nn].body.notes.notes[0].note,
        test.team.participants[1].resources.notes[0].note
    );
    assert_eq!(
        stored.chunks[nn].body.notes.notes[0].note,
        "Partner 2 resources note 1".to_string()
    );

    nn += 1;

    // TeamParticipantsPartner - Budget
    assert_eq!(stored.chunks[nn].address, 9);
    assert_eq!(
        stored.chunks[nn].parent,
        Some(Parent {
            address: 1,
            variety: Rank::TeamParticipantsPartner
        })
    );
    assert_eq!(
        stored.chunks[nn].body.notes.notes.len(),
        test.team.participants[1].budget.notes.len()
    );
    assert_eq!(
        stored.chunks[nn].body.notes.notes[0].visible,
        test.team.participants[1].budget.notes[0].visible
    );
    assert_eq!(
        stored.chunks[nn].body.notes.notes[0].note,
        test.team.participants[1].budget.notes[0].note
    );
    assert_eq!(
        stored.chunks[nn].body.notes.notes[0].note,
        "Partner 2 budget note 1".to_string()
    );

    nn += 1;

    // PrelimResults
    assert_eq!(stored.chunks[nn].address, 7);
    assert_eq!(stored.chunks[nn].parent, None);
    assert_eq!(stored.chunks[nn].visible, test.prelim_results.visible);
    assert_eq!(stored.chunks[nn].title, test.prelim_results.title);
    assert_eq!(stored.chunks[nn].title, "Preliminary Results".to_string());

    nn += 1;

    // PrelimResults
    assert_eq!(stored.chunks[nn].address, 0);
    assert_eq!(
        stored.chunks[nn].parent,
        Some(Parent {
            address: 7,
            variety: Rank::Top
        })
    );
    assert_eq!(
        stored.chunks[nn].body.notes.notes.len(),
        test.prelim_results.prelim_results.notes.len()
    );
    assert_eq!(
        stored.chunks[nn].body.notes.notes[0].visible,
        test.prelim_results.prelim_results.notes[0].visible
    );
    assert_eq!(
        stored.chunks[nn].body.notes.notes[0].note,
        test.prelim_results.prelim_results.notes[0].note
    );
    assert_eq!(
        stored.chunks[nn].body.notes.notes[0].note,
        "Preliminary Results note 1".to_string()
    );

    nn += 1;

    // Methodology
    assert_eq!(stored.chunks[nn].address, 8);
    assert_eq!(stored.chunks[nn].parent, None);
    assert_eq!(stored.chunks[nn].visible, test.methodology.visible);
    assert_eq!(stored.chunks[nn].title, test.methodology.title);
    assert_eq!(stored.chunks[nn].title, "Research Methodology".to_string());

    nn += 1;

    // Methodology
    assert_eq!(stored.chunks[nn].address, 0);
    assert_eq!(
        stored.chunks[nn].parent,
        Some(Parent {
            address: 8,
            variety: Rank::Top
        })
    );
    assert_eq!(
        stored.chunks[nn].body.notes.notes.len(),
        test.methodology.methodology.notes.len()
    );
    assert_eq!(
        stored.chunks[nn].body.notes.notes[0].visible,
        test.methodology.methodology.notes[0].visible
    );
    assert_eq!(
        stored.chunks[nn].body.notes.notes[0].note,
        test.methodology.methodology.notes[0].note
    );
    assert_eq!(
        stored.chunks[nn].body.notes.notes[0].note,
        "Methodology note 1".to_string()
    );

    nn += 1;

    // Outcomes
    assert_eq!(stored.chunks[nn].address, 9);
    assert_eq!(stored.chunks[nn].parent, None);
    assert_eq!(stored.chunks[nn].visible, test.outcomes.visible);
    assert_eq!(stored.chunks[nn].title, test.outcomes.title);
    assert_eq!(
        stored.chunks[nn].title,
        "Expected Results, Impact and Dissemination".to_string()
    );

    nn += 1;

    // Outcomes - Expected Results
    assert_eq!(stored.chunks[nn].address, 0);
    assert_eq!(
        stored.chunks[nn].parent,
        Some(Parent {
            address: 9,
            variety: Rank::Top
        })
    );
    assert_eq!(
        stored.chunks[nn].body.notes.notes.len(),
        test.outcomes.results.notes.len()
    );
    assert_eq!(
        stored.chunks[nn].body.notes.notes[0].visible,
        test.outcomes.results.notes[0].visible
    );
    assert_eq!(
        stored.chunks[nn].body.notes.notes[0].note,
        test.outcomes.results.notes[0].note
    );
    assert_eq!(
        stored.chunks[nn].body.notes.notes[0].note,
        "Expected Results note 1".to_string()
    );

    nn += 1;

    // Outcomes - Impact
    assert_eq!(stored.chunks[nn].address, 1);
    assert_eq!(
        stored.chunks[nn].parent,
        Some(Parent {
            address: 9,
            variety: Rank::Top
        })
    );
    assert_eq!(
        stored.chunks[nn].body.notes.notes.len(),
        test.outcomes.impact.notes.len()
    );
    assert_eq!(
        stored.chunks[nn].body.notes.notes[0].visible,
        test.outcomes.impact.notes[0].visible
    );
    assert_eq!(
        stored.chunks[nn].body.notes.notes[0].note,
        test.outcomes.impact.notes[0].note
    );
    assert_eq!(
        stored.chunks[nn].body.notes.notes[0].note,
        "Impact note 1".to_string()
    );

    nn += 1;

    // Outcomes - Propagation
    assert_eq!(stored.chunks[nn].address, 2);
    assert_eq!(
        stored.chunks[nn].parent,
        Some(Parent {
            address: 9,
            variety: Rank::Top
        })
    );
    assert_eq!(
        stored.chunks[nn].body.notes.notes.len(),
        test.outcomes.propagation.notes.len()
    );
    assert_eq!(
        stored.chunks[nn].body.notes.notes[0].visible,
        test.outcomes.propagation.notes[0].visible
    );
    assert_eq!(
        stored.chunks[nn].body.notes.notes[0].note,
        test.outcomes.propagation.notes[0].note
    );
    assert_eq!(
        stored.chunks[nn].body.notes.notes[0].note,
        "Propagation note 1".to_string()
    );

    nn += 1;

    // Literature
    assert_eq!(stored.chunks[nn].address, 10);
    assert_eq!(stored.chunks[nn].parent, None);
    assert_eq!(stored.chunks[nn].visible, test.literature.visible);
    assert_eq!(stored.chunks[nn].title, test.literature.title);
    assert_eq!(stored.chunks[nn].title, "Literature Survey".to_string());

    nn += 1;

    // Literature Survey
    assert_eq!(stored.chunks[nn].address, 0);
    assert_eq!(
        stored.chunks[nn].parent,
        Some(Parent {
            address: 10,
            variety: Rank::Top
        })
    );
    assert_eq!(
        stored.chunks[nn].body.notes.notes.len(),
        test.literature.literature_survey.notes.len()
    );
    assert_eq!(
        stored.chunks[nn].body.notes.notes[0].visible,
        test.literature.literature_survey.notes[0].visible
    );
    assert_eq!(
        stored.chunks[nn].body.notes.notes[0].note,
        test.literature.literature_survey.notes[0].note
    );
    assert_eq!(
        stored.chunks[nn].body.notes.notes[0].note,
        "Literature Survey note 1".to_string()
    );

    nn += 1;

    // Literature Sources - Bibliography
    assert_eq!(stored.chunks[nn].address, 0);
    assert_eq!(
        stored.chunks[nn].parent,
        Some(Parent {
            address: 1,
            variety: Rank::LiteratureSources
        })
    );
    assert_eq!(
        stored.chunks[nn].visible,
        test.literature.references[0].visible
    );
    assert_eq!(stored.chunks[nn].title, test.literature.references[0].title);
    assert_eq!(stored.chunks[nn].title, "Literature source 1".to_string());

    nn += 1;

    // LiteratureSourcesCitation - Hyperlink
    assert_eq!(stored.chunks[nn].address, 0);
    assert_eq!(
        stored.chunks[nn].parent,
        Some(Parent {
            address: 0,
            variety: Rank::LiteratureSourcesCitation
        })
    );
    assert_eq!(
        stored.chunks[nn].visible,
        test.literature.references[0].visible
    );
    assert_eq!(
        stored.chunks[nn].body.phrase,
        test.literature.references[0].hyperlink
    );
    assert_eq!(
        stored.chunks[nn].body.phrase,
        "Literature link source 1".to_string()
    );

    nn += 1;

    // LiteratureSourcesCitation - Details
    assert_eq!(stored.chunks[nn].address, 1);
    assert_eq!(
        stored.chunks[nn].parent,
        Some(Parent {
            address: 0,
            variety: Rank::LiteratureSourcesCitation
        })
    );
    assert_eq!(
        stored.chunks[nn].body.notes.notes.len(),
        test.literature.references[0].source_details.notes.len()
    );
    assert_eq!(
        stored.chunks[nn].body.notes.notes[0].visible,
        test.literature.references[0].source_details.notes[0].visible
    );
    assert_eq!(
        stored.chunks[nn].body.notes.notes[0].note,
        test.literature.references[0].source_details.notes[0].note
    );
    assert_eq!(
        stored.chunks[nn].body.notes.notes[0].note,
        "Literature Source 1 details".to_string()
    );

    nn += 1;
    // ~~~~~~~~~~~~~~~~~~~~~~~~~~~~~~~~~~

    // Literature Sources - Bibliography
    assert_eq!(stored.chunks[nn].address, 1);
    assert_eq!(
        stored.chunks[nn].parent,
        Some(Parent {
            address: 1,
            variety: Rank::LiteratureSources
        })
    );
    assert_eq!(
        stored.chunks[nn].visible,
        test.literature.references[1].visible
    );
    assert_eq!(stored.chunks[nn].title, test.literature.references[1].title);
    assert_eq!(stored.chunks[nn].title, "Literature source 2".to_string());

    nn += 1;

    // LiteratureSourcesCitation - Hyperlink
    assert_eq!(stored.chunks[nn].address, 0);
    assert_eq!(
        stored.chunks[nn].parent,
        Some(Parent {
            address: 1,
            variety: Rank::LiteratureSourcesCitation
        })
    );
    assert_eq!(
        stored.chunks[nn].visible,
        test.literature.references[1].visible
    );
    assert_eq!(
        stored.chunks[nn].body.phrase,
        test.literature.references[1].hyperlink
    );
    assert_eq!(
        stored.chunks[nn].body.phrase,
        "Literature link source 2".to_string()
    );

    nn += 1;

    // LiteratureSourcesCitation - Details
    assert_eq!(stored.chunks[nn].address, 1);
    assert_eq!(
        stored.chunks[nn].parent,
        Some(Parent {
            address: 1,
            variety: Rank::LiteratureSourcesCitation
        })
    );
    assert_eq!(
        stored.chunks[nn].body.notes.notes.len(),
        test.literature.references[1].source_details.notes.len()
    );
    assert_eq!(
        stored.chunks[nn].body.notes.notes[0].visible,
        test.literature.references[1].source_details.notes[0].visible
    );
    assert_eq!(
        stored.chunks[nn].body.notes.notes[0].note,
        test.literature.references[1].source_details.notes[0].note
    );
    assert_eq!(
        stored.chunks[nn].body.notes.notes[0].note,
        "Literature Source 2 details".to_string()
    );

    nn += 1;

    // Resources
    assert_eq!(stored.chunks[nn].address, 11);
    assert_eq!(stored.chunks[nn].parent, None);
    assert_eq!(stored.chunks[nn].visible, test.resources.visible);
    assert_eq!(stored.chunks[nn].title, test.resources.title);
    assert_eq!(stored.chunks[nn].title, "Resources".to_string());

    nn += 1;

    // Resources - Existing
    assert_eq!(stored.chunks[nn].address, 0);
    assert_eq!(
        stored.chunks[nn].parent,
        Some(Parent {
            address: 11,
            variety: Rank::Top
        })
    );
    assert_eq!(
        stored.chunks[nn].body.notes.notes.len(),
        test.resources.existing.notes.len()
    );
    assert_eq!(
        stored.chunks[nn].body.notes.notes[0].visible,
        test.resources.existing.notes[0].visible
    );
    assert_eq!(
        stored.chunks[nn].body.notes.notes[0].note,
        test.resources.existing.notes[0].note
    );
    assert_eq!(
        stored.chunks[nn].body.notes.notes[0].note,
        "Existing Resources note 1".to_string()
    );

    nn += 1;

    // Resources - Additional
    assert_eq!(stored.chunks[nn].address, 1);
    assert_eq!(
        stored.chunks[nn].parent,
        Some(Parent {
            address: 11,
            variety: Rank::Top
        })
    );
    assert_eq!(
        stored.chunks[nn].body.notes.notes.len(),
        test.resources.further.notes.len()
    );
    assert_eq!(
        stored.chunks[nn].body.notes.notes[0].visible,
        test.resources.further.notes[0].visible
    );
    assert_eq!(
        stored.chunks[nn].body.notes.notes[0].note,
        test.resources.further.notes[0].note
    );
    assert_eq!(
        stored.chunks[nn].body.notes.notes[0].note,
        "Additional Resources note 1".to_string()
    );

    nn += 1;

    // Budget
    assert_eq!(stored.chunks[nn].address, 12);
    assert_eq!(stored.chunks[nn].parent, None);
    assert_eq!(stored.chunks[nn].visible, test.budget.visible);
    assert_eq!(stored.chunks[nn].title, test.budget.title);
    assert_eq!(stored.chunks[nn].title, "Budget Estimates".to_string());

    nn += 1;

    // Budget - Personnel
    assert_eq!(stored.chunks[nn].address, 0);
    assert_eq!(
        stored.chunks[nn].parent,
        Some(Parent {
            address: 12,
            variety: Rank::Top
        })
    );
    assert_eq!(
        stored.chunks[nn].body.notes.notes.len(),
        test.budget.personnel.notes.len()
    );
    assert_eq!(
        stored.chunks[nn].body.notes.notes[0].visible,
        test.budget.personnel.notes[0].visible
    );
    assert_eq!(
        stored.chunks[nn].body.notes.notes[0].note,
        test.budget.personnel.notes[0].note
    );
    assert_eq!(
        stored.chunks[nn].body.notes.notes[0].note,
        "Budget Personnel note 1".to_string()
    );

    nn += 1;

    // Budget - Facilities
    assert_eq!(stored.chunks[nn].address, 1);
    assert_eq!(
        stored.chunks[nn].parent,
        Some(Parent {
            address: 12,
            variety: Rank::Top
        })
    );
    assert_eq!(
        stored.chunks[nn].body.notes.notes.len(),
        test.budget.facilities.notes.len()
    );
    assert_eq!(
        stored.chunks[nn].body.notes.notes[0].visible,
        test.budget.facilities.notes[0].visible
    );
    assert_eq!(
        stored.chunks[nn].body.notes.notes[0].note,
        test.budget.facilities.notes[0].note
    );
    assert_eq!(
        stored.chunks[nn].body.notes.notes[0].note,
        "Budget Facilities note 1".to_string()
    );

    nn += 1;

    // Budget - Materials
    assert_eq!(stored.chunks[nn].address, 2);
    assert_eq!(
        stored.chunks[nn].parent,
        Some(Parent {
            address: 12,
            variety: Rank::Top
        })
    );
    assert_eq!(
        stored.chunks[nn].body.notes.notes.len(),
        test.budget.materials.notes.len()
    );
    assert_eq!(
        stored.chunks[nn].body.notes.notes[0].visible,
        test.budget.materials.notes[0].visible
    );
    assert_eq!(
        stored.chunks[nn].body.notes.notes[0].note,
        test.budget.materials.notes[0].note
    );
    assert_eq!(
        stored.chunks[nn].body.notes.notes[0].note,
        "Budget Materials note 1".to_string()
    );

    nn += 1;

    // Budget - Workshops
    assert_eq!(stored.chunks[nn].address, 3);
    assert_eq!(
        stored.chunks[nn].parent,
        Some(Parent {
            address: 12,
            variety: Rank::Top
        })
    );
    assert_eq!(
        stored.chunks[nn].body.notes.notes.len(),
        test.budget.workshops.notes.len()
    );
    assert_eq!(
        stored.chunks[nn].body.notes.notes[0].visible,
        test.budget.workshops.notes[0].visible
    );
    assert_eq!(
        stored.chunks[nn].body.notes.notes[0].note,
        test.budget.workshops.notes[0].note
    );
    assert_eq!(
        stored.chunks[nn].body.notes.notes[0].note,
        "Budget Workshops note 1".to_string()
    );

    nn += 1;

    // Budget - Overheads
    assert_eq!(stored.chunks[nn].address, 4);
    assert_eq!(
        stored.chunks[nn].parent,
        Some(Parent {
            address: 12,
            variety: Rank::Top
        })
    );
    assert_eq!(
        stored.chunks[nn].body.notes.notes.len(),
        test.budget.overheads.notes.len()
    );
    assert_eq!(
        stored.chunks[nn].body.notes.notes[0].visible,
        test.budget.overheads.notes[0].visible
    );
    assert_eq!(
        stored.chunks[nn].body.notes.notes[0].note,
        test.budget.overheads.notes[0].note
    );
    assert_eq!(
        stored.chunks[nn].body.notes.notes[0].note,
        "Budget Overheads note 1".to_string()
    );

    nn += 1;

    // Budget - Miscellaneous
    assert_eq!(stored.chunks[nn].address, 5);
    assert_eq!(
        stored.chunks[nn].parent,
        Some(Parent {
            address: 12,
            variety: Rank::Top
        })
    );
    assert_eq!(
        stored.chunks[nn].body.notes.notes.len(),
        test.budget.misc.notes.len()
    );
    assert_eq!(
        stored.chunks[nn].body.notes.notes[0].visible,
        test.budget.misc.notes[0].visible
    );
    assert_eq!(
        stored.chunks[nn].body.notes.notes[0].note,
        test.budget.misc.notes[0].note
    );
    assert_eq!(
        stored.chunks[nn].body.notes.notes[0].note,
        "Budget Miscellaneous note 1".to_string()
    );

    nn += 1;

    // Attachments
    assert_eq!(stored.chunks[nn].address, 13);
    assert_eq!(stored.chunks[nn].parent, None);
    assert_eq!(stored.chunks[nn].visible, test.attachments.visible);
    assert_eq!(stored.chunks[nn].title, test.attachments.title);
    assert_eq!(stored.chunks[nn].title, "Attachments".to_string());

    nn += 1;

    // Attachments - Tables
    assert_eq!(stored.chunks[nn].address, 0);
    assert_eq!(
        stored.chunks[nn].parent,
        Some(Parent {
            address: 13,
            variety: Rank::Top
        })
    );
    assert_eq!(
        stored.chunks[nn].body.notes.notes.len(),
        test.attachments.tables.notes.len()
    );
    assert_eq!(
        stored.chunks[nn].body.notes.notes[0].visible,
        test.attachments.tables.notes[0].visible
    );
    assert_eq!(
        stored.chunks[nn].body.notes.notes[0].note,
        test.attachments.tables.notes[0].note
    );
    assert_eq!(
        stored.chunks[nn].body.notes.notes[0].note,
        "Attachments Tables note 1".to_string()
    );

    nn += 1;

    // Attachments - Figures
    assert_eq!(stored.chunks[nn].address, 1);
    assert_eq!(
        stored.chunks[nn].parent,
        Some(Parent {
            address: 13,
            variety: Rank::Top
        })
    );
    assert_eq!(
        stored.chunks[nn].body.notes.notes.len(),
        test.attachments.figures.notes.len()
    );
    assert_eq!(
        stored.chunks[nn].body.notes.notes[0].visible,
        test.attachments.figures.notes[0].visible
    );
    assert_eq!(
        stored.chunks[nn].body.notes.notes[0].note,
        test.attachments.figures.notes[0].note
    );
    assert_eq!(
        stored.chunks[nn].body.notes.notes[0].note,
        "Attachments Figures note 1".to_string()
    );

    nn += 1;

    // Attachments - Other
    assert_eq!(stored.chunks[nn].address, 2);
    assert_eq!(
        stored.chunks[nn].parent,
        Some(Parent {
            address: 13,
            variety: Rank::Top
        })
    );
    assert_eq!(
        stored.chunks[nn].body.notes.notes.len(),
        test.attachments.other.notes.len()
    );
    assert_eq!(
        stored.chunks[nn].body.notes.notes[0].visible,
        test.attachments.other.notes[0].visible
    );
    assert_eq!(
        stored.chunks[nn].body.notes.notes[0].note,
        test.attachments.other.notes[0].note
    );
    assert_eq!(
        stored.chunks[nn].body.notes.notes[0].note,
        "Attachments Other note 1".to_string()
    );
}
