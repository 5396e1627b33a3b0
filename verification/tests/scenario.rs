//! One full editing scenario through a save/open cycle: a populated document
//! with a named project, alternative title notes, idea notes, two funding
//! options and two team participants must come back with every literal value
//! intact and both participants in their original order.

use workbook::note::{Note, Notes};
use workbook::project::{Project, ProjectOwner};
use workbook::sections::funding::Programme;
use workbook::sections::team::Participant;
use workbook::sections::timeline::Date;
use workbook::store::v_b0004::Store;

fn visible_note(text: &str) -> Note {
    Note {
        note: text.to_string(),
        hint: "…".to_string(),
        visible: true,
    }
}

fn participant(name: &str) -> Participant {
    let mut p = Participant::default();
    p.name = name.to_string();
    p.contribution.notes.push(visible_note("contribution chapter"));
    p.team.notes.push(visible_note("team chapter"));
    p.cv.notes.push(visible_note("cv chapter"));
    p.resources.notes.push(visible_note("resources chapter"));
    p.budget.notes.push(visible_note("budget chapter"));
    p.visible = true;
    p
}

#[test]
fn populated_document_survives_save_and_open() {
    let mut doc = Project::default();
    doc.record = "scenario record".to_string();
    doc.owner = ProjectOwner {
        email: "owner@site.tst".to_string(),
        account: "owner001".to_string(),
    };
    doc.resolution = 3;

    doc.working_name.title = "Test project name".to_string();
    doc.working_name.visible = true;
    doc.working_name.options.notes.push(visible_note("Name option 1"));

    doc.idea.visible = true;
    doc.idea.problem.notes.push(visible_note("Problem note 1"));

    doc.funding.visible = true;
    doc.funding.funding_options.push(Programme {
        title: "Funding Option 1".to_string(),
        hyperlink: String::new(),
        deadline: Date {
            year: 2025,
            month: 3,
            day: 31,
        },
        annotation: Notes {
            notes: vec![visible_note("Funding Option 1 annotation")],
        },
        visible: true,
    });
    doc.funding.funding_options.push(Programme::default());
    doc.funding.funding_options[1].title = "Funding Option 2".to_string();

    doc.team.visible = true;
    doc.team.participants.push(participant("Partner 1 Name"));
    doc.team.participants.push(participant("Partner 2 Name"));

    let back = Project::from(Store::from(doc.clone())).unwrap();

    assert_eq!(back.record, "scenario record");
    assert_eq!(back.owner.email, "owner@site.tst");
    assert_eq!(back.owner.account, "owner001");
    assert_eq!(back.resolution, 3);

    assert_eq!(back.working_name.title, "Test project name");
    assert!(back.working_name.visible);
    assert_eq!(back.working_name.options.notes.len(), 1);
    assert_eq!(back.working_name.options.notes[0].note, "Name option 1");

    assert!(back.idea.visible);
    assert_eq!(back.idea.problem.notes.len(), 1);
    assert_eq!(back.idea.problem.notes[0].note, "Problem note 1");

    assert_eq!(back.funding.funding_options.len(), 2);
    assert_eq!(back.funding.funding_options[0].title, "Funding Option 1");
    assert_eq!(
        back.funding.funding_options[0].annotation.notes[0].note,
        "Funding Option 1 annotation"
    );
    assert_eq!(
        back.funding.funding_options[0].deadline,
        Date {
            year: 2025,
            month: 3,
            day: 31
        }
    );
    assert_eq!(back.funding.funding_options[1].title, "Funding Option 2");
    assert_eq!(back.funding.funding_options[1].annotation.notes.len(), 0);
    assert_eq!(back.funding.funding_options[1].hyperlink, "");

    assert_eq!(back.team.participants.len(), 2);
    assert_eq!(back.team.participants[0].name, "Partner 1 Name");
    assert_eq!(back.team.participants[1].name, "Partner 2 Name");
    for p in back.team.participants.iter() {
        assert_eq!(p.contribution.notes[0].note, "contribution chapter");
        assert_eq!(p.team.notes[0].note, "team chapter");
        assert_eq!(p.cv.notes[0].note, "cv chapter");
        assert_eq!(p.resources.notes[0].note, "resources chapter");
        assert_eq!(p.budget.notes[0].note, "budget chapter");
        assert!(p.visible);
    }
}

/// A snapshot is a deep copy: edits to the live document after the copy
/// never reach the snapshot.
#[test]
fn snapshot_is_a_deep_copy() {
    let mut live = Project::default();
    live.record = "before".to_string();
    live.idea.problem.notes.push(visible_note("original note"));

    let snapshot = live.clone();

    live.record = "after".to_string();
    live.idea.problem.notes[0].note = "edited note".to_string();
    live.idea.problem.notes.push(visible_note("added note"));

    assert_eq!(snapshot.record, "before");
    assert_eq!(snapshot.idea.problem.notes.len(), 1);
    assert_eq!(snapshot.idea.problem.notes[0].note, "original note");
}
