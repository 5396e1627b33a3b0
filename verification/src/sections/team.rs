//! The team section: partner suggestions and the repeatable list of project
//! participants, each with tiered note chapters.

use vstd::prelude::*;

use crate::chapter::{clone_segments, Segment, Variety};
use crate::note::{NoteV, Notes};

verus! {

/// The subsections of the team section.
#[derive(Clone, Copy, PartialEq, Eq, Debug)]
pub enum SectionTeam {
    IndustrialPartners,
    Participants,
    ProjectLeader,
    Proponents,
    ProposedPartners,
    /// A chapter of one participant entry.
    ModuleParticipant(ModuleParticipant),
}

/// The tiered chapters of one participant entry.
#[derive(Clone, Copy, PartialEq, Eq, Debug)]
pub enum ModuleParticipant {
    Budget,
    Contribution,
    CV,
    Resources,
    Team,
}

/// One project participant: the partner team and its leader.
pub struct Participant {
    /// Ordering of the chapters in the editor; never persisted.
    pub index_list: Vec<Segment>,
    pub name: String,
    pub role: String,
    pub affiliation: String,
    pub hyperlink: String,
    pub country: String,
    pub expertise: String,
    pub contribution: Notes,
    pub team: Notes,
    /// The short CV of the partner team's leader.
    pub cv: Notes,
    pub resources: Notes,
    pub budget: Notes,
    pub visible: bool,
}

/// Mathematical image of a [`Participant`].
#[verifier::ext_equal]
pub struct ParticipantV {
    pub index_list: Seq<Segment>,
    pub name: Seq<char>,
    pub role: Seq<char>,
    pub affiliation: Seq<char>,
    pub hyperlink: Seq<char>,
    pub country: Seq<char>,
    pub expertise: Seq<char>,
    pub contribution: Seq<NoteV>,
    pub team: Seq<NoteV>,
    pub cv: Seq<NoteV>,
    pub resources: Seq<NoteV>,
    pub budget: Seq<NoteV>,
    pub visible: bool,
}

impl DeepView for Participant {
    type V = ParticipantV;

    open spec fn deep_view(&self) -> ParticipantV {
        ParticipantV {
            index_list: self.index_list.deep_view(),
            name: self.name.deep_view(),
            role: self.role.deep_view(),
            affiliation: self.affiliation.deep_view(),
            hyperlink: self.hyperlink.deep_view(),
            country: self.country.deep_view(),
            expertise: self.expertise.deep_view(),
            contribution: self.contribution.deep_view(),
            team: self.team.deep_view(),
            cv: self.cv.deep_view(),
            resources: self.resources.deep_view(),
            budget: self.budget.deep_view(),
            visible: self.visible,
        }
    }
}

pub open spec fn participant_index_default() -> Seq<Segment> {
    seq![
        Segment {
            variety: Variety::SectionTeam(
                SectionTeam::ModuleParticipant(ModuleParticipant::Contribution),
            ),
            tier: 3,
        },
        Segment {
            variety: Variety::SectionTeam(SectionTeam::ModuleParticipant(ModuleParticipant::Team)),
            tier: 3,
        },
        Segment {
            variety: Variety::SectionTeam(SectionTeam::ModuleParticipant(ModuleParticipant::CV)),
            tier: 3,
        },
        Segment {
            variety: Variety::SectionTeam(
                SectionTeam::ModuleParticipant(ModuleParticipant::Resources),
            ),
            tier: 3,
        },
        Segment {
            variety: Variety::SectionTeam(
                SectionTeam::ModuleParticipant(ModuleParticipant::Budget),
            ),
            tier: 3,
        },
    ]
}

pub open spec fn participant_default_v() -> ParticipantV {
    ParticipantV {
        index_list: participant_index_default(),
        name: Seq::<char>::empty(),
        role: Seq::<char>::empty(),
        affiliation: Seq::<char>::empty(),
        hyperlink: Seq::<char>::empty(),
        country: Seq::<char>::empty(),
        expertise: Seq::<char>::empty(),
        contribution: Seq::<NoteV>::empty(),
        team: Seq::<NoteV>::empty(),
        cv: Seq::<NoteV>::empty(),
        resources: Seq::<NoteV>::empty(),
        budget: Seq::<NoteV>::empty(),
        visible: false,
    }
}

impl Default for Participant {
    fn default() -> (r: Self)
        ensures
            r.deep_view() == participant_default_v(),
    {
        let mut index_list: Vec<Segment> = Vec::new();
        index_list.push(
            Segment {
                variety: Variety::SectionTeam(
                    SectionTeam::ModuleParticipant(ModuleParticipant::Contribution),
                ),
                tier: 3,
            },
        );
        index_list.push(
            Segment {
                variety: Variety::SectionTeam(
                    SectionTeam::ModuleParticipant(ModuleParticipant::Team),
                ),
                tier: 3,
            },
        );
        index_list.push(
            Segment {
                variety: Variety::SectionTeam(
                    SectionTeam::ModuleParticipant(ModuleParticipant::CV),
                ),
                tier: 3,
            },
        );
        index_list.push(
            Segment {
                variety: Variety::SectionTeam(
                    SectionTeam::ModuleParticipant(ModuleParticipant::Resources),
                ),
                tier: 3,
            },
        );
        index_list.push(
            Segment {
                variety: Variety::SectionTeam(
                    SectionTeam::ModuleParticipant(ModuleParticipant::Budget),
                ),
                tier: 3,
            },
        );
        proof {
            assert(index_list.deep_view() =~= participant_index_default());
        }
        let r = Participant {
            index_list,
            name: String::new(),
            role: String::new(),
            affiliation: String::new(),
            hyperlink: String::new(),
            country: String::new(),
            expertise: String::new(),
            contribution: Notes::default(),
            team: Notes::default(),
            cv: Notes::default(),
            resources: Notes::default(),
            budget: Notes::default(),
            visible: false,
        };
        proof {
            assert(r.deep_view() =~= participant_default_v());
        }
        r
    }
}

impl Clone for Participant {
    fn clone(&self) -> (r: Self)
        ensures
            r.deep_view() == self.deep_view(),
    {
        let r = Participant {
            index_list: clone_segments(&self.index_list),
            name: self.name.clone(),
            role: self.role.clone(),
            affiliation: self.affiliation.clone(),
            hyperlink: self.hyperlink.clone(),
            country: self.country.clone(),
            expertise: self.expertise.clone(),
            contribution: self.contribution.clone(),
            team: self.team.clone(),
            cv: self.cv.clone(),
            resources: self.resources.clone(),
            budget: self.budget.clone(),
            visible: self.visible,
        };
        proof {
            assert(r.deep_view() =~= self.deep_view());
        }
        r
    }
}

/// Copies a list of participants.
pub fn clone_participants(v: &Vec<Participant>) -> (r: Vec<Participant>)
    ensures
        r.deep_view() == v.deep_view(),
{
    let mut out: Vec<Participant> = Vec::new();
    let mut i: usize = 0;
    while i < v.len()
        invariant
            i <= v.len(),
            out.deep_view() =~= v.deep_view().take(i as int),
        decreases v.len() - i,
    {
        let ghost pre = out.deep_view();
        let c = v[i].clone();
        proof {
            assert(c.deep_view() == v.deep_view()[i as int]);
        }
        out.push(c);
        proof {
            assert(out.deep_view() =~= pre.push(v.deep_view()[i as int]));
            assert(out.deep_view() =~= v.deep_view().take(i + 1));
        }
        i = i + 1;
    }
    proof {
        assert(out.deep_view() =~= v.deep_view());
    }
    out
}

/// The team: suggested partners, leadership, and the participant list.
pub struct Team {
    pub title: String,
    /// Ordering of the subsections in the editor; never persisted.
    pub index_list: Vec<Segment>,
    /// Suggestion of the project team and possible partners.
    pub proposed_partners: Notes,
    /// Suggestion of the project leader.
    pub project_leader: Notes,
    /// Possible industrial partners.
    pub industrial_partners: Notes,
    /// Cooperation with supporters who will not participate.
    pub proponents: Notes,
    /// Full information about participants, institutions, teams.
    pub participants: Vec<Participant>,
    pub visible: bool,
}

/// Mathematical image of a [`Team`].
#[verifier::ext_equal]
pub struct TeamV {
    pub title: Seq<char>,
    pub index_list: Seq<Segment>,
    pub proposed_partners: Seq<NoteV>,
    pub project_leader: Seq<NoteV>,
    pub industrial_partners: Seq<NoteV>,
    pub proponents: Seq<NoteV>,
    pub participants: Seq<ParticipantV>,
    pub visible: bool,
}

impl DeepView for Team {
    type V = TeamV;

    open spec fn deep_view(&self) -> TeamV {
        TeamV {
            title: self.title.deep_view(),
            index_list: self.index_list.deep_view(),
            proposed_partners: self.proposed_partners.deep_view(),
            project_leader: self.project_leader.deep_view(),
            industrial_partners: self.industrial_partners.deep_view(),
            proponents: self.proponents.deep_view(),
            participants: self.participants.deep_view(),
            visible: self.visible,
        }
    }
}

pub open spec fn team_index_default() -> Seq<Segment> {
    seq![
        Segment { variety: Variety::SectionTeam(SectionTeam::ProposedPartners), tier: 2 },
        Segment { variety: Variety::SectionTeam(SectionTeam::ProjectLeader), tier: 2 },
        Segment { variety: Variety::SectionTeam(SectionTeam::IndustrialPartners), tier: 2 },
        Segment { variety: Variety::SectionTeam(SectionTeam::Proponents), tier: 2 },
        Segment { variety: Variety::SectionTeam(SectionTeam::Participants), tier: 3 },
    ]
}

pub open spec fn team_default_v() -> TeamV {
    TeamV {
        title: "Team"@,
        index_list: team_index_default(),
        proposed_partners: Seq::<NoteV>::empty(),
        project_leader: Seq::<NoteV>::empty(),
        industrial_partners: Seq::<NoteV>::empty(),
        proponents: Seq::<NoteV>::empty(),
        participants: Seq::<ParticipantV>::empty(),
        visible: false,
    }
}

impl Default for Team {
    fn default() -> (r: Self)
        ensures
            r.deep_view() == team_default_v(),
    {
        let mut index_list: Vec<Segment> = Vec::new();
        index_list.push(
            Segment { variety: Variety::SectionTeam(SectionTeam::ProposedPartners), tier: 2 },
        );
        index_list.push(
            Segment { variety: Variety::SectionTeam(SectionTeam::ProjectLeader), tier: 2 },
        );
        index_list.push(
            Segment { variety: Variety::SectionTeam(SectionTeam::IndustrialPartners), tier: 2 },
        );
        index_list.push(
            Segment { variety: Variety::SectionTeam(SectionTeam::Proponents), tier: 2 },
        );
        index_list.push(
            Segment { variety: Variety::SectionTeam(SectionTeam::Participants), tier: 3 },
        );
        proof {
            assert(index_list.deep_view() =~= team_index_default());
        }
        let r = Team {
            title: String::from_str("Team"),
            index_list,
            proposed_partners: Notes::default(),
            project_leader: Notes::default(),
            industrial_partners: Notes::default(),
            proponents: Notes::default(),
            participants: Vec::new(),
            visible: false,
        };
        proof {
            assert(r.deep_view() =~= team_default_v());
        }
        r
    }
}

impl Clone for Team {
    fn clone(&self) -> (r: Self)
        ensures
            r.deep_view() == self.deep_view(),
    {
        let r = Team {
            title: self.title.clone(),
            index_list: clone_segments(&self.index_list),
            proposed_partners: self.proposed_partners.clone(),
            project_leader: self.project_leader.clone(),
            industrial_partners: self.industrial_partners.clone(),
            proponents: self.proponents.clone(),
            participants: clone_participants(&self.participants),
            visible: self.visible,
        };
        proof {
            assert(r.deep_view() =~= self.deep_view());
        }
        r
    }
}

} // verus!
