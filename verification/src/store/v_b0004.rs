//! The persisted shape of a document: a flat, ordered list of addressed
//! chunks, preceded by the format tag, owner, record name and resolution.
//!
//! A chunk's place in the tree is the pair of its parent reference and its
//! own address.  Addresses are unique only within the scope that the parent
//! reference opens; the rank inside the parent reference keeps numerically
//! equal addresses of unrelated branches apart.

use vstd::prelude::*;

use crate::chapter::Variety;
use crate::note::{NoteV, Notes};
use crate::project::{project_owner_default_v, ProjectOwner, ProjectOwnerV};
use crate::sections::budget::SectionBudget;
use crate::sections::idea::SectionIdea;
use crate::sections::outcomes::SectionOutcomes;
use crate::sections::scope::SectionScope;
use crate::sections::scripting::ScriptingOption;
use crate::sections::team::{ModuleParticipant, SectionTeam};
use crate::sections::timeline::{Date, Numeral, SectionTimeline};

verus! {

/// The tag the current format writes at the front of every stored file.
pub const DATA_FORMAT_VERSION: &'static str = "B0004";

/// The structural level a parent reference lives on.  `Top` marks direct
/// children of a top-level section; each repeatable-entity list has a rank
/// of its own for its entity titles (the middle level) and another for the
/// fields of one entity (the low level), so that equal addresses in
/// unrelated branches can never be confused.
#[derive(Clone, Copy, PartialEq, Eq, Debug)]
pub enum Rank {
    /// Children of a top-level section; the sections themselves carry no
    /// parent at all.
    Top,
    /// Entity titles of the key-references list of the idea section.
    IdeaReferences,
    /// Entity titles of the funding-programme list.
    FundingProgram,
    /// Entity titles of the participant list of the team section.
    TeamParticipants,
    /// Entity titles of the cited-sources list of the literature section.
    LiteratureSources,
    /// Fields of one key reference.
    IdeaReferencesCitation,
    /// Fields of one participant.
    TeamParticipantsPartner,
    /// Fields of one cited source.
    LiteratureSourcesCitation,
    // New ranks are appended here; the existing order is load-bearing.
}

impl DeepView for Rank {
    type V = Rank;

    open spec fn deep_view(&self) -> Rank {
        *self
    }
}

impl Default for Rank {
    fn default() -> (r: Self)
        ensures
            r == Rank::Top,
    {
        Rank::Top
    }
}

/// Which chunk a chunk is structurally nested under: the parent's address
/// and the rank of the level the parent lives on.
#[derive(Clone, Copy, PartialEq, Eq, Debug)]
pub struct Parent {
    pub address: usize,
    pub variety: Rank,
}

/// Mathematical image of a [`Parent`]: the address widened to `int`.
#[verifier::ext_equal]
pub struct ParentV {
    pub address: int,
    pub variety: Rank,
}

impl DeepView for Parent {
    type V = ParentV;

    open spec fn deep_view(&self) -> ParentV {
        ParentV { address: self.address as int, variety: self.variety }
    }
}

impl Default for Parent {
    fn default() -> (r: Self)
        ensures
            r == (Parent { address: 0, variety: Rank::Top }),
    {
        Parent { address: 0, variety: Rank::Top }
    }
}

/// A calendar date as it is stored: plain year, month and day.
#[derive(Clone, Copy, PartialEq, Eq, Debug)]
pub struct YearMonthDay {
    pub year: i32,
    pub month: u32,
    pub day: u32,
}

impl DeepView for YearMonthDay {
    type V = YearMonthDay;

    open spec fn deep_view(&self) -> YearMonthDay {
        *self
    }
}

impl Default for YearMonthDay {
    fn default() -> (r: Self)
        ensures
            r == (YearMonthDay { year: 0, month: 0, day: 0 }),
    {
        YearMonthDay { year: 0, month: 0, day: 0 }
    }
}

/// The stored image of an editor date.
pub open spec fn spec_ymd_of(d: Date) -> YearMonthDay {
    YearMonthDay { year: d.year, month: d.month, day: d.day }
}

/// The editor date a stored image decodes to.
pub open spec fn spec_date_of(y: YearMonthDay) -> Date {
    Date { year: y.year, month: y.month, day: y.day }
}

impl YearMonthDay {
    pub fn from(val: Date) -> (r: Self)
        ensures
            r == spec_ymd_of(val),
    {
        YearMonthDay { year: val.year, month: val.month, day: val.day }
    }
}

impl Date {
    pub fn from(val: YearMonthDay) -> (r: Self)
        ensures
            r == spec_date_of(val),
    {
        Date { year: val.year, month: val.month, day: val.day }
    }
}

/// The payload of a chunk.  One field per payload kind; the fields that a
/// chunk does not use stay at their empty defaults.
pub struct Body {
    pub date: YearMonthDay,
    pub notes: Notes,
    pub phrase: String,
    pub numeral: Numeral,
    pub option: ScriptingOption,
}

/// Mathematical image of a [`Body`].
#[verifier::ext_equal]
pub struct BodyV {
    pub date: YearMonthDay,
    pub notes: Seq<NoteV>,
    pub phrase: Seq<char>,
    pub numeral: Numeral,
    pub option: ScriptingOption,
}

impl DeepView for Body {
    type V = BodyV;

    open spec fn deep_view(&self) -> BodyV {
        BodyV {
            date: self.date,
            notes: self.notes.deep_view(),
            phrase: self.phrase.deep_view(),
            numeral: self.numeral,
            option: self.option,
        }
    }
}

/// The payload of a chunk that carries none.
pub open spec fn body_default_v() -> BodyV {
    BodyV {
        date: YearMonthDay { year: 0, month: 0, day: 0 },
        notes: Seq::<NoteV>::empty(),
        phrase: Seq::<char>::empty(),
        numeral: Numeral { bits: 0 },
        option: ScriptingOption::Myself,
    }
}

impl Default for Body {
    fn default() -> (r: Self)
        ensures
            r.deep_view() == body_default_v(),
    {
        let r = Body {
            date: YearMonthDay::default(),
            notes: Notes::default(),
            phrase: String::new(),
            numeral: Numeral::default(),
            option: ScriptingOption::Myself,
        };
        proof {
            assert(r.deep_view() =~= body_default_v());
        }
        r
    }
}

impl Clone for Body {
    fn clone(&self) -> (r: Self)
        ensures
            r.deep_view() == self.deep_view(),
    {
        let r = Body {
            date: self.date,
            notes: self.notes.clone(),
            phrase: self.phrase.clone(),
            numeral: self.numeral,
            option: self.option,
        };
        proof {
            assert(r.deep_view() =~= self.deep_view());
        }
        r
    }
}

/// One flat, addressed record of the persisted representation.
pub struct Chunk {
    /// Relative address within the scope that `parent` opens.
    pub address: usize,
    pub parent: Option<Parent>,
    pub title: String,
    pub body: Body,
    pub visible: bool,
}

/// Mathematical image of a [`Chunk`].
#[verifier::ext_equal]
pub struct ChunkV {
    pub address: int,
    pub parent: Option<ParentV>,
    pub title: Seq<char>,
    pub body: BodyV,
    pub visible: bool,
}

impl DeepView for Chunk {
    type V = ChunkV;

    open spec fn deep_view(&self) -> ChunkV {
        ChunkV {
            address: self.address as int,
            parent: self.parent.deep_view(),
            title: self.title.deep_view(),
            body: self.body.deep_view(),
            visible: self.visible,
        }
    }
}

pub open spec fn chunk_default_v() -> ChunkV {
    ChunkV {
        address: 0,
        parent: None,
        title: Seq::<char>::empty(),
        body: body_default_v(),
        visible: false,
    }
}

impl Default for Chunk {
    fn default() -> (r: Self)
        ensures
            r.deep_view() == chunk_default_v(),
    {
        let r = Chunk {
            address: 0,
            parent: None,
            title: String::new(),
            body: Body::default(),
            visible: false,
        };
        proof {
            assert(r.deep_view() =~= chunk_default_v());
        }
        r
    }
}

impl Clone for Chunk {
    fn clone(&self) -> (r: Self)
        ensures
            r.deep_view() == self.deep_view(),
    {
        let r = Chunk {
            address: self.address,
            parent: self.parent,
            title: self.title.clone(),
            body: self.body.clone(),
            visible: self.visible,
        };
        proof {
            assert(r.deep_view() =~= self.deep_view());
        }
        r
    }
}

/// Copies a chunk list.
pub fn clone_chunks(v: &Vec<Chunk>) -> (r: Vec<Chunk>)
    ensures
        r.deep_view() == v.deep_view(),
{
    let mut out: Vec<Chunk> = Vec::new();
    let mut i: usize = 0;
    while i < v.len()
        invariant
            i <= v.len(),
            out.deep_view() =~= v.deep_view().take(i as int),
        decreases v.len() - i,
    {
        let ghost pre = out.deep_view();
        let c = v[i].clone();
        proof {
            assert(c.deep_view() == v.deep_view()[i as int]);
        }
        out.push(c);
        proof {
            assert(out.deep_view() =~= pre.push(v.deep_view()[i as int]));
            assert(out.deep_view() =~= v.deep_view().take(i + 1));
        }
        i = i + 1;
    }
    proof {
        assert(out.deep_view() =~= v.deep_view());
    }
    out
}

/// The full persisted image of a document.
pub struct Store {
    /// Data format tag; the first stored field, which makes version
    /// sniffing possible.
    pub format: String,
    pub owner: ProjectOwner,
    pub record: String,
    pub resolution: usize,
    /// The chunk list, in the fixed order the encoder emits.
    pub chunks: Vec<Chunk>,
}

/// Mathematical image of a [`Store`].
#[verifier::ext_equal]
pub struct StoreV {
    pub format: Seq<char>,
    pub owner: ProjectOwnerV,
    pub record: Seq<char>,
    pub resolution: usize,
    pub chunks: Seq<ChunkV>,
}

impl DeepView for Store {
    type V = StoreV;

    open spec fn deep_view(&self) -> StoreV {
        StoreV {
            format: self.format.deep_view(),
            owner: self.owner.deep_view(),
            record: self.record.deep_view(),
            resolution: self.resolution,
            chunks: self.chunks.deep_view(),
        }
    }
}

pub open spec fn store_default_v() -> StoreV {
    StoreV {
        format: "B0004"@,
        owner: project_owner_default_v(),
        record: Seq::<char>::empty(),
        resolution: 1,
        chunks: Seq::<ChunkV>::empty(),
    }
}

impl Default for Store {
    fn default() -> (r: Self)
        ensures
            r.deep_view() == store_default_v(),
    {
        let r = Store {
            format: String::from_str(DATA_FORMAT_VERSION),
            owner: ProjectOwner::default(),
            record: String::new(),
            resolution: 1,
            chunks: Vec::new(),
        };
        proof {
            assert(r.deep_view() =~= store_default_v());
        }
        r
    }
}

impl Clone for Store {
    fn clone(&self) -> (r: Self)
        ensures
            r.deep_view() == self.deep_view(),
    {
        let r = Store {
            format: self.format.clone(),
            owner: self.owner.clone(),
            record: self.record.clone(),
            resolution: self.resolution,
            chunks: clone_chunks(&self.chunks),
        };
        proof {
            assert(r.deep_view() =~= self.deep_view());
        }
        r
    }
}

/// The order of the top-level sections in the association table.  Persisted
/// section addresses are positions in this sequence; it only ever grows at
/// the end, so an address written under an older, shorter table keeps its
/// meaning forever.
pub open spec fn sections_table() -> Seq<Variety> {
    seq![
        Variety::WorkingName,
        Variety::Idea,
        Variety::Funding,
        Variety::Scope,
        Variety::Timeline,
        Variety::Scripting,
        Variety::Team,
        Variety::PrelimResults,
        Variety::Methodology,
        Variety::Outcomes,
        Variety::Literature,
        Variety::Resources,
        Variety::Budget,
        Variety::Attachments,
    ]
}

/// The association tables: the fixed tag-to-index arrays that give every
/// section and subsection its stable persisted address.  They are authored
/// once per schema version and extended only by appending; reordering one
/// would break every previously saved file.
pub struct Association {
    /// Top-level sections, by persisted address.
    pub sections: Vec<Variety>,
    pub section_budget: Vec<Variety>,
    pub section_idea: Vec<Variety>,
    pub section_outcomes: Vec<Variety>,
    pub section_scope: Vec<Variety>,
    pub section_team: Vec<Variety>,
    pub section_timeline: Vec<Variety>,
    pub module_participant: Vec<Variety>,
}

pub open spec fn idea_table() -> Seq<Variety> {
    seq![
        Variety::SectionIdea(SectionIdea::Problem),
        Variety::SectionIdea(SectionIdea::Hypothesis),
        Variety::SectionIdea(SectionIdea::Abstract),
        Variety::SectionIdea(SectionIdea::ProjectDescription),
        Variety::SectionIdea(SectionIdea::KeyReferences),
    ]
}

pub open spec fn budget_table() -> Seq<Variety> {
    seq![
        Variety::SectionBudget(SectionBudget::Personnel),
        Variety::SectionBudget(SectionBudget::Facilities),
        Variety::SectionBudget(SectionBudget::Materials),
        Variety::SectionBudget(SectionBudget::Workshops),
        Variety::SectionBudget(SectionBudget::Overheads),
        Variety::SectionBudget(SectionBudget::Miscellaneous),
    ]
}

pub open spec fn outcomes_table() -> Seq<Variety> {
    seq![
        Variety::SectionOutcomes(SectionOutcomes::ExpectedResults),
        Variety::SectionOutcomes(SectionOutcomes::Impact),
        Variety::SectionOutcomes(SectionOutcomes::Propagation),
    ]
}

pub open spec fn scope_table() -> Seq<Variety> {
    seq![
        Variety::SectionScope(SectionScope::SuggestedTasks),
        Variety::SectionScope(SectionScope::Objectives),
        Variety::SectionScope(SectionScope::Activities),
        Variety::SectionScope(SectionScope::WorkPlan),
        Variety::SectionScope(SectionScope::Tasks),
    ]
}

pub open spec fn team_table() -> Seq<Variety> {
    seq![
        Variety::SectionTeam(SectionTeam::ProposedPartners),
        Variety::SectionTeam(SectionTeam::ProjectLeader),
        Variety::SectionTeam(SectionTeam::IndustrialPartners),
        Variety::SectionTeam(SectionTeam::Proponents),
        Variety::SectionTeam(SectionTeam::Participants),
    ]
}

pub open spec fn timeline_table() -> Seq<Variety> {
    seq![
        Variety::SectionTimeline(SectionTimeline::ProjectTiming),
        Variety::SectionTimeline(SectionTimeline::Milestones),
    ]
}

pub open spec fn participant_table() -> Seq<Variety> {
    seq![
        Variety::SectionTeam(SectionTeam::ModuleParticipant(ModuleParticipant::Contribution)),
        Variety::SectionTeam(SectionTeam::ModuleParticipant(ModuleParticipant::Team)),
        Variety::SectionTeam(SectionTeam::ModuleParticipant(ModuleParticipant::CV)),
        Variety::SectionTeam(SectionTeam::ModuleParticipant(ModuleParticipant::Resources)),
        Variety::SectionTeam(SectionTeam::ModuleParticipant(ModuleParticipant::Budget)),
    ]
}

impl Default for Association {
    fn default() -> (r: Self)
        ensures
            r.sections.deep_view() == sections_table(),
            r.section_budget.deep_view() == budget_table(),
            r.section_idea.deep_view() == idea_table(),
            r.section_outcomes.deep_view() == outcomes_table(),
            r.section_scope.deep_view() == scope_table(),
            r.section_team.deep_view() == team_table(),
            r.section_timeline.deep_view() == timeline_table(),
            r.module_participant.deep_view() == participant_table(),
    {
        let mut sections: Vec<Variety> = Vec::new();
        sections.push(Variety::WorkingName);
        sections.push(Variety::Idea);
        sections.push(Variety::Funding);
        sections.push(Variety::Scope);
        sections.push(Variety::Timeline);
        sections.push(Variety::Scripting);
        sections.push(Variety::Team);
        sections.push(Variety::PrelimResults);
        sections.push(Variety::Methodology);
        sections.push(Variety::Outcomes);
        sections.push(Variety::Literature);
        sections.push(Variety::Resources);
        sections.push(Variety::Budget);
        sections.push(Variety::Attachments);
        proof {
            assert(sections.deep_view() =~= sections_table());
        }
        let mut section_budget: Vec<Variety> = Vec::new();
        section_budget.push(Variety::SectionBudget(SectionBudget::Personnel));
        section_budget.push(Variety::SectionBudget(SectionBudget::Facilities));
        section_budget.push(Variety::SectionBudget(SectionBudget::Materials));
        section_budget.push(Variety::SectionBudget(SectionBudget::Workshops));
        section_budget.push(Variety::SectionBudget(SectionBudget::Overheads));
        section_budget.push(Variety::SectionBudget(SectionBudget::Miscellaneous));
        proof {
            assert(section_budget.deep_view() =~= budget_table());
        }
        let mut section_idea: Vec<Variety> = Vec::new();
        section_idea.push(Variety::SectionIdea(SectionIdea::Problem));
        section_idea.push(Variety::SectionIdea(SectionIdea::Hypothesis));
        section_idea.push(Variety::SectionIdea(SectionIdea::Abstract));
        section_idea.push(Variety::SectionIdea(SectionIdea::ProjectDescription));
        section_idea.push(Variety::SectionIdea(SectionIdea::KeyReferences));
        proof {
            assert(section_idea.deep_view() =~= idea_table());
        }
        let mut section_outcomes: Vec<Variety> = Vec::new();
        section_outcomes.push(Variety::SectionOutcomes(SectionOutcomes::ExpectedResults));
        section_outcomes.push(Variety::SectionOutcomes(SectionOutcomes::Impact));
        section_outcomes.push(Variety::SectionOutcomes(SectionOutcomes::Propagation));
        proof {
            assert(section_outcomes.deep_view() =~= outcomes_table());
        }
        let mut section_scope: Vec<Variety> = Vec::new();
        section_scope.push(Variety::SectionScope(SectionScope::SuggestedTasks));
        section_scope.push(Variety::SectionScope(SectionScope::Objectives));
        section_scope.push(Variety::SectionScope(SectionScope::Activities));
        section_scope.push(Variety::SectionScope(SectionScope::WorkPlan));
        section_scope.push(Variety::SectionScope(SectionScope::Tasks));
        proof {
            assert(section_scope.deep_view() =~= scope_table());
        }
        let mut section_team: Vec<Variety> = Vec::new();
        section_team.push(Variety::SectionTeam(SectionTeam::ProposedPartners));
        section_team.push(Variety::SectionTeam(SectionTeam::ProjectLeader));
        section_team.push(Variety::SectionTeam(SectionTeam::IndustrialPartners));
        section_team.push(Variety::SectionTeam(SectionTeam::Proponents));
        section_team.push(Variety::SectionTeam(SectionTeam::Participants));
        proof {
            assert(section_team.deep_view() =~= team_table());
        }
        let mut section_timeline: Vec<Variety> = Vec::new();
        section_timeline.push(Variety::SectionTimeline(SectionTimeline::ProjectTiming));
        section_timeline.push(Variety::SectionTimeline(SectionTimeline::Milestones));
        proof {
            assert(section_timeline.deep_view() =~= timeline_table());
        }
        let mut module_participant: Vec<Variety> = Vec::new();
        module_participant.push(
            Variety::SectionTeam(SectionTeam::ModuleParticipant(ModuleParticipant::Contribution)),
        );
        module_participant.push(
            Variety::SectionTeam(SectionTeam::ModuleParticipant(ModuleParticipant::Team)),
        );
        module_participant.push(
            Variety::SectionTeam(SectionTeam::ModuleParticipant(ModuleParticipant::CV)),
        );
        module_participant.push(
            Variety::SectionTeam(SectionTeam::ModuleParticipant(ModuleParticipant::Resources)),
        );
        module_participant.push(
            Variety::SectionTeam(SectionTeam::ModuleParticipant(ModuleParticipant::Budget)),
        );
        proof {
            assert(module_participant.deep_view() =~= participant_table());
        }
        Association {
            sections,
            section_budget,
            section_idea,
            section_outcomes,
            section_scope,
            section_team,
            section_timeline,
            module_participant,
        }
    }
}

} // verus!
