//! The chunk encoder: flattens a document into the persisted chunk list.
//!
//! Encoding is total and deterministic.  Sections are emitted in association
//! table order, never in the editor's ordering-list order, so that persisted
//! addresses stay stable however the user rearranges the view.  Repeatable
//! entity lists are the one exception: their runtime order is meaningful and
//! is persisted as the order of their title chunks.  Every note list passes
//! through the visible-note filter on its way into a chunk, so hidden notes
//! are not persisted.

use vstd::prelude::*;

use crate::note::{spec_stock, NoteV, Notes};
use crate::project::{Project, ProjectV};
use crate::sections::attachments::{Attachments, AttachmentsV};
use crate::sections::budget::{Budget, BudgetV};
use crate::sections::funding::{FundingOptions, FundingOptionsV, ProgrammeV};
use crate::sections::idea::{Idea, IdeaV};
use crate::sections::literature::{Literature, LiteratureV};
use crate::sections::methodology::{Methodology, MethodologyV};
use crate::sections::outcomes::{Outcomes, OutcomesV};
use crate::sections::prelim_results::{PrelimResults, PrelimResultsV};
use crate::sections::references::{Reference, ReferenceV};
use crate::sections::resources::{Resources, ResourcesV};
use crate::sections::scope::{Scope, ScopeV};
use crate::sections::scripting::{Scripting, ScriptingOption, ScriptingV};
use crate::sections::team::{Participant, ParticipantV, Team, TeamV};
use crate::sections::timeline::{Numeral, Timeline, TimelineV};
use crate::sections::working_name::{ProjectTitle, ProjectTitleV};
use crate::store::v_b0004::{
    body_default_v, spec_ymd_of, Body, BodyV, Chunk, ChunkV, Parent, ParentV, Rank, Store, StoreV,
    YearMonthDay, DATA_FORMAT_VERSION,
};

verus! {

// ~~~~~~~~~~~~~~~~~~~~~~~~~~~~~~~~~~~~~~~~~~~~~~~~~~~~~~~~~~~~~~~~~~~~~~~~~~
// Payload and chunk builders, spec and exec.
// ~~~~~~~~~~~~~~~~~~~~~~~~~~~~~~~~~~~~~~~~~~~~~~~~~~~~~~~~~~~~~~~~~~~~~~~~~~
pub open spec fn note_body_v(notes: Seq<NoteV>) -> BodyV {
    BodyV { notes, ..body_default_v() }
}

pub open spec fn phrase_body_v(phrase: Seq<char>) -> BodyV {
    BodyV { phrase, ..body_default_v() }
}

pub open spec fn date_body_v(date: YearMonthDay) -> BodyV {
    BodyV { date, ..body_default_v() }
}

pub open spec fn numeral_body_v(numeral: Numeral) -> BodyV {
    BodyV { numeral, ..body_default_v() }
}

pub open spec fn option_body_v(option: ScriptingOption) -> BodyV {
    BodyV { option, ..body_default_v() }
}

/// The chunk of a top-level section: its table index as address, no parent,
/// the section's title and visibility, no payload.
pub open spec fn title_chunk_v(address: int, title: Seq<char>, visible: bool) -> ChunkV {
    ChunkV { address, parent: None, title, body: body_default_v(), visible }
}

/// A child chunk: addressed within the scope that `parent` opens.
pub open spec fn sub_chunk_v(
    parent_address: int,
    parent_variety: Rank,
    address: int,
    title: Seq<char>,
    body: BodyV,
    visible: bool,
) -> ChunkV {
    ChunkV {
        address,
        parent: Some(ParentV { address: parent_address, variety: parent_variety }),
        title,
        body,
        visible,
    }
}

fn note_body(notes: Notes) -> (r: Body)
    ensures
        r.deep_view() == note_body_v(notes.deep_view()),
{
    let r = Body { notes, ..Body::default() };
    proof {
        assert(r.deep_view() =~= note_body_v(r.notes.deep_view()));
    }
    r
}

fn phrase_body(phrase: String) -> (r: Body)
    ensures
        r.deep_view() == phrase_body_v(phrase.deep_view()),
{
    let r = Body { phrase, ..Body::default() };
    proof {
        assert(r.deep_view() =~= phrase_body_v(r.phrase.deep_view()));
    }
    r
}

fn date_body(date: YearMonthDay) -> (r: Body)
    ensures
        r.deep_view() == date_body_v(date),
{
    let r = Body { date, ..Body::default() };
    proof {
        assert(r.deep_view() =~= date_body_v(date));
    }
    r
}

fn numeral_body(numeral: Numeral) -> (r: Body)
    ensures
        r.deep_view() == numeral_body_v(numeral),
{
    let r = Body { numeral, ..Body::default() };
    proof {
        assert(r.deep_view() =~= numeral_body_v(numeral));
    }
    r
}

fn option_body(option: ScriptingOption) -> (r: Body)
    ensures
        r.deep_view() == option_body_v(option),
{
    let r = Body { option, ..Body::default() };
    proof {
        assert(r.deep_view() =~= option_body_v(option));
    }
    r
}

fn title_chunk(address: usize, title: &String, visible: bool) -> (r: Chunk)
    ensures
        r.deep_view() == title_chunk_v(address as int, title.deep_view(), visible),
{
    let r = Chunk { address, parent: None, title: title.clone(), body: Body::default(), visible };
    proof {
        assert(r.deep_view() =~= title_chunk_v(address as int, title.deep_view(), visible));
    }
    r
}

fn sub_chunk(
    parent_address: usize,
    parent_variety: Rank,
    address: usize,
    title: &String,
    body: Body,
    visible: bool,
) -> (r: Chunk)
    ensures
        r.deep_view() == sub_chunk_v(
            parent_address as int,
            parent_variety,
            address as int,
            title.deep_view(),
            body.deep_view(),
            visible,
        ),
{
    let r = Chunk {
        address,
        parent: Some(Parent { address: parent_address, variety: parent_variety }),
        title: title.clone(),
        body,
        visible,
    };
    proof {
        assert(r.deep_view() =~= sub_chunk_v(
            parent_address as int,
            parent_variety,
            address as int,
            title.deep_view(),
            r.body.deep_view(),
            visible,
        ));
    }
    r
}

// ~~~~~~~~~~~~~~~~~~~~~~~~~~~~~~~~~~~~~~~~~~~~~~~~~~~~~~~~~~~~~~~~~~~~~~~~~~
// The chunk sequence of each section.
// ~~~~~~~~~~~~~~~~~~~~~~~~~~~~~~~~~~~~~~~~~~~~~~~~~~~~~~~~~~~~~~~~~~~~~~~~~~
pub open spec fn empty_title() -> Seq<char> {
    Seq::<char>::empty()
}

pub open spec fn enc_working_name(w: ProjectTitleV) -> Seq<ChunkV> {
    seq![
        title_chunk_v(0, w.title, w.visible),
        sub_chunk_v(0, Rank::Top, 1, empty_title(), note_body_v(spec_stock(w.options)), w.visible),
    ]
}

/// The three chunks of one cited source: a title chunk on the middle rank of
/// its list, then hyperlink and details on the low rank, parented by the
/// entity's own index.
pub open spec fn enc_citation(mid: Rank, low: Rank, group: int, k: int, r: ReferenceV) -> Seq<
    ChunkV,
> {
    seq![
        sub_chunk_v(group, mid, k, r.title, body_default_v(), r.visible),
        sub_chunk_v(k, low, 0, empty_title(), phrase_body_v(r.hyperlink), r.visible),
        sub_chunk_v(k, low, 1, empty_title(), note_body_v(spec_stock(r.source_details)), r.visible),
    ]
}

pub open spec fn enc_citations(
    mid: Rank,
    low: Rank,
    group: int,
    rs: Seq<ReferenceV>,
    k: int,
) -> Seq<ChunkV>
    decreases rs.len(),
{
    if rs.len() == 0 {
        Seq::<ChunkV>::empty()
    } else {
        enc_citation(mid, low, group, k, rs[0]) + enc_citations(mid, low, group, rs.drop_first(), k + 1)
    }
}

pub open spec fn enc_idea(x: IdeaV) -> Seq<ChunkV> {
    seq![
        title_chunk_v(1, x.title, x.visible),
        sub_chunk_v(1, Rank::Top, 0, empty_title(), note_body_v(spec_stock(x.problem)), true),
        sub_chunk_v(1, Rank::Top, 1, empty_title(), note_body_v(spec_stock(x.hypothesis)), true),
        sub_chunk_v(1, Rank::Top, 2, empty_title(), note_body_v(spec_stock(x.summary)), true),
        sub_chunk_v(1, Rank::Top, 3, empty_title(), note_body_v(spec_stock(x.description)), true),
        sub_chunk_v(1, Rank::Top, 4, x.references.title, body_default_v(), x.references.visible),
    ] + enc_citations(
        Rank::IdeaReferences,
        Rank::IdeaReferencesCitation,
        4,
        x.references.references,
        0,
    )
}

/// The four chunks of one funding programme: title on the middle rank under
/// the funding section, then annotation, hyperlink and deadline on the low
/// rank.
pub open spec fn enc_programme(j: int, p: ProgrammeV) -> Seq<ChunkV> {
    seq![
        sub_chunk_v(2, Rank::Top, j, p.title, body_default_v(), p.visible),
        sub_chunk_v(
            j,
            Rank::FundingProgram,
            0,
            empty_title(),
            note_body_v(spec_stock(p.annotation)),
            p.visible,
        ),
        sub_chunk_v(j, Rank::FundingProgram, 1, empty_title(), phrase_body_v(p.hyperlink), p.visible),
        sub_chunk_v(
            j,
            Rank::FundingProgram,
            2,
            empty_title(),
            date_body_v(spec_ymd_of(p.deadline)),
            p.visible,
        ),
    ]
}

pub open spec fn enc_programmes(ps: Seq<ProgrammeV>, j: int) -> Seq<ChunkV>
    decreases ps.len(),
{
    if ps.len() == 0 {
        Seq::<ChunkV>::empty()
    } else {
        enc_programme(j, ps[0]) + enc_programmes(ps.drop_first(), j + 1)
    }
}

pub open spec fn enc_funding(f: FundingOptionsV) -> Seq<ChunkV> {
    seq![title_chunk_v(2, f.title, f.visible)] + enc_programmes(f.funding_options, 0)
}

pub open spec fn enc_scope(x: ScopeV) -> Seq<ChunkV> {
    seq![
        title_chunk_v(3, x.title, x.visible),
        sub_chunk_v(3, Rank::Top, 0, empty_title(), note_body_v(spec_stock(x.suggested_tasks)), true),
        sub_chunk_v(3, Rank::Top, 1, empty_title(), note_body_v(spec_stock(x.objectives)), true),
        sub_chunk_v(3, Rank::Top, 2, empty_title(), note_body_v(spec_stock(x.activities)), true),
        sub_chunk_v(3, Rank::Top, 3, empty_title(), note_body_v(spec_stock(x.work_plan)), true),
        sub_chunk_v(3, Rank::Top, 4, empty_title(), note_body_v(spec_stock(x.tasks)), true),
    ]
}

pub open spec fn enc_timeline(x: TimelineV) -> Seq<ChunkV> {
    seq![
        title_chunk_v(4, x.title, x.visible),
        sub_chunk_v(4, Rank::Top, 0, empty_title(), date_body_v(spec_ymd_of(x.project_start)), true),
        sub_chunk_v(4, Rank::Top, 1, empty_title(), numeral_body_v(x.duration_years), true),
        sub_chunk_v(4, Rank::Top, 2, empty_title(), note_body_v(spec_stock(x.milestones)), true),
    ]
}

pub open spec fn enc_scripting(x: ScriptingV) -> Seq<ChunkV> {
    seq![
        title_chunk_v(5, x.title, x.visible),
        sub_chunk_v(5, Rank::Top, 0, empty_title(), option_body_v(x.answer), x.visible),
        sub_chunk_v(5, Rank::Top, 1, empty_title(), note_body_v(spec_stock(x.scripting)), x.visible),
    ]
}

/// The eleven chunks of one participant: a name chunk on the middle rank,
/// then the five plain fields and the five note chapters on the low rank.
pub open spec fn enc_participant(k: int, p: ParticipantV) -> Seq<ChunkV> {
    seq![
        sub_chunk_v(4, Rank::TeamParticipants, k, p.name, body_default_v(), p.visible),
        sub_chunk_v(k, Rank::TeamParticipantsPartner, 0, empty_title(), phrase_body_v(p.role), p.visible),
        sub_chunk_v(
            k,
            Rank::TeamParticipantsPartner,
            1,
            empty_title(),
            phrase_body_v(p.affiliation),
            p.visible,
        ),
        sub_chunk_v(
            k,
            Rank::TeamParticipantsPartner,
            2,
            empty_title(),
            phrase_body_v(p.hyperlink),
            p.visible,
        ),
        sub_chunk_v(k, Rank::TeamParticipantsPartner, 3, empty_title(), phrase_body_v(p.country), p.visible),
        sub_chunk_v(
            k,
            Rank::TeamParticipantsPartner,
            4,
            empty_title(),
            phrase_body_v(p.expertise),
            p.visible,
        ),
        sub_chunk_v(
            k,
            Rank::TeamParticipantsPartner,
            5,
            empty_title(),
            note_body_v(spec_stock(p.contribution)),
            p.visible,
        ),
        sub_chunk_v(
            k,
            Rank::TeamParticipantsPartner,
            6,
            empty_title(),
            note_body_v(spec_stock(p.team)),
            p.visible,
        ),
        sub_chunk_v(
            k,
            Rank::TeamParticipantsPartner,
            7,
            empty_title(),
            note_body_v(spec_stock(p.cv)),
            p.visible,
        ),
        sub_chunk_v(
            k,
            Rank::TeamParticipantsPartner,
            8,
            empty_title(),
            note_body_v(spec_stock(p.resources)),
            p.visible,
        ),
        sub_chunk_v(
            k,
            Rank::TeamParticipantsPartner,
            9,
            empty_title(),
            note_body_v(spec_stock(p.budget)),
            p.visible,
        ),
    ]
}

pub open spec fn enc_participants(ps: Seq<ParticipantV>, k: int) -> Seq<ChunkV>
    decreases ps.len(),
{
    if ps.len() == 0 {
        Seq::<ChunkV>::empty()
    } else {
        enc_participant(k, ps[0]) + enc_participants(ps.drop_first(), k + 1)
    }
}

pub open spec fn enc_team(x: TeamV) -> Seq<ChunkV> {
    seq![
        title_chunk_v(6, x.title, x.visible),
        sub_chunk_v(6, Rank::Top, 0, empty_title(), note_body_v(spec_stock(x.proposed_partners)), true),
        sub_chunk_v(6, Rank::Top, 1, empty_title(), note_body_v(spec_stock(x.project_leader)), true),
        sub_chunk_v(
            6,
            Rank::Top,
            2,
            empty_title(),
            note_body_v(spec_stock(x.industrial_partners)),
            true,
        ),
        sub_chunk_v(6, Rank::Top, 3, empty_title(), note_body_v(spec_stock(x.proponents)), true),
    ] + enc_participants(x.participants, 0)
}

pub open spec fn enc_prelim_results(x: PrelimResultsV) -> Seq<ChunkV> {
    seq![
        title_chunk_v(7, x.title, x.visible),
        sub_chunk_v(
            7,
            Rank::Top,
            0,
            empty_title(),
            note_body_v(spec_stock(x.prelim_results)),
            x.visible,
        ),
    ]
}

pub open spec fn enc_methodology(x: MethodologyV) -> Seq<ChunkV> {
    seq![
        title_chunk_v(8, x.title, x.visible),
        sub_chunk_v(8, Rank::Top, 0, empty_title(), note_body_v(spec_stock(x.methodology)), x.visible),
    ]
}

pub open spec fn enc_outcomes(x: OutcomesV) -> Seq<ChunkV> {
    seq![
        title_chunk_v(9, x.title, x.visible),
        sub_chunk_v(9, Rank::Top, 0, empty_title(), note_body_v(spec_stock(x.results)), x.visible),
        sub_chunk_v(9, Rank::Top, 1, empty_title(), note_body_v(spec_stock(x.impact)), x.visible),
        sub_chunk_v(9, Rank::Top, 2, empty_title(), note_body_v(spec_stock(x.propagation)), x.visible),
    ]
}

pub open spec fn enc_literature(x: LiteratureV) -> Seq<ChunkV> {
    seq![
        title_chunk_v(10, x.title, x.visible),
        sub_chunk_v(
            10,
            Rank::Top,
            0,
            empty_title(),
            note_body_v(spec_stock(x.literature_survey)),
            x.visible,
        ),
    ] + enc_citations(Rank::LiteratureSources, Rank::LiteratureSourcesCitation, 1, x.references, 0)
}

pub open spec fn enc_resources(x: ResourcesV) -> Seq<ChunkV> {
    seq![
        title_chunk_v(11, x.title, x.visible),
        sub_chunk_v(11, Rank::Top, 0, empty_title(), note_body_v(spec_stock(x.existing)), x.visible),
        sub_chunk_v(11, Rank::Top, 1, empty_title(), note_body_v(spec_stock(x.further)), x.visible),
    ]
}

pub open spec fn enc_budget(x: BudgetV) -> Seq<ChunkV> {
    seq![
        title_chunk_v(12, x.title, x.visible),
        sub_chunk_v(12, Rank::Top, 0, empty_title(), note_body_v(spec_stock(x.personnel)), true),
        sub_chunk_v(12, Rank::Top, 1, empty_title(), note_body_v(spec_stock(x.facilities)), true),
        sub_chunk_v(12, Rank::Top, 2, empty_title(), note_body_v(spec_stock(x.materials)), true),
        sub_chunk_v(12, Rank::Top, 3, empty_title(), note_body_v(spec_stock(x.workshops)), true),
        sub_chunk_v(12, Rank::Top, 4, empty_title(), note_body_v(spec_stock(x.overheads)), true),
        sub_chunk_v(12, Rank::Top, 5, empty_title(), note_body_v(spec_stock(x.misc)), true),
    ]
}

pub open spec fn enc_attachments(x: AttachmentsV) -> Seq<ChunkV> {
    seq![
        title_chunk_v(13, x.title, x.visible),
        sub_chunk_v(13, Rank::Top, 0, empty_title(), note_body_v(spec_stock(x.tables)), x.visible),
        sub_chunk_v(13, Rank::Top, 1, empty_title(), note_body_v(spec_stock(x.figures)), x.visible),
        sub_chunk_v(13, Rank::Top, 2, empty_title(), note_body_v(spec_stock(x.other)), x.visible),
    ]
}

/// The full chunk sequence of a document, in association table order.
pub open spec fn spec_encode(p: ProjectV) -> Seq<ChunkV> {
    enc_working_name(p.working_name) + enc_idea(p.idea) + enc_funding(p.funding) + enc_scope(
        p.scope,
    ) + enc_timeline(p.timeline) + enc_scripting(p.scripting) + enc_team(p.team)
        + enc_prelim_results(p.prelim_results) + enc_methodology(p.methodology) + enc_outcomes(
        p.outcomes,
    ) + enc_literature(p.literature) + enc_resources(p.resources) + enc_budget(p.budget)
        + enc_attachments(p.attachments)
}

/// The full persisted image of a document.
pub open spec fn spec_store_of(p: ProjectV) -> StoreV {
    StoreV {
        format: "B0004"@,
        owner: p.owner,
        record: p.record,
        resolution: p.resolution,
        chunks: spec_encode(p),
    }
}

// ~~~~~~~~~~~~~~~~~~~~~~~~~~~~~~~~~~~~~~~~~~~~~~~~~~~~~~~~~~~~~~~~~~~~~~~~~~
// Unfolding lemmas for the entity lists.
// ~~~~~~~~~~~~~~~~~~~~~~~~~~~~~~~~~~~~~~~~~~~~~~~~~~~~~~~~~~~~~~~~~~~~~~~~~~
pub proof fn lemma_enc_citations_snoc(
    mid: Rank,
    low: Rank,
    group: int,
    rs: Seq<ReferenceV>,
    r: ReferenceV,
    k: int,
)
    ensures
        enc_citations(mid, low, group, rs.push(r), k) == enc_citations(mid, low, group, rs, k)
            + enc_citation(mid, low, group, k + rs.len(), r),
    decreases rs.len(),
{
    assert(rs.push(r).len() == rs.len() + 1);
    assert(enc_citations(mid, low, group, rs.push(r), k) == enc_citation(
        mid,
        low,
        group,
        k,
        rs.push(r)[0],
    ) + enc_citations(mid, low, group, rs.push(r).drop_first(), k + 1));
    if rs.len() == 0 {
        assert(rs.push(r).drop_first() =~= Seq::<ReferenceV>::empty());
        assert(rs.push(r)[0] == r);
        assert(enc_citations(mid, low, group, rs.push(r).drop_first(), k + 1)
            == Seq::<ChunkV>::empty());
        assert(enc_citations(mid, low, group, rs, k) == Seq::<ChunkV>::empty());
        assert(enc_citations(mid, low, group, rs.push(r), k) =~= enc_citations(mid, low, group, rs, k)
            + enc_citation(mid, low, group, k + rs.len(), r));
    } else {
        assert(rs.push(r).drop_first() =~= rs.drop_first().push(r));
        assert(rs.push(r)[0] == rs[0]);
        lemma_enc_citations_snoc(mid, low, group, rs.drop_first(), r, k + 1);
        assert(enc_citations(mid, low, group, rs, k) == enc_citation(mid, low, group, k, rs[0])
            + enc_citations(mid, low, group, rs.drop_first(), k + 1));
        assert(enc_citations(mid, low, group, rs.push(r), k) =~= enc_citations(mid, low, group, rs, k)
            + enc_citation(mid, low, group, k + rs.len(), r));
    }
}

pub proof fn lemma_enc_programmes_snoc(ps: Seq<ProgrammeV>, p: ProgrammeV, j: int)
    ensures
        enc_programmes(ps.push(p), j) == enc_programmes(ps, j) + enc_programme(j + ps.len(), p),
    decreases ps.len(),
{
    assert(ps.push(p).len() == ps.len() + 1);
    assert(enc_programmes(ps.push(p), j) == enc_programme(j, ps.push(p)[0]) + enc_programmes(
        ps.push(p).drop_first(),
        j + 1,
    ));
    if ps.len() == 0 {
        assert(ps.push(p).drop_first() =~= Seq::<ProgrammeV>::empty());
        assert(ps.push(p)[0] == p);
        assert(enc_programmes(ps.push(p).drop_first(), j + 1) == Seq::<ChunkV>::empty());
        assert(enc_programmes(ps, j) == Seq::<ChunkV>::empty());
        assert(enc_programmes(ps.push(p), j) =~= enc_programmes(ps, j) + enc_programme(
            j + ps.len(),
            p,
        ));
    } else {
        assert(ps.push(p).drop_first() =~= ps.drop_first().push(p));
        assert(ps.push(p)[0] == ps[0]);
        lemma_enc_programmes_snoc(ps.drop_first(), p, j + 1);
        assert(enc_programmes(ps, j) == enc_programme(j, ps[0]) + enc_programmes(
            ps.drop_first(),
            j + 1,
        ));
        assert(enc_programmes(ps.push(p), j) =~= enc_programmes(ps, j) + enc_programme(
            j + ps.len(),
            p,
        ));
    }
}

pub proof fn lemma_enc_participants_snoc(ps: Seq<ParticipantV>, p: ParticipantV, k: int)
    ensures
        enc_participants(ps.push(p), k) == enc_participants(ps, k) + enc_participant(
            k + ps.len(),
            p,
        ),
    decreases ps.len(),
{
    assert(ps.push(p).len() == ps.len() + 1);
    assert(enc_participants(ps.push(p), k) == enc_participant(k, ps.push(p)[0]) + enc_participants(
        ps.push(p).drop_first(),
        k + 1,
    ));
    if ps.len() == 0 {
        assert(ps.push(p).drop_first() =~= Seq::<ParticipantV>::empty());
        assert(ps.push(p)[0] == p);
        assert(enc_participants(ps.push(p).drop_first(), k + 1) == Seq::<ChunkV>::empty());
        assert(enc_participants(ps, k) == Seq::<ChunkV>::empty());
        assert(enc_participants(ps.push(p), k) =~= enc_participants(ps, k) + enc_participant(
            k + ps.len(),
            p,
        ));
    } else {
        assert(ps.push(p).drop_first() =~= ps.drop_first().push(p));
        assert(ps.push(p)[0] == ps[0]);
        lemma_enc_participants_snoc(ps.drop_first(), p, k + 1);
        assert(enc_participants(ps, k) == enc_participant(k, ps[0]) + enc_participants(
            ps.drop_first(),
            k + 1,
        ));
        assert(enc_participants(ps.push(p), k) =~= enc_participants(ps, k) + enc_participant(
            k + ps.len(),
            p,
        ));
    }
}

// ~~~~~~~~~~~~~~~~~~~~~~~~~~~~~~~~~~~~~~~~~~~~~~~~~~~~~~~~~~~~~~~~~~~~~~~~~~
// The encoder.
// ~~~~~~~~~~~~~~~~~~~~~~~~~~~~~~~~~~~~~~~~~~~~~~~~~~~~~~~~~~~~~~~~~~~~~~~~~~
fn push_working_name(out: &mut Vec<Chunk>, w: &ProjectTitle)
    ensures
        final(out).deep_view() == old(out).deep_view() + enc_working_name(w.deep_view()),
{
    let ghost pre = out.deep_view();
    let c0 = title_chunk(0, &w.title, w.visible);
    out.push(c0);
    let empty = String::new();
    let c1 = sub_chunk(0, Rank::Top, 1, &empty, note_body(w.options.stock()), w.visible);
    out.push(c1);
    proof {
        assert(out.deep_view() =~= pre + enc_working_name(w.deep_view()));
    }
}

/// Emits the three chunks of one cited source.
fn push_citation(out: &mut Vec<Chunk>, mid: Rank, low: Rank, group: usize, k: usize, r: &Reference)
    ensures
        final(out).deep_view() == old(out).deep_view() + enc_citation(
            mid,
            low,
            group as int,
            k as int,
            r.deep_view(),
        ),
{
    let ghost pre = out.deep_view();
    let c0 = sub_chunk(group, mid, k, &r.title, Body::default(), r.visible);
    out.push(c0);
    let empty = String::new();
    let c1 = sub_chunk(k, low, 0, &empty, phrase_body(r.hyperlink.clone()), r.visible);
    out.push(c1);
    let c2 = sub_chunk(k, low, 1, &empty, note_body(r.source_details.stock()), r.visible);
    out.push(c2);
    proof {
        assert(out.deep_view() =~= pre + enc_citation(
            mid,
            low,
            group as int,
            k as int,
            r.deep_view(),
        ));
    }
}

/// Emits the title chunks and field chunks of a cited-source list, in its
/// runtime order.
fn push_citations(out: &mut Vec<Chunk>, mid: Rank, low: Rank, group: usize, rs: &Vec<Reference>)
    ensures
        final(out).deep_view() == old(out).deep_view() + enc_citations(
            mid,
            low,
            group as int,
            rs.deep_view(),
            0,
        ),
{
    let ghost base = out.deep_view();
    let mut k: usize = 0;
    while k < rs.len()
        invariant
            k <= rs.len(),
            out.deep_view() =~= base + enc_citations(
                mid,
                low,
                group as int,
                rs.deep_view().take(k as int),
                0,
            ),
        decreases rs.len() - k,
    {
        push_citation(out, mid, low, group, k, &rs[k]);
        proof {
            assert(rs.deep_view().take(k + 1) =~= rs.deep_view().take(k as int).push(
                rs.deep_view()[k as int],
            ));
            lemma_enc_citations_snoc(
                mid,
                low,
                group as int,
                rs.deep_view().take(k as int),
                rs.deep_view()[k as int],
                0,
            );
            assert(out.deep_view() =~= base + enc_citations(
                mid,
                low,
                group as int,
                rs.deep_view().take(k + 1),
                0,
            ));
        }
        k = k + 1;
    }
    proof {
        assert(rs.deep_view().take(rs.len() as int) =~= rs.deep_view());
    }
}

fn push_idea(out: &mut Vec<Chunk>, x: &Idea)
    ensures
        final(out).deep_view() == old(out).deep_view() + enc_idea(x.deep_view()),
{
    let ghost pre = out.deep_view();
    let c0 = title_chunk(1, &x.title, x.visible);
    out.push(c0);
    let empty = String::new();
    let c1 = sub_chunk(1, Rank::Top, 0, &empty, note_body(x.problem.stock()), true);
    out.push(c1);
    let c2 = sub_chunk(1, Rank::Top, 1, &empty, note_body(x.hypothesis.stock()), true);
    out.push(c2);
    let c3 = sub_chunk(1, Rank::Top, 2, &empty, note_body(x.summary.stock()), true);
    out.push(c3);
    let c4 = sub_chunk(1, Rank::Top, 3, &empty, note_body(x.description.stock()), true);
    out.push(c4);
    let c5 = sub_chunk(1, Rank::Top, 4, &x.references.title, Body::default(), x.references.visible);
    out.push(c5);
    push_citations(
        out,
        Rank::IdeaReferences,
        Rank::IdeaReferencesCitation,
        4,
        &x.references.references,
    );
    proof {
        assert(out.deep_view() =~= pre + enc_idea(x.deep_view()));
    }
}

fn push_funding(out: &mut Vec<Chunk>, f: &FundingOptions)
    ensures
        final(out).deep_view() == old(out).deep_view() + enc_funding(f.deep_view()),
{
    let ghost pre = out.deep_view();
    let c0 = title_chunk(2, &f.title, f.visible);
    out.push(c0);
    let ghost base = out.deep_view();
    let empty = String::new();
    let mut j: usize = 0;
    while j < f.funding_options.len()
        invariant
            j <= f.funding_options.len(),
            out.deep_view() =~= base + enc_programmes(
                f.funding_options.deep_view().take(j as int),
                0,
            ),
        decreases f.funding_options.len() - j,
    {
        let ghost step = out.deep_view();
        let p = &f.funding_options[j];
        let c1 = sub_chunk(2, Rank::Top, j, &p.title, Body::default(), p.visible);
        out.push(c1);
        let e = String::new();
        let c2 = sub_chunk(j, Rank::FundingProgram, 0, &e, note_body(p.annotation.stock()), p.visible);
        out.push(c2);
        let c3 = sub_chunk(j, Rank::FundingProgram, 1, &e, phrase_body(p.hyperlink.clone()), p.visible);
        out.push(c3);
        let c4 = sub_chunk(
            j,
            Rank::FundingProgram,
            2,
            &e,
            date_body(YearMonthDay::from(p.deadline)),
            p.visible,
        );
        out.push(c4);
        proof {
            assert(out.deep_view() =~= step + enc_programme(j as int, p.deep_view()));
            assert(f.funding_options.deep_view().take(j + 1) =~= f.funding_options.deep_view().take(
                j as int,
            ).push(f.funding_options.deep_view()[j as int]));
            lemma_enc_programmes_snoc(
                f.funding_options.deep_view().take(j as int),
                f.funding_options.deep_view()[j as int],
                0,
            );
            assert(out.deep_view() =~= base + enc_programmes(
                f.funding_options.deep_view().take(j + 1),
                0,
            ));
        }
        j = j + 1;
    }
    proof {
        assert(f.funding_options.deep_view().take(f.funding_options.len() as int)
            =~= f.funding_options.deep_view());
        assert(out.deep_view() =~= pre + enc_funding(f.deep_view()));
    }
}

fn push_scope(out: &mut Vec<Chunk>, x: &Scope)
    ensures
        final(out).deep_view() == old(out).deep_view() + enc_scope(x.deep_view()),
{
    let ghost pre = out.deep_view();
    let c0 = title_chunk(3, &x.title, x.visible);
    out.push(c0);
    let empty = String::new();
    let c1 = sub_chunk(3, Rank::Top, 0, &empty, note_body(x.suggested_tasks.stock()), true);
    out.push(c1);
    let c2 = sub_chunk(3, Rank::Top, 1, &empty, note_body(x.objectives.stock()), true);
    out.push(c2);
    let c3 = sub_chunk(3, Rank::Top, 2, &empty, note_body(x.activities.stock()), true);
    out.push(c3);
    let c4 = sub_chunk(3, Rank::Top, 3, &empty, note_body(x.work_plan.stock()), true);
    out.push(c4);
    let c5 = sub_chunk(3, Rank::Top, 4, &empty, note_body(x.tasks.stock()), true);
    out.push(c5);
    proof {
        assert(out.deep_view() =~= pre + enc_scope(x.deep_view()));
    }
}

fn push_timeline(out: &mut Vec<Chunk>, x: &Timeline)
    ensures
        final(out).deep_view() == old(out).deep_view() + enc_timeline(x.deep_view()),
{
    let ghost pre = out.deep_view();
    let c0 = title_chunk(4, &x.title, x.visible);
    out.push(c0);
    let empty = String::new();
    let c1 = sub_chunk(4, Rank::Top, 0, &empty, date_body(YearMonthDay::from(x.project_start)), true);
    out.push(c1);
    let c2 = sub_chunk(4, Rank::Top, 1, &empty, numeral_body(x.duration_years), true);
    out.push(c2);
    let c3 = sub_chunk(4, Rank::Top, 2, &empty, note_body(x.milestones.stock()), true);
    out.push(c3);
    proof {
        assert(out.deep_view() =~= pre + enc_timeline(x.deep_view()));
    }
}

fn push_scripting(out: &mut Vec<Chunk>, x: &Scripting)
    ensures
        final(out).deep_view() == old(out).deep_view() + enc_scripting(x.deep_view()),
{
    let ghost pre = out.deep_view();
    let c0 = title_chunk(5, &x.title, x.visible);
    out.push(c0);
    let empty = String::new();
    let c1 = sub_chunk(5, Rank::Top, 0, &empty, option_body(x.answer), x.visible);
    out.push(c1);
    let c2 = sub_chunk(5, Rank::Top, 1, &empty, note_body(x.scripting.stock()), x.visible);
    out.push(c2);
    proof {
        assert(out.deep_view() =~= pre + enc_scripting(x.deep_view()));
    }
}

/// Emits the eleven chunks of one participant.
fn push_participant(out: &mut Vec<Chunk>, k: usize, p: &Participant)
    ensures
        final(out).deep_view() == old(out).deep_view() + enc_participant(k as int, p.deep_view()),
{
    let ghost pre = out.deep_view();
    let c0 = sub_chunk(4, Rank::TeamParticipants, k, &p.name, Body::default(), p.visible);
    out.push(c0);
    let e = String::new();
    let c1 = sub_chunk(k, Rank::TeamParticipantsPartner, 0, &e, phrase_body(p.role.clone()), p.visible);
    out.push(c1);
    let c2 = sub_chunk(
        k,
        Rank::TeamParticipantsPartner,
        1,
        &e,
        phrase_body(p.affiliation.clone()),
        p.visible,
    );
    out.push(c2);
    let c3 = sub_chunk(
        k,
        Rank::TeamParticipantsPartner,
        2,
        &e,
        phrase_body(p.hyperlink.clone()),
        p.visible,
    );
    out.push(c3);
    let c4 = sub_chunk(
        k,
        Rank::TeamParticipantsPartner,
        3,
        &e,
        phrase_body(p.country.clone()),
        p.visible,
    );
    out.push(c4);
    let c5 = sub_chunk(
        k,
        Rank::TeamParticipantsPartner,
        4,
        &e,
        phrase_body(p.expertise.clone()),
        p.visible,
    );
    out.push(c5);
    let c6 = sub_chunk(
        k,
        Rank::TeamParticipantsPartner,
        5,
        &e,
        note_body(p.contribution.stock()),
        p.visible,
    );
    out.push(c6);
    let c7 = sub_chunk(k, Rank::TeamParticipantsPartner, 6, &e, note_body(p.team.stock()), p.visible);
    out.push(c7);
    let c8 = sub_chunk(k, Rank::TeamParticipantsPartner, 7, &e, note_body(p.cv.stock()), p.visible);
    out.push(c8);
    let c9 = sub_chunk(
        k,
        Rank::TeamParticipantsPartner,
        8,
        &e,
        note_body(p.resources.stock()),
        p.visible,
    );
    out.push(c9);
    let c10 = sub_chunk(
        k,
        Rank::TeamParticipantsPartner,
        9,
        &e,
        note_body(p.budget.stock()),
        p.visible,
    );
    out.push(c10);
    proof {
        assert(out.deep_view() =~= pre + enc_participant(k as int, p.deep_view()));
    }
}

fn push_team(out: &mut Vec<Chunk>, x: &Team)
    ensures
        final(out).deep_view() == old(out).deep_view() + enc_team(x.deep_view()),
{
    let ghost pre = out.deep_view();
    let c0 = title_chunk(6, &x.title, x.visible);
    out.push(c0);
    let empty = String::new();
    let c1 = sub_chunk(6, Rank::Top, 0, &empty, note_body(x.proposed_partners.stock()), true);
    out.push(c1);
    let c2 = sub_chunk(6, Rank::Top, 1, &empty, note_body(x.project_leader.stock()), true);
    out.push(c2);
    let c3 = sub_chunk(6, Rank::Top, 2, &empty, note_body(x.industrial_partners.stock()), true);
    out.push(c3);
    let c4 = sub_chunk(6, Rank::Top, 3, &empty, note_body(x.proponents.stock()), true);
    out.push(c4);
    let ghost base = out.deep_view();
    let mut k: usize = 0;
    while k < x.participants.len()
        invariant
            k <= x.participants.len(),
            out.deep_view() =~= base + enc_participants(
                x.participants.deep_view().take(k as int),
                0,
            ),
        decreases x.participants.len() - k,
    {
        push_participant(out, k, &x.participants[k]);
        proof {
            assert(x.participants.deep_view().take(k + 1) =~= x.participants.deep_view().take(
                k as int,
            ).push(x.participants.deep_view()[k as int]));
            lemma_enc_participants_snoc(
                x.participants.deep_view().take(k as int),
                x.participants.deep_view()[k as int],
                0,
            );
            assert(out.deep_view() =~= base + enc_participants(
                x.participants.deep_view().take(k + 1),
                0,
            ));
        }
        k = k + 1;
    }
    proof {
        assert(x.participants.deep_view().take(x.participants.len() as int) =~= x.participants
            .deep_view());
        assert(out.deep_view() =~= pre + enc_team(x.deep_view()));
    }
}

fn push_prelim_results(out: &mut Vec<Chunk>, x: &PrelimResults)
    ensures
        final(out).deep_view() == old(out).deep_view() + enc_prelim_results(x.deep_view()),
{
    let ghost pre = out.deep_view();
    let c0 = title_chunk(7, &x.title, x.visible);
    out.push(c0);
    let empty = String::new();
    let c1 = sub_chunk(7, Rank::Top, 0, &empty, note_body(x.prelim_results.stock()), x.visible);
    out.push(c1);
    proof {
        assert(out.deep_view() =~= pre + enc_prelim_results(x.deep_view()));
    }
}

fn push_methodology(out: &mut Vec<Chunk>, x: &Methodology)
    ensures
        final(out).deep_view() == old(out).deep_view() + enc_methodology(x.deep_view()),
{
    let ghost pre = out.deep_view();
    let c0 = title_chunk(8, &x.title, x.visible);
    out.push(c0);
    let empty = String::new();
    let c1 = sub_chunk(8, Rank::Top, 0, &empty, note_body(x.methodology.stock()), x.visible);
    out.push(c1);
    proof {
        assert(out.deep_view() =~= pre + enc_methodology(x.deep_view()));
    }
}

fn push_outcomes(out: &mut Vec<Chunk>, x: &Outcomes)
    ensures
        final(out).deep_view() == old(out).deep_view() + enc_outcomes(x.deep_view()),
{
    let ghost pre = out.deep_view();
    let c0 = title_chunk(9, &x.title, x.visible);
    out.push(c0);
    let empty = String::new();
    let c1 = sub_chunk(9, Rank::Top, 0, &empty, note_body(x.results.stock()), x.visible);
    out.push(c1);
    let c2 = sub_chunk(9, Rank::Top, 1, &empty, note_body(x.impact.stock()), x.visible);
    out.push(c2);
    let c3 = sub_chunk(9, Rank::Top, 2, &empty, note_body(x.propagation.stock()), x.visible);
    out.push(c3);
    proof {
        assert(out.deep_view() =~= pre + enc_outcomes(x.deep_view()));
    }
}

fn push_literature(out: &mut Vec<Chunk>, x: &Literature)
    ensures
        final(out).deep_view() == old(out).deep_view() + enc_literature(x.deep_view()),
{
    let ghost pre = out.deep_view();
    let c0 = title_chunk(10, &x.title, x.visible);
    out.push(c0);
    let empty = String::new();
    let c1 = sub_chunk(10, Rank::Top, 0, &empty, note_body(x.literature_survey.stock()), x.visible);
    out.push(c1);
    push_citations(
        out,
        Rank::LiteratureSources,
        Rank::LiteratureSourcesCitation,
        1,
        &x.references,
    );
    proof {
        assert(out.deep_view() =~= pre + enc_literature(x.deep_view()));
    }
}

fn push_resources(out: &mut Vec<Chunk>, x: &Resources)
    ensures
        final(out).deep_view() == old(out).deep_view() + enc_resources(x.deep_view()),
{
    let ghost pre = out.deep_view();
    let c0 = title_chunk(11, &x.title, x.visible);
    out.push(c0);
    let empty = String::new();
    let c1 = sub_chunk(11, Rank::Top, 0, &empty, note_body(x.existing.stock()), x.visible);
    out.push(c1);
    let c2 = sub_chunk(11, Rank::Top, 1, &empty, note_body(x.further.stock()), x.visible);
    out.push(c2);
    proof {
        assert(out.deep_view() =~= pre + enc_resources(x.deep_view()));
    }
}

fn push_budget(out: &mut Vec<Chunk>, x: &Budget)
    ensures
        final(out).deep_view() == old(out).deep_view() + enc_budget(x.deep_view()),
{
    let ghost pre = out.deep_view();
    let c0 = title_chunk(12, &x.title, x.visible);
    out.push(c0);
    let empty = String::new();
    let c1 = sub_chunk(12, Rank::Top, 0, &empty, note_body(x.personnel.stock()), true);
    out.push(c1);
    let c2 = sub_chunk(12, Rank::Top, 1, &empty, note_body(x.facilities.stock()), true);
    out.push(c2);
    let c3 = sub_chunk(12, Rank::Top, 2, &empty, note_body(x.materials.stock()), true);
    out.push(c3);
    let c4 = sub_chunk(12, Rank::Top, 3, &empty, note_body(x.workshops.stock()), true);
    out.push(c4);
    let c5 = sub_chunk(12, Rank::Top, 4, &empty, note_body(x.overheads.stock()), true);
    out.push(c5);
    let c6 = sub_chunk(12, Rank::Top, 5, &empty, note_body(x.misc.stock()), true);
    out.push(c6);
    proof {
        assert(out.deep_view() =~= pre + enc_budget(x.deep_view()));
    }
}

fn push_attachments(out: &mut Vec<Chunk>, x: &Attachments)
    ensures
        final(out).deep_view() == old(out).deep_view() + enc_attachments(x.deep_view()),
{
    let ghost pre = out.deep_view();
    let c0 = title_chunk(13, &x.title, x.visible);
    out.push(c0);
    let empty = String::new();
    let c1 = sub_chunk(13, Rank::Top, 0, &empty, note_body(x.tables.stock()), x.visible);
    out.push(c1);
    let c2 = sub_chunk(13, Rank::Top, 1, &empty, note_body(x.figures.stock()), x.visible);
    out.push(c2);
    let c3 = sub_chunk(13, Rank::Top, 2, &empty, note_body(x.other.stock()), x.visible);
    out.push(c3);
    proof {
        assert(out.deep_view() =~= pre + enc_attachments(x.deep_view()));
    }
}

impl Store {
    /// Encodes a document into its persisted image.  Total: every document
    /// encodes, and the resulting chunk list is exactly [`spec_encode`] of
    /// the document.
    pub fn from(val: Project) -> (r: Store)
        ensures
            r.deep_view() == spec_store_of(val.deep_view()),
    {
        let mut chunks: Vec<Chunk> = Vec::new();
        push_working_name(&mut chunks, &val.working_name);
        push_idea(&mut chunks, &val.idea);
        push_funding(&mut chunks, &val.funding);
        push_scope(&mut chunks, &val.scope);
        push_timeline(&mut chunks, &val.timeline);
        push_scripting(&mut chunks, &val.scripting);
        push_team(&mut chunks, &val.team);
        push_prelim_results(&mut chunks, &val.prelim_results);
        push_methodology(&mut chunks, &val.methodology);
        push_outcomes(&mut chunks, &val.outcomes);
        push_literature(&mut chunks, &val.literature);
        push_resources(&mut chunks, &val.resources);
        push_budget(&mut chunks, &val.budget);
        push_attachments(&mut chunks, &val.attachments);
        proof {
            assert(chunks.deep_view() =~= spec_encode(val.deep_view()));
        }
        let r = Store {
            format: String::from_str(DATA_FORMAT_VERSION),
            owner: val.owner,
            record: val.record,
            resolution: val.resolution,
            chunks,
        };
        proof {
            assert(r.deep_view() =~= spec_store_of(val.deep_view()));
        }
        r
    }
}

} // verus!
