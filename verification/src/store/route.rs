//! The addressing scheme: what a chunk's parent/address pair means.
//!
//! Every decoder branch goes through [`spec_route`], the single authority
//! mapping a parent reference and an address to the destination field of the
//! document.  A destination is `Known`, `Ignored` (an address the format
//! reserves but does not populate today), or `Invalid` (an address that a
//! structurally mandatory chunk can never carry).

use vstd::prelude::*;

use crate::chapter::Variety;
use crate::store::v_b0004::{sections_table, ParentV, Rank};

verus! {

/// A destination in the document.  Entity destinations carry the index of
/// the entity within its owning list, so destinations in different entities
/// of one list are as distinct as destinations in different sections.
pub enum Route {
    /// Title and visibility of the top-level section the table names.
    Section(Variety),
    WorkingNameOptions,
    IdeaProblem,
    IdeaHypothesis,
    IdeaSummary,
    IdeaDescription,
    IdeaReferencesTitle,
    /// A fresh key reference; decoding appends it to the list.
    IdeaReferenceEntry(int),
    IdeaReferenceHyperlink(int),
    IdeaReferenceDetails(int),
    /// A fresh funding programme; decoding appends it to the list.
    FundingProgrammeEntry(int),
    FundingAnnotation(int),
    FundingHyperlink(int),
    FundingDeadline(int),
    ScopeSuggestedTasks,
    ScopeObjectives,
    ScopeActivities,
    ScopeWorkPlan,
    ScopeTasks,
    TimelineStart,
    TimelineDuration,
    TimelineMilestones,
    ScriptingAnswer,
    ScriptingNotes,
    TeamProposedPartners,
    TeamProjectLeader,
    TeamIndustrialPartners,
    TeamProponents,
    /// A fresh participant; decoding appends it to the list.
    ParticipantEntry(int),
    ParticipantRole(int),
    ParticipantAffiliation(int),
    ParticipantHyperlink(int),
    ParticipantCountry(int),
    ParticipantExpertise(int),
    ParticipantContribution(int),
    ParticipantTeam(int),
    ParticipantCv(int),
    ParticipantResources(int),
    ParticipantBudget(int),
    PrelimResultsNotes,
    MethodologyNotes,
    OutcomesResults,
    OutcomesImpact,
    OutcomesPropagation,
    LiteratureSurvey,
    /// A fresh cited source; decoding appends it to the list.
    LiteratureSourceEntry(int),
    LiteratureSourceHyperlink(int),
    LiteratureSourceDetails(int),
    ResourcesExisting,
    ResourcesFurther,
    BudgetPersonnel,
    BudgetFacilities,
    BudgetMaterials,
    BudgetWorkshops,
    BudgetOverheads,
    BudgetMisc,
    AttachmentsTables,
    AttachmentsFigures,
    AttachmentsOther,
}

/// What the decoder does with a parent/address pair.
pub enum RouteOutcome {
    /// The pair names this destination.
    Known(Route),
    /// The pair is reserved for content this schema version does not route;
    /// the chunk is skipped without touching the document.
    Ignored,
    /// The pair can only come from a damaged or foreign record list; the
    /// whole decode fails.
    Invalid,
}

/// Looks an address up in an association table: the tag at that position,
/// or nothing when the address lies beyond the table.
pub open spec fn table_lookup(table: Seq<Variety>, address: int) -> Option<Variety> {
    if 0 <= address < table.len() {
        Some(table[address])
    } else {
        None
    }
}

/// The destinations of chunks parented directly by the top-level section at
/// table position `section`.
pub open spec fn route_top(section: int, address: int) -> RouteOutcome {
    if section == 0 {
        // The working-name options list.  The encoder writes it at address
        // one; address zero is accepted as well for record lists written by
        // hand or by older tooling.
        if address == 0 || address == 1 {
            RouteOutcome::Known(Route::WorkingNameOptions)
        } else {
            RouteOutcome::Ignored
        }
    } else if section == 1 {
        if address == 0 {
            RouteOutcome::Known(Route::IdeaProblem)
        } else if address == 1 {
            RouteOutcome::Known(Route::IdeaHypothesis)
        } else if address == 2 {
            RouteOutcome::Known(Route::IdeaSummary)
        } else if address == 3 {
            RouteOutcome::Known(Route::IdeaDescription)
        } else if address == 4 {
            RouteOutcome::Known(Route::IdeaReferencesTitle)
        } else {
            RouteOutcome::Ignored
        }
    } else if section == 2 {
        RouteOutcome::Known(Route::FundingProgrammeEntry(address))
    } else if section == 3 {
        if address == 0 {
            RouteOutcome::Known(Route::ScopeSuggestedTasks)
        } else if address == 1 {
            RouteOutcome::Known(Route::ScopeObjectives)
        } else if address == 2 {
            RouteOutcome::Known(Route::ScopeActivities)
        } else if address == 3 {
            RouteOutcome::Known(Route::ScopeWorkPlan)
        } else if address == 4 {
            RouteOutcome::Known(Route::ScopeTasks)
        } else {
            RouteOutcome::Ignored
        }
    } else if section == 4 {
        if address == 0 {
            RouteOutcome::Known(Route::TimelineStart)
        } else if address == 1 {
            RouteOutcome::Known(Route::TimelineDuration)
        } else if address == 2 {
            RouteOutcome::Known(Route::TimelineMilestones)
        } else {
            RouteOutcome::Invalid
        }
    } else if section == 5 {
        if address == 0 {
            RouteOutcome::Known(Route::ScriptingAnswer)
        } else if address == 1 {
            RouteOutcome::Known(Route::ScriptingNotes)
        } else {
            RouteOutcome::Ignored
        }
    } else if section == 6 {
        if address == 0 {
            RouteOutcome::Known(Route::TeamProposedPartners)
        } else if address == 1 {
            RouteOutcome::Known(Route::TeamProjectLeader)
        } else if address == 2 {
            RouteOutcome::Known(Route::TeamIndustrialPartners)
        } else if address == 3 {
            RouteOutcome::Known(Route::TeamProponents)
        } else {
            RouteOutcome::Ignored
        }
    } else if section == 7 {
        if address == 0 {
            RouteOutcome::Known(Route::PrelimResultsNotes)
        } else {
            RouteOutcome::Ignored
        }
    } else if section == 8 {
        if address == 0 {
            RouteOutcome::Known(Route::MethodologyNotes)
        } else {
            RouteOutcome::Ignored
        }
    } else if section == 9 {
        if address == 0 {
            RouteOutcome::Known(Route::OutcomesResults)
        } else if address == 1 {
            RouteOutcome::Known(Route::OutcomesImpact)
        } else if address == 2 {
            RouteOutcome::Known(Route::OutcomesPropagation)
        } else {
            RouteOutcome::Ignored
        }
    } else if section == 10 {
        if address == 0 {
            RouteOutcome::Known(Route::LiteratureSurvey)
        } else {
            // Address one is the reserved slot of the cited-source list; the
            // sources travel on their own ranks.
            RouteOutcome::Ignored
        }
    } else if section == 11 {
        if address == 0 {
            RouteOutcome::Known(Route::ResourcesExisting)
        } else if address == 1 {
            RouteOutcome::Known(Route::ResourcesFurther)
        } else {
            RouteOutcome::Ignored
        }
    } else if section == 12 {
        if address == 0 {
            RouteOutcome::Known(Route::BudgetPersonnel)
        } else if address == 1 {
            RouteOutcome::Known(Route::BudgetFacilities)
        } else if address == 2 {
            RouteOutcome::Known(Route::BudgetMaterials)
        } else if address == 3 {
            RouteOutcome::Known(Route::BudgetWorkshops)
        } else if address == 4 {
            RouteOutcome::Known(Route::BudgetOverheads)
        } else if address == 5 {
            RouteOutcome::Known(Route::BudgetMisc)
        } else {
            RouteOutcome::Ignored
        }
    } else if section == 13 {
        if address == 0 {
            RouteOutcome::Known(Route::AttachmentsTables)
        } else if address == 1 {
            RouteOutcome::Known(Route::AttachmentsFigures)
        } else if address == 2 {
            RouteOutcome::Known(Route::AttachmentsOther)
        } else {
            RouteOutcome::Ignored
        }
    } else {
        RouteOutcome::Ignored
    }
}

/// The destination of a chunk under a given section association table.  The
/// table decides only the meaning of top-level addresses; everything below
/// them is fixed by the ranks.
pub open spec fn spec_route_with(
    sections: Seq<Variety>,
    parent: Option<ParentV>,
    address: int,
) -> RouteOutcome {
    match parent {
        None => match table_lookup(sections, address) {
            Some(v) => RouteOutcome::Known(Route::Section(v)),
            None => RouteOutcome::Invalid,
        },
        Some(pv) => match pv.variety {
            Rank::Top => route_top(pv.address, address),
            Rank::IdeaReferences => if pv.address == 4 {
                RouteOutcome::Known(Route::IdeaReferenceEntry(address))
            } else {
                RouteOutcome::Ignored
            },
            Rank::IdeaReferencesCitation => if address == 0 {
                RouteOutcome::Known(Route::IdeaReferenceHyperlink(pv.address))
            } else if address == 1 {
                RouteOutcome::Known(Route::IdeaReferenceDetails(pv.address))
            } else {
                RouteOutcome::Ignored
            },
            Rank::FundingProgram => if address == 0 {
                RouteOutcome::Known(Route::FundingAnnotation(pv.address))
            } else if address == 1 {
                RouteOutcome::Known(Route::FundingHyperlink(pv.address))
            } else if address == 2 {
                RouteOutcome::Known(Route::FundingDeadline(pv.address))
            } else {
                RouteOutcome::Ignored
            },
            Rank::TeamParticipants => if pv.address == 4 {
                RouteOutcome::Known(Route::ParticipantEntry(address))
            } else {
                RouteOutcome::Ignored
            },
            Rank::TeamParticipantsPartner => if address == 0 {
                RouteOutcome::Known(Route::ParticipantRole(pv.address))
            } else if address == 1 {
                RouteOutcome::Known(Route::ParticipantAffiliation(pv.address))
            } else if address == 2 {
                RouteOutcome::Known(Route::ParticipantHyperlink(pv.address))
            } else if address == 3 {
                RouteOutcome::Known(Route::ParticipantCountry(pv.address))
            } else if address == 4 {
                RouteOutcome::Known(Route::ParticipantExpertise(pv.address))
            } else if address == 5 {
                RouteOutcome::Known(Route::ParticipantContribution(pv.address))
            } else if address == 6 {
                RouteOutcome::Known(Route::ParticipantTeam(pv.address))
            } else if address == 7 {
                RouteOutcome::Known(Route::ParticipantCv(pv.address))
            } else if address == 8 {
                RouteOutcome::Known(Route::ParticipantResources(pv.address))
            } else if address == 9 {
                RouteOutcome::Known(Route::ParticipantBudget(pv.address))
            } else {
                RouteOutcome::Ignored
            },
            Rank::LiteratureSources => if pv.address == 1 {
                RouteOutcome::Known(Route::LiteratureSourceEntry(address))
            } else {
                RouteOutcome::Ignored
            },
            Rank::LiteratureSourcesCitation => if address == 0 {
                RouteOutcome::Known(Route::LiteratureSourceHyperlink(pv.address))
            } else if address == 1 {
                RouteOutcome::Known(Route::LiteratureSourceDetails(pv.address))
            } else {
                RouteOutcome::Ignored
            },
        },
    }
}

/// The destination of a chunk under the current association table.
pub open spec fn spec_route(parent: Option<ParentV>, address: int) -> RouteOutcome {
    spec_route_with(sections_table(), parent, address)
}

/// Address stability under append: extending an association table at the
/// end never changes the tag an already-valid address looks up to, so every
/// chunk written under the old table keeps its meaning under the new one.
pub proof fn lemma_table_lookup_stable(old_table: Seq<Variety>, new_table: Seq<Variety>, address: int)
    requires
        old_table.is_prefix_of(new_table),
        0 <= address < old_table.len(),
    ensures
        table_lookup(new_table, address) == table_lookup(old_table, address),
{
    assert(new_table[address] == old_table[address]);
}

/// Address stability under append, lifted to whole routes: a chunk whose
/// route is defined under the old section table routes identically under any
/// table that extends it.
pub proof fn lemma_route_stable_under_append(
    old_table: Seq<Variety>,
    new_table: Seq<Variety>,
    parent: Option<ParentV>,
    address: int,
    r: Route,
)
    requires
        old_table.is_prefix_of(new_table),
        spec_route_with(old_table, parent, address) == RouteOutcome::Known(r),
    ensures
        spec_route_with(new_table, parent, address) == RouteOutcome::Known(r),
{
    match parent {
        None => {
            assert(0 <= address < old_table.len());
            lemma_table_lookup_stable(old_table, new_table, address);
        },
        Some(pv) => {},
    }
}

/// Scope-local address uniqueness: one address under two different parent
/// references can never reach one destination.  Together with the fact that
/// entity destinations carry their entity's index, numerically colliding
/// addresses in unrelated branches stay apart.
pub proof fn lemma_scope_local_uniqueness(
    p1: Option<ParentV>,
    p2: Option<ParentV>,
    address: int,
    r1: Route,
    r2: Route,
)
    requires
        spec_route(p1, address) == RouteOutcome::Known(r1),
        spec_route(p2, address) == RouteOutcome::Known(r2),
        p1 != p2,
    ensures
        r1 != r2,
{
}

} // verus!
