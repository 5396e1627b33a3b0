//! The budget section: six tiered note lists of cost estimates.

use vstd::prelude::*;

use crate::chapter::{clone_segments, Segment, Variety};
use crate::note::{NoteV, Notes};

verus! {

/// The subsections of the budget section.
#[derive(Clone, Copy, PartialEq, Eq, Debug)]
pub enum SectionBudget {
    Facilities,
    Materials,
    Miscellaneous,
    Overheads,
    Personnel,
    Workshops,
}

/// Budget estimates for the project.
pub struct Budget {
    pub title: String,
    /// Ordering of the subsections in the editor; never persisted.
    pub index_list: Vec<Segment>,
    /// Personnel, including stipends.
    pub personnel: Notes,
    /// Facilities and equipment.
    pub facilities: Notes,
    /// Materials, software, publications, fees and travel.
    pub materials: Notes,
    /// Organization of meetings and workshops.
    pub workshops: Notes,
    pub overheads: Notes,
    pub misc: Notes,
    pub visible: bool,
}

/// Mathematical image of a [`Budget`].
#[verifier::ext_equal]
pub struct BudgetV {
    pub title: Seq<char>,
    pub index_list: Seq<Segment>,
    pub personnel: Seq<NoteV>,
    pub facilities: Seq<NoteV>,
    pub materials: Seq<NoteV>,
    pub workshops: Seq<NoteV>,
    pub overheads: Seq<NoteV>,
    pub misc: Seq<NoteV>,
    pub visible: bool,
}

impl DeepView for Budget {
    type V = BudgetV;

    open spec fn deep_view(&self) -> BudgetV {
        BudgetV {
            title: self.title.deep_view(),
            index_list: self.index_list.deep_view(),
            personnel: self.personnel.deep_view(),
            facilities: self.facilities.deep_view(),
            materials: self.materials.deep_view(),
            workshops: self.workshops.deep_view(),
            overheads: self.overheads.deep_view(),
            misc: self.misc.deep_view(),
            visible: self.visible,
        }
    }
}

pub open spec fn budget_index_default() -> Seq<Segment> {
    seq![
        Segment { variety: Variety::SectionBudget(SectionBudget::Personnel), tier: 4 },
        Segment { variety: Variety::SectionBudget(SectionBudget::Facilities), tier: 4 },
        Segment { variety: Variety::SectionBudget(SectionBudget::Materials), tier: 4 },
        Segment { variety: Variety::SectionBudget(SectionBudget::Workshops), tier: 4 },
        Segment { variety: Variety::SectionBudget(SectionBudget::Overheads), tier: 4 },
        Segment { variety: Variety::SectionBudget(SectionBudget::Miscellaneous), tier: 4 },
    ]
}

pub open spec fn budget_default_v() -> BudgetV {
    BudgetV {
        title: "Budget Estimates"@,
        index_list: budget_index_default(),
        personnel: Seq::<NoteV>::empty(),
        facilities: Seq::<NoteV>::empty(),
        materials: Seq::<NoteV>::empty(),
        workshops: Seq::<NoteV>::empty(),
        overheads: Seq::<NoteV>::empty(),
        misc: Seq::<NoteV>::empty(),
        visible: false,
    }
}

impl Default for Budget {
    fn default() -> (r: Self)
        ensures
            r.deep_view() == budget_default_v(),
    {
        let mut index_list: Vec<Segment> = Vec::new();
        index_list.push(
            Segment { variety: Variety::SectionBudget(SectionBudget::Personnel), tier: 4 },
        );
        index_list.push(
            Segment { variety: Variety::SectionBudget(SectionBudget::Facilities), tier: 4 },
        );
        index_list.push(
            Segment { variety: Variety::SectionBudget(SectionBudget::Materials), tier: 4 },
        );
        index_list.push(
            Segment { variety: Variety::SectionBudget(SectionBudget::Workshops), tier: 4 },
        );
        index_list.push(
            Segment { variety: Variety::SectionBudget(SectionBudget::Overheads), tier: 4 },
        );
        index_list.push(
            Segment { variety: Variety::SectionBudget(SectionBudget::Miscellaneous), tier: 4 },
        );
        proof {
            assert(index_list.deep_view() =~= budget_index_default());
        }
        let r = Budget {
            title: String::from_str("Budget Estimates"),
            index_list,
            personnel: Notes::default(),
            facilities: Notes::default(),
            materials: Notes::default(),
            workshops: Notes::default(),
            overheads: Notes::default(),
            misc: Notes::default(),
            visible: false,
        };
        proof {
            assert(r.deep_view() =~= budget_default_v());
        }
        r
    }
}

impl Clone for Budget {
    fn clone(&self) -> (r: Self)
        ensures
            r.deep_view() == self.deep_view(),
    {
        let r = Budget {
            title: self.title.clone(),
            index_list: clone_segments(&self.index_list),
            personnel: self.personnel.clone(),
            facilities: self.facilities.clone(),
            materials: self.materials.clone(),
            workshops: self.workshops.clone(),
            overheads: self.overheads.clone(),
            misc: self.misc.clone(),
            visible: self.visible,
        };
        proof {
            assert(r.deep_view() =~= self.deep_view());
        }
        r
    }
}

} // verus!
