//! The attachments section: tables, figures and other supplements.

use vstd::prelude::*;

use crate::note::{NoteV, Notes};

verus! {

/// Supplementary material listed with the proposal.
pub struct Attachments {
    pub title: String,
    pub tables: Notes,
    pub figures: Notes,
    pub other: Notes,
    pub visible: bool,
}

/// Mathematical image of an [`Attachments`].
#[verifier::ext_equal]
pub struct AttachmentsV {
    pub title: Seq<char>,
    pub tables: Seq<NoteV>,
    pub figures: Seq<NoteV>,
    pub other: Seq<NoteV>,
    pub visible: bool,
}

impl DeepView for Attachments {
    type V = AttachmentsV;

    open spec fn deep_view(&self) -> AttachmentsV {
        AttachmentsV {
            title: self.title.deep_view(),
            tables: self.tables.deep_view(),
            figures: self.figures.deep_view(),
            other: self.other.deep_view(),
            visible: self.visible,
        }
    }
}

pub open spec fn attachments_default_v() -> AttachmentsV {
    AttachmentsV {
        title: "Attachments"@,
        tables: Seq::<NoteV>::empty(),
        figures: Seq::<NoteV>::empty(),
        other: Seq::<NoteV>::empty(),
        visible: false,
    }
}

impl Default for Attachments {
    fn default() -> (r: Self)
        ensures
            r.deep_view() == attachments_default_v(),
    {
        let r = Attachments {
            title: String::from_str("Attachments"),
            tables: Notes::default(),
            figures: Notes::default(),
            other: Notes::default(),
            visible: false,
        };
        proof {
            assert(r.deep_view() =~= attachments_default_v());
        }
        r
    }
}

impl Clone for Attachments {
    fn clone(&self) -> (r: Self)
        ensures
            r.deep_view() == self.deep_view(),
    {
        let r = Attachments {
            title: self.title.clone(),
            tables: self.tables.clone(),
            figures: self.figures.clone(),
            other: self.other.clone(),
            visible: self.visible,
        };
        proof {
            assert(r.deep_view() =~= self.deep_view());
        }
        r
    }
}

} // verus!
