//! The working-title section: the project's provisional name and a note list
//! of alternative title versions.

use vstd::prelude::*;

use crate::note::{NoteV, Notes};

verus! {

/// Working title of the project, with alternative versions kept as notes.
pub struct ProjectTitle {
    pub title: String,
    /// Alternative versions of the project title.
    pub options: Notes,
    pub visible: bool,
}

/// Mathematical image of a [`ProjectTitle`].
#[verifier::ext_equal]
pub struct ProjectTitleV {
    pub title: Seq<char>,
    pub options: Seq<NoteV>,
    pub visible: bool,
}

impl DeepView for ProjectTitle {
    type V = ProjectTitleV;

    open spec fn deep_view(&self) -> ProjectTitleV {
        ProjectTitleV {
            title: self.title.deep_view(),
            options: self.options.deep_view(),
            visible: self.visible,
        }
    }
}

pub open spec fn project_title_default_v() -> ProjectTitleV {
    ProjectTitleV {
        title: Seq::<char>::empty(),
        options: Seq::<NoteV>::empty(),
        visible: false,
    }
}

impl Default for ProjectTitle {
    fn default() -> (r: Self)
        ensures
            r.deep_view() == project_title_default_v(),
    {
        let r = ProjectTitle { title: String::new(), options: Notes::default(), visible: false };
        proof {
            assert(r.deep_view() =~= project_title_default_v());
        }
        r
    }
}

impl Clone for ProjectTitle {
    fn clone(&self) -> (r: Self)
        ensures
            r.deep_view() == self.deep_view(),
    {
        let r = ProjectTitle {
            title: self.title.clone(),
            options: self.options.clone(),
            visible: self.visible,
        };
        proof {
            assert(r.deep_view() =~= self.deep_view());
        }
        r
    }
}

} // verus!
