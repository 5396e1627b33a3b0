//! The scripting section: who will write the final proposal text, plus notes.

use vstd::prelude::*;

use crate::note::{NoteV, Notes};

verus! {

/// The closed answer to "who will write the project proposal".
#[derive(Clone, Copy, PartialEq, Eq, Debug)]
pub enum ScriptingOption {
    Myself,
    Jointly,
    Other,
}

impl DeepView for ScriptingOption {
    type V = ScriptingOption;

    open spec fn deep_view(&self) -> ScriptingOption {
        *self
    }
}

impl Default for ScriptingOption {
    fn default() -> (r: Self)
        ensures
            r == ScriptingOption::Myself,
    {
        ScriptingOption::Myself
    }
}

/// Who writes the proposal, with supporting notes.
pub struct Scripting {
    pub title: String,
    pub answer: ScriptingOption,
    pub scripting: Notes,
    pub visible: bool,
}

/// Mathematical image of a [`Scripting`].
#[verifier::ext_equal]
pub struct ScriptingV {
    pub title: Seq<char>,
    pub answer: ScriptingOption,
    pub scripting: Seq<NoteV>,
    pub visible: bool,
}

impl DeepView for Scripting {
    type V = ScriptingV;

    open spec fn deep_view(&self) -> ScriptingV {
        ScriptingV {
            title: self.title.deep_view(),
            answer: self.answer,
            scripting: self.scripting.deep_view(),
            visible: self.visible,
        }
    }
}

pub open spec fn scripting_default_v() -> ScriptingV {
    ScriptingV {
        title: "Who Will Write The Project Proposal"@,
        answer: ScriptingOption::Myself,
        scripting: Seq::<NoteV>::empty(),
        visible: false,
    }
}

impl Default for Scripting {
    fn default() -> (r: Self)
        ensures
            r.deep_view() == scripting_default_v(),
    {
        let r = Scripting {
            title: String::from_str("Who Will Write The Project Proposal"),
            answer: ScriptingOption::Myself,
            scripting: Notes::default(),
            visible: false,
        };
        proof {
            assert(r.deep_view() =~= scripting_default_v());
        }
        r
    }
}

impl Clone for Scripting {
    fn clone(&self) -> (r: Self)
        ensures
            r.deep_view() == self.deep_view(),
    {
        let r = Scripting {
            title: self.title.clone(),
            answer: self.answer,
            scripting: self.scripting.clone(),
            visible: self.visible,
        };
        proof {
            assert(r.deep_view() =~= self.deep_view());
        }
        r
    }
}

} // verus!
