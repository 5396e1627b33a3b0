//! The two applications the editor shell can show: the guide and the
//! workbook itself.  The shell selects one by anchor; the workbook is the
//! default.

use vstd::prelude::*;

verus! {

/// An application selectable in the shell's top bar.
#[derive(Clone, Copy, PartialEq, Eq, Debug)]
pub enum Anchor {
    GuideApp,
    WorkbookApp,
}

impl Anchor {
    /// Every application, in bar order.
    pub fn all() -> (r: Vec<Anchor>)
        ensures
            r.deep_view() == seq![Anchor::GuideApp, Anchor::WorkbookApp],
    {
        let mut r: Vec<Anchor> = Vec::new();
        r.push(Anchor::GuideApp);
        r.push(Anchor::WorkbookApp);
        proof {
            assert(r.deep_view() =~= seq![Anchor::GuideApp, Anchor::WorkbookApp]);
        }
        r
    }
}

impl DeepView for Anchor {
    type V = Anchor;

    open spec fn deep_view(&self) -> Anchor {
        *self
    }
}

impl Default for Anchor {
    fn default() -> (r: Self)
        ensures
            r == Anchor::WorkbookApp,
    {
        Anchor::WorkbookApp
    }
}

} // verus!
