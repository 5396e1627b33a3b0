//! Notes: ordered lists of free-text entries, each individually visible or
//! hidden.  The visible-note filter (`stock`) is applied to every note list
//! before it is persisted, so hidden notes never reach the disk.

use vstd::prelude::*;

verus! {

/// One free-text note.  The hint is a UI placeholder and is never persisted
/// to disk; the visibility flag decides whether the note survives a save.
pub struct Note {
    pub note: String,
    pub hint: String,
    pub visible: bool,
}

/// Mathematical image of a [`Note`].
#[verifier::ext_equal]
pub struct NoteV {
    pub note: Seq<char>,
    pub hint: Seq<char>,
    pub visible: bool,
}

impl DeepView for Note {
    type V = NoteV;

    open spec fn deep_view(&self) -> NoteV {
        NoteV { note: self.note.deep_view(), hint: self.hint.deep_view(), visible: self.visible }
    }
}

/// The note a fresh entry starts from: empty text, the placeholder hint,
/// visible.
pub open spec fn note_new_v() -> NoteV {
    NoteV { note: Seq::<char>::empty(), hint: "…"@, visible: true }
}

impl Note {
    pub fn new() -> (r: Self)
        ensures
            r.deep_view() == note_new_v(),
    {
        let r = Note { note: String::new(), hint: String::from_str("…"), visible: true };
        proof {
            assert(r.deep_view() =~= note_new_v());
        }
        r
    }
}

impl Default for Note {
    fn default() -> (r: Self)
        ensures
            r.deep_view() == note_new_v(),
    {
        Note::new()
    }
}

impl Clone for Note {
    fn clone(&self) -> (r: Self)
        ensures
            r.deep_view() == self.deep_view(),
    {
        let r = Note { note: self.note.clone(), hint: self.hint.clone(), visible: self.visible };
        proof {
            assert(r.deep_view() =~= self.deep_view());
        }
        r
    }
}

/// An ordered list of notes.  Order is user-controlled and must round-trip
/// exactly for the notes that are persisted.
pub struct Notes {
    pub notes: Vec<Note>,
}

impl DeepView for Notes {
    type V = Seq<NoteV>;

    open spec fn deep_view(&self) -> Seq<NoteV> {
        self.notes.deep_view()
    }
}

impl Default for Notes {
    fn default() -> (r: Self)
        ensures
            r.deep_view() == Seq::<NoteV>::empty(),
    {
        let r = Notes { notes: Vec::new() };
        proof {
            assert(r.deep_view() =~= Seq::<NoteV>::empty());
        }
        r
    }
}

impl Clone for Notes {
    fn clone(&self) -> (r: Self)
        ensures
            r.deep_view() == self.deep_view(),
    {
        let mut out: Vec<Note> = Vec::new();
        let mut i: usize = 0;
        while i < self.notes.len()
            invariant
                i <= self.notes.len(),
                out.deep_view() =~= self.notes.deep_view().take(i as int),
            decreases self.notes.len() - i,
        {
            let ghost pre = out.deep_view();
            let c = self.notes[i].clone();
            proof {
                assert(c.deep_view() == self.notes.deep_view()[i as int]);
            }
            out.push(c);
            proof {
                assert(out.deep_view() =~= pre.push(self.notes.deep_view()[i as int]));
                assert(out.deep_view() =~= self.notes.deep_view().take(i + 1));
            }
            i = i + 1;
        }
        let r = Notes { notes: out };
        proof {
            assert(r.deep_view() =~= self.deep_view());
        }
        r
    }
}

/// The visible-note filter: what a note list looks like after the hidden
/// notes are stripped for persistence.
pub open spec fn spec_stock(ns: Seq<NoteV>) -> Seq<NoteV> {
    ns.filter(|n: NoteV| n.visible)
}

impl Notes {
    /// Strips every hidden note, keeping the visible ones in their original
    /// relative order.  Applied to each note list before it is stored.
    pub fn stock(&self) -> (r: Self)
        ensures
            r.deep_view() == spec_stock(self.deep_view()),
    {
        let mut out: Vec<Note> = Vec::new();
        let mut i: usize = 0;
        while i < self.notes.len()
            invariant
                i <= self.notes.len(),
                out.deep_view() =~= spec_stock(self.notes.deep_view().take(i as int)),
            decreases self.notes.len() - i,
        {
            proof {
                reveal_with_fuel(Seq::filter, 2);
                assert(self.notes.deep_view().take(i + 1).drop_last() =~= self.notes.deep_view()
                    .take(i as int));
                assert(self.notes.deep_view().take(i + 1).last() =~= self.notes[i as int]
                    .deep_view());
            }
            if self.notes[i].visible {
                out.push(self.notes[i].clone());
            }
            i = i + 1;
        }
        proof {
            assert(self.notes.deep_view().take(self.notes.len() as int) =~= self.notes.deep_view());
        }
        let r = Notes { notes: out };
        proof {
            assert(r.deep_view() =~= spec_stock(self.deep_view()));
        }
        r
    }
}

/// The visible-note filter keeps only visible notes, keeps them in order,
/// and is idempotent: filtering a second time changes nothing.
pub proof fn lemma_stock_idempotent(ns: Seq<NoteV>)
    ensures
        spec_stock(spec_stock(ns)) == spec_stock(ns),
        forall|i: int| 0 <= i < spec_stock(ns).len() ==> spec_stock(ns)[i].visible,
    decreases ns.len(),
{
    reveal_with_fuel(Seq::filter, 2);
    if ns.len() == 0 {
        assert(spec_stock(ns) =~= Seq::<NoteV>::empty());
        assert(spec_stock(spec_stock(ns)) =~= spec_stock(ns));
    } else {
        lemma_stock_idempotent(ns.drop_last());
        assert(spec_stock(ns.drop_last()).push(ns.last()).drop_last() =~= spec_stock(
            ns.drop_last(),
        ));
        if ns.last().visible {
            assert(spec_stock(ns) =~= spec_stock(ns.drop_last()).push(ns.last()));
            assert(spec_stock(spec_stock(ns)) =~= spec_stock(ns));
        } else {
            assert(spec_stock(ns) =~= spec_stock(ns.drop_last()));
        }
    }
}

/// A note list whose notes are all visible passes the visible-note filter
/// unchanged.
pub proof fn lemma_stock_all_visible(ns: Seq<NoteV>)
    requires
        forall|i: int| 0 <= i < ns.len() ==> ns[i].visible,
    ensures
        spec_stock(ns) == ns,
    decreases ns.len(),
{
    reveal_with_fuel(Seq::filter, 2);
    if ns.len() == 0 {
        assert(spec_stock(ns) =~= ns);
    } else {
        assert(forall|i: int|
            0 <= i < ns.drop_last().len() ==> #[trigger] ns.drop_last()[i].visible);
        lemma_stock_all_visible(ns.drop_last());
        assert(spec_stock(ns) =~= ns.drop_last().push(ns.last()));
        assert(spec_stock(ns) =~= ns);
    }
}

} // verus!
