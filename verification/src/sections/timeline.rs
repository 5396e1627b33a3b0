//! The timeline section: proposed start date, duration and milestones.

use vstd::prelude::*;

use crate::chapter::{clone_segments, Segment, Variety};
use crate::note::{NoteV, Notes};

verus! {

/// The subsections of the timeline section.
#[derive(Clone, Copy, PartialEq, Eq, Debug)]
pub enum SectionTimeline {
    Milestones,
    ProjectTiming,
}

/// A calendar date as the editor records it: year, month and day, with no
/// time-zone or clock attached.  The codec carries the three numbers
/// untouched; turning them into a live calendar value is the surrounding
/// application's concern.
#[derive(Clone, Copy, PartialEq, Eq, Debug)]
pub struct Date {
    pub year: i32,
    pub month: u32,
    pub day: u32,
}

impl DeepView for Date {
    type V = Date;

    open spec fn deep_view(&self) -> Date {
        *self
    }
}

/// The date a fresh document starts from.  The editing application replaces
/// it with the current day; the codec itself never consults a clock.
pub open spec fn date_default_v() -> Date {
    Date { year: 2024, month: 1, day: 1 }
}

impl Default for Date {
    fn default() -> (r: Self)
        ensures
            r == date_default_v(),
    {
        Date { year: 2024, month: 1, day: 1 }
    }
}

/// The raw 32-bit image of the editor's fractional duration value.  The
/// codec stores and restores the bits without interpreting them; only the
/// surrounding application gives them numeric meaning.
#[derive(Clone, Copy, PartialEq, Eq, Debug)]
pub struct Numeral {
    pub bits: u32,
}

impl DeepView for Numeral {
    type V = Numeral;

    open spec fn deep_view(&self) -> Numeral {
        *self
    }
}

impl Default for Numeral {
    fn default() -> (r: Self)
        ensures
            r == (Numeral { bits: 0 }),
    {
        Numeral { bits: 0 }
    }
}

/// Proposed timing of the project.
pub struct Timeline {
    pub title: String,
    /// Ordering of the subsections in the editor; never persisted.
    pub index_list: Vec<Segment>,
    pub project_start: Date,
    /// Proposed duration in years, carried as an opaque bit image.
    pub duration_years: Numeral,
    pub milestones: Notes,
    pub visible: bool,
}

/// Mathematical image of a [`Timeline`].
#[verifier::ext_equal]
pub struct TimelineV {
    pub title: Seq<char>,
    pub index_list: Seq<Segment>,
    pub project_start: Date,
    pub duration_years: Numeral,
    pub milestones: Seq<NoteV>,
    pub visible: bool,
}

impl DeepView for Timeline {
    type V = TimelineV;

    open spec fn deep_view(&self) -> TimelineV {
        TimelineV {
            title: self.title.deep_view(),
            index_list: self.index_list.deep_view(),
            project_start: self.project_start,
            duration_years: self.duration_years,
            milestones: self.milestones.deep_view(),
            visible: self.visible,
        }
    }
}

pub open spec fn timeline_index_default() -> Seq<Segment> {
    seq![
        Segment { variety: Variety::SectionTimeline(SectionTimeline::ProjectTiming), tier: 1 },
        Segment { variety: Variety::SectionTimeline(SectionTimeline::Milestones), tier: 4 },
    ]
}

pub open spec fn timeline_default_v() -> TimelineV {
    TimelineV {
        title: "Timeline"@,
        index_list: timeline_index_default(),
        project_start: date_default_v(),
        duration_years: Numeral { bits: 0 },
        milestones: Seq::<NoteV>::empty(),
        visible: false,
    }
}

impl Default for Timeline {
    fn default() -> (r: Self)
        ensures
            r.deep_view() == timeline_default_v(),
    {
        let mut index_list: Vec<Segment> = Vec::new();
        index_list.push(
            Segment { variety: Variety::SectionTimeline(SectionTimeline::ProjectTiming), tier: 1 },
        );
        index_list.push(
            Segment { variety: Variety::SectionTimeline(SectionTimeline::Milestones), tier: 4 },
        );
        proof {
            assert(index_list.deep_view() =~= timeline_index_default());
        }
        let r = Timeline {
            title: String::from_str("Timeline"),
            index_list,
            project_start: Date::default(),
            duration_years: Numeral::default(),
            milestones: Notes::default(),
            visible: false,
        };
        proof {
            assert(r.deep_view() =~= timeline_default_v());
        }
        r
    }
}

impl Clone for Timeline {
    fn clone(&self) -> (r: Self)
        ensures
            r.deep_view() == self.deep_view(),
    {
        let r = Timeline {
            title: self.title.clone(),
            index_list: clone_segments(&self.index_list),
            project_start: self.project_start,
            duration_years: self.duration_years,
            milestones: self.milestones.clone(),
            visible: self.visible,
        };
        proof {
            assert(r.deep_view() =~= self.deep_view());
        }
        r
    }
}

} // verus!
