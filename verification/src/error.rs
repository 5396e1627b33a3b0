//! The errors a decode attempt can end in.  All are terminal for one open
//! attempt; nothing is retried.  Encoding never fails and has no error type.

use vstd::prelude::*;

use crate::store::v_b0004::Parent;

verus! {

/// Why a byte buffer or a chunk list could not be turned into a document.
#[derive(Debug)]
pub enum FormatError {
    /// The front of the buffer does not frame a format tag at all.
    TagUnreadable,
    /// The sniffed format tag matches neither the current format nor any
    /// frozen legacy format; the raw tag bytes are kept for the report.
    UnknownFormatTag { tag: Vec<u8> },
    /// A chunk's parent/address pair matches no destination that the format
    /// defines as structurally mandatory.
    StructuralRoute { parent: Option<Parent>, address: usize },
}

impl FormatError {
    /// A human-readable description for the surrounding application to show.
    /// The application appends the underlying serializer error where it has
    /// one.
    pub fn message(&self) -> (r: String)
        ensures
            r@.len() > 0,
    {
        let text: &str = match self {
            FormatError::TagUnreadable => "Detected version read error: incompatible data format, \
                probably an old workbook version was used for saving this project",
            FormatError::UnknownFormatTag { .. } => "Detected an unknown version: incompatible \
                data format, probably an old workbook version was used for saving this project",
            FormatError::StructuralRoute { .. } => "Invalid record list: a stored chunk addresses \
                no known part of the workbook",
        };
        proof {
            reveal_strlit(
                "Detected version read error: incompatible data format, \
                probably an old workbook version was used for saving this project",
            );
            reveal_strlit(
                "Detected an unknown version: incompatible \
                data format, probably an old workbook version was used for saving this project",
            );
            reveal_strlit(
                "Invalid record list: a stored chunk addresses \
                no known part of the workbook",
            );
        }
        text.to_owned()
    }
}

} // verus!
