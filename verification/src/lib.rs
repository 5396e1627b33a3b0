//! Persistence core of a workbook editor for long-form, hierarchically
//! structured project documents.
//!
//! The in-memory document is a tree of named sections, repeatable entities
//! (funding programmes, references, participants) and lists of notes that can
//! be shown or hidden individually.  This crate holds the part of the editor
//! that must be exactly right release after release: the flat chunk encoding
//! between the document tree and a linear record list, the address / parent /
//! rank scheme that keeps that list stable while the schema grows, and the
//! migration of the two frozen prior on-disk schemas into the current
//! document shape.  Byte-level serialization and every piece of user
//! interface stay outside; this library works on plain values.

pub mod anchor;
pub mod chapter;
pub mod error;
pub mod legacy_formats;
pub mod note;
pub mod project;
pub mod sections;
pub mod sniff;
pub mod store;
