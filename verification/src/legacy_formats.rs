//! The frozen decoders of the two prior on-disk schemas.  Each is a closed
//! record tree converted field by field into the current document; adding a
//! future third decoder never touches these two.

pub mod v_b0002;
pub mod v_b0003;
