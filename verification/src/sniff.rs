//! Format-tag sniffing: deciding, from the front of a stored byte buffer,
//! which decoder can read it.
//!
//! Every format writes its tag as the first field of the stored record: a
//! little-endian eight-byte length followed by that many tag bytes.  The
//! dispatcher reads a forty-byte window, the same window the editor has
//! always used, so a tag can be at most thirty-two bytes long.  When the
//! current-format decode of a buffer fails, the sniffed tag picks the frozen
//! legacy decoder to try; a tag that matches no known format ends the open
//! attempt with an unknown-tag error, never with a silently partial
//! document.

use vstd::prelude::*;

use crate::error::FormatError;

verus! {

/// The number of bytes the sniffer reads.
pub const SNIFF_WINDOW: usize = 40;

/// The tag of the oldest frozen schema, as stored bytes.
pub open spec fn tag_b0002() -> Seq<u8> {
    seq![66u8, 48u8, 48u8, 48u8, 50u8]
}

/// The tag of the later frozen schema, as stored bytes.
pub open spec fn tag_b0003() -> Seq<u8> {
    seq![66u8, 48u8, 48u8, 48u8, 51u8]
}

/// The tag of the current format, as stored bytes.
pub open spec fn tag_b0004() -> Seq<u8> {
    seq![66u8, 48u8, 48u8, 48u8, 52u8]
}

/// The tag framed at the front of a buffer: the first eight bytes are its
/// little-endian length, the tag bytes follow.  Nothing is framed when the
/// buffer is shorter than the sniff window or the length field points past
/// it.
pub open spec fn spec_sniff_tag(bytes: Seq<u8>) -> Option<Seq<u8>> {
    if bytes.len() < 40 {
        None
    } else if bytes[1] != 0 || bytes[2] != 0 || bytes[3] != 0 || bytes[4] != 0 || bytes[5] != 0
        || bytes[6] != 0 || bytes[7] != 0 {
        None
    } else if bytes[0] > 32 {
        None
    } else {
        Some(bytes.subrange(8, 8 + bytes[0] as int))
    }
}

/// Which frozen decoder a sniffed tag selects.
#[derive(Clone, Copy, PartialEq, Eq, Debug)]
pub enum DetectedFormat {
    VersionB0002,
    VersionB0003,
}

/// Reads the format tag framed at the front of a stored buffer.
pub fn sniff_format_tag(buffer: &Vec<u8>) -> (r: Result<Vec<u8>, FormatError>)
    ensures
        r matches Ok(t) ==> spec_sniff_tag(buffer@) == Some(t@),
        r is Err ==> spec_sniff_tag(buffer@) is None,
        r matches Err(e) ==> e is TagUnreadable,
{
    if buffer.len() < SNIFF_WINDOW {
        return Err(FormatError::TagUnreadable);
    }
    let mut i: usize = 1;
    while i < 8
        invariant
            1 <= i <= 8,
            buffer.len() >= 40,
            forall|j: int| 1 <= j < i ==> buffer[j] == 0,
        decreases 8 - i,
    {
        if buffer[i] != 0 {
            return Err(FormatError::TagUnreadable);
        }
        i = i + 1;
    }
    let n = buffer[0] as usize;
    if n > 32 {
        return Err(FormatError::TagUnreadable);
    }
    let mut tag: Vec<u8> = Vec::new();
    let mut k: usize = 0;
    while k < n
        invariant
            k <= n,
            n <= 32,
            buffer.len() >= 40,
            tag@ =~= buffer@.subrange(8, 8 + k as int),
        decreases n - k,
    {
        tag.push(buffer[8 + k]);
        proof {
            assert(tag@ =~= buffer@.subrange(8, 8 + (k + 1)));
        }
        k = k + 1;
    }
    proof {
        assert(tag@ =~= buffer@.subrange(8, 8 + buffer@[0] as int));
    }
    Ok(tag)
}

/// Decides whether a tag names one of the frozen legacy formats.
fn match_tag(tag: &Vec<u8>, b4: u8) -> (r: bool)
    ensures
        r == (tag@ =~= seq![66u8, 48u8, 48u8, 48u8, b4]),
{
    if tag.len() != 5 {
        proof {
            assert(tag@ !~= seq![66u8, 48u8, 48u8, 48u8, b4]);
        }
        return false;
    }
    let r = tag[0] == 66 && tag[1] == 48 && tag[2] == 48 && tag[3] == 48 && tag[4] == b4;
    proof {
        if r {
            assert(tag@ =~= seq![66u8, 48u8, 48u8, 48u8, b4]);
        } else {
            assert(tag@ !~= seq![66u8, 48u8, 48u8, 48u8, b4]);
        }
    }
    r
}

/// Sniffs a buffer whose current-format decode has failed and picks the
/// legacy decoder to try.  A buffer that frames no tag is unreadable; a tag
/// that is neither legacy tag — the current tag included, since the current
/// decode already failed — is rejected as an unknown format tag, carrying
/// the tag bytes for the report.
pub fn classify_buffer(buffer: &Vec<u8>) -> (r: Result<DetectedFormat, FormatError>)
    ensures
        match spec_sniff_tag(buffer@) {
            None => r matches Err(FormatError::TagUnreadable),
            Some(t) => if t == tag_b0002() {
                r matches Ok(DetectedFormat::VersionB0002)
            } else if t == tag_b0003() {
                r matches Ok(DetectedFormat::VersionB0003)
            } else {
                r matches Err(FormatError::UnknownFormatTag { tag }) && tag@ == t
            },
        },
{
    let tag = match sniff_format_tag(buffer) {
        Ok(t) => t,
        Err(e) => {
            return Err(e);
        },
    };
    if match_tag(&tag, 50) {
        Ok(DetectedFormat::VersionB0002)
    } else if match_tag(&tag, 51) {
        Ok(DetectedFormat::VersionB0003)
    } else {
        Err(FormatError::UnknownFormatTag { tag })
    }
}

} // verus!
