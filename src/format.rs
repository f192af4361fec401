//! Recognising the encodings that the pipeline reads by their signatures.
use vstd::prelude::*;

verus! {

/// The encodings that the pipeline reads.
#[derive(Clone, Copy, Debug, PartialEq, Eq, Structural)]
pub enum SourceFormat {
    Jpeg,
    Png,
}

/// The JPEG start-of-image marker followed by the next marker's lead byte.
pub open spec fn is_jpeg_signature(b: Seq<u8>) -> bool {
    b.len() >= 3 && b[0] == 0xFF && b[1] == 0xD8 && b[2] == 0xFF
}

/// The eight-byte PNG file signature.
pub open spec fn is_png_signature(b: Seq<u8>) -> bool {
    &&& b.len() >= 8
    &&& b[0] == 0x89 && b[1] == 0x50 && b[2] == 0x4E && b[3] == 0x47
    &&& b[4] == 0x0D && b[5] == 0x0A && b[6] == 0x1A && b[7] == 0x0A
}

/// The encoding that the leading bytes announce, if any.
pub open spec fn signature_format(b: Seq<u8>) -> Option<SourceFormat> {
    if is_jpeg_signature(b) {
        Some(SourceFormat::Jpeg)
    } else if is_png_signature(b) {
        Some(SourceFormat::Png)
    } else {
        None
    }
}

/// The encoding that the leading bytes of `bytes` announce.
pub fn sniff_format(bytes: &[u8]) -> (r: Option<SourceFormat>)
    ensures
        r == signature_format(bytes@),
{
    let n = bytes.len();
    if n >= 3 && bytes[0] == 0xFF && bytes[1] == 0xD8 && bytes[2] == 0xFF {
        Some(SourceFormat::Jpeg)
    } else if n >= 8 && bytes[0] == 0x89 && bytes[1] == 0x50 && bytes[2] == 0x4E && bytes[3]
        == 0x47 && bytes[4] == 0x0D && bytes[5] == 0x0A && bytes[6] == 0x1A && bytes[7] == 0x0A {
        Some(SourceFormat::Png)
    } else {
        None
    }
}

} // verus!
