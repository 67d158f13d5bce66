//! The window icon, decoded from an encoded image.
use vstd::prelude::*;

verus! {

/// An RGBA icon: `rgba` holds its pixels row after row.
pub struct IconData {
    pub rgba: Vec<u8>,
    pub width: u32,
    pub height: u32,
}

/// What the image decoder makes of `bytes`: the width, height and RGBA
/// bytes of the decoded image, or `None` when the bytes are no image it can
/// read. The format is guessed from the leading bytes among the formats the
/// decoder has built in; the registries of format hooks are not consulted,
/// so the result depends on the bytes alone.
pub uninterp spec fn decoded_rgba(bytes: Seq<u8>) -> Option<(u32, u32, Seq<u8>)>;

/// Guesses the format of `bytes` with `image::guess_format`, decodes them
/// with `image::load_from_memory_with_format` and converts the image to
/// 8-bit RGBA (`DynamicImage::into_rgba8`, then `dimensions` and `into_raw`).
/// Trusted: the result is `decoded_rgba(bytes)`, `None` when either call
/// reports an error, and a decoded image holds exactly four bytes per
/// pixel; nothing more is stated of the decoder.
#[verifier::external_body]
fn decode_rgba(bytes: &[u8]) -> (r: Option<(u32, u32, Vec<u8>)>)
    ensures
        match r {
            Some(t) => decoded_rgba(bytes@) == Some((t.0, t.1, t.2@)),
            None => decoded_rgba(bytes@) is None,
        },
        r matches Some(t) ==> t.2@.len() == 4 * (t.0 * t.1),
{
    let format = match image::guess_format(bytes) {
        Ok(f) => f,
        Err(_) => return None,
    };
    match image::load_from_memory_with_format(bytes, format) {
        Ok(img) => {
            let rgba = img.into_rgba8();
            let (width, height) = rgba.dimensions();
            Some((width, height, rgba.into_raw()))
        },
        Err(_) => None,
    }
}

/// Packs a decoded image, `(width, height, rgba)`, as an icon.
pub fn icon_from_decoded(decoded: Option<(u32, u32, Vec<u8>)>) -> (icon: Option<IconData>)
    ensures
        match decoded {
            Some(t) => icon matches Some(i) && i.width == t.0 && i.height == t.1 && i.rgba@ == t.2@,
            None => icon is None,
        },
{
    match decoded {
        Some((width, height, rgba)) => Some(IconData { rgba, width, height }),
        None => None,
    }
}

/// Decodes the encoded image `bytes` into an RGBA icon, four bytes per
/// pixel; `None` when they cannot be decoded.
pub fn load_icon(bytes: &[u8]) -> (icon: Option<IconData>)
    ensures
        match decoded_rgba(bytes@) {
            Some(t) => icon matches Some(i) && i.width == t.0 && i.height == t.1 && i.rgba@ == t.2,
            None => icon is None,
        },
        icon matches Some(i) ==> i.rgba@.len() == 4 * (i.width * i.height),
{
    icon_from_decoded(decode_rgba(bytes))
}

} // verus!
