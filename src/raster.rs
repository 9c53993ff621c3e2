use vstd::prelude::*;

use crate::geometry::{RasterPlan, MAX_PIXELS};

verus! {

/// What `tiny_skia::Pixmap::encode_png` makes of an RGBA image of the given
/// size: the PNG file, or the encoder's error message.
pub uninterp spec fn png_of(rgba: Seq<u8>, width: u32, height: u32) -> Result<Seq<u8>, Seq<char>>;

/// The views of an encoder result.
pub open spec fn encoding_view(r: Result<Vec<u8>, String>) -> Result<Seq<u8>, Seq<char>> {
    match r {
        Ok(png) => Ok(png@),
        Err(m) => Err(m@),
    }
}

/// Relies on `tiny_skia::IntSize::from_wh` and `tiny_skia::Pixmap::from_vec`:
/// a pixmap is made exactly when both sides are nonzero and the buffer holds
/// four bytes per pixel, row after row; then on `tiny_skia::Pixmap::encode_png`,
/// whose PNG file, or error, depends on the pixels and the size alone.
#[verifier::external_body]
fn png_from_rgba(rgba: Vec<u8>, width: u32, height: u32) -> (r: Option<Result<Vec<u8>, String>>)
    requires
        width <= MAX_PIXELS,
        height <= MAX_PIXELS,
    ensures
        r is Some <==> (width > 0 && height > 0 && rgba@.len() == 4 * width * height),
        r is Some ==> png_of(rgba@, width, height) == encoding_view(r->Some_0),
{
    let size = tiny_skia::IntSize::from_wh(width, height)?;
    let pixmap = tiny_skia::Pixmap::from_vec(rgba, size)?;
    Some(pixmap.encode_png().map_err(|e| e.to_string()))
}

/// The buffer length, in bytes, of an RGBA image of `plan`'s size.
pub open spec fn rgba_len(plan: RasterPlan) -> int {
    4 * plan.width * plan.height
}

/// The PNG file of an RGBA buffer laid out at `plan`'s size: `None` where
/// the buffer has another length, or where the encoder fails.
pub open spec fn encoded_png(rgba: Seq<u8>, plan: RasterPlan) -> Option<Seq<u8>> {
    if rgba.len() == rgba_len(plan) {
        match png_of(rgba, plan.width, plan.height) {
            Ok(png) => Some(png),
            Err(_) => None,
        }
    } else {
        None
    }
}

/// Packs a rendered RGBA buffer into an image of `plan`'s size and encodes
/// it as PNG. Fails, with a message, where the buffer does not hold exactly
/// one RGBA pixel per pixel of the plan, and with the encoder's message
/// where the encoder fails.
pub fn encode_png(rgba: Vec<u8>, plan: RasterPlan) -> (r: Result<Vec<u8>, String>)
    requires
        1 <= plan.width <= MAX_PIXELS,
        1 <= plan.height <= MAX_PIXELS,
    ensures
        match r {
            Ok(png) => encoded_png(rgba@, plan) == Some(png@),
            Err(m) => {
                &&& encoded_png(rgba@, plan) is None
                &&& rgba@.len() == rgba_len(plan) ==> png_of(rgba@, plan.width, plan.height)
                    == Err::<Seq<u8>, Seq<char>>(m@)
            },
        },
{
    match png_from_rgba(rgba, plan.width, plan.height) {
        Some(encoded) => encoded,
        None => Err(String::from_str("pixel buffer does not match the planned size")),
    }
}

} // verus!
