use vstd::prelude::*;

verus! {

/// Why a split or a page extraction failed.
///
/// The page-level variants carry the 0-based index of the page that failed;
/// the collaborator variants also carry the collaborator's own message.
#[derive(Debug, Clone, PartialEq, Eq)]
pub enum SplitError {
    /// The input bytes are not a readable PDF document.
    ParseError,
    /// The requested output format is neither "pdf" nor "png".
    InvalidFormat,
    /// The page index lies outside the document.
    PageNotFound(usize),
    /// The page's point size or the computed pixel size is zero, negative,
    /// non-finite or too large to rasterise.
    InvalidDimensions(usize),
    /// The vector serializer failed.
    SerializationError(usize, String),
    /// The page renderer failed.
    RenderError(usize, String),
    /// The rendered pixels could not be packed into an image or encoded.
    EncodeError(usize, String),
    /// The cursor has already produced every page.
    NoMorePages,
}

} // verus!
