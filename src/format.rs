use vstd::prelude::*;

use crate::error::SplitError;

verus! {

/// The two extraction modes.
#[derive(Debug, Clone, Copy, PartialEq, Eq, Structural)]
pub enum OutputFormat {
    /// A standalone single-page PDF that keeps the page's vector content.
    Pdf,
    /// A PNG image rendered at a chosen resolution.
    Png,
}

/// What `str::to_lowercase` makes of a string.
pub uninterp spec fn lower_of(s: Seq<char>) -> Seq<char>;

/// Relies on `str::to_lowercase`: the result depends on the characters alone.
#[verifier::external_body]
fn lowercase(s: &str) -> (r: String)
    ensures
        r@ == lower_of(s@),
{
    s.to_lowercase()
}

/// The format that an already lower-cased name selects.
pub open spec fn format_of_name(s: Seq<char>) -> Result<OutputFormat, SplitError> {
    if s == "pdf"@ {
        Ok(OutputFormat::Pdf)
    } else if s == "png"@ {
        Ok(OutputFormat::Png)
    } else {
        Err(SplitError::InvalidFormat)
    }
}

/// The tag that marks the bytes a format produces.
pub open spec fn tag_of(f: OutputFormat) -> Seq<char> {
    match f {
        OutputFormat::Pdf => "application/pdf"@,
        OutputFormat::Png => "image/png"@,
    }
}

/// Selects the format named by `s`, which must already be lower case.
pub fn format_from_lowered(s: &str) -> (r: Result<OutputFormat, SplitError>)
    ensures
        r == format_of_name(s@),
{
    let name = String::from_str(s);
    if name == String::from_str("pdf") {
        Ok(OutputFormat::Pdf)
    } else if name == String::from_str("png") {
        Ok(OutputFormat::Png)
    } else {
        Err(SplitError::InvalidFormat)
    }
}

/// Selects the format named by `s`, ignoring case.
pub fn parse_format(s: &str) -> (r: Result<OutputFormat, SplitError>)
    ensures
        r == format_of_name(lower_of(s@)),
{
    let lowered = lowercase(s);
    format_from_lowered(lowered.as_str())
}

/// The tag of a format: "application/pdf" or "image/png".
pub fn format_tag(f: OutputFormat) -> (r: String)
    ensures
        r@ == tag_of(f),
{
    match f {
        OutputFormat::Pdf => String::from_str("application/pdf"),
        OutputFormat::Png => String::from_str("image/png"),
    }
}

/// Vector and raster output carry different tags.
pub proof fn lemma_format_tags_distinct()
    ensures
        tag_of(OutputFormat::Pdf) != tag_of(OutputFormat::Png),
{
    reveal_strlit("application/pdf");
    reveal_strlit("image/png");
    assert(tag_of(OutputFormat::Pdf).len() != tag_of(OutputFormat::Png).len());
}

} // verus!
