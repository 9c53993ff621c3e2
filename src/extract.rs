use vstd::prelude::*;

use crate::document::Document;
use crate::error::SplitError;
use crate::format::{format_tag, lemma_format_tags_distinct, tag_of, OutputFormat};
use crate::geometry::{is_positive_finite, is_valid_geometry, is_valid_page_size, plan_of, plan_raster, PageSize, RasterPlan};
use crate::raster::{encode_png, encoded_png};

verus! {

/// The work handed to the collaborator for one page.
///
/// For `Vector` it returns a standalone single-page PDF of exactly `size`
/// points; for `Raster` it renders the page into an RGBA buffer of exactly
/// `plan`'s pixel size.
#[derive(Debug, Clone, Copy, PartialEq, Eq, Structural)]
pub enum PageJob {
    /// Re-serialise the page at 0-based index `page`, of `size` points.
    Vector { page: usize, size: PageSize },
    /// Render the page at 0-based index `page`, of `size` points, into
    /// `plan.width` by `plan.height` pixels.
    Raster { page: usize, size: PageSize, plan: RasterPlan },
}

/// One extracted page.
#[derive(Debug, Clone)]
pub struct PageResult {
    /// 1-based page number.
    pub page_number: usize,
    /// The PDF or PNG file.
    pub data: Vec<u8>,
    /// "application/pdf" or "image/png".
    pub format: String,
}

/// The job for the page at `page` of size `size`, or `None` where its
/// geometry does not allow the extraction.
pub open spec fn job_of(size: PageSize, page: usize, format: OutputFormat, dpi: u32) -> Option<PageJob> {
    match format {
        OutputFormat::Pdf => if is_valid_geometry(size) {
            Some(PageJob::Vector { page, size })
        } else {
            None
        },
        OutputFormat::Png => match plan_of(size, dpi as nat) {
            Some(plan) => Some(PageJob::Raster { page, size, plan }),
            None => None,
        },
    }
}

/// `res` is what a successful extraction of `job` yields: the page number,
/// the format's tag, and for a vector page the bytes that the collaborator
/// returned; for a raster page the PNG file of a buffer of the planned size
/// that the collaborator returned.
pub open spec fn is_extracted<F: Fn(&Document, PageJob) -> Result<Vec<u8>, String>>(
    extract: F,
    doc: &Document,
    job: PageJob,
    format: OutputFormat,
    res: PageResult,
) -> bool {
    &&& res.format@ == tag_of(format)
    &&& match job {
        PageJob::Vector { page, .. } => {
            &&& res.page_number == page + 1
            &&& extract.ensures((doc, job), Ok::<Vec<u8>, String>(res.data))
        },
        PageJob::Raster { page, plan, .. } => {
            &&& res.page_number == page + 1
            &&& exists|rgba: Vec<u8>|
                #[trigger] extract.ensures((doc, job), Ok::<Vec<u8>, String>(rgba))
                    && encoded_png(rgba@, plan) == Some(res.data@)
        },
    }
}

/// `e` is an error that the extraction of `job` can end in: the
/// collaborator's failure, or for a raster page a buffer that the
/// collaborator returned and that could not be encoded.
pub open spec fn is_failure<F: Fn(&Document, PageJob) -> Result<Vec<u8>, String>>(
    extract: F,
    doc: &Document,
    job: PageJob,
    e: SplitError,
) -> bool {
    match job {
        PageJob::Vector { page, .. } => exists|m: String|
            e == SplitError::SerializationError(page, m) && #[trigger] extract.ensures(
                (doc, job),
                Err::<Vec<u8>, String>(m),
            ),
        PageJob::Raster { page, plan, .. } => {
            ||| exists|m: String|
                e == SplitError::RenderError(page, m) && #[trigger] extract.ensures(
                    (doc, job),
                    Err::<Vec<u8>, String>(m),
                )
            ||| exists|rgba: Vec<u8>|
                #[trigger] extract.ensures((doc, job), Ok::<Vec<u8>, String>(rgba)) && encoded_png(
                    rgba@,
                    plan,
                ) is None && e is EncodeError && e->EncodeError_0 == page
        },
    }
}

/// What extracting the page at `index` of a document with page sizes `pages`
/// may give.
pub open spec fn page_outcome<F: Fn(&Document, PageJob) -> Result<Vec<u8>, String>>(
    extract: F,
    doc: &Document,
    index: usize,
    format: OutputFormat,
    dpi: u32,
    r: Result<PageResult, SplitError>,
) -> bool {
    let pages = doc@;
    if index >= pages.len() {
        r == Err::<PageResult, SplitError>(SplitError::PageNotFound(index))
    } else {
        match job_of(pages[index as int], index, format, dpi) {
            None => r == Err::<PageResult, SplitError>(SplitError::InvalidDimensions(index)),
            Some(job) => match r {
                Ok(res) => is_extracted(extract, doc, job, format, res),
                Err(e) => is_failure(extract, doc, job, e),
            },
        }
    }
}

/// Extracts the page at `index` (0-based) in `format`, rendering at `dpi`
/// dots per inch for PNG. The page's geometry is checked before the
/// collaborator `extract` is called.
pub fn extract_page<F: Fn(&Document, PageJob) -> Result<Vec<u8>, String>>(
    doc: &Document,
    index: usize,
    format: OutputFormat,
    dpi: u32,
    extract: &F,
) -> (r: Result<PageResult, SplitError>)
    requires
        forall|job: PageJob| extract.requires((doc, job)),
    ensures
        page_outcome(*extract, doc, index, format, dpi, r),
{
    if index >= doc.page_count() {
        return Err(SplitError::PageNotFound(index));
    }
    let size = doc.page_size(index);
    match format {
        OutputFormat::Pdf => {
            if !is_valid_page_size(size) {
                return Err(SplitError::InvalidDimensions(index));
            }
            let job = PageJob::Vector { page: index, size };
            match extract(doc, job) {
                Ok(data) => Ok(PageResult { page_number: index + 1, data, format: format_tag(format) }),
                Err(m) => {
                    assert(extract.ensures((doc, job), Err::<Vec<u8>, String>(m)));
                    assert(is_failure(*extract, doc, job, SplitError::SerializationError(index, m)));
                    Err(SplitError::SerializationError(index, m))
                },
            }
        },
        OutputFormat::Png => {
            let plan = match plan_raster(size, dpi) {
                Some(plan) => plan,
                None => {
                    return Err(SplitError::InvalidDimensions(index));
                },
            };
            let job = PageJob::Raster { page: index, size, plan };
            match extract(doc, job) {
                Ok(rgba) => {
                    let ghost buffer = rgba;
                    assert(extract.ensures((doc, job), Ok::<Vec<u8>, String>(buffer)));
                    match encode_png(rgba, plan) {
                        Ok(data) => Ok(
                            PageResult { page_number: index + 1, data, format: format_tag(format) },
                        ),
                        Err(m) => Err(SplitError::EncodeError(index, m)),
                    }
                },
                Err(m) => {
                    assert(is_failure(*extract, doc, job, SplitError::RenderError(index, m)));
                    Err(SplitError::RenderError(index, m))
                },
            }
        },
    }
}

/// Whether a binary32 bit pattern is zero, of either sign.
pub open spec fn is_zero_bits(b: u32) -> bool {
    b % 0x8000_0000 == 0
}

/// A page whose width or height is zero fails in both modes with
/// `InvalidDimensions`, before any collaborator is called.
pub proof fn lemma_degenerate_page<F: Fn(&Document, PageJob) -> Result<Vec<u8>, String>>(
    extract: F,
    doc: &Document,
    index: usize,
    dpi: u32,
    r_vector: Result<PageResult, SplitError>,
    r_raster: Result<PageResult, SplitError>,
)
    requires
        index < doc@.len(),
        is_zero_bits(doc@[index as int].width_bits) || is_zero_bits(doc@[index as int].height_bits),
        page_outcome(extract, doc, index, OutputFormat::Pdf, dpi, r_vector),
        page_outcome(extract, doc, index, OutputFormat::Png, dpi, r_raster),
    ensures
        r_vector == Err::<PageResult, SplitError>(SplitError::InvalidDimensions(index)),
        r_raster == Err::<PageResult, SplitError>(SplitError::InvalidDimensions(index)),
{
    let size = doc@[index as int];
    assert(!is_positive_finite(size.width_bits) || !is_positive_finite(size.height_bits));
    assert(!is_valid_geometry(size));
    assert(plan_of(size, dpi as nat) is None);
}

/// Vector and raster output of the same page carry different tags.
pub proof fn lemma_distinct_tags<F: Fn(&Document, PageJob) -> Result<Vec<u8>, String>>(
    extract: F,
    doc: &Document,
    index: usize,
    dpi: u32,
    vector: PageResult,
    raster: PageResult,
)
    requires
        page_outcome(extract, doc, index, OutputFormat::Pdf, dpi, Ok(vector)),
        page_outcome(extract, doc, index, OutputFormat::Png, dpi, Ok(raster)),
    ensures
        vector.format@ != raster.format@,
{
    lemma_format_tags_distinct();
}

/// Where the collaborator's answer to a page's job is known to be `out`,
/// extracting the page gives: its failure, as `SerializationError` or
/// `RenderError` with the collaborator's message; for a vector page its
/// bytes; for a raster page the PNG file of its buffer, or `EncodeError`
/// exactly where that buffer does not encode.
pub proof fn lemma_page_with_known_answer<F: Fn(&Document, PageJob) -> Result<Vec<u8>, String>>(
    extract: F,
    doc: &Document,
    index: usize,
    format: OutputFormat,
    dpi: u32,
    job: PageJob,
    out: Result<Vec<u8>, String>,
    r: Result<PageResult, SplitError>,
)
    requires
        index < doc@.len(),
        job_of(doc@[index as int], index, format, dpi) == Some(job),
        forall|o: Result<Vec<u8>, String>| #[trigger] extract.ensures((doc, job), o) ==> o == out,
        page_outcome(extract, doc, index, format, dpi, r),
    ensures
        out is Err && format == OutputFormat::Pdf ==> r == Err::<PageResult, SplitError>(
            SplitError::SerializationError(index, out->Err_0),
        ),
        out is Err && format == OutputFormat::Png ==> r == Err::<PageResult, SplitError>(
            SplitError::RenderError(index, out->Err_0),
        ),
        out is Ok && format == OutputFormat::Pdf ==> r is Ok && r->Ok_0.data == out->Ok_0,
        out is Ok && format == OutputFormat::Png ==> match job {
            PageJob::Raster { plan, .. } => {
                &&& (r is Ok <==> encoded_png(out->Ok_0@, plan) is Some)
                &&& r is Ok ==> Some(r->Ok_0.data@) == encoded_png(out->Ok_0@, plan)
                &&& r is Err ==> r->Err_0 is EncodeError
            },
            PageJob::Vector { .. } => false,
        },
        r is Ok ==> r->Ok_0.page_number == index + 1 && r->Ok_0.format@ == tag_of(format),
{
}

} // verus!
