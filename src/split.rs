use vstd::prelude::*;

use crate::document::{parsed_page_sizes, Document};
use crate::error::SplitError;
use crate::extract::{extract_page, is_failure, job_of, page_outcome, PageJob, PageResult};
use crate::raster::encoded_png;
use crate::format::OutputFormat;

verus! {

/// The page at `index` can be extracted with some result.
pub open spec fn page_succeeds<F: Fn(&Document, PageJob) -> Result<Vec<u8>, String>>(
    extract: F,
    doc: &Document,
    index: int,
    format: OutputFormat,
    dpi: u32,
) -> bool {
    exists|res: PageResult| #[trigger] page_outcome(extract, doc, index as usize, format, dpi, Ok(res))
}

/// The outcome of splitting a whole document: either one result per page,
/// in order, each numbered from 1, or the error of the first page that
/// failed, every page before it having been extracted.
pub open spec fn split_outcome<F: Fn(&Document, PageJob) -> Result<Vec<u8>, String>>(
    extract: F,
    doc: &Document,
    format: OutputFormat,
    dpi: u32,
    r: Result<Vec<PageResult>, SplitError>,
) -> bool {
    let pages = doc@;
    match r {
        Ok(results) => {
            &&& results@.len() == pages.len()
            &&& forall|i: int|
                0 <= i < results@.len() ==> #[trigger] results@[i].page_number == i + 1
                    && page_outcome(extract, doc, i as usize, format, dpi, Ok(results@[i]))
        },
        Err(e) => exists|i: int|
            0 <= i < pages.len() && (forall|j: int|
                0 <= j < i ==> #[trigger] page_succeeds(extract, doc, j, format, dpi))
                && #[trigger] page_outcome(
                extract,
                doc,
                i as usize,
                format,
                dpi,
                Err::<PageResult, SplitError>(e),
            ),
    }
}

/// Extracts every page of `doc`, in order. The first failure ends the split
/// and the pages extracted before it are dropped.
pub fn split_document<F: Fn(&Document, PageJob) -> Result<Vec<u8>, String>>(
    doc: &Document,
    format: OutputFormat,
    dpi: u32,
    extract: &F,
) -> (r: Result<Vec<PageResult>, SplitError>)
    requires
        forall|job: PageJob| extract.requires((doc, job)),
    ensures
        split_outcome(*extract, doc, format, dpi, r),
{
    let count = doc.page_count();
    let mut results: Vec<PageResult> = Vec::new();
    let mut i: usize = 0;
    while i < count
        invariant
            count == doc@.len(),
            i <= count,
            results@.len() == i,
            forall|job: PageJob| extract.requires((doc, job)),
            forall|k: int|
                0 <= k < i ==> #[trigger] results@[k].page_number == k + 1
                    && page_outcome(*extract, doc, k as usize, format, dpi, Ok(results@[k])),
        decreases count - i,
    {
        let page = extract_page(doc, i, format, dpi, extract);
        match page {
            Ok(res) => {
                assert(job_of(doc@[i as int], i, format, dpi) is Some);
                assert(res.page_number == i + 1);
                results.push(res);
                assert(results@[i as int].page_number == i + 1);
            },
            Err(e) => {
                assert forall|j: int| 0 <= j < i implies #[trigger] page_succeeds(
                    *extract,
                    doc,
                    j,
                    format,
                    dpi,
                ) by {
                    assert(results@[j].page_number == j + 1);
                    assert(page_outcome(*extract, doc, j as usize, format, dpi, Ok(results@[j])));
                }
                assert(page_outcome(
                    *extract,
                    doc,
                    (i as int) as usize,
                    format,
                    dpi,
                    Err::<PageResult, SplitError>(e),
                ));
                return Err(e);
            },
        }
        i = i + 1;
    }
    Ok(results)
}

/// Parses `pdf_data` and extracts every page, in order, as `split_document`
/// does. Fails with `ParseError`, calling no collaborator, exactly where the
/// parser refuses the bytes.
pub fn split_pdf<F: Fn(&Document, PageJob) -> Result<Vec<u8>, String>>(
    pdf_data: &[u8],
    format: OutputFormat,
    dpi: u32,
    extract: &F,
) -> (r: Result<Vec<PageResult>, SplitError>)
    requires
        forall|doc: &Document, job: PageJob| extract.requires((doc, job)),
    ensures
        parsed_page_sizes(pdf_data@) is None ==> r == Err::<Vec<PageResult>, SplitError>(
            SplitError::ParseError,
        ),
        parsed_page_sizes(pdf_data@) is Some ==> exists|doc: Document|
            doc@ == parsed_page_sizes(pdf_data@)->Some_0 && split_outcome(
                *extract,
                &doc,
                format,
                dpi,
                r,
            ),
{
    let doc = Document::open(pdf_data)?;
    let r = split_document(&doc, format, dpi, extract);
    assert(split_outcome(*extract, &doc, format, dpi, r));
    r
}

/// The collaborator never fails on `doc`, and every buffer it renders
/// encodes.
pub open spec fn is_reliable<F: Fn(&Document, PageJob) -> Result<Vec<u8>, String>>(
    extract: F,
    doc: &Document,
) -> bool {
    forall|job: PageJob, out: Result<Vec<u8>, String>|
        #[trigger] extract.ensures((doc, job), out) ==> out is Ok && match job {
            PageJob::Raster { plan, .. } => encoded_png(out->Ok_0@, plan) is Some,
            PageJob::Vector { .. } => true,
        }
}

/// With a collaborator that never fails, a split yields one result per page,
/// numbered 1 to N in order, exactly where every page's geometry allows the
/// extraction; otherwise it fails with `InvalidDimensions` at the first page
/// whose geometry does not.
pub proof fn lemma_split_with_reliable_collaborator<F: Fn(&Document, PageJob) -> Result<Vec<u8>, String>>(
    extract: F,
    doc: &Document,
    format: OutputFormat,
    dpi: u32,
    r: Result<Vec<PageResult>, SplitError>,
)
    requires
        is_reliable(extract, doc),
        split_outcome(extract, doc, format, dpi, r),
    ensures
        (forall|j: int|
            0 <= j < doc@.len() ==> (#[trigger] job_of(doc@[j], j as usize, format, dpi)) is Some)
            ==> r is Ok,
        r is Ok ==> r->Ok_0@.len() == doc@.len() && forall|k: int|
            0 <= k < doc@.len() ==> #[trigger] r->Ok_0@[k].page_number == k + 1,
        r is Err ==> exists|i: int|
            0 <= i < doc@.len() && job_of(doc@[i], i as usize, format, dpi) is None && (forall|j: int|
                0 <= j < i ==> (#[trigger] job_of(doc@[j], j as usize, format, dpi)) is Some)
                && r->Err_0 == SplitError::InvalidDimensions(i as usize),
{
    doc.lemma_page_count_fits();
    if r is Err {
        let e = r->Err_0;
        let i = choose|i: int|
            0 <= i < doc@.len() && (forall|j: int|
                0 <= j < i ==> #[trigger] page_succeeds(extract, doc, j, format, dpi))
                && #[trigger] page_outcome(
                extract,
                doc,
                i as usize,
                format,
                dpi,
                Err::<PageResult, SplitError>(e),
            );
        if let Some(job) = job_of(doc@[i], i as usize, format, dpi) {
            assert(is_failure(extract, doc, job, e));
            match job {
                PageJob::Vector { .. } => {
                    let m = choose|m: String|
                        e == SplitError::SerializationError(i as usize, m) && #[trigger] extract.ensures(
                            (doc, job),
                            Err::<Vec<u8>, String>(m),
                        );
                    assert(extract.ensures((doc, job), Err::<Vec<u8>, String>(m)));
                },
                PageJob::Raster { plan, .. } => {
                    if exists|m: String|
                        e == SplitError::RenderError(i as usize, m) && #[trigger] extract.ensures(
                            (doc, job),
                            Err::<Vec<u8>, String>(m),
                        ) {
                        let m = choose|m: String|
                            e == SplitError::RenderError(i as usize, m) && #[trigger] extract.ensures(
                                (doc, job),
                                Err::<Vec<u8>, String>(m),
                            );
                        assert(extract.ensures((doc, job), Err::<Vec<u8>, String>(m)));
                    } else {
                        let rgba = choose|rgba: Vec<u8>|
                            #[trigger] extract.ensures((doc, job), Ok::<Vec<u8>, String>(rgba))
                                && encoded_png(rgba@, plan) is None;
                        assert(extract.ensures((doc, job), Ok::<Vec<u8>, String>(rgba)));
                    }
                },
            }
        }
        assert forall|j: int| 0 <= j < i implies (#[trigger] job_of(
            doc@[j],
            j as usize,
            format,
            dpi,
        )) is Some by {
            assert(page_succeeds(extract, doc, j, format, dpi));
            let res = choose|res: PageResult|
                #[trigger] page_outcome(extract, doc, j as usize, format, dpi, Ok(res));
        }
    }
}

} // verus!
