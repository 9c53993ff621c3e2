use vstd::prelude::*;

use crate::document::{parsed_page_sizes, Document};
use crate::error::SplitError;
use crate::extract::{extract_page, page_outcome, PageJob, PageResult};
use crate::format::{format_of_name, lower_of, parse_format, OutputFormat};
use crate::geometry::PageSize;

verus! {

/// The resolution, in dots per inch, at which a cursor renders PNG pages.
pub const DEFAULT_DPI: u32 = 300;

/// A cursor over the pages of a document: each successful `next` extracts
/// one page and moves on; a failed `next` leaves the position where it was,
/// so that the same page can be tried again.
pub struct PdfSplitter {
    document: Document,
    format: OutputFormat,
    dpi: u32,
    current_page: usize,
    total_pages: usize,
}

impl PdfSplitter {
    /// The 0-based position of the page that `next` extracts.
    pub closed spec fn position(&self) -> nat {
        self.current_page as nat
    }

    /// The number of pages, fixed when the cursor is made.
    pub closed spec fn page_total(&self) -> nat {
        self.total_pages as nat
    }

    /// The document the cursor walks.
    pub closed spec fn source(&self) -> Document {
        self.document
    }

    /// The point sizes of the document's pages.
    pub open spec fn pages(&self) -> Seq<PageSize> {
        self.source()@
    }

    /// The format every page is extracted in.
    pub closed spec fn output_format(&self) -> OutputFormat {
        self.format
    }

    /// The resolution PNG pages are rendered at.
    pub closed spec fn resolution(&self) -> u32 {
        self.dpi
    }

    /// The position never passes the page count, which is the document's.
    pub open spec fn wf(&self) -> bool {
        &&& self.position() <= self.page_total()
        &&& self.page_total() == self.pages().len()
    }

    /// Whether a page is left.
    pub open spec fn spec_has_next(&self) -> bool {
        self.position() < self.page_total()
    }

    /// One call of `next` took the cursor from `s0` to `s1` with result `r`:
    /// the document, format and resolution stay; with a page left, success
    /// moves the position on by one and yields that page's number, failure
    /// keeps it; with none left the call fails with `NoMorePages`.
    pub open spec fn cursor_step(s0: PdfSplitter, s1: PdfSplitter, r: Result<PageResult, SplitError>) -> bool {
        &&& s1.wf()
        &&& s1.page_total() == s0.page_total()
        &&& s1.source() == s0.source()
        &&& s1.output_format() == s0.output_format()
        &&& s1.resolution() == s0.resolution()
        &&& if s0.spec_has_next() {
            match r {
                Ok(res) => s1.position() == s0.position() + 1 && res.page_number == s0.position() + 1,
                Err(_) => s1.position() == s0.position(),
            }
        } else {
            r == Err::<PageResult, SplitError>(SplitError::NoMorePages) && s1.position()
                == s0.position()
        }
    }

    /// Parses `bytes` and sets a cursor on its first page. `format` is "pdf"
    /// or "png" in any case; PNG pages are rendered at `DEFAULT_DPI`. Fails with
    /// `InvalidFormat` for any other name, before parsing, and with
    /// `ParseError` exactly where the parser refuses the bytes.
    pub fn new(bytes: &[u8], format: String) -> (r: Result<PdfSplitter, SplitError>)
        ensures
            format_of_name(lower_of(format@)) is Err ==> r == Err::<PdfSplitter, SplitError>(
                SplitError::InvalidFormat,
            ),
            format_of_name(lower_of(format@)) is Ok ==> (r is Ok <==> parsed_page_sizes(bytes@) is Some),
            format_of_name(lower_of(format@)) is Ok && r is Err ==> r == Err::<PdfSplitter, SplitError>(
                SplitError::ParseError,
            ),
            r is Ok ==> {
                let s = r->Ok_0;
                &&& s.wf()
                &&& s.position() == 0
                &&& s.pages() == parsed_page_sizes(bytes@)->Some_0
                &&& Ok::<OutputFormat, SplitError>(s.output_format()) == format_of_name(
                    lower_of(format@),
                )
                &&& s.resolution() == DEFAULT_DPI
            },
    {
        let output_format = parse_format(format.as_str())?;
        let document = Document::open(bytes)?;
        let total_pages = document.page_count();
        Ok(PdfSplitter { document, format: output_format, dpi: DEFAULT_DPI, current_page: 0, total_pages })
    }

    /// The number of pages.
    pub fn total_pages(&self) -> (r: usize)
        ensures
            r == self.page_total(),
    {
        self.total_pages
    }

    /// The 0-based position of the next page.
    pub fn current_page(&self) -> (r: usize)
        ensures
            r == self.position(),
    {
        self.current_page
    }

    /// Whether a page is left: `current_page() < total_pages()`.
    pub fn has_next(&self) -> (r: bool)
        ensures
            r == self.spec_has_next(),
    {
        self.current_page < self.total_pages
    }

    /// Extracts the page at the current position with `extract` and, only on
    /// success, moves to the next page. Fails with `NoMorePages` where no page
    /// is left.
    pub fn next<F: Fn(&Document, PageJob) -> Result<Vec<u8>, String>>(&mut self, extract: &F) -> (r: Result<
        PageResult,
        SplitError,
    >)
        requires
            old(self).wf(),
            forall|job: PageJob| extract.requires((&old(self).source(), job)),
        ensures
            Self::cursor_step(*old(self), *final(self), r),
            old(self).spec_has_next() ==> page_outcome(
                *extract,
                &old(self).source(),
                old(self).position() as usize,
                old(self).output_format(),
                old(self).resolution(),
                r,
            ),
    {
        if !self.has_next() {
            return Err(SplitError::NoMorePages);
        }
        let page = extract_page(&self.document, self.current_page, self.format, self.dpi, extract);
        match page {
            Ok(res) => {
                assert(res.page_number == self.current_page + 1);
                self.current_page = self.current_page + 1;
                Ok(res)
            },
            Err(e) => Err(e),
        }
    }

    /// The document the cursor walks, for the collaborator.
    pub fn document(&self) -> (r: &Document)
        ensures
            *r == self.source(),
    {
        &self.document
    }
}

proof fn lemma_position_after(
    states: Seq<PdfSplitter>,
    results: Seq<Result<PageResult, SplitError>>,
    k: int,
)
    requires
        states.len() == results.len() + 1,
        states[0].position() == 0,
        0 <= k <= results.len(),
        forall|j: int|
            0 <= j < results.len() ==> #[trigger] results[j] is Ok && PdfSplitter::cursor_step(
                states[j],
                states[j + 1],
                results[j],
            ),
    ensures
        states[k].position() == k,
        states[k].page_total() == states[0].page_total(),
        states[k].wf() || k == 0,
    decreases k,
{
    if k > 0 {
        lemma_position_after(states, results, k - 1);
        assert(results[k - 1] is Ok);
        if !states[k - 1].spec_has_next() {
            assert(results[k - 1] == Err::<PageResult, SplitError>(SplitError::NoMorePages));
        }
    }
}

/// After as many successful steps from a fresh cursor as there are pages,
/// no page is left, and any further step fails with `NoMorePages`.
pub proof fn lemma_cursor_ends(
    states: Seq<PdfSplitter>,
    results: Seq<Result<PageResult, SplitError>>,
    last: PdfSplitter,
    r: Result<PageResult, SplitError>,
)
    requires
        states.len() == states[0].page_total() + 1,
        results.len() == states[0].page_total(),
        states[0].wf(),
        states[0].position() == 0,
        forall|k: int|
            0 <= k < results.len() ==> #[trigger] results[k] is Ok && PdfSplitter::cursor_step(
                states[k],
                states[k + 1],
                results[k],
            ),
        PdfSplitter::cursor_step(states[states.len() - 1], last, r),
    ensures
        !states[states.len() - 1].spec_has_next(),
        r == Err::<PageResult, SplitError>(SplitError::NoMorePages),
{
    lemma_position_after(states, results, results.len() as int);
}

} // verus!
