use std::sync::Arc;

use vstd::prelude::*;

use crate::error::SplitError;
use crate::geometry::PageSize;

verus! {

#[verifier::external_type_specification]
#[verifier::external_body]
pub struct ExPdf(hayro_syntax::Pdf);

/// The point size of each page, in order, of the document that the parser
/// reads from `bytes`; `None` where it refuses them.
pub uninterp spec fn parsed_page_sizes(bytes: Seq<u8>) -> Option<Seq<PageSize>>;

/// Relies on `hayro_syntax::Pdf::new`, the document parser, whose result
/// depends on the bytes alone, and on `hayro_syntax::Page::render_dimensions`
/// for each of its pages, whose width and height are kept as binary32 bit
/// patterns.
#[verifier::external_body]
fn load_pdf(bytes: &[u8]) -> (r: Option<(hayro_syntax::Pdf, Vec<PageSize>)>)
    ensures
        r is Some <==> parsed_page_sizes(bytes@) is Some,
        r is Some ==> r->Some_0.1@ == parsed_page_sizes(bytes@)->Some_0,
{
    let pdf = hayro_syntax::Pdf::new(bytes.to_vec()).ok()?;
    let sizes = pdf.pages().iter().map(|page| {
        let (width, height) = page.render_dimensions();
        PageSize { width_bits: width.to_bits(), height_bits: height.to_bits() }
    }).collect();
    Some((pdf, sizes))
}

/// A parsed document: shared, never changed after it is opened, together
/// with the point size of each of its pages in order.
pub struct Document {
    pdf: Arc<hayro_syntax::Pdf>,
    sizes: Vec<PageSize>,
}

impl View for Document {
    type V = Seq<PageSize>;

    closed spec fn view(&self) -> Seq<PageSize> {
        self.sizes@
    }
}

impl Document {
    /// Parses `bytes`. Fails with `ParseError` exactly where the parser
    /// refuses them.
    pub fn open(bytes: &[u8]) -> (r: Result<Document, SplitError>)
        ensures
            r is Ok <==> parsed_page_sizes(bytes@) is Some,
            r is Ok ==> r->Ok_0@ == parsed_page_sizes(bytes@)->Some_0,
            r is Err ==> r == Err::<Document, SplitError>(SplitError::ParseError),
    {
        match load_pdf(bytes) {
            Some((pdf, sizes)) => Ok(Document { pdf: Arc::new(pdf), sizes }),
            None => Err(SplitError::ParseError),
        }
    }

    /// A document holds at most `usize::MAX` pages.
    pub proof fn lemma_page_count_fits(&self)
        ensures
            self@.len() <= usize::MAX,
    {
        assert(self.sizes@.len() == self.sizes.len());
    }

    /// The number of pages.
    pub fn page_count(&self) -> (r: usize)
        ensures
            r == self@.len(),
    {
        self.sizes.len()
    }

    /// The point size of the page at `index`.
    pub fn page_size(&self, index: usize) -> (r: PageSize)
        requires
            index < self@.len(),
        ensures
            r == self@[index as int],
    {
        self.sizes[index]
    }

    /// The parsed document, for the renderer and the serializer.
    pub fn pdf(&self) -> (r: &Arc<hayro_syntax::Pdf>) {
        &self.pdf
    }
}

} // verus!
