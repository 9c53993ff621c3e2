//! Splits a PDF document into one artifact per page: a standalone single-page
//! PDF that keeps the page's vector content, or a PNG image rendered at a
//! chosen resolution.
//!
//! The library holds the orchestration: page enumeration, raster geometry,
//! dispatch to the two extraction modes, the eager batch API and the
//! resumable cursor. Rendering a page to pixels and re-serialising a page as
//! its own document are collaborators that the caller hands in as a closure
//! taking a `PageJob`.
pub mod cursor;
pub mod document;
pub mod error;
pub mod extract;
pub mod format;
pub mod geometry;
pub mod raster;
pub mod split;

pub use cursor::{PdfSplitter, DEFAULT_DPI};
pub use document::Document;
pub use error::SplitError;
pub use extract::{extract_page, PageJob, PageResult};
pub use format::{format_from_lowered, format_tag, parse_format, OutputFormat};
pub use geometry::{is_valid_page_size, plan_raster, PageSize, RasterPlan, MAX_PIXELS, POINTS_PER_INCH};
pub use raster::encode_png;
pub use split::{split_document, split_pdf};
