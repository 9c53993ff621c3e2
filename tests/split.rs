use std::cell::Cell;

use pdf_handler::{
    encode_png, extract_page, format_from_lowered, format_tag, is_valid_page_size, parse_format,
    plan_raster, split_document, split_pdf, Document, OutputFormat, PageJob, PageResult,
    PageSize, PdfSplitter, RasterPlan, SplitError, DEFAULT_DPI,
};

/// A document of pages of the given sizes in points, written with krilla.
fn make_pdf(sizes: &[(f32, f32)]) -> Vec<u8> {
    let mut document = krilla::Document::new();
    for &(w, h) in sizes {
        let size = krilla::geom::Size::from_wh(w, h).unwrap();
        let page = document.start_page_with(krilla::page::PageSettings::new(size));
        page.finish();
    }
    document.finish().unwrap()
}

fn size_of(w: f32, h: f32) -> PageSize {
    PageSize { width_bits: w.to_bits(), height_bits: h.to_bits() }
}

fn serialize_page(doc: &Document, page: usize, size: PageSize) -> Result<Vec<u8>, String> {
    let w = f32::from_bits(size.width_bits);
    let h = f32::from_bits(size.height_bits);
    let size = krilla::geom::Size::from_wh(w, h).ok_or_else(|| "invalid size".to_string())?;
    let mut document = krilla::Document::new();
    let mut page_out = document.start_page_with(krilla::page::PageSettings::new(size));
    let mut surface = page_out.surface();
    let source = krilla::pdf::PdfDocument::new(doc.pdf().clone());
    surface.draw_pdf_page(&source, size, page);
    surface.finish();
    page_out.finish();
    document.finish().map_err(|e| format!("{:?}", e))
}

fn render_page(doc: &Document, page: usize, size: PageSize, plan: RasterPlan) -> Result<Vec<u8>, String> {
    let w = f32::from_bits(size.width_bits);
    let h = f32::from_bits(size.height_bits);
    let pages = doc.pdf().pages();
    let page = pages.get(page).ok_or_else(|| "no such page".to_string())?;
    let settings = hayro::RenderSettings {
        x_scale: plan.width as f32 / w,
        y_scale: plan.height as f32 / h,
        width: Some(plan.width as u16),
        height: Some(plan.height as u16),
        ..Default::default()
    };
    let cache = hayro::RenderCache::new();
    let pixmap = hayro::render(page, &cache, &hayro::hayro_interpret::InterpreterSettings::default(), &settings);
    Ok(pixmap.data_as_u8_slice().to_vec())
}

fn collaborator(doc: &Document, job: PageJob) -> Result<Vec<u8>, String> {
    match job {
        PageJob::Vector { page, size } => serialize_page(doc, page, size),
        PageJob::Raster { page, size, plan } => render_page(doc, page, size, plan),
    }
}

fn reparsed_sizes(bytes: &[u8]) -> Vec<(f32, f32)> {
    let pdf = hayro_syntax::Pdf::new(bytes.to_vec()).unwrap();
    pdf.pages().iter().map(|p| p.render_dimensions()).collect()
}

#[test]
fn raster_plan_letter_at_300_dpi() {
    let plan = plan_raster(size_of(612.0, 792.0), 300).unwrap();
    assert_eq!(plan, RasterPlan { width: 2550, height: 3300 });
}

#[test]
fn raster_plan_rounds_to_nearest() {
    // 100 pt at 100 dpi is 138.88.. px; 10.5 pt at 72 dpi is 10.5 px, rounded up.
    assert_eq!(plan_raster(size_of(100.0, 10.5), 100), Some(RasterPlan { width: 139, height: 15 }));
    assert_eq!(plan_raster(size_of(10.5, 0.75), 72), Some(RasterPlan { width: 11, height: 1 }));
    assert_eq!(plan_raster(size_of(595.5, 842.25), 150), Some(RasterPlan { width: 1241, height: 1755 }));
}

#[test]
fn raster_plan_rejects_zero_dpi() {
    assert_eq!(plan_raster(size_of(612.0, 792.0), 0), None);
}

#[test]
fn raster_plan_rejects_degenerate_sizes() {
    assert_eq!(plan_raster(size_of(0.0, 792.0), 300), None);
    assert_eq!(plan_raster(size_of(612.0, -0.0), 300), None);
    assert_eq!(plan_raster(size_of(-612.0, 792.0), 300), None);
    assert_eq!(plan_raster(size_of(f32::INFINITY, 792.0), 300), None);
    assert_eq!(plan_raster(size_of(f32::NAN, 792.0), 300), None);
    // Rounds to zero pixels.
    assert_eq!(plan_raster(size_of(0.1, 792.0), 72), None);
    // More pixels than the renderer takes.
    assert_eq!(plan_raster(size_of(20000.0, 792.0), 300), None);
    assert_eq!(plan_raster(size_of(1.0e30, 792.0), 300), None);
    assert_eq!(plan_raster(size_of(1.0e-40, 792.0), 300), None);
}

#[test]
fn raster_plan_at_the_pixel_limit() {
    // 65535 px at 72 dpi is 65535 pt; one more point is past the limit.
    assert_eq!(plan_raster(size_of(65535.0, 1.0), 72), Some(RasterPlan { width: 65535, height: 1 }));
    assert_eq!(plan_raster(size_of(65536.0, 1.0), 72), None);
}

#[test]
fn vector_geometry_checks() {
    assert!(is_valid_page_size(size_of(612.0, 792.0)));
    assert!(is_valid_page_size(size_of(1.0e-40, 1.0)));
    assert!(!is_valid_page_size(size_of(0.0, 792.0)));
    assert!(!is_valid_page_size(size_of(612.0, 0.0)));
    assert!(!is_valid_page_size(size_of(f32::INFINITY, 1.0)));
    assert!(!is_valid_page_size(size_of(1.0, f32::NAN)));
    assert!(!is_valid_page_size(size_of(-1.0, 1.0)));
}

#[test]
fn format_names_ignore_case() {
    assert_eq!(parse_format("pdf"), Ok(OutputFormat::Pdf));
    assert_eq!(parse_format("PDF"), Ok(OutputFormat::Pdf));
    assert_eq!(parse_format("Png"), Ok(OutputFormat::Png));
    assert_eq!(parse_format("jpg"), Err(SplitError::InvalidFormat));
    assert_eq!(parse_format(""), Err(SplitError::InvalidFormat));
    assert_eq!(format_from_lowered("png"), Ok(OutputFormat::Png));
    assert_eq!(format_from_lowered("PNG"), Err(SplitError::InvalidFormat));
}

#[test]
fn format_tags_differ() {
    assert_eq!(format_tag(OutputFormat::Pdf), "application/pdf");
    assert_eq!(format_tag(OutputFormat::Png), "image/png");
    assert_ne!(format_tag(OutputFormat::Pdf), format_tag(OutputFormat::Png));
}

#[test]
fn malformed_input_is_a_parse_error() {
    let calls = Cell::new(0);
    let extract = |_: &Document, _: PageJob| -> Result<Vec<u8>, String> {
        calls.set(calls.get() + 1);
        Ok(vec![])
    };
    let r = split_pdf(b"this is not a pdf", OutputFormat::Pdf, 300, &extract);
    assert!(matches!(r, Err(SplitError::ParseError)));
    assert_eq!(calls.get(), 0);
    assert!(matches!(PdfSplitter::new(b"garbage", "pdf".to_string()), Err(SplitError::ParseError)));
}

#[test]
fn three_pages_as_vector_documents() {
    let bytes = make_pdf(&[(612.0, 792.0), (595.0, 842.0), (300.0, 200.0)]);
    let results = split_pdf(&bytes, OutputFormat::Pdf, 300, &collaborator).unwrap();
    assert_eq!(results.len(), 3);
    let expected = [(612.0, 792.0), (595.0, 842.0), (300.0, 200.0)];
    for (i, r) in results.iter().enumerate() {
        assert_eq!(r.page_number, i + 1);
        assert_eq!(r.format, "application/pdf");
        assert_eq!(reparsed_sizes(&r.data), vec![expected[i]]);
    }
}

#[test]
fn one_letter_page_as_png_at_300_dpi() {
    let bytes = make_pdf(&[(612.0, 792.0)]);
    let results = split_pdf(&bytes, OutputFormat::Png, 300, &collaborator).unwrap();
    assert_eq!(results.len(), 1);
    assert_eq!(results[0].page_number, 1);
    assert_eq!(results[0].format, "image/png");
    let image = tiny_skia::Pixmap::decode_png(&results[0].data).unwrap();
    assert_eq!((image.width(), image.height()), (2550, 3300));
}

#[test]
fn small_page_as_png() {
    let bytes = make_pdf(&[(72.0, 36.0)]);
    let results = split_pdf(&bytes, OutputFormat::Png, 144, &collaborator).unwrap();
    let image = tiny_skia::Pixmap::decode_png(&results[0].data).unwrap();
    assert_eq!((image.width(), image.height()), (144, 72));
}

#[test]
fn zero_dpi_fails_before_rendering() {
    let bytes = make_pdf(&[(612.0, 792.0)]);
    let calls = Cell::new(0);
    let extract = |_: &Document, _: PageJob| -> Result<Vec<u8>, String> {
        calls.set(calls.get() + 1);
        Ok(vec![])
    };
    let r = split_pdf(&bytes, OutputFormat::Png, 0, &extract);
    assert!(matches!(r, Err(SplitError::InvalidDimensions(0))));
    assert_eq!(calls.get(), 0);
}

#[test]
fn batch_fails_fast_on_first_error() {
    let bytes = make_pdf(&[(100.0, 100.0), (100.0, 100.0), (100.0, 100.0)]);
    let doc = Document::open(&bytes).unwrap();
    assert_eq!(doc.page_count(), 3);
    let calls = Cell::new(0);
    let extract = |_: &Document, job: PageJob| -> Result<Vec<u8>, String> {
        calls.set(calls.get() + 1);
        match job {
            PageJob::Vector { page: 1, .. } => Err("broken".to_string()),
            _ => Ok(vec![1, 2, 3]),
        }
    };
    let r = split_document(&doc, OutputFormat::Pdf, 300, &extract);
    assert_eq!(r.unwrap_err(), SplitError::SerializationError(1, "broken".to_string()));
    assert_eq!(calls.get(), 2);
}

#[test]
fn render_failure_and_bad_buffer() {
    let bytes = make_pdf(&[(72.0, 72.0)]);
    let doc = Document::open(&bytes).unwrap();
    let failing = |_: &Document, _: PageJob| -> Result<Vec<u8>, String> { Err("no fonts".to_string()) };
    let r = extract_page(&doc, 0, OutputFormat::Png, 72, &failing);
    assert_eq!(r.unwrap_err(), SplitError::RenderError(0, "no fonts".to_string()));
    let short = |_: &Document, _: PageJob| -> Result<Vec<u8>, String> { Ok(vec![0; 10]) };
    let r = extract_page(&doc, 0, OutputFormat::Png, 72, &short);
    assert!(matches!(r, Err(SplitError::EncodeError(0, _))));
    let r = extract_page(&doc, 1, OutputFormat::Png, 72, &short);
    assert_eq!(r.unwrap_err(), SplitError::PageNotFound(1));
}

#[test]
fn raster_job_carries_the_plan() {
    let bytes = make_pdf(&[(612.0, 792.0)]);
    let doc = Document::open(&bytes).unwrap();
    let seen = Cell::new(None);
    let extract = |_: &Document, job: PageJob| -> Result<Vec<u8>, String> {
        seen.set(Some(job));
        if let PageJob::Raster { plan, .. } = job {
            Ok(vec![255; 4 * plan.width as usize * plan.height as usize])
        } else {
            Err("unexpected".to_string())
        }
    };
    let r = extract_page(&doc, 0, OutputFormat::Png, 150, &extract).unwrap();
    assert_eq!(r.page_number, 1);
    match seen.get() {
        Some(PageJob::Raster { page, size, plan }) => {
            assert_eq!(page, 0);
            assert_eq!(size, size_of(612.0, 792.0));
            assert_eq!(plan, RasterPlan { width: 1275, height: 1650 });
        }
        other => panic!("unexpected job {:?}", other),
    }
}

#[test]
fn encode_png_checks_the_buffer() {
    let plan = RasterPlan { width: 2, height: 3 };
    assert!(encode_png(vec![0; 23], plan).is_err());
    let png = encode_png(vec![255; 24], plan).unwrap();
    let image = tiny_skia::Pixmap::decode_png(&png).unwrap();
    assert_eq!((image.width(), image.height()), (2, 3));
}

#[test]
fn cursor_walks_every_page() {
    let bytes = make_pdf(&[(612.0, 792.0), (612.0, 792.0)]);
    let mut cursor = PdfSplitter::new(&bytes, "PDF".to_string()).unwrap();
    assert_eq!(cursor.total_pages(), 2);
    let mut numbers = Vec::new();
    while cursor.has_next() {
        assert_eq!(cursor.has_next(), cursor.current_page() < cursor.total_pages());
        let r: PageResult = cursor.next(&collaborator).unwrap();
        numbers.push(r.page_number);
        assert_eq!(reparsed_sizes(&r.data), vec![(612.0, 792.0)]);
    }
    assert_eq!(numbers, vec![1, 2]);
    assert_eq!(cursor.current_page(), 2);
    assert!(!cursor.has_next());
    assert!(matches!(cursor.next(&collaborator), Err(SplitError::NoMorePages)));
    assert_eq!(cursor.current_page(), 2);
}

#[test]
fn cursor_keeps_position_on_failure() {
    let bytes = make_pdf(&[(50.0, 50.0), (50.0, 50.0)]);
    let mut cursor = PdfSplitter::new(&bytes, "png".to_string()).unwrap();
    let failing = |_: &Document, _: PageJob| -> Result<Vec<u8>, String> { Err("busy".to_string()) };
    assert!(cursor.next(&collaborator).is_ok());
    assert_eq!(cursor.current_page(), 1);
    assert_eq!(cursor.next(&failing).unwrap_err(), SplitError::RenderError(1, "busy".to_string()));
    assert_eq!(cursor.current_page(), 1);
    assert!(cursor.has_next());
    let r = cursor.next(&collaborator).unwrap();
    assert_eq!(r.page_number, 2);
    assert_eq!(r.format, "image/png");
    let image = tiny_skia::Pixmap::decode_png(&r.data).unwrap();
    let side = (50.0 * DEFAULT_DPI as f64 / 72.0).round() as u32;
    assert_eq!((image.width(), image.height()), (side, side));
    assert!(!cursor.has_next());
}

#[test]
fn cursor_rejects_unknown_format() {
    let bytes = make_pdf(&[(612.0, 792.0)]);
    assert!(matches!(PdfSplitter::new(&bytes, "tiff".to_string()), Err(SplitError::InvalidFormat)));
    assert!(matches!(PdfSplitter::new(b"garbage", "tiff".to_string()), Err(SplitError::InvalidFormat)));
}

#[test]
fn cursor_and_batch_give_the_same_png() {
    let bytes = make_pdf(&[(40.0, 30.0), (20.0, 60.0)]);
    let batch = split_pdf(&bytes, OutputFormat::Png, DEFAULT_DPI, &collaborator).unwrap();
    let mut cursor = PdfSplitter::new(&bytes, "png".to_string()).unwrap();
    for expected in &batch {
        let r = cursor.next(&collaborator).unwrap();
        assert_eq!(r.page_number, expected.page_number);
        assert_eq!(r.format, expected.format);
        assert_eq!(r.data, expected.data);
    }
}

#[test]
fn document_reports_page_sizes() {
    let bytes = make_pdf(&[(612.0, 792.0), (300.0, 200.0)]);
    let doc = Document::open(&bytes).unwrap();
    assert_eq!(doc.page_count(), 2);
    assert_eq!(doc.page_size(0), size_of(612.0, 792.0));
    assert_eq!(doc.page_size(1), size_of(300.0, 200.0));
    assert!(matches!(Document::open(b""), Err(SplitError::ParseError)));
}
