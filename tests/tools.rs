use watermark_mcp::protocol::ToolOutcome;
use watermark_mcp::scripts::{
    count_png, directory_failure, finish_images_to_pdf, finish_pdf_to_images, finish_process_pdf,
    finish_remove_watermark, plan_images_to_pdf, plan_pdf_to_images, plan_process_pdf,
    plan_remove_watermark, remove_watermark_target, resolve_dpi, ImagesToPdfArgs, PdfToImagesArgs,
    ProcessPdfArgs, RemoveWatermarkArgs, WatermarkTarget,
};
use watermark_mcp::tools::{get_tool_definitions, select_tool, DefaultValue, PropertyKind, ToolKind};

fn single(o: &ToolOutcome) -> &str {
    assert_eq!(o.content.len(), 1);
    &o.content[0]
}

#[test]
fn catalog_lists_four_tools() {
    let tools = get_tool_definitions();
    let names: Vec<&str> = tools.iter().map(|t| t.name.as_str()).collect();
    assert_eq!(names, vec!["pdf_to_images", "remove_watermark", "images_to_pdf", "process_pdf"]);
    assert_eq!(tools[0].required, vec!["pdf_path".to_string()]);
    assert!(tools[1].required.is_empty());
    assert_eq!(tools[2].required, vec!["image_dir".to_string(), "output_path".to_string()]);
    assert_eq!(tools[3].required, vec!["pdf_path".to_string()]);
    let dpi = &tools[0].properties[2];
    assert_eq!(dpi.name, "dpi");
    assert_eq!(dpi.kind, PropertyKind::Integer);
    assert!(matches!(dpi.default, Some(DefaultValue::Integer(200))));
    let pattern = &tools[2].properties[2];
    assert!(matches!(&pattern.default, Some(DefaultValue::Text(t)) if t == "*_processed.png"));
}

#[test]
fn tool_names_route() {
    assert_eq!(select_tool(&"pdf_to_images".to_string()), Ok(ToolKind::PdfToImages));
    assert_eq!(select_tool(&"remove_watermark".to_string()), Ok(ToolKind::RemoveWatermark));
    assert_eq!(select_tool(&"images_to_pdf".to_string()), Ok(ToolKind::ImagesToPdf));
    assert_eq!(select_tool(&"process_pdf".to_string()), Ok(ToolKind::ProcessPdf));
    assert_eq!(select_tool(&"".to_string()), Err("Unknown tool: ".to_string()));
}

#[test]
fn dpi_defaults_to_200() {
    assert_eq!(resolve_dpi(None), 200);
    assert_eq!(resolve_dpi(Some(72)), 72);
}

#[test]
fn pdf_to_images_plan() {
    let args = PdfToImagesArgs { pdf_path: "/d/a.pdf".to_string(), output_dir: None, dpi: None };
    let plan = plan_pdf_to_images(args, true, "/d/a_pages".to_string()).ok().unwrap();
    assert_eq!(plan.output_dir, "/d/a_pages");
    assert_eq!(plan.run.script, "pdf_to_images.py");
    assert_eq!(plan.run.args, vec!["/d/a.pdf", "/d/a_pages", "200"]);

    let args = PdfToImagesArgs {
        pdf_path: "/d/a.pdf".to_string(),
        output_dir: Some("/out".to_string()),
        dpi: Some(1234567),
    };
    let plan = plan_pdf_to_images(args, true, "/d/a_pages".to_string()).ok().unwrap();
    assert_eq!(plan.run.args, vec!["/d/a.pdf", "/out", "1234567"]);

    let args = PdfToImagesArgs { pdf_path: "/none.pdf".to_string(), output_dir: None, dpi: None };
    let o = plan_pdf_to_images(args, false, String::new()).err().unwrap();
    assert!(o.is_error);
    assert_eq!(single(&o), "Error: PDF file not found: /none.pdf");
}

#[test]
fn pdf_to_images_reports() {
    let ok = finish_pdf_to_images("/out", true, "3 pages", "");
    assert!(!ok.is_error);
    assert_eq!(single(&ok), "Successfully converted PDF to images.\nOutput directory: /out\n3 pages");
    let bad = finish_pdf_to_images("/out", false, "", "boom");
    assert!(bad.is_error);
    assert_eq!(single(&bad), "Error running pdf_to_images.py: boom");
}

#[test]
fn remove_watermark_needs_a_target() {
    let none = RemoveWatermarkArgs { image_path: None, image_dir: None, output_dir: None };
    let o = remove_watermark_target(&none).err().unwrap();
    assert!(o.is_error);
    assert_eq!(single(&o), "Error: Either image_path or image_dir must be provided");
    let both = RemoveWatermarkArgs {
        image_path: Some("a.png".to_string()),
        image_dir: Some("d".to_string()),
        output_dir: None,
    };
    assert!(matches!(remove_watermark_target(&both), Ok(WatermarkTarget::Image(p)) if p == "a.png"));
    let dir = RemoveWatermarkArgs { image_path: None, image_dir: Some("d".to_string()), output_dir: None };
    assert!(matches!(remove_watermark_target(&dir), Ok(WatermarkTarget::Directory(d)) if d == "d"));
}

#[test]
fn remove_watermark_plan() {
    let run = plan_remove_watermark(WatermarkTarget::Image("a.png".to_string()), true, None).ok().unwrap();
    assert_eq!(run.script, "remove_watermark.py");
    assert_eq!(run.args, vec!["--image", "a.png"]);
    let run = plan_remove_watermark(
        WatermarkTarget::Directory("d".to_string()),
        true,
        Some("o".to_string()),
    )
    .ok()
    .unwrap();
    assert_eq!(run.args, vec!["--dir", "d", "--output", "o"]);
    let o = plan_remove_watermark(WatermarkTarget::Image("a.png".to_string()), false, None).err().unwrap();
    assert_eq!(single(&o), "Error: Image file not found: a.png");
    let o = plan_remove_watermark(WatermarkTarget::Directory("d".to_string()), false, None).err().unwrap();
    assert_eq!(single(&o), "Error: Directory not found: d");
    let ok = finish_remove_watermark(true, "2 images", "");
    assert_eq!(single(&ok), "Successfully removed watermarks.\n2 images");
}

#[test]
fn images_to_pdf_plan() {
    let args = ImagesToPdfArgs { image_dir: "d".to_string(), output_path: "o.pdf".to_string(), pattern: None };
    let run = plan_images_to_pdf(args, true).ok().unwrap();
    assert_eq!(run.script, "images_to_pdf.py");
    assert_eq!(run.args, vec!["d", "o.pdf", "*.png"]);
    let args = ImagesToPdfArgs {
        image_dir: "d".to_string(),
        output_path: "o.pdf".to_string(),
        pattern: Some("*.jpg".to_string()),
    };
    assert_eq!(plan_images_to_pdf(args, true).ok().unwrap().args, vec!["d", "o.pdf", "*.jpg"]);
    let args = ImagesToPdfArgs { image_dir: "d".to_string(), output_path: "o.pdf".to_string(), pattern: None };
    let o = plan_images_to_pdf(args, false).err().unwrap();
    assert_eq!(single(&o), "Error: Directory not found: d");
    let ok = finish_images_to_pdf("o.pdf", true, "merged", "");
    assert_eq!(single(&ok), "Successfully created PDF: o.pdf\nmerged");
    let bad = finish_images_to_pdf("o.pdf", false, "", "no images");
    assert_eq!(single(&bad), "Error running images_to_pdf.py: no images");
}

#[test]
fn process_pdf_plan() {
    let args = ProcessPdfArgs { pdf_path: "a.pdf".to_string(), images_output_dir: "imgs".to_string(), dpi: Some(300) };
    let run = plan_process_pdf(args, true).ok().unwrap();
    assert_eq!(run.script, "process_pdf_to_images.py");
    assert_eq!(run.args, vec!["a.pdf", "imgs", "300"]);
    let args = ProcessPdfArgs { pdf_path: "a.pdf".to_string(), images_output_dir: "imgs".to_string(), dpi: None };
    let o = plan_process_pdf(args, false).err().unwrap();
    assert_eq!(single(&o), "Error: PDF file not found: a.pdf");
    let ok = finish_process_pdf("imgs", true, "log", "", 12);
    assert_eq!(
        single(&ok),
        "Successfully processed PDF and removed watermarks!\n\nImages output directory: imgs\nTotal images: 12\n\nlog"
    );
    let bad = finish_process_pdf("imgs", false, "", "err", 0);
    assert!(bad.is_error);
    assert_eq!(single(&bad), "Error running process_pdf_to_images.py: err");
    let d = directory_failure("permission denied");
    assert!(d.is_error);
    assert_eq!(single(&d), "Error creating output directory: permission denied");
}

#[test]
fn png_entries_are_counted() {
    let exts = vec![
        Some("png".to_string()),
        None,
        Some("jpg".to_string()),
        Some("png".to_string()),
        Some("PNG".to_string()),
    ];
    assert_eq!(count_png(&exts), 2);
    assert_eq!(count_png(&Vec::new()), 0);
}
