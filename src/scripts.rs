//! What each tool decides around the helper script it runs: which failures
//! it reports before running, the script and its arguments, and the text it
//! reports afterwards. Checking the file system and running the script are
//! the caller's part; their results come back here as plain values.
use crate::protocol::ToolOutcome;
use crate::text::{decimal, decimal_text, join};
use crate::tools::DEFAULT_DPI;
use vstd::prelude::*;

verus! {

/// A run of a helper script: its file name and its arguments, in order.
pub struct ScriptRun {
    pub script: String,
    pub args: Vec<String>,
}

impl ScriptRun {
    /// The arguments as character sequences.
    pub open spec fn arg_texts(&self) -> Seq<Seq<char>> {
        self.args@.map_values(|a: String| a@)
    }
}

/// Arguments of the tool that renders a PDF's pages as images.
pub struct PdfToImagesArgs {
    pub pdf_path: String,
    pub output_dir: Option<String>,
    pub dpi: Option<u32>,
}

/// Arguments of the tool that removes watermarks from images.
pub struct RemoveWatermarkArgs {
    pub image_path: Option<String>,
    pub image_dir: Option<String>,
    pub output_dir: Option<String>,
}

/// Arguments of the tool that merges images into a PDF.
pub struct ImagesToPdfArgs {
    pub image_dir: String,
    pub output_path: String,
    pub pattern: Option<String>,
}

/// Arguments of the tool that renders a PDF and cleans its pages.
pub struct ProcessPdfArgs {
    pub pdf_path: String,
    pub images_output_dir: String,
    pub dpi: Option<u32>,
}

/// What the watermark tool works on: one image or a directory of them.
pub enum WatermarkTarget {
    Image(String),
    Directory(String),
}

/// The resolution to render at: the one given, else the default.
pub open spec fn dpi_or_default(dpi: Option<u32>) -> u32 {
    match dpi {
        Some(d) => d,
        None => DEFAULT_DPI,
    }
}

/// Whether `o` is a single text block `text` with the given error flag.
pub open spec fn is_single(o: ToolOutcome, text: Seq<char>, is_error: bool) -> bool {
    o.texts() == seq![text] && o.is_error == is_error
}

/// The report of a script that exited with a failure status.
pub open spec fn script_failure_text(script: Seq<char>, stderr: Seq<char>) -> Seq<char> {
    "Error running "@ + script + ": "@ + stderr
}

/// The resolution to render at: the one given, else the default.
pub fn resolve_dpi(dpi: Option<u32>) -> (r: u32)
    ensures
        r == dpi_or_default(dpi),
{
    match dpi {
        Some(d) => d,
        None => DEFAULT_DPI,
    }
}

fn failure(text: String) -> (r: ToolOutcome)
    ensures
        is_single(r, text@, true),
{
    ToolOutcome::single(text, true)
}

/// The outcome of a script run: `success_text` when it exited with success,
/// else the failure report with its standard error.
pub fn finish_script(script: &str, exit_ok: bool, stderr: &str, success_text: String) -> (r:
    ToolOutcome)
    ensures
        exit_ok ==> is_single(r, success_text@, false),
        !exit_ok ==> is_single(r, script_failure_text(script@, stderr@), true),
{
    if exit_ok {
        ToolOutcome::single(success_text, false)
    } else {
        let mut text = join("Error running ", script);
        text.append(": ");
        text.append(stderr);
        failure(text)
    }
}

/// The outcome when the output directory could not be created.
pub fn directory_failure(description: &str) -> (r: ToolOutcome)
    ensures
        is_single(r, "Error creating output directory: "@ + description@, true),
{
    failure(join("Error creating output directory: ", description))
}

fn three_args(a: &str, b: &str, c: &str) -> (r: Vec<String>)
    ensures
        r@.map_values(|s: String| s@) == seq![a@, b@, c@],
{
    let mut v: Vec<String> = Vec::new();
    v.push(String::from_str(a));
    v.push(String::from_str(b));
    v.push(String::from_str(c));
    assert(v@.map_values(|s: String| s@) =~= seq![a@, b@, c@]);
    v
}

/// Where the page images go and how the script is run.
pub struct PdfToImagesPlan {
    pub output_dir: String,
    pub run: ScriptRun,
}

/// Decides the page-rendering run: a not-found report when the PDF does not
/// exist; else the output directory (the one given, else
/// `default_output_dir`) and the script with the PDF, that directory and the
/// resolution.
pub fn plan_pdf_to_images(args: PdfToImagesArgs, pdf_exists: bool, default_output_dir: String) -> (r:
    Result<PdfToImagesPlan, ToolOutcome>)
    ensures
        !pdf_exists ==> (r matches Err(o) && is_single(
            o,
            "Error: PDF file not found: "@ + args.pdf_path@,
            true,
        )),
        pdf_exists ==> (r matches Ok(p) && p.output_dir@ == match args.output_dir {
            Some(d) => d@,
            None => default_output_dir@,
        } && p.run.script@ == "pdf_to_images.py"@ && p.run.arg_texts() == seq![
            args.pdf_path@,
            p.output_dir@,
            decimal(dpi_or_default(args.dpi) as nat),
        ]),
{
    if !pdf_exists {
        return Err(failure(join("Error: PDF file not found: ", args.pdf_path.as_str())));
    }
    let dpi = resolve_dpi(args.dpi);
    let output_dir = match args.output_dir {
        Some(d) => d,
        None => default_output_dir,
    };
    let dpi_text = decimal_text(dpi as u64);
    let run = ScriptRun {
        script: String::from_str("pdf_to_images.py"),
        args: three_args(args.pdf_path.as_str(), output_dir.as_str(), dpi_text.as_str()),
    };
    Ok(PdfToImagesPlan { output_dir, run })
}

/// The outcome of the page-rendering run.
pub fn finish_pdf_to_images(output_dir: &str, exit_ok: bool, stdout: &str, stderr: &str) -> (r:
    ToolOutcome)
    ensures
        exit_ok ==> is_single(
            r,
            "Successfully converted PDF to images.\nOutput directory: "@ + output_dir@ + "\n"@
                + stdout@,
            false,
        ),
        !exit_ok ==> is_single(r, script_failure_text("pdf_to_images.py"@, stderr@), true),
{
    let mut text = join("Successfully converted PDF to images.\nOutput directory: ", output_dir);
    text.append("\n");
    text.append(stdout);
    finish_script("pdf_to_images.py", exit_ok, stderr, text)
}

/// Picks what the watermark tool works on: the image when one is named,
/// else the directory; a report when neither is.
pub fn remove_watermark_target(args: &RemoveWatermarkArgs) -> (r: Result<
    WatermarkTarget,
    ToolOutcome,
>)
    ensures
        match (args.image_path, args.image_dir) {
            (Some(p), _) => r matches Ok(WatermarkTarget::Image(q)) && q@ == p@,
            (None, Some(d)) => r matches Ok(WatermarkTarget::Directory(q)) && q@ == d@,
            (None, None) => r matches Err(o) && is_single(
                o,
                "Error: Either image_path or image_dir must be provided"@,
                true,
            ),
        },
{
    match &args.image_path {
        Some(p) => Ok(WatermarkTarget::Image(p.clone())),
        None => match &args.image_dir {
            Some(d) => Ok(WatermarkTarget::Directory(d.clone())),
            None => Err(
                failure(String::from_str("Error: Either image_path or image_dir must be provided")),
            ),
        },
    }
}

/// The arguments of a watermark run over `target`, writing to `output_dir`
/// when one is given.
pub open spec fn watermark_args(target: WatermarkTarget, output_dir: Option<String>) -> Seq<
    Seq<char>,
> {
    let head = match target {
        WatermarkTarget::Image(p) => seq!["--image"@, p@],
        WatermarkTarget::Directory(d) => seq!["--dir"@, d@],
    };
    match output_dir {
        Some(o) => head + seq!["--output"@, o@],
        None => head,
    }
}

/// Decides the watermark run: a not-found report when the target is
/// missing (a directory must also be one), else the script with the
/// target's flag and, when given, the output directory.
pub fn plan_remove_watermark(
    target: WatermarkTarget,
    target_exists: bool,
    output_dir: Option<String>,
) -> (r: Result<ScriptRun, ToolOutcome>)
    ensures
        !target_exists ==> (r matches Err(o) && match target {
            WatermarkTarget::Image(p) => is_single(o, "Error: Image file not found: "@ + p@, true),
            WatermarkTarget::Directory(d) => is_single(
                o,
                "Error: Directory not found: "@ + d@,
                true,
            ),
        }),
        target_exists ==> (r matches Ok(run) && run.script@ == "remove_watermark.py"@
            && run.arg_texts() == watermark_args(target, output_dir)),
{
    let ghost expected = watermark_args(target, output_dir);
    let mut args: Vec<String> = Vec::new();
    match target {
        WatermarkTarget::Image(p) => {
            if !target_exists {
                return Err(failure(join("Error: Image file not found: ", p.as_str())));
            }
            args.push(String::from_str("--image"));
            args.push(p);
        },
        WatermarkTarget::Directory(d) => {
            if !target_exists {
                return Err(failure(join("Error: Directory not found: ", d.as_str())));
            }
            args.push(String::from_str("--dir"));
            args.push(d);
        },
    }
    if let Some(o) = output_dir {
        args.push(String::from_str("--output"));
        args.push(o);
    }
    let run = ScriptRun { script: String::from_str("remove_watermark.py"), args };
    assert(run.arg_texts() =~= expected);
    Ok(run)
}

/// The outcome of the watermark run.
pub fn finish_remove_watermark(exit_ok: bool, stdout: &str, stderr: &str) -> (r: ToolOutcome)
    ensures
        exit_ok ==> is_single(r, "Successfully removed watermarks.\n"@ + stdout@, false),
        !exit_ok ==> is_single(r, script_failure_text("remove_watermark.py"@, stderr@), true),
{
    finish_script(
        "remove_watermark.py",
        exit_ok,
        stderr,
        join("Successfully removed watermarks.\n", stdout),
    )
}

/// Decides the merge run: a not-found report when the image directory is
/// missing, else the script with the directory, the output path and the
/// file pattern (the one given, else `*.png`).
pub fn plan_images_to_pdf(args: ImagesToPdfArgs, dir_exists: bool) -> (r: Result<
    ScriptRun,
    ToolOutcome,
>)
    ensures
        !dir_exists ==> (r matches Err(o) && is_single(
            o,
            "Error: Directory not found: "@ + args.image_dir@,
            true,
        )),
        dir_exists ==> (r matches Ok(run) && run.script@ == "images_to_pdf.py"@ && run.arg_texts()
            == seq![
            args.image_dir@,
            args.output_path@,
            match args.pattern {
                Some(p) => p@,
                None => "*.png"@,
            },
        ]),
{
    if !dir_exists {
        return Err(failure(join("Error: Directory not found: ", args.image_dir.as_str())));
    }
    let pattern = match args.pattern {
        Some(p) => p,
        None => String::from_str("*.png"),
    };
    Ok(
        ScriptRun {
            script: String::from_str("images_to_pdf.py"),
            args: three_args(args.image_dir.as_str(), args.output_path.as_str(), pattern.as_str()),
        },
    )
}

/// The outcome of the merge run.
pub fn finish_images_to_pdf(output_path: &str, exit_ok: bool, stdout: &str, stderr: &str) -> (r:
    ToolOutcome)
    ensures
        exit_ok ==> is_single(
            r,
            "Successfully created PDF: "@ + output_path@ + "\n"@ + stdout@,
            false,
        ),
        !exit_ok ==> is_single(r, script_failure_text("images_to_pdf.py"@, stderr@), true),
{
    let mut text = join("Successfully created PDF: ", output_path);
    text.append("\n");
    text.append(stdout);
    finish_script("images_to_pdf.py", exit_ok, stderr, text)
}

/// Decides the full processing run: a not-found report when the PDF does
/// not exist, else the script with the PDF, the image directory and the
/// resolution.
pub fn plan_process_pdf(args: ProcessPdfArgs, pdf_exists: bool) -> (r: Result<ScriptRun, ToolOutcome>)
    ensures
        !pdf_exists ==> (r matches Err(o) && is_single(
            o,
            "Error: PDF file not found: "@ + args.pdf_path@,
            true,
        )),
        pdf_exists ==> (r matches Ok(run) && run.script@ == "process_pdf_to_images.py"@
            && run.arg_texts() == seq![
            args.pdf_path@,
            args.images_output_dir@,
            decimal(dpi_or_default(args.dpi) as nat),
        ]),
{
    if !pdf_exists {
        return Err(failure(join("Error: PDF file not found: ", args.pdf_path.as_str())));
    }
    let dpi_text = decimal_text(resolve_dpi(args.dpi) as u64);
    Ok(
        ScriptRun {
            script: String::from_str("process_pdf_to_images.py"),
            args: three_args(
                args.pdf_path.as_str(),
                args.images_output_dir.as_str(),
                dpi_text.as_str(),
            ),
        },
    )
}

/// How many of the directory entries, given by their file extensions, are
/// PNG images.
pub open spec fn png_count(extensions: Seq<Option<String>>) -> nat
    decreases extensions.len(),
{
    if extensions.len() == 0 {
        0
    } else {
        png_count(extensions.drop_last()) + match extensions.last() {
            Some(e) => if e@ == "png"@ {
                1nat
            } else {
                0nat
            },
            None => 0nat,
        }
    }
}

/// Counts the PNG images among directory entries given by their extensions.
pub fn count_png(extensions: &Vec<Option<String>>) -> (r: usize)
    ensures
        r == png_count(extensions@),
{
    let png = String::from_str("png");
    let mut count: usize = 0;
    let mut i: usize = 0;
    while i < extensions.len()
        invariant
            i <= extensions@.len(),
            png@ == "png"@,
            count == png_count(extensions@.take(i as int)),
            count <= i,
        decreases extensions@.len() - i,
    {
        proof {
            assert(extensions@.take(i + 1).drop_last() =~= extensions@.take(i as int));
        }
        match &extensions[i] {
            Some(e) => {
                if *e == png {
                    count = count + 1;
                }
            },
            None => {},
        }
        i = i + 1;
    }
    assert(extensions@.take(i as int) =~= extensions@);
    count
}

/// The outcome of the full processing run, given the number of images
/// it left in the output directory.
pub fn finish_process_pdf(
    output_dir: &str,
    exit_ok: bool,
    stdout: &str,
    stderr: &str,
    image_count: usize,
) -> (r: ToolOutcome)
    ensures
        exit_ok ==> is_single(
            r,
            "Successfully processed PDF and removed watermarks!\n\nImages output directory: "@
                + output_dir@ + "\nTotal images: "@ + decimal(image_count as nat) + "\n\n"@
                + stdout@,
            false,
        ),
        !exit_ok ==> is_single(
            r,
            script_failure_text("process_pdf_to_images.py"@, stderr@),
            true,
        ),
{
    let count_text = decimal_text(image_count as u64);
    let mut text = join(
        "Successfully processed PDF and removed watermarks!\n\nImages output directory: ",
        output_dir,
    );
    text.append("\nTotal images: ");
    text.append(count_text.as_str());
    text.append("\n\n");
    text.append(stdout);
    finish_script("process_pdf_to_images.py", exit_ok, stderr, text)
}

} // verus!
