//! The static tool catalog that `tools/list` reports, and the routing of a
//! tool call by name.
use crate::text::{join, text_is};
use vstd::prelude::*;

verus! {

/// The type of a tool argument.
#[derive(Clone, Copy, Debug, PartialEq, Eq, Structural)]
pub enum PropertyKind {
    Text,
    Integer,
}

/// The default of an optional tool argument.
pub enum DefaultValue {
    Integer(u32),
    Text(String),
}

/// One argument that a tool accepts.
pub struct PropertySpec {
    pub name: String,
    pub kind: PropertyKind,
    pub default: Option<DefaultValue>,
    pub description: String,
}

/// A tool's name, description and argument schema.
pub struct ToolSpec {
    pub name: String,
    pub description: String,
    pub properties: Vec<PropertySpec>,
    pub required: Vec<String>,
}


impl ToolSpec {
    /// Names of the arguments the tool accepts, in order.
    pub open spec fn property_names(&self) -> Seq<Seq<char>> {
        self.properties@.map_values(|p: PropertySpec| p.name@)
    }

    /// Kinds of the arguments the tool accepts, in order.
    pub open spec fn property_kinds(&self) -> Seq<PropertyKind> {
        self.properties@.map_values(|p: PropertySpec| p.kind)
    }

    /// Names of the arguments the tool requires.
    pub open spec fn required_names(&self) -> Seq<Seq<char>> {
        self.required@.map_values(|r: String| r@)
    }

    /// The default of the argument at position `i`, if it is an integer.
    pub open spec fn integer_default(&self, i: int) -> Option<u32> {
        match self.properties@[i].default {
            Some(DefaultValue::Integer(n)) => Some(n),
            _ => None,
        }
    }

    /// The default of the argument at position `i`, if it is a text.
    pub open spec fn text_default(&self, i: int) -> Option<Seq<char>> {
        match self.properties@[i].default {
            Some(DefaultValue::Text(t)) => Some(t@),
            _ => None,
        }
    }
}

/// Resolution applied when no dpi argument is given.
pub const DEFAULT_DPI: u32 = 200;

/// The catalog: four tools, with these argument names, kinds, required
/// arguments and defaults, in this order.
pub open spec fn is_catalog(tools: Seq<ToolSpec>) -> bool {
    let t = PropertyKind::Text;
    let n = PropertyKind::Integer;
    &&& tools.len() == 4
    &&& tools[0].name@ == "pdf_to_images"@
    &&& tools[0].property_names() == seq!["pdf_path"@, "output_dir"@, "dpi"@]
    &&& tools[0].property_kinds() == seq![t, t, n]
    &&& tools[0].required_names() == seq!["pdf_path"@]
    &&& tools[0].integer_default(2) == Some(DEFAULT_DPI)
    &&& tools[1].name@ == "remove_watermark"@
    &&& tools[1].property_names() == seq!["image_path"@, "image_dir"@, "output_dir"@]
    &&& tools[1].property_kinds() == seq![t, t, t]
    &&& tools[1].required_names() == Seq::<Seq<char>>::empty()
    &&& tools[2].name@ == "images_to_pdf"@
    &&& tools[2].property_names() == seq!["image_dir"@, "output_path"@, "pattern"@]
    &&& tools[2].property_kinds() == seq![t, t, t]
    &&& tools[2].required_names() == seq!["image_dir"@, "output_path"@]
    &&& tools[2].text_default(2) == Some("*_processed.png"@)
    &&& tools[3].name@ == "process_pdf"@
    &&& tools[3].property_names() == seq!["pdf_path"@, "output_path"@, "dpi"@]
    &&& tools[3].property_kinds() == seq![t, t, n]
    &&& tools[3].required_names() == seq!["pdf_path"@]
    &&& tools[3].integer_default(2) == Some(DEFAULT_DPI)
}

fn property(name: &str, kind: PropertyKind, default: Option<DefaultValue>, description: &str) -> (r:
    PropertySpec)
    ensures
        r.name@ == name@,
        r.kind == kind,
        r.default == default,
        r.description@ == description@,
{
    PropertySpec {
        name: String::from_str(name),
        kind,
        default,
        description: String::from_str(description),
    }
}

fn tool(name: &str, description: &str, properties: Vec<PropertySpec>, required: Vec<String>) -> (r:
    ToolSpec)
    ensures
        r.name@ == name@,
        r.description@ == description@,
        r.properties == properties,
        r.required == required,
{
    ToolSpec {
        name: String::from_str(name),
        description: String::from_str(description),
        properties,
        required,
    }
}

fn three(a: PropertySpec, b: PropertySpec, c: PropertySpec) -> (r: Vec<PropertySpec>)
    ensures
        r@ == seq![a, b, c],
{
    let mut v: Vec<PropertySpec> = Vec::new();
    v.push(a);
    v.push(b);
    v.push(c);
    assert(v@ =~= seq![a, b, c]);
    v
}

fn names(a: Option<&str>, b: Option<&str>) -> (r: Vec<String>)
    ensures
        r@.map_values(|s: String| s@) == match (a, b) {
            (Some(x), Some(y)) => seq![x@, y@],
            (Some(x), None) => seq![x@],
            _ => Seq::<Seq<char>>::empty(),
        },
{
    let mut v: Vec<String> = Vec::new();
    if let Some(x) = a {
        v.push(String::from_str(x));
        if let Some(y) = b {
            v.push(String::from_str(y));
        }
    }
    assert(v@.map_values(|s: String| s@) =~= match (a, b) {
        (Some(x), Some(y)) => seq![x@, y@],
        (Some(x), None) => seq![x@],
        _ => Seq::<Seq<char>>::empty(),
    });
    v
}

/// The static catalog of tools that `tools/list` reports.
pub fn get_tool_definitions() -> (r: Vec<ToolSpec>)
    ensures
        is_catalog(r@),
{
    let t = PropertyKind::Text;
    let n = PropertyKind::Integer;
    let mut r: Vec<ToolSpec> = Vec::new();
    r.push(
        tool(
            "pdf_to_images",
            "将PDF文件转换为PNG图片。每页转换为一张图片。",
            three(
                property("pdf_path", t, None, "PDF文件的绝对路径"),
                property("output_dir", t, None, "输出目录路径（可选，默认在PDF同目录下创建临时目录）"),
                property("dpi", n, Some(DefaultValue::Integer(DEFAULT_DPI)), "输出图片的DPI（默认200）"),
            ),
            names(Some("pdf_path"), None),
        ),
    );
    r.push(
        tool(
            "remove_watermark",
            "去除图片右下角的水印（如NotebookLM水印）。支持单张图片或整个目录。",
            three(
                property("image_path", t, None, "单张图片的路径（与image_dir二选一）"),
                property("image_dir", t, None, "图片目录路径（与image_path二选一）"),
                property("output_dir", t, None, "输出目录路径（可选，默认覆盖原图或输出到同目录）"),
            ),
            names(None, None),
        ),
    );
    r.push(
        tool(
            "images_to_pdf",
            "将目录中的图片合并为一个PDF文件。图片按文件名排序。",
            three(
                property("image_dir", t, None, "包含图片的目录路径"),
                property("output_path", t, None, "输出PDF文件路径"),
                property(
                    "pattern",
                    t,
                    Some(DefaultValue::Text(String::from_str("*_processed.png"))),
                    "图片文件匹配模式（默认 *_processed.png）",
                ),
            ),
            names(Some("image_dir"), Some("output_path")),
        ),
    );
    r.push(
        tool(
            "process_pdf",
            "一键处理PDF：转换为图片 → 去除水印 → 合并回PDF。",
            three(
                property("pdf_path", t, None, "输入PDF文件路径"),
                property("output_path", t, None, "输出PDF文件路径（可选，默认为 原文件名_nowatermark.pdf）"),
                property("dpi", n, Some(DefaultValue::Integer(DEFAULT_DPI)), "处理图片的DPI（默认200）"),
            ),
            names(Some("pdf_path"), None),
        ),
    );
    proof {
        assert(r@[0].property_names() =~= seq!["pdf_path"@, "output_dir"@, "dpi"@]);
        assert(r@[0].property_kinds() =~= seq![t, t, n]);
        assert(r@[1].property_names() =~= seq!["image_path"@, "image_dir"@, "output_dir"@]);
        assert(r@[1].property_kinds() =~= seq![t, t, t]);
        assert(r@[2].property_names() =~= seq!["image_dir"@, "output_path"@, "pattern"@]);
        assert(r@[2].property_kinds() =~= seq![t, t, t]);
        assert(r@[3].property_names() =~= seq!["pdf_path"@, "output_path"@, "dpi"@]);
        assert(r@[3].property_kinds() =~= seq![t, t, n]);
    }
    r
}

/// The tools that a call can name.
#[derive(Clone, Copy, Debug, PartialEq, Eq, Structural)]
pub enum ToolKind {
    PdfToImages,
    RemoveWatermark,
    ImagesToPdf,
    ProcessPdf,
}

/// The tool a name denotes, if any.
pub open spec fn tool_kind(name: Seq<char>) -> Option<ToolKind> {
    if name == "pdf_to_images"@ {
        Some(ToolKind::PdfToImages)
    } else if name == "remove_watermark"@ {
        Some(ToolKind::RemoveWatermark)
    } else if name == "images_to_pdf"@ {
        Some(ToolKind::ImagesToPdf)
    } else if name == "process_pdf"@ {
        Some(ToolKind::ProcessPdf)
    } else {
        None
    }
}

/// Routes a tool call by name; an unknown name is an invocation failure.
pub fn select_tool(name: &String) -> (r: Result<ToolKind, String>)
    ensures
        match tool_kind(name@) {
            Some(k) => r == Ok::<ToolKind, String>(k),
            None => (r matches Err(e) && e@ == "Unknown tool: "@ + name@),
        },
{
    if text_is(name, "pdf_to_images") {
        Ok(ToolKind::PdfToImages)
    } else if text_is(name, "remove_watermark") {
        Ok(ToolKind::RemoveWatermark)
    } else if text_is(name, "images_to_pdf") {
        Ok(ToolKind::ImagesToPdf)
    } else if text_is(name, "process_pdf") {
        Ok(ToolKind::ProcessPdf)
    } else {
        Err(join("Unknown tool: ", name.as_str()))
    }
}

} // verus!
