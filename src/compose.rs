use vstd::prelude::*;
use vstd::utf8::encode_utf8;

use base64::engine::general_purpose::STANDARD;
use base64::Engine;

use crate::path::{PathView, VectorPath};
use crate::text::{append_decimal, decimal, path_text};

verus! {

/// Side, in pixels, of the square surface a raster export is drawn on.
pub const RASTER_SIDE: u32 = 290;

/// Colours and background choice applied when a path is composed. The colours
/// are colour strings handed through as they are.
pub struct RenderConfig {
    pub foreground: String,
    pub background: String,
    pub transparent_background: bool,
}

impl RenderConfig {
    /// Black modules on an opaque white background.
    pub fn new() -> (r: RenderConfig)
        ensures
            r.foreground@ == "#000000"@,
            r.background@ == "#FFFFFF"@,
            !r.transparent_background,
    {
        RenderConfig {
            foreground: String::from_str("#000000"),
            background: String::from_str("#FFFFFF"),
            transparent_background: false,
        }
    }
}

/// Opening tag of a document whose square viewport has side `extent`.
pub open spec fn svg_open(extent: nat) -> Seq<char> {
    "<svg xmlns=\"http://www.w3.org/2000/svg\" version=\"1.1\" viewBox=\"0 0 "@ + decimal(extent)
        + " "@ + decimal(extent) + "\" stroke=\"none\">"@
}

/// A rectangle over the whole viewport, filled with `color`.
pub open spec fn background_fill(color: Seq<char>) -> Seq<char> {
    "<rect width=\"100%\" height=\"100%\" fill=\""@ + color + "\"/>"@
}

/// The single path element: path data `d`, filled with `color`.
pub open spec fn path_element(d: Seq<char>, color: Seq<char>) -> Seq<char> {
    "<path d=\""@ + d + "\" fill=\""@ + color + "\"/>"@
}

pub open spec fn svg_close() -> Seq<char> {
    "</svg>"@
}

/// The background part of a document: nothing when the background is
/// transparent, else one full-viewport fill.
pub open spec fn background_part(transparent: bool, color: Seq<char>) -> Seq<char> {
    if transparent {
        Seq::empty()
    } else {
        background_fill(color)
    }
}

/// The SVG document of path `p` under the colours `fg` and `bg`.
pub open spec fn svg_document(p: PathView, fg: Seq<char>, bg: Seq<char>, transparent: bool) -> Seq<char> {
    svg_open(p.extent) + background_part(transparent, bg) + path_element(path_text(p.squares), fg)
        + svg_close()
}

/// With a transparent background the document holds no background fill, and
/// the background colour makes no difference to it; with an opaque one it
/// holds exactly one full-viewport fill of the background colour, between the
/// opening tag and the path.
pub proof fn transparency_law(p: PathView, fg: Seq<char>, bg: Seq<char>, other_bg: Seq<char>)
    ensures
        svg_document(p, fg, bg, true) == svg_open(p.extent) + path_element(path_text(p.squares), fg)
            + svg_close(),
        svg_document(p, fg, bg, true) == svg_document(p, fg, other_bg, true),
        svg_document(p, fg, bg, false) == svg_open(p.extent) + background_fill(bg) + path_element(
            path_text(p.squares),
            fg,
        ) + svg_close(),
{
    assert(svg_open(p.extent) + Seq::<char>::empty() == svg_open(p.extent));
}

/// The standard-alphabet, padded base64 text of `bytes`.
pub uninterp spec fn base64_standard(bytes: Seq<u8>) -> Seq<char>;

/// Relies on base64's `STANDARD` engine and `Engine::encode`: the text depends
/// on the bytes alone.
#[verifier::external_body]
fn base64_encode(bytes: &[u8]) -> (r: String)
    ensures
        r@ == base64_standard(bytes@),
{
    STANDARD.encode(bytes)
}

/// The image source a raster export decodes: the document as a base64 data URL.
pub open spec fn raster_source_text(document: Seq<char>) -> Seq<char> {
    "data:image/svg+xml;base64,"@ + base64_standard(encode_utf8(document))
}

/// Wraps `path` in a standalone SVG document: the viewport is the path's
/// extent, an opaque background fill comes first unless the background is
/// transparent, and the path is filled with the foreground colour above it.
pub fn vector_document(path: &VectorPath, config: &RenderConfig) -> (r: String)
    ensures
        r@ == svg_document(
            path@,
            config.foreground@,
            config.background@,
            config.transparent_background,
        ),
{
    let mut s = String::from_str(
        "<svg xmlns=\"http://www.w3.org/2000/svg\" version=\"1.1\" viewBox=\"0 0 ",
    );
    append_decimal(&mut s, path.extent());
    s.append(" ");
    append_decimal(&mut s, path.extent());
    s.append("\" stroke=\"none\">");
    assert(s@ == svg_open(path@.extent));
    if !config.transparent_background {
        s.append("<rect width=\"100%\" height=\"100%\" fill=\"");
        s.append(config.background.as_str());
        s.append("\"/>");
    }
    assert(s@ == svg_open(path@.extent) + background_part(
        config.transparent_background,
        config.background@,
    ));
    let d = path.data();
    s.append("<path d=\"");
    s.append(d.as_str());
    s.append("\" fill=\"");
    s.append(config.foreground.as_str());
    s.append("\"/>");
    s.append("</svg>");
    s
}

/// The source a raster export hands to the image decoder: the vector
/// document as a `data:image/svg+xml;base64,` URL.
pub fn raster_source(document: &String) -> (r: String)
    ensures
        r@ == raster_source_text(document@),
{
    let encoded = base64_encode(document.as_str().as_bytes());
    let mut s = String::from_str("data:image/svg+xml;base64,");
    s.append(encoded.as_str());
    s
}

} // verus!
