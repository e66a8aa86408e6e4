//! Vector documents, composed and written by the `svg` crate.
//!
//! Everything in this file is believed, not proved: it states what the
//! `svg` crate does with a document as far as the drawing code relies on it.
//! A document is known by the child nodes that were added to it, each by the
//! attributes it was built with, and by its `viewBox`. The text that the
//! crate writes for a document is a function of the two: it writes the
//! attributes of an element sorted by name and the child nodes in their
//! order.

use vstd::prelude::*;

verus! {

/// The `svg` crate's document: an `svg` element with attributes and child
/// nodes.
#[verifier::external_type_specification]
#[verifier::external_body]
pub struct ExSvgDocument(svg::node::element::SVG);

/// The attributes that make a `text` element legible over what lies beneath
/// it.
pub struct Outline {
    pub stroke: Seq<char>,
    pub stroke_width: Seq<char>,
    pub paint_order: Seq<char>,
    pub stroke_linejoin: Seq<char>,
}

/// A child node of a document, by the attributes it was built with.
pub enum SvgNode {
    /// A `rect` element.
    Rectangle { x: int, y: int, width: int, height: int, style: Seq<char> },
    /// A `text` element around one text node.
    Text { x: int, y: int, fill: Seq<char>, anchor: Seq<char>, outline: Option<Outline>, content: Seq<char> },
    /// A `line` element.
    Line { x1: int, y1: int, x2: int, y2: int, style: Seq<char> },
    /// A `polygon` element.
    Polygon { points: Seq<(int, int)>, style: Seq<char> },
}

/// The child nodes of a document, in the order in which they were added.
pub uninterp spec fn document_nodes(doc: svg::node::element::SVG) -> Seq<SvgNode>;

/// The `viewBox` attribute of a document: `x`, `y`, width and height, or
/// `None` while it has not been set.
pub uninterp spec fn document_view_box(doc: svg::node::element::SVG) -> Option<(int, int, int, int)>;

/// The text that the `svg` crate writes for a document with these child
/// nodes and this `viewBox`.
pub uninterp spec fn svg_markup(nodes: Seq<SvgNode>, view_box: Option<(int, int, int, int)>) -> Seq<char>;

/// `SVG::new`: a document without child nodes and without a `viewBox`. (Its
/// one attribute, `xmlns`, is the same for every document.)
pub assume_specification[ svg::node::element::SVG::new ]() -> (doc: svg::node::element::SVG)
    ensures
        document_nodes(doc) == Seq::<SvgNode>::empty(),
        document_view_box(doc) == None::<(int, int, int, int)>,
;

/// `Rectangle::new`, `Rectangle::set` for each of `x`, `y`, `width`,
/// `height` and `style`, and `SVG::add`: the document gets the rectangle as
/// one more child node, after those it has, and keeps its `viewBox`.
#[verifier::external_body]
pub(crate) fn add_rectangle(doc: svg::Document, x: i32, y: i32, width: i32, height: i32, style: &str) -> (res: svg::Document)
    ensures
        document_nodes(res) == document_nodes(doc).push(
            SvgNode::Rectangle {
                x: x as int,
                y: y as int,
                width: width as int,
                height: height as int,
                style: style@,
            },
        ),
        document_view_box(res) == document_view_box(doc),
{
    doc.add(
        svg::node::element::Rectangle::new()
            .set("x", x)
            .set("y", y)
            .set("width", width)
            .set("height", height)
            .set("style", style),
    )
}

/// `Text::new` around `content`, `Text::set` for each of `x`, `y`, `fill`
/// and `text-anchor`, and `SVG::add`: the document gets the text as one more
/// child node, after those it has, and keeps its `viewBox`.
#[verifier::external_body]
pub(crate) fn add_text(doc: svg::Document, x: i32, y: i32, fill: &str, anchor: &str, content: &str) -> (res: svg::Document)
    ensures
        document_nodes(res) == document_nodes(doc).push(
            SvgNode::Text {
                x: x as int,
                y: y as int,
                fill: fill@,
                anchor: anchor@,
                outline: None,
                content: content@,
            },
        ),
        document_view_box(res) == document_view_box(doc),
{
    doc.add(
        svg::node::element::Text::new(content)
            .set("x", x)
            .set("y", y)
            .set("fill", fill)
            .set("text-anchor", anchor),
    )
}

/// `Text::new` around `content`, `Text::set` for each of `x`, `y`, `fill`,
/// `text-anchor`, `stroke`, `stroke-width`, `paint-order` and
/// `stroke-linejoin`, and `SVG::add`: the document gets the outlined text as
/// one more child node, after those it has, and keeps its `viewBox`.
#[verifier::external_body]
pub(crate) fn add_outlined_text(
    doc: svg::Document,
    x: i32,
    y: i32,
    fill: &str,
    anchor: &str,
    stroke: &str,
    stroke_width: &str,
    paint_order: &str,
    stroke_linejoin: &str,
    content: &str,
) -> (res: svg::Document)
    ensures
        document_nodes(res) == document_nodes(doc).push(
            SvgNode::Text {
                x: x as int,
                y: y as int,
                fill: fill@,
                anchor: anchor@,
                outline: Some(
                    Outline {
                        stroke: stroke@,
                        stroke_width: stroke_width@,
                        paint_order: paint_order@,
                        stroke_linejoin: stroke_linejoin@,
                    },
                ),
                content: content@,
            },
        ),
        document_view_box(res) == document_view_box(doc),
{
    doc.add(
        svg::node::element::Text::new(content)
            .set("x", x)
            .set("y", y)
            .set("fill", fill)
            .set("text-anchor", anchor)
            .set("stroke", stroke)
            .set("stroke-width", stroke_width)
            .set("paint-order", paint_order)
            .set("stroke-linejoin", stroke_linejoin),
    )
}

/// `Line::new`, `Line::set` for each of `x1`, `y1`, `x2`, `y2` and `style`,
/// and `SVG::add`: the document gets the line as one more child node, after
/// those it has, and keeps its `viewBox`.
#[verifier::external_body]
pub(crate) fn add_line(doc: svg::Document, x1: i32, y1: i32, x2: i32, y2: i32, style: &str) -> (res: svg::Document)
    ensures
        document_nodes(res) == document_nodes(doc).push(
            SvgNode::Line { x1: x1 as int, y1: y1 as int, x2: x2 as int, y2: y2 as int, style: style@ },
        ),
        document_view_box(res) == document_view_box(doc),
{
    doc.add(
        svg::node::element::Line::new()
            .set("x1", x1)
            .set("y1", y1)
            .set("x2", x2)
            .set("y2", y2)
            .set("style", style),
    )
}

/// `Polygon::new`, `Polygon::set` for `points`, which lists the three
/// points as `x,y` pairs, and for `style`, and `SVG::add`: the document gets
/// the polygon as one more child node, after those it has, and keeps its
/// `viewBox`.
#[verifier::external_body]
pub(crate) fn add_polygon(doc: svg::Document, a: (i32, i32), b: (i32, i32), c: (i32, i32), style: &str) -> (res: svg::Document)
    ensures
        document_nodes(res) == document_nodes(doc).push(
            SvgNode::Polygon {
                points: seq![
                    (a.0 as int, a.1 as int),
                    (b.0 as int, b.1 as int),
                    (c.0 as int, c.1 as int),
                ],
                style: style@,
            },
        ),
        document_view_box(res) == document_view_box(doc),
{
    doc.add(
        svg::node::element::Polygon::new()
            .set("points", format!("{},{} {},{} {},{}", a.0, a.1, b.0, b.1, c.0, c.1))
            .set("style", style),
    )
}

/// `SVG::set` of the `viewBox` attribute to the four numbers: the child
/// nodes stay.
#[verifier::external_body]
pub(crate) fn set_view_box(doc: svg::Document, x: i32, y: i32, width: i32, height: i32) -> (res: svg::Document)
    ensures
        document_nodes(res) == document_nodes(doc),
        document_view_box(res) == Some((x as int, y as int, width as int, height as int)),
{
    doc.set("viewBox", (x, y, width, height))
}

/// `to_string` through the `Display` of `SVG`, which is what `svg::write`
/// writes: the text of the document, which its child nodes and its
/// `viewBox` determine.
#[verifier::external_body]
pub(crate) fn to_markup(doc: &svg::Document) -> (res: String)
    ensures
        res@ == svg_markup(document_nodes(*doc), document_view_box(*doc)),
{
    doc.to_string()
}

} // verus!
