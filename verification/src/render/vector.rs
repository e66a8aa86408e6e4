//! The diagram as a vector drawing.

use super::layout::{
    fits_canvas, layout_of, middle, row_fits, LaneView, Layout, LayoutView, RowView, ARROW_SIZE,
    LANE_WIDTH, LINK_LINE_OFFSET, LINK_TEXT_OFFSET, PARTY_TEXT_OFFSET, SPACER_SIZE,
};
use super::markup::{
    add_line, add_outlined_text, add_polygon, add_rectangle, add_text, document_nodes,
    document_view_box, set_view_box, svg_markup, to_markup, Outline, SvgNode,
};
use crate::data::session::SessionInner;
use vstd::prelude::*;

verus! {

/// What is drawn for a lane: its panel, the party's name at its head, the
/// lifeline from below the name to just above the foot of the panel, and an
/// arrowhead that ends the lifeline.
pub open spec fn lane_nodes(lane: LaneView, bottom: int) -> Seq<SvgNode> {
    seq![
        SvgNode::Rectangle {
            x: lane.left,
            y: SPACER_SIZE as int,
            width: LANE_WIDTH as int,
            height: bottom + SPACER_SIZE,
            style: "fill:white;stroke:lightgray"@,
        },
        SvgNode::Text {
            x: lane.center,
            y: PARTY_TEXT_OFFSET as int,
            fill: "black"@,
            anchor: "middle"@,
            outline: None,
            content: lane.title,
        },
        SvgNode::Line {
            x1: lane.center,
            y1: SPACER_SIZE + PARTY_TEXT_OFFSET,
            x2: lane.center,
            y2: SPACER_SIZE + bottom - ARROW_SIZE,
            style: "stroke:rgb(0,0,0);stroke-width:2"@,
        },
        SvgNode::Polygon {
            points: seq![
                (lane.center, SPACER_SIZE + bottom),
                (lane.center - ARROW_SIZE / 2, SPACER_SIZE + bottom - ARROW_SIZE),
                (lane.center + ARROW_SIZE / 2, SPACER_SIZE + bottom - ARROW_SIZE),
            ],
            style: "fill:black;stroke-width:0"@,
        },
    ]
}

/// The label of a row, where it has one: centred above the arrow, that is,
/// anchored by its middle at the middle between the two lifelines, and
/// outlined in the colour of the panel so that it stays legible over the
/// lifelines it crosses.
pub open spec fn label_nodes(row: RowView) -> Seq<SvgNode> {
    match row.label {
        Some(text) => seq![
            SvgNode::Text {
                x: middle(row.from, row.to),
                y: row.top + LINK_TEXT_OFFSET,
                fill: "black"@,
                anchor: "middle"@,
                outline: Some(
                    Outline {
                        stroke: "white"@,
                        stroke_width: "0.5em"@,
                        paint_order: "stroke"@,
                        stroke_linejoin: "round"@,
                    },
                ),
                content: text,
            },
        ],
        None => Seq::empty(),
    }
}

/// The arrow of a row: a wide stroke in the colour of the panel that clears
/// the lifelines between the two lanes, the shaft from the source's lifeline
/// to an arrowhead's length before the target's, and the arrowhead, whose
/// tip touches the target's lifeline.
pub open spec fn arrow_nodes(row: RowView) -> Seq<SvgNode> {
    seq![
        SvgNode::Line {
            x1: row.from + row.direction * (LANE_WIDTH / 2),
            y1: row.top + LINK_LINE_OFFSET,
            x2: row.to - row.direction * (ARROW_SIZE + LANE_WIDTH / 2),
            y2: row.top + LINK_LINE_OFFSET,
            style: "stroke:rgb(255,255,255);stroke-width:8"@,
        },
        SvgNode::Line {
            x1: row.from,
            y1: row.top + LINK_LINE_OFFSET,
            x2: row.to - row.direction * ARROW_SIZE,
            y2: row.top + LINK_LINE_OFFSET,
            style: "stroke:rgb(0,0,0);stroke-width:2"@,
        },
        SvgNode::Polygon {
            points: seq![
                (row.to, row.top + LINK_LINE_OFFSET),
                (row.to - row.direction * ARROW_SIZE, row.top - ARROW_SIZE / 2 + LINK_LINE_OFFSET),
                (row.to - row.direction * ARROW_SIZE, row.top + ARROW_SIZE / 2 + LINK_LINE_OFFSET),
            ],
            style: "fill:black;stroke-width:0"@,
        },
    ]
}

/// The arrow of a row runs along the row from the lifeline of the source to
/// the lifeline of the target: the shaft begins at the one and ends an
/// arrowhead's length before the other, the arrowhead has its tip on the
/// target's lifeline and its two base corners where the shaft ends, and the
/// label, if there is one, stands between the two lifelines.
pub proof fn lemma_arrow_shape(row: RowView)
    requires
        row.direction == 1 || row.direction == -1,
    ensures
        arrow_nodes(row).len() == 3,
        arrow_nodes(row)[1] matches SvgNode::Line { x1, y1, x2, y2, .. } && x1 == row.from && x2
            == row.to - row.direction * ARROW_SIZE && y1 == y2,
        arrow_nodes(row)[2] matches SvgNode::Polygon { points, .. } && points.len() == 3
            && points[0].0 == row.to && points[1].0 == row.to - row.direction * ARROW_SIZE
            && points[2].0 == row.to - row.direction * ARROW_SIZE,
        row.label is Some ==> label_nodes(row).len() == 1,
        row.label is None ==> label_nodes(row).len() == 0,
        row.from <= row.to ==> row.from <= middle(row.from, row.to) <= row.to,
        row.to <= row.from ==> row.to <= middle(row.from, row.to) <= row.from,
        2 * middle(row.from, row.to) == row.from + row.to || 2 * middle(row.from, row.to) + 1
            == row.from + row.to,
{
}

/// What is drawn for a row: its label, if any, then its arrow.
pub open spec fn row_nodes(row: RowView) -> Seq<SvgNode> {
    label_nodes(row) + arrow_nodes(row)
}

/// What is drawn for the lanes, lane after lane.
pub open spec fn lanes_nodes(lanes: Seq<LaneView>, bottom: int) -> Seq<SvgNode>
    decreases lanes.len(),
{
    if lanes.len() == 0 {
        Seq::empty()
    } else {
        lanes_nodes(lanes.drop_last(), bottom) + lane_nodes(lanes.last(), bottom)
    }
}

/// What is drawn for the rows, row after row.
pub open spec fn rows_nodes(rows: Seq<RowView>) -> Seq<SvgNode>
    decreases rows.len(),
{
    if rows.len() == 0 {
        Seq::empty()
    } else {
        rows_nodes(rows.drop_last()) + row_nodes(rows.last())
    }
}

/// Everything that is drawn for a layout: the lanes first, the rows over
/// them.
pub open spec fn drawing_nodes(layout: LayoutView) -> Seq<SvgNode> {
    lanes_nodes(layout.lanes, layout.lanes_bottom) + rows_nodes(layout.rows)
}

/// The text of the drawing of a layout, on a canvas of the layout's size.
pub open spec fn drawing_text(layout: LayoutView) -> Seq<char> {
    svg_markup(drawing_nodes(layout), Some((0, 0, layout.width, layout.height)))
}

/// The middle between two lifelines.
fn middle_of(from: i32, to: i32) -> (x: i32)
    requires
        0 <= from,
        0 <= to,
    ensures
        x == middle(from as int, to as int),
{
    if from <= to {
        from + (to - from) / 2
    } else {
        to + (from - to) / 2
    }
}

/// A sequence diagram as the text of a vector drawing.
pub struct Document(String);

impl View for Document {
    type V = Seq<char>;

    closed spec fn view(&self) -> Seq<char> {
        self.0@
    }
}

impl Document {
    /// The drawing of a session: a lane for each party in id order, a row
    /// for each link in log order.
    pub fn from(session: &SessionInner) -> (doc: Document)
        requires
            session.wf(),
            fits_canvas(session@),
        ensures
            doc@ == drawing_text(layout_of(session@)),
    {
        let layout = Layout::of(session);
        Document::draw(&layout)
    }

    /// The drawing of a session, unless the session has more parties or
    /// more links than the canvas has room for: then `None`.
    pub fn try_from(session: &SessionInner) -> (doc: Option<Document>)
        requires
            session.wf(),
        ensures
            fits_canvas(session@) ==> (doc matches Some(d) && d@ == drawing_text(
                layout_of(session@),
            )),
            !fits_canvas(session@) ==> doc is None,
    {
        if Layout::fits(session) {
            Some(Document::from(session))
        } else {
            None
        }
    }

    /// The drawing of a layout.
    pub fn draw(layout: &Layout) -> (doc: Document)
        requires
            layout@.drawable(),
        ensures
            doc@ == drawing_text(layout@),
    {
        let bottom = layout.lanes_bottom;
        let mut doc = svg::Document::new();

        let mut k: usize = 0;
        while k < layout.lanes.len()
            invariant
                layout@.drawable(),
                bottom == layout.lanes_bottom,
                k <= layout.lanes.len(),
                document_nodes(doc) == lanes_nodes(layout@.lanes.take(k as int), bottom as int),
                document_view_box(doc) == None::<(int, int, int, int)>,
            decreases layout.lanes.len() - k,
        {
            let lane = &layout.lanes[k];
            let ghost before = document_nodes(doc);
            proof {
                assert(layout@.lanes[k as int] == lane@);
            }
            let x = lane.center;
            let foot = SPACER_SIZE + bottom;
            doc = add_rectangle(doc, lane.left, SPACER_SIZE, LANE_WIDTH, bottom + SPACER_SIZE, "fill:white;stroke:lightgray");
            doc = add_text(doc, x, PARTY_TEXT_OFFSET, "black", "middle", lane.title.as_str());
            doc = add_line(doc, x, SPACER_SIZE + PARTY_TEXT_OFFSET, x, foot - ARROW_SIZE, "stroke:rgb(0,0,0);stroke-width:2");
            doc = add_polygon(
                doc,
                (x, foot),
                (x - ARROW_SIZE / 2, foot - ARROW_SIZE),
                (x + ARROW_SIZE / 2, foot - ARROW_SIZE),
                "fill:black;stroke-width:0",
            );
            proof {
                let seen = layout@.lanes.take(k + 1);
                assert(seen.drop_last() =~= layout@.lanes.take(k as int));
                assert(seen.last() == lane@);
                assert(document_nodes(doc) =~= before + lane_nodes(lane@, bottom as int));
            }
            k += 1;
        }
        assert(layout@.lanes.take(k as int) =~= layout@.lanes);

        let ghost lanes = document_nodes(doc);
        let mut i: usize = 0;
        while i < layout.rows.len()
            invariant
                layout@.drawable(),
                i <= layout.rows.len(),
                document_nodes(doc) == lanes + rows_nodes(layout@.rows.take(i as int)),
                document_view_box(doc) == None::<(int, int, int, int)>,
            decreases layout.rows.len() - i,
        {
            let row = &layout.rows[i];
            let ghost before = document_nodes(doc);
            proof {
                assert(layout@.rows[i as int] == row@);
                assert(row_fits(row@));
            }
            assert(row.direction == 1 || row.direction == -1);
            let y = row.top + LINK_LINE_OFFSET;
            let tip = row.to;
            let base = row.to - row.direction * ARROW_SIZE;
            match &row.label {
                Some(label) => {
                    doc = add_outlined_text(
                        doc,
                        middle_of(row.from, row.to),
                        row.top + LINK_TEXT_OFFSET,
                        "black",
                        "middle",
                        "white",
                        "0.5em",
                        "stroke",
                        "round",
                        label.as_str(),
                    );
                },
                None => {},
            }
            assert(document_nodes(doc) =~= before + label_nodes(row@));
            doc = add_line(
                doc,
                row.from + row.direction * (LANE_WIDTH / 2),
                y,
                row.to - row.direction * (ARROW_SIZE + LANE_WIDTH / 2),
                y,
                "stroke:rgb(255,255,255);stroke-width:8",
            );
            doc = add_line(doc, row.from, y, base, y, "stroke:rgb(0,0,0);stroke-width:2");
            doc = add_polygon(
                doc,
                (tip, y),
                (base, row.top - ARROW_SIZE / 2 + LINK_LINE_OFFSET),
                (base, row.top + ARROW_SIZE / 2 + LINK_LINE_OFFSET),
                "fill:black;stroke-width:0",
            );
            proof {
                let seen = layout@.rows.take(i + 1);
                assert(seen.drop_last() =~= layout@.rows.take(i as int));
                assert(seen.last() == row@);
                assert(document_nodes(doc) =~= before + row_nodes(row@));
                assert(document_nodes(doc) =~= lanes + rows_nodes(seen));
            }
            i += 1;
        }
        assert(layout@.rows.take(i as int) =~= layout@.rows);

        doc = set_view_box(doc, 0, 0, layout.width, layout.height);
        Document(to_markup(&doc))
    }

    /// The text.
    pub fn as_str(&self) -> (text: &str)
        ensures
            text@ == self@,
    {
        self.0.as_str()
    }

    /// The text, giving up the document.
    pub fn into_string(self) -> (text: String)
        ensures
            text@ == self@,
    {
        self.0
    }
}

} // verus!
