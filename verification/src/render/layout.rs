//! Where everything stands in the drawing of a session: one vertical lane
//! for each party, in id order from the left, and one row for each link, in
//! log order from the top. One pass over the parties and one over the links
//! fix every coordinate; nothing is moved afterwards.

use crate::data::link::LinkView;
use crate::data::model::{first_id, SessionView};
use crate::data::party::PartyView;
use crate::data::session::SessionInner;
use vstd::prelude::*;

verus! {

/// The width of a lane.
pub const LANE_WIDTH: i32 = 200;

/// The gap between two lanes: a tenth of a lane's width.
pub const INTER_LANE_SPACE: i32 = 20;

/// The height of a row.
pub const STEP_HEIGHT: i32 = 100;

/// The margin above and below the lanes: a tenth of a lane's width.
pub const SPACER_SIZE: i32 = 20;

/// How far below the top of the canvas the names of the parties stand.
pub const PARTY_TEXT_OFFSET: i32 = 50;

/// The height of the header: how far below the top of the canvas the first
/// row begins.
pub const LINKS_START_HEIGHT: i32 = 100;

/// How far below the top of its row a label stands.
pub const LINK_TEXT_OFFSET: i32 = 20;

/// How far below the top of its row an arrow runs.
pub const LINK_LINE_OFFSET: i32 = 70;

/// The length of an arrowhead: half a margin.
pub const ARROW_SIZE: i32 = 10;

/// The most lanes whose right edge still has an `i32` coordinate.
pub const MAX_LANES: usize = 9_761_289;

/// The most rows whose bottom edge still has an `i32` coordinate.
pub const MAX_ROWS: usize = 21_474_835;

/// The left edge of lane `k`, counted from 0: lanes follow one another at
/// the distance of a lane's width and the gap.
pub open spec fn lane_left(k: int) -> int {
    k * (LANE_WIDTH + INTER_LANE_SPACE)
}

/// The x-coordinate of the lifeline of lane `k`: half a lane's width from
/// its left edge.
pub open spec fn lane_center(k: int) -> int {
    lane_left(k) + LANE_WIDTH / 2
}

/// The right edge of the last of `lanes` lanes; `0` where there is none.
pub open spec fn lanes_right(lanes: int) -> int {
    if lanes <= 0 {
        0
    } else {
        lane_left(lanes - 1) + LANE_WIDTH
    }
}

/// The top of row `i`, counted from 0.
pub open spec fn row_top(i: int) -> int {
    LINKS_START_HEIGHT + i * STEP_HEIGHT
}

/// How far down the lanes reach when there are `rows` rows.
pub open spec fn lanes_bottom(rows: int) -> int {
    LINKS_START_HEIGHT + STEP_HEIGHT * rows
}

/// `1` for an arrow that points to the right, `-1` for one that points to
/// the left. An arrow from a lane to itself points to the left.
pub open spec fn direction(from: int, to: int) -> int {
    if to > from {
        1
    } else {
        -1
    }
}

/// The middle between two lifelines, which is where the label of an arrow
/// between them stands. Where the distance is odd, the middle is half a
/// unit nearer to the lifeline on the left.
pub open spec fn middle(from: int, to: int) -> int {
    if from <= to {
        from + (to - from) / 2
    } else {
        to + (from - to) / 2
    }
}

/// The lane of a party: its place in id order.
pub open spec fn lane_of(party: PartyView) -> int {
    party.id - first_id()
}

/// One lane: the column of a party.
pub struct Lane {
    pub left: i32,
    pub center: i32,
    /// The party's name.
    pub title: String,
}

pub struct LaneView {
    pub left: int,
    pub center: int,
    pub title: Seq<char>,
}

impl View for Lane {
    type V = LaneView;

    open spec fn view(&self) -> LaneView {
        LaneView { left: self.left as int, center: self.center as int, title: self.title@ }
    }
}

/// One row: the arrow of a link, from the lifeline at `from` to the one at
/// `to`.
pub struct Row {
    pub top: i32,
    pub from: i32,
    pub to: i32,
    /// `1` where the arrow points to the right, `-1` where to the left.
    pub direction: i32,
    pub label: Option<String>,
}

pub struct RowView {
    pub top: int,
    pub from: int,
    pub to: int,
    pub direction: int,
    pub label: Option<Seq<char>>,
}

impl View for Row {
    type V = RowView;

    open spec fn view(&self) -> RowView {
        RowView {
            top: self.top as int,
            from: self.from as int,
            to: self.to as int,
            direction: self.direction as int,
            label: match self.label {
                Some(l) => Some(l@),
                None => None,
            },
        }
    }
}

/// The lanes and rows of a drawing, and the size of its canvas.
pub struct Layout {
    pub lanes: Vec<Lane>,
    pub rows: Vec<Row>,
    /// How far down the lanes reach.
    pub lanes_bottom: i32,
    pub width: i32,
    pub height: i32,
}

pub struct LayoutView {
    pub lanes: Seq<LaneView>,
    pub rows: Seq<RowView>,
    pub lanes_bottom: int,
    pub width: int,
    pub height: int,
}

impl View for Layout {
    type V = LayoutView;

    open spec fn view(&self) -> LayoutView {
        LayoutView {
            lanes: self.lanes@.map_values(|l: Lane| l@),
            rows: self.rows@.map_values(|r: Row| r@),
            lanes_bottom: self.lanes_bottom as int,
            width: self.width as int,
            height: self.height as int,
        }
    }
}

/// The lane of the party at place `k`.
pub open spec fn lane_at(parties: Seq<PartyView>, k: int) -> LaneView {
    LaneView { left: lane_left(k), center: lane_center(k), title: parties[k].name }
}

/// The row of the link at place `i` of the log.
pub open spec fn row_at(links: Seq<LinkView>, i: int) -> RowView {
    let from = lane_center(lane_of(links[i].from));
    let to = lane_center(lane_of(links[i].to));
    RowView { top: row_top(i), from, to, direction: direction(from, to), label: links[i].label }
}

/// The layout of a session. The canvas ends a margin after the right edge
/// of the last lane, and two margins after the bottom of the last row.
pub open spec fn layout_of(session: SessionView) -> LayoutView {
    LayoutView {
        lanes: Seq::new(session.parties.len(), |k: int| lane_at(session.parties, k)),
        rows: Seq::new(session.links.len(), |i: int| row_at(session.links, i)),
        lanes_bottom: lanes_bottom(session.links.len() as int),
        width: lanes_right(session.parties.len() as int) + SPACER_SIZE,
        height: lanes_bottom(session.links.len() as int) + 2 * SPACER_SIZE,
    }
}

/// Whether every coordinate of the session's drawing is an `i32`.
pub open spec fn fits_canvas(session: SessionView) -> bool {
    session.parties.len() <= MAX_LANES && session.links.len() <= MAX_ROWS
}

/// Whether a lifeline at `x` leaves room to its right for half a lane and
/// an arrowhead.
pub open spec fn on_canvas(x: int) -> bool {
    0 <= x <= i32::MAX - (LANE_WIDTH / 2 + ARROW_SIZE)
}

/// Whether the arrow of a row has `i32` coordinates and points one way or
/// the other.
pub open spec fn row_fits(row: RowView) -> bool {
    &&& 0 <= row.top <= i32::MAX - STEP_HEIGHT
    &&& on_canvas(row.from)
    &&& on_canvas(row.to)
    &&& (row.direction == 1 || row.direction == -1)
}

impl LayoutView {
    /// Whether every shape drawn for this layout has `i32` coordinates:
    /// lifelines keep half a lane's width and an arrowhead away from the
    /// end of the range, rows keep their height, and arrows point one way
    /// or the other.
    pub open spec fn drawable(self) -> bool {
        &&& 0 <= self.lanes_bottom <= i32::MAX - 2 * SPACER_SIZE
        &&& forall|k: int|
            0 <= k < self.lanes.len() ==> on_canvas((#[trigger] self.lanes[k]).center)
        &&& forall|i: int| 0 <= i < self.rows.len() ==> row_fits(#[trigger] self.rows[i])
    }
}

/// Every layout of a well-formed session that fits the canvas can be drawn,
/// has a lane for each party and a row for each link, and each of its arrows
/// points from the lane of its link's source towards the lane of its
/// target: to the right exactly where the target's lane lies further right.
pub proof fn lemma_layout_of(session: SessionView)
    requires
        session.wf(),
        fits_canvas(session),
    ensures
        layout_of(session).drawable(),
        layout_of(session).lanes.len() == session.parties.len(),
        layout_of(session).rows.len() == session.links.len(),
        forall|i: int|
            0 <= i < session.links.len() ==> {
                let row = #[trigger] layout_of(session).rows[i];
                let from = lane_of(session.links[i].from);
                let to = lane_of(session.links[i].to);
                &&& 0 <= from < session.parties.len()
                &&& 0 <= to < session.parties.len()
                &&& row.from == layout_of(session).lanes[from].center
                &&& row.to == layout_of(session).lanes[to].center
                &&& (row.direction == 1 <==> to > from)
                &&& (row.direction == -1 <==> to <= from)
            },
{
    let layout = layout_of(session);
    assert forall|i: int| 0 <= i < session.links.len() implies {
        let row = #[trigger] layout.rows[i];
        let from = lane_of(session.links[i].from);
        let to = lane_of(session.links[i].to);
        &&& 0 <= from < session.parties.len()
        &&& 0 <= to < session.parties.len()
        &&& row.from == layout.lanes[from].center
        &&& row.to == layout.lanes[to].center
        &&& (row.direction == 1 <==> to > from)
        &&& (row.direction == -1 <==> to <= from)
        &&& on_canvas(row.from)
        &&& on_canvas(row.to)
    } by {
        assert(session.is_party(session.links[i].from));
        assert(session.is_party(session.links[i].to));
    }
}

impl Layout {
    /// Whether the drawing of `session` has `i32` coordinates throughout.
    pub fn fits(session: &SessionInner) -> (fits: bool)
        ensures
            fits == fits_canvas(session@),
    {
        session.parties.len() <= MAX_LANES && session.links.len() <= MAX_ROWS
    }

    /// Whether every shape drawn for this layout has `i32` coordinates.
    pub fn is_drawable(&self) -> (drawable: bool)
        ensures
            drawable == self@.drawable(),
    {
        let reach = LANE_WIDTH / 2 + ARROW_SIZE;
        if self.lanes_bottom < 0 || self.lanes_bottom > i32::MAX - 2 * SPACER_SIZE {
            return false;
        }
        let mut k: usize = 0;
        while k < self.lanes.len()
            invariant
                k <= self.lanes.len(),
                reach == LANE_WIDTH / 2 + ARROW_SIZE,
                forall|j: int| 0 <= j < k ==> on_canvas((#[trigger] self@.lanes[j]).center),
            decreases self.lanes.len() - k,
        {
            let x = self.lanes[k].center;
            if x < 0 || x > i32::MAX - reach {
                assert(!on_canvas(self@.lanes[k as int].center));
                return false;
            }
            k += 1;
        }
        let mut i: usize = 0;
        while i < self.rows.len()
            invariant
                i <= self.rows.len(),
                reach == LANE_WIDTH / 2 + ARROW_SIZE,
                forall|j: int| 0 <= j < i ==> row_fits(#[trigger] self@.rows[j]),
            decreases self.rows.len() - i,
        {
            let row = &self.rows[i];
            let fits = 0 <= row.top && row.top <= i32::MAX - STEP_HEIGHT && 0 <= row.from
                && row.from <= i32::MAX - reach && 0 <= row.to && row.to <= i32::MAX - reach && (
            row.direction == 1 || row.direction == -1);
            if !fits {
                assert(!row_fits(self@.rows[i as int]));
                return false;
            }
            i += 1;
        }
        true
    }

    /// Lays a session out.
    pub fn of(session: &SessionInner) -> (layout: Layout)
        requires
            session.wf(),
            fits_canvas(session@),
        ensures
            layout@ == layout_of(session@),
            layout@.drawable(),
    {
        proof {
            lemma_layout_of(session@);
        }
        let row_count = session.links.len();
        let bottom: i32 = LINKS_START_HEIGHT + STEP_HEIGHT * (row_count as i32);

        let mut lanes: Vec<Lane> = Vec::new();
        let mut x: i32 = 0;
        let mut k: usize = 0;
        while k < session.parties.len()
            invariant
                k <= session.parties.len() <= MAX_LANES,
                x == lane_left(k as int),
                lanes.len() == k,
                forall|j: int| 0 <= j < k ==> (#[trigger] lanes[j])@ == lane_at(session@.parties, j),
            decreases session.parties.len() - k,
        {
            let lane = Lane {
                left: x,
                center: x + LANE_WIDTH / 2,
                title: session.parties[k].0.name.clone(),
            };
            assert(lane@ == lane_at(session@.parties, k as int));
            lanes.push(lane);
            x = x + LANE_WIDTH + INTER_LANE_SPACE;
            k += 1;
        }

        let mut rows: Vec<Row> = Vec::new();
        let mut y: i32 = LINKS_START_HEIGHT;
        let mut i: usize = 0;
        while i < row_count
            invariant
                session.wf(),
                fits_canvas(session@),
                row_count == session.links.len(),
                i <= row_count,
                y == row_top(i as int),
                rows.len() == i,
                forall|j: int| 0 <= j < i ==> (#[trigger] rows[j])@ == row_at(session@.links, j),
            decreases row_count - i,
        {
            let link = &session.links[i];
            proof {
                assert(session@.links[i as int] == link@);
                assert(session@.is_party(link@.from));
                assert(session@.is_party(link@.to));
            }
            let from = lane_center_of(link.from.id);
            let to = lane_center_of(link.to.id);
            let row = Row {
                top: y,
                from,
                to,
                direction: if to > from {
                    1
                } else {
                    -1
                },
                label: match &*link.label {
                    Some(l) => Some(l.clone()),
                    None => None,
                },
            };
            assert(row@ == row_at(session@.links, i as int));
            rows.push(row);
            y = y + STEP_HEIGHT;
            i += 1;
        }

        let right = if k == 0 {
            0
        } else {
            x - INTER_LANE_SPACE
        };
        let layout = Layout {
            lanes,
            rows,
            lanes_bottom: bottom,
            width: right + SPACER_SIZE,
            height: bottom + 2 * SPACER_SIZE,
        };
        assert(layout@.lanes =~= layout_of(session@).lanes);
        assert(layout@.rows =~= layout_of(session@).rows);
        layout
    }
}

/// The lifeline of the party with the id `id`.
fn lane_center_of(id: u64) -> (x: i32)
    requires
        first_id() <= id < first_id() + MAX_LANES,
    ensures
        x == lane_center(id - first_id()),
{
    let lane = (id - 2) as i32;
    lane * (LANE_WIDTH + INTER_LANE_SPACE) + LANE_WIDTH / 2
}

} // verus!
