use diagramer::data::{Party, PartyMappedByName, SessionInner};
use diagramer::render::layout::{Lane, Layout, Row, MAX_LANES, MAX_ROWS};
use diagramer::render::mermaid;
use diagramer::render::vector::Document;
use std::sync::Arc;

fn example() -> SessionInner {
    let mut session = SessionInner::new(7);
    session.add_link(1, "a", "b", Some("Request"));
    session.add_link(2, "b", "c", Some("Forward"));
    session.add_link(3, "c", "a", Some("Response"));
    session
}

#[test]
fn generate() {
    let session = example();
    let svg_text = Document::from(&session);
    assert!(svg_text.as_str().contains("<svg"));
    assert!(svg_text.as_str().contains("<text "));
    assert!(svg_text.as_str().contains("<polygon "));
    assert!(svg_text.as_str().contains("<rect "));
    assert!(svg_text.as_str().contains("</svg>"));
}

#[test]
fn mermaid_lists_parties_then_links() {
    let session = example();
    let text = mermaid::Document::from(&session);
    assert_eq!(
        "sequenceDiagram\n  participant a as a\n  participant b as b\n  participant c as c\n  a ->> b: Request\n  b ->> c: Forward\n  c ->> a: Response\n",
        text.as_str()
    );
    let lines = text.as_str().lines().collect::<Vec<_>>();
    assert_eq!(7, lines.len());
    assert_eq!(3, lines.iter().filter(|l| l.starts_with("  participant ")).count());
    assert_eq!(vec!["  a ->> b: Request", "  b ->> c: Forward", "  c ->> a: Response"], lines[4..]);
}

#[test]
fn mermaid_of_empty_session_is_the_heading() {
    let session = SessionInner::new(1);
    assert_eq!("sequenceDiagram\n", mermaid::Document::from(&session).into_string());
}

#[test]
fn mermaid_shows_labels_and_marks_newlines() {
    let mut session = SessionInner::new(1);
    session.add_link(0, "front\nend", "back\n\nend", None);
    session.add_link(0, "back\n\nend", "x: y ->> z", Some("a\nb"));
    assert_eq!(
        "sequenceDiagram\n  participant front<br>end as front<br>end\n  participant back<br><br>end as back<br><br>end\n  participant x: y ->> z as x: y ->> z\n  front<br>end ->> back<br><br>end: \n  back<br><br>end ->> x: y ->> z: a\nb\n",
        mermaid::Document::from(&session).as_str()
    );
}

#[test]
fn mermaid_shows_a_party_by_its_label() {
    let mut session = SessionInner::new(1);
    session.parties.push(PartyMappedByName(Arc::new(Party {
        id: 2,
        name: "d\nb".to_string(),
        label: Some("Data\nbase".to_string()),
    })));
    assert_eq!(
        "sequenceDiagram\n  participant d<br>b as Data\nbase\n",
        mermaid::Document::from(&session).as_str()
    );
}

#[test]
fn layout_has_a_lane_for_each_party_and_a_row_for_each_link() {
    let session = example();
    assert!(Layout::fits(&session));
    let layout = Layout::of(&session);
    assert_eq!(3, layout.lanes.len());
    assert_eq!(3, layout.rows.len());
    let lanes = layout.lanes.iter().map(|l| (l.left, l.center, l.title.as_str())).collect::<Vec<_>>();
    assert_eq!(vec![(0, 100, "a"), (220, 320, "b"), (440, 540, "c")], lanes);
    let rows = layout
        .rows
        .iter()
        .map(|r| (r.top, r.from, r.to, r.direction, r.label.as_deref()))
        .collect::<Vec<_>>();
    assert_eq!(
        vec![
            (100, 100, 320, 1, Some("Request")),
            (200, 320, 540, 1, Some("Forward")),
            (300, 540, 100, -1, Some("Response")),
        ],
        rows
    );
    assert_eq!(400, layout.lanes_bottom);
    assert_eq!(660, layout.width);
    assert_eq!(440, layout.height);
}

#[test]
fn arrows_point_towards_the_lane_of_the_target() {
    let mut session = SessionInner::new(1);
    let names = ["p", "q", "r", "s"];
    for from in names {
        for to in names {
            session.add_link(0, from, to, None);
        }
    }
    let layout = Layout::of(&session);
    assert_eq!(4, layout.lanes.len());
    assert_eq!(16, layout.rows.len());
    for (row, link) in layout.rows.iter().zip(session.links.iter()) {
        let from = &layout.lanes[(link.from.id - 2) as usize];
        let to = &layout.lanes[(link.to.id - 2) as usize];
        assert_eq!(from.title, link.from.name);
        assert_eq!(to.title, link.to.name);
        assert_eq!(from.center, row.from);
        assert_eq!(to.center, row.to);
        assert_eq!(if to.center > from.center { 1 } else { -1 }, row.direction);
    }
}

#[test]
fn layout_of_empty_session_is_the_margins() {
    let layout = Layout::of(&SessionInner::new(1));
    assert!(layout.lanes.is_empty());
    assert!(layout.rows.is_empty());
    assert_eq!((100, 20, 140), (layout.lanes_bottom, layout.width, layout.height));
}

#[test]
fn drawing_of_the_example() {
    let text = Document::from(&example()).into_string();
    assert_eq!(3, text.matches("<rect ").count());
    assert_eq!(6, text.matches("<text ").count());
    assert_eq!(9, text.matches("<line ").count());
    assert_eq!(6, text.matches("<polygon ").count());
    assert!(text.starts_with("<svg viewBox=\"0 0 660 440\" xmlns=\"http://www.w3.org/2000/svg\">\n"));
    assert!(text.ends_with("\n</svg>"));
    let lane = "<rect height=\"420\" style=\"fill:white;stroke:lightgray\" width=\"200\" x=\"220\" y=\"20\"/>\n\
        <text fill=\"black\" text-anchor=\"middle\" x=\"320\" y=\"50\">\nb\n</text>\n\
        <line style=\"stroke:rgb(0,0,0);stroke-width:2\" x1=\"320\" x2=\"320\" y1=\"70\" y2=\"410\"/>\n\
        <polygon points=\"320,420 315,410 325,410\" style=\"fill:black;stroke-width:0\"/>\n";
    assert!(text.contains(lane));
    let rightwards = "<text fill=\"black\" paint-order=\"stroke\" stroke=\"white\" stroke-linejoin=\"round\" stroke-width=\"0.5em\" text-anchor=\"middle\" x=\"210\" y=\"120\">\nRequest\n</text>\n\
        <line style=\"stroke:rgb(255,255,255);stroke-width:8\" x1=\"200\" x2=\"210\" y1=\"170\" y2=\"170\"/>\n\
        <line style=\"stroke:rgb(0,0,0);stroke-width:2\" x1=\"100\" x2=\"310\" y1=\"170\" y2=\"170\"/>\n\
        <polygon points=\"320,170 310,165 310,175\" style=\"fill:black;stroke-width:0\"/>\n";
    assert!(text.contains(rightwards));
    let leftwards = "<text fill=\"black\" paint-order=\"stroke\" stroke=\"white\" stroke-linejoin=\"round\" stroke-width=\"0.5em\" text-anchor=\"middle\" x=\"320\" y=\"320\">\nResponse\n</text>\n\
        <line style=\"stroke:rgb(255,255,255);stroke-width:8\" x1=\"440\" x2=\"210\" y1=\"370\" y2=\"370\"/>\n\
        <line style=\"stroke:rgb(0,0,0);stroke-width:2\" x1=\"540\" x2=\"110\" y1=\"370\" y2=\"370\"/>\n\
        <polygon points=\"100,370 110,365 110,375\" style=\"fill:black;stroke-width:0\"/>\n";
    assert!(text.contains(leftwards));
    let lanes_end = text.rfind("<rect ").unwrap();
    let rows_begin = text.find("paint-order").unwrap();
    assert!(lanes_end < rows_begin);
}

#[test]
fn drawing_leaves_out_the_label_a_link_lacks() {
    let mut session = SessionInner::new(1);
    session.add_link(0, "a", "a", None);
    let text = Document::from(&session).into_string();
    assert_eq!(1, text.matches("<text ").count());
    assert!(!text.contains("paint-order"));
    assert!(text.contains("<line style=\"stroke:rgb(0,0,0);stroke-width:2\" x1=\"100\" x2=\"110\" y1=\"170\" y2=\"170\"/>"));
    assert!(text.contains("<polygon points=\"100,170 110,165 110,175\" style=\"fill:black;stroke-width:0\"/>"));
    assert!(text.contains("viewBox=\"0 0 220 240\""));
}

#[test]
fn drawing_of_a_layout_made_by_hand() {
    let layout = Layout {
        lanes: vec![Lane { left: 500, center: 600, title: "solo".to_string() }],
        rows: vec![Row { top: 1000, from: 600, to: 900, direction: 1, label: Some("far".to_string()) }],
        lanes_bottom: 1100,
        width: 1234,
        height: 4321,
    };
    assert!(layout.is_drawable());
    let text = Document::draw(&layout).into_string();
    assert!(text.contains("viewBox=\"0 0 1234 4321\""));
    assert!(text.contains("<rect height=\"1120\" style=\"fill:white;stroke:lightgray\" width=\"200\" x=\"500\" y=\"20\"/>"));
    assert!(text.contains("x=\"750\" y=\"1020\">\nfar\n</text>"));
    assert!(text.contains("<polygon points=\"900,1070 890,1065 890,1075\""));
}

#[test]
fn label_stands_in_the_middle_of_its_arrow() {
    let mut session = SessionInner::new(1);
    session.add_link(0, "a", "b", Some("near"));
    session.add_link(0, "a", "c", Some("far"));
    session.add_link(0, "c", "a", Some("back"));
    session.add_link(0, "b", "b", Some("self"));
    let text = Document::from(&session).into_string();
    for (x, y, label) in [(210, 120, "near"), (320, 220, "far"), (320, 320, "back"), (320, 420, "self")] {
        let node = format!("text-anchor=\"middle\" x=\"{x}\" y=\"{y}\">\n{label}\n</text>");
        assert!(text.contains(&node), "{node}");
    }
    let odd = Layout {
        lanes: vec![],
        rows: vec![Row { top: 0, from: 7, to: 0, direction: -1, label: Some("odd".to_string()) }],
        lanes_bottom: 100,
        width: 20,
        height: 140,
    };
    assert!(Document::draw(&odd).as_str().contains("x=\"3\" y=\"20\">\nodd\n</text>"));
}

#[test]
fn drawing_is_tried_only_where_the_canvas_has_room() {
    let mut session = example();
    let drawn = Document::try_from(&session).unwrap();
    assert_eq!(Document::from(&session).as_str(), drawn.as_str());
    let link = Arc::clone(&session.links[0]);
    session.links = vec![link; MAX_ROWS + 1];
    assert!(Document::try_from(&session).is_none());
}

#[test]
fn layouts_off_the_canvas_are_not_drawable() {
    let row = |top, from, to, direction| Row { top, from, to, direction, label: None };
    let layout = |lanes_bottom, center, row| Layout {
        lanes: vec![Lane { left: 0, center, title: String::new() }],
        rows: vec![row],
        lanes_bottom,
        width: 0,
        height: 0,
    };
    let limit = i32::MAX - 110;
    assert!(Layout::of(&example()).is_drawable());
    assert!(layout(i32::MAX - 40, limit, row(i32::MAX - 100, 0, limit, -1)).is_drawable());
    assert!(!layout(i32::MAX - 39, 100, row(0, 100, 100, 1)).is_drawable());
    assert!(!layout(-1, 100, row(0, 100, 100, 1)).is_drawable());
    assert!(!layout(0, limit + 1, row(0, 100, 100, 1)).is_drawable());
    assert!(!layout(0, -1, row(0, 100, 100, 1)).is_drawable());
    assert!(!layout(0, 100, row(i32::MAX - 99, 100, 100, 1)).is_drawable());
    assert!(!layout(0, 100, row(-1, 100, 100, 1)).is_drawable());
    assert!(!layout(0, 100, row(0, limit + 1, 100, 1)).is_drawable());
    assert!(!layout(0, 100, row(0, 100, -1, 1)).is_drawable());
    assert!(!layout(0, 100, row(0, 100, 100, 0)).is_drawable());
    assert!(!layout(0, 100, row(0, 100, 100, 2)).is_drawable());
}

#[test]
fn canvas_has_no_room_beyond_the_limits() {
    let mut session = SessionInner::new(1);
    session.add_link(0, "a", "b", None);
    let link = Arc::clone(&session.links[0]);
    session.links = vec![link; MAX_ROWS];
    assert!(Layout::fits(&session));
    session.links.push(Arc::clone(&session.links[0]));
    assert!(!Layout::fits(&session));
    session.links.truncate(1);
    assert!(Layout::fits(&session));
    let party = session.parties[0].clone();
    session.parties = vec![party; MAX_LANES];
    assert!(Layout::fits(&session));
    session.parties.push(session.parties[0].clone());
    assert!(!Layout::fits(&session));
}

#[test]
fn canvas_has_room_for_the_limits_only() {
    let mut session = SessionInner::new(1);
    assert!(Layout::fits(&session));
    let max = i32::MAX as usize;
    assert!(220 * MAX_LANES <= max && max < 220 * (MAX_LANES + 1));
    assert!(140 + 100 * MAX_ROWS <= max && max < 140 + 100 * (MAX_ROWS + 1));
    for k in 0..300u64 {
        session.add_link(k, "a", "b", None);
    }
    assert!(Layout::fits(&session));
    assert_eq!(30140, Layout::of(&session).height);
}
