use flow::layout::{centered_margin, centered_rect, side_by_side, Area};
use ratatui::layout::{Constraint, Direction, Layout, Rect};

#[test]
fn popup_margins() {
    assert_eq!(centered_margin(60), 20);
    assert_eq!(centered_margin(20), 40);
    assert_eq!(centered_margin(100), 0);
    assert_eq!(centered_margin(1), 49);
}

fn reference(percent_x: u16, percent_y: u16, r: Rect) -> Rect {
    let rows = Layout::default()
        .direction(Direction::Vertical)
        .constraints([
            Constraint::Percentage((100 - percent_y) / 2),
            Constraint::Percentage(percent_y),
            Constraint::Percentage((100 - percent_y) / 2),
        ])
        .split(r);
    Layout::default()
        .direction(Direction::Horizontal)
        .constraints([
            Constraint::Percentage((100 - percent_x) / 2),
            Constraint::Percentage(percent_x),
            Constraint::Percentage((100 - percent_x) / 2),
        ])
        .split(rows[1])[1]
}

#[test]
fn centered_rect_matches_ratatui_layout() {
    for (px, py, r) in [
        (60, 20, Rect::new(0, 0, 100, 50)),
        (60, 20, Rect::new(0, 0, 80, 24)),
        (50, 50, Rect::new(3, 2, 41, 17)),
        (100, 100, Rect::new(0, 0, 10, 10)),
        (0, 0, Rect::new(0, 0, 10, 10)),
    ] {
        let c = centered_rect(px, py, Area { x: r.x, y: r.y, width: r.width, height: r.height });
        let expected = reference(px, py, r);
        assert_eq!((c.x, c.y, c.width, c.height), (expected.x, expected.y, expected.width, expected.height));
    }
}

#[test]
fn centered_rect_known_value() {
    let c = centered_rect(60, 20, Area { x: 0, y: 0, width: 100, height: 50 });
    assert_eq!(c, Area { x: 20, y: 20, width: 60, height: 10 });
}

fn inside(c: &Area, r: &Rect) -> bool {
    r.x <= c.x && c.x + c.width <= r.x + r.width && r.y <= c.y && c.y + c.height <= r.y + r.height
}

#[test]
fn centered_rect_lies_inside_the_screen() {
    for (px, py) in [(60, 20), (0, 0), (100, 100), (33, 77), (1, 99)] {
        for r in [Rect::new(0, 0, 80, 24), Rect::new(5, 7, 13, 3), Rect::new(0, 0, 1, 1), Rect::new(9, 9, 0, 0)] {
            let c = centered_rect(px, py, Area { x: r.x, y: r.y, width: r.width, height: r.height });
            assert!(inside(&c, &r), "{:?} in {:?}", c, r);
        }
    }
}

#[test]
fn side_by_side_matches_ratatui_layout() {
    for (left, r) in [(55, Rect::new(0, 3, 100, 30)), (65, Rect::new(2, 1, 77, 20)), (0, Rect::new(0, 0, 10, 4)), (100, Rect::new(0, 0, 10, 4))] {
        let (a, b) = side_by_side(Area { x: r.x, y: r.y, width: r.width, height: r.height }, left);
        let expected = Layout::default()
            .direction(Direction::Horizontal)
            .constraints([Constraint::Percentage(left), Constraint::Percentage(100 - left)])
            .split(r);
        assert_eq!((a.x, a.y, a.width, a.height), (expected[0].x, expected[0].y, expected[0].width, expected[0].height));
        assert_eq!((b.x, b.y, b.width, b.height), (expected[1].x, expected[1].y, expected[1].width, expected[1].height));
        assert!(inside(&a, &r) && inside(&b, &r));
        assert_eq!((a.y, a.height, b.y, b.height), (r.y, r.height, r.y, r.height));
    }
}

#[test]
fn side_by_side_known_value() {
    let (a, b) = side_by_side(Area { x: 0, y: 0, width: 100, height: 10 }, 55);
    assert_eq!(a, Area { x: 0, y: 0, width: 55, height: 10 });
    assert_eq!(b, Area { x: 55, y: 0, width: 45, height: 10 });
}

fn cut(start: u32, span: u32, percent: u32) -> u32 {
    start + (span * percent + 50) / 100
}

#[test]
fn panels_follow_the_rounded_cuts() {
    for w in [0u16, 1, 3, 9, 17, 33, 64, 99, 101, 250, 1999] {
        for x in [0u16, 65500] {
            for left in (0u16..=100).step_by(9) {
                let (a, b) = side_by_side(Area { x, y: 1, width: w, height: 2 }, left);
                let span = (x.saturating_add(w) - x) as u32;
                let mid = cut(x as u32, span, left as u32);
                let end = cut(x as u32, span, 100);
                assert_eq!((a.x as u32, a.width as u32), (x as u32, mid - x as u32));
                assert_eq!((b.x as u32, b.width as u32), (mid, end - mid));
            }
        }
    }
}

#[test]
fn popup_follows_the_rounded_cuts() {
    for (px, py, r) in [(60u16, 20u16, Rect::new(0, 0, 80, 24)), (61, 33, Rect::new(4, 2, 123, 45)), (7, 93, Rect::new(0, 0, 11, 13))] {
        let c = centered_rect(px, py, Area { x: r.x, y: r.y, width: r.width, height: r.height });
        let my = ((100 - py) / 2) as u32;
        let mx = ((100 - px) / 2) as u32;
        let top = cut(r.y as u32, r.height as u32, my);
        let bottom = cut(r.y as u32, r.height as u32, my + py as u32);
        let left = cut(r.x as u32, r.width as u32, mx);
        let right = cut(r.x as u32, r.width as u32, mx + px as u32);
        assert_eq!((c.x as u32, c.y as u32, c.width as u32, c.height as u32), (left, top, right - left, bottom - top));
    }
}
