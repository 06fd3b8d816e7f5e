//! Screen geometry: rectangles, side-by-side panels, and where the add-task popup goes.

use vstd::prelude::*;

use ratatui::layout::{Constraint, Direction, Layout, Rect};

verus! {

/// A rectangle of terminal cells: its top-left corner and its size.
#[derive(Clone, Copy, Debug, PartialEq, Eq, Structural)]
pub struct Area {
    pub x: u16,
    pub y: u16,
    pub width: u16,
    pub height: u16,
}

/// The direction in which an area is cut into bands.
#[derive(Clone, Copy, Debug, PartialEq, Eq, Structural)]
pub enum Axis {
    /// Bands stacked from top to bottom.
    Vertical,
    /// Bands side by side from left to right.
    Horizontal,
}

/// `inner` lies inside `outer`.
pub open spec fn within(inner: Area, outer: Area) -> bool {
    &&& outer.x <= inner.x
    &&& inner.x + inner.width <= outer.x + outer.width
    &&& outer.y <= inner.y
    &&& inner.y + inner.height <= outer.y + outer.height
}

/// `band` is a band of `area` cut along `axis`: it lies inside `area` and spans all of it across
/// the cut.
pub open spec fn band_of(axis: Axis, band: Area, area: Area) -> bool {
    &&& within(band, area)
    &&& match axis {
        Axis::Vertical => band.x == area.x && band.width == area.width,
        Axis::Horizontal => band.y == area.y && band.height == area.height,
    }
}

/// The sum of `percents`.
pub open spec fn percent_total(percents: Seq<u16>) -> int
    decreases percents.len(),
{
    if percents.len() == 0 {
        0
    } else {
        percent_total(percents.drop_last()) + percents.last()
    }
}

/// Where an area cut along `axis` starts.
pub open spec fn axis_start(axis: Axis, a: Area) -> int {
    match axis {
        Axis::Vertical => a.y as int,
        Axis::Horizontal => a.x as int,
    }
}

/// How many cells of `a` along `axis` lie on the screen: its length, cut short at the last
/// cell that a `u16` coordinate can name.
pub open spec fn axis_span(axis: Axis, a: Area) -> int {
    let end = match axis {
        Axis::Vertical => a.y + a.height,
        Axis::Horizontal => a.x + a.width,
    };
    (if end > u16::MAX {
        u16::MAX as int
    } else {
        end
    }) - axis_start(axis, a)
}

/// The cell at which the part of a `span`-cell stretch from `start` taking `percent` percent
/// of it ends, rounded to the nearest cell with halves rounded up.
pub open spec fn cut_at(start: int, span: int, percent: int) -> int {
    start + (span * percent + 50) / 100
}

/// Band `i` of `area` cut along `axis` with the percentages `percents`: it runs from the cut
/// after the percentages before it to the cut after its own, and spans `area` across the cut.
pub open spec fn percent_band(axis: Axis, area: Area, percents: Seq<u16>, i: int) -> Area {
    let start = axis_start(axis, area);
    let span = axis_span(axis, area);
    let lo = cut_at(start, span, percent_total(percents.take(i)));
    let hi = cut_at(start, span, percent_total(percents.take(i + 1)));
    match axis {
        Axis::Vertical => Area { x: area.x, y: lo as u16, width: area.width, height: (hi - lo) as u16 },
        Axis::Horizontal => Area { x: lo as u16, y: area.y, width: (hi - lo) as u16, height: area.height },
    }
}

/// Calls ratatui's `Layout::split` on a layout along `axis` with one `Constraint::Percentage`
/// per entry of `percents`. With the percentages adding up to at most 100 every one of them is
/// met: the solver places each band edge at the rounded cut of the percentages before it, keeps
/// any remainder after the last band, and copies `area` across the cut.
#[verifier::external_body]
fn split_by_percent(axis: Axis, area: Area, percents: &Vec<u16>) -> (bands: Vec<Area>)
    requires
        percent_total(percents@) <= 100,
    ensures
        bands@.len() == percents@.len(),
        forall|i: int| 0 <= i < bands@.len() ==> #[trigger] bands@[i] == percent_band(
            axis,
            area,
            percents@,
            i,
        ),
{
    let direction = match axis {
        Axis::Vertical => Direction::Vertical,
        Axis::Horizontal => Direction::Horizontal,
    };
    let rect = Rect { x: area.x, y: area.y, width: area.width, height: area.height };
    let constraints: Vec<Constraint> = percents.iter().map(|p| Constraint::Percentage(*p)).collect();
    let rects = Layout::default().direction(direction).constraints(constraints).split(rect);
    rects.iter().map(|r| Area { x: r.x, y: r.y, width: r.width, height: r.height }).collect()
}

/// The margin on each side of a centred band that takes `percent` percent of the screen.
pub open spec fn margin_for(percent: u16) -> u16 {
    ((100 - percent) / 2) as u16
}

/// The margin on each side of a centred band that takes `percent` percent of the screen.
pub fn centered_margin(percent: u16) -> (margin: u16)
    requires
        percent <= 100,
    ensures
        margin == margin_for(percent),
{
    (100 - percent) / 2
}

/// The middle band of `r` cut along `axis` into a centred band of `percent` percent with equal
/// margins on both sides.
pub open spec fn centered_band(axis: Axis, r: Area, percent: u16) -> Area {
    percent_band(axis, r, seq![margin_for(percent), percent, margin_for(percent)], 1)
}

/// The part of `r` that takes `percent_x` percent of its width and `percent_y` percent of its
/// height, centred: the middle row band, then the middle column band of that.
pub open spec fn centered_area(percent_x: u16, percent_y: u16, r: Area) -> Area {
    centered_band(Axis::Horizontal, centered_band(Axis::Vertical, r, percent_y), percent_x)
}

/// A cut after `a` percent comes no later than one after `b` percent, and both stay on the
/// stretch.
proof fn lemma_cuts_ordered(span: int, a: int, b: int)
    requires
        0 <= span,
        0 <= a <= b <= 100,
    ensures
        0 <= (span * a + 50) / 100 <= (span * b + 50) / 100 <= span,
{
    assert(span * a <= span * b) by (nonlinear_arith)
        requires
            0 <= span,
            a <= b,
    ;
    assert(span * b <= span * 100) by (nonlinear_arith)
        requires
            0 <= span,
            b <= 100,
    ;
    assert(0 <= span * a) by (nonlinear_arith)
        requires
            0 <= span,
            0 <= a,
    ;
    vstd::arithmetic::div_mod::lemma_div_is_ordered(span * a + 50, span * b + 50, 100);
    vstd::arithmetic::div_mod::lemma_div_is_ordered(span * b + 50, span * 100 + 50, 100);
    vstd::arithmetic::div_mod::lemma_div_pos_is_pos(span * a + 50, 100);
    assert((span * 100 + 50) / 100 == span) by {
        vstd::arithmetic::div_mod::lemma_fundamental_div_mod_converse(span * 100 + 50, 100, span, 50);
    }
}

/// A band cut between the percentages `a` and `b` of `area` along `axis` lies inside `area`
/// and spans it across the cut.
proof fn lemma_band_inside(axis: Axis, area: Area, percents: Seq<u16>, i: int, a: int, b: int)
    requires
        a == percent_total(percents.take(i)),
        b == percent_total(percents.take(i + 1)),
        0 <= a <= b <= 100,
    ensures
        band_of(axis, percent_band(axis, area, percents, i), area),
{
    let span = axis_span(axis, area);
    assert(0 <= span);
    lemma_cuts_ordered(span, a, b);
}

/// Cuts `r` along `axis` into a centred band of `percent` percent with equal margins, and
/// returns the middle band.
fn middle_band(axis: Axis, r: Area, percent: u16) -> (band: Area)
    requires
        percent <= 100,
    ensures
        band == centered_band(axis, r, percent),
        band_of(axis, band, r),
{
    let margin: u16 = centered_margin(percent);
    let percents: Vec<u16> = vec![margin, percent, margin];
    let ghost ps = seq![margin_for(percent), percent, margin_for(percent)];
    assert(percents@ =~= ps);
    assert(ps.take(1) =~= seq![margin]);
    assert(ps.take(2) =~= seq![margin, percent]);
    assert(percent_total(ps) <= 100 && percent_total(ps.take(1)) == margin && percent_total(
        ps.take(2),
    ) == margin + percent) by {
        reveal_with_fuel(percent_total, 4);
        assert(seq![margin, percent].drop_last() =~= seq![margin]);
        assert(seq![margin].drop_last() =~= Seq::<u16>::empty());
        assert(ps.drop_last() =~= seq![margin, percent]);
    }
    let bands = split_by_percent(axis, r, &percents);
    proof {
        lemma_band_inside(axis, r, ps, 1, margin as int, margin + percent);
    }
    bands[1]
}

/// The part of `r` that takes `percent_x` percent of its width and `percent_y` percent of its
/// height, centred; it lies inside `r`.
pub fn centered_rect(percent_x: u16, percent_y: u16, r: Area) -> (c: Area)
    requires
        percent_x <= 100,
        percent_y <= 100,
    ensures
        c == centered_area(percent_x, percent_y, r),
        within(c, r),
{
    let rows = middle_band(Axis::Vertical, r, percent_y);
    middle_band(Axis::Horizontal, rows, percent_x)
}

/// Two panels side by side across `area`: the left one takes `left_percent` percent of the
/// width, the right one the rest. Both lie inside `area` and span its height.
pub fn side_by_side(area: Area, left_percent: u16) -> (panels: (Area, Area))
    requires
        left_percent <= 100,
    ensures
        panels.0 == percent_band(Axis::Horizontal, area, seq![left_percent, (100 - left_percent) as u16], 0),
        panels.1 == percent_band(Axis::Horizontal, area, seq![left_percent, (100 - left_percent) as u16], 1),
        band_of(Axis::Horizontal, panels.0, area),
        band_of(Axis::Horizontal, panels.1, area),
{
    let right_percent: u16 = 100 - left_percent;
    let percents: Vec<u16> = vec![left_percent, right_percent];
    let ghost ps = seq![left_percent, (100 - left_percent) as u16];
    assert(percents@ =~= ps);
    assert(ps.take(0) =~= Seq::<u16>::empty());
    assert(ps.take(1) =~= seq![left_percent]);
    assert(ps.take(2) =~= ps);
    assert(percent_total(ps) == 100 && percent_total(ps.take(0)) == 0 && percent_total(ps.take(1))
        == left_percent) by {
        reveal_with_fuel(percent_total, 3);
        assert(ps.drop_last() =~= seq![left_percent]);
        assert(seq![left_percent].drop_last() =~= Seq::<u16>::empty());
    }
    let bands = split_by_percent(Axis::Horizontal, area, &percents);
    proof {
        lemma_band_inside(Axis::Horizontal, area, ps, 0, 0, left_percent as int);
        lemma_band_inside(Axis::Horizontal, area, ps, 1, left_percent as int, 100);
    }
    (bands[0], bands[1])
}

} // verus!
