//! A vertical column of dots that shows which item of a list is selected,
//! sliding a window over the list when it has more items than dots.
use vstd::prelude::*;

use crate::geom::{Point, Rect};
use crate::platform::KeyEvent;
use crate::{fits_i32, min_int, sat_sub, tdiv};

verus! {

/// Normal dot radius when all items fit or for non-edge dots.
pub const DOT_RADIUS: u32 = 4;

/// Radius for the second-to-last dot at an overflowing edge.
pub const DOT_RADIUS_MEDIUM: u32 = 3;

/// Radius for the last dot at an overflowing edge.
pub const DOT_RADIUS_SMALL: u32 = 2;

/// One dot to paint: where, how large, and whether it marks the selected item.
#[derive(Debug, Clone, Copy, PartialEq, Eq, Structural)]
pub struct Dot {
    pub center: Point,
    pub radius: u32,
    pub active: bool,
}

/// The state of a dot indicator.
#[derive(Debug, Clone)]
pub struct DotIndicator {
    point: Point,
    height: u32,
    window_size: usize,
    total: usize,
    selected: usize,
    dirty: bool,
}

/// The abstract state of a [`DotIndicator`].
pub struct DotIndicatorView {
    /// Centre of the column.
    pub point: Point,
    /// Height of the column.
    pub height: u32,
    /// Largest number of dots shown at once.
    pub window_size: usize,
    /// Number of items in the list.
    pub total: usize,
    /// Index of the selected item.
    pub selected: usize,
    /// Whether the indicator needs repainting.
    pub dirty: bool,
}

impl View for DotIndicator {
    type V = DotIndicatorView;

    closed spec fn view(&self) -> DotIndicatorView {
        DotIndicatorView {
            point: self.point,
            height: self.height,
            window_size: self.window_size,
            total: self.total,
            selected: self.selected,
            dirty: self.dirty,
        }
    }
}

/// Number of dots shown: the window size, or fewer when the list is shorter.
pub open spec fn visible_count(v: DotIndicatorView) -> int {
    min_int(v.window_size as int, v.total as int)
}

/// Index of the list item shown by the first dot. The window is centred on the
/// selected item where it can be, and never runs past either end of the list.
pub open spec fn first_visible(v: DotIndicatorView) -> int {
    let visible = visible_count(v);
    if v.total <= v.window_size {
        0
    } else {
        min_int(sat_sub(v.selected as int, visible / 2), v.total - visible)
    }
}

/// Whether items lie above the window.
pub open spec fn more_above(v: DotIndicatorView) -> bool {
    first_visible(v) > 0
}

/// Whether items lie below the window.
pub open spec fn more_below(v: DotIndicatorView) -> bool {
    first_visible(v) + visible_count(v) < v.total
}

/// Vertical distance between the centres of two neighbouring dots.
pub open spec fn dot_spacing(v: DotIndicatorView) -> int {
    tdiv((v.height as i32) as int, visible_count(v) + 1)
}

/// Top of the column of dots.
pub open spec fn column_top(v: DotIndicatorView) -> int {
    v.point.y - tdiv(dot_spacing(v) * visible_count(v), 2)
}

/// Vertical centre of dot `i`.
pub open spec fn center_y(v: DotIndicatorView, i: int) -> int {
    column_top(v) + dot_spacing(v) * i + tdiv(dot_spacing(v), 2)
}

/// Radius of dot `i` of `visible`: the last two dots at an edge with more
/// items beyond it shrink.
pub open spec fn radius_at(i: int, visible: int, has_more_above: bool, has_more_below: bool) -> u32 {
    if has_more_above && i == 0 {
        DOT_RADIUS_SMALL
    } else if has_more_above && i == 1 {
        DOT_RADIUS_MEDIUM
    } else if has_more_below && i == visible - 1 {
        DOT_RADIUS_SMALL
    } else if has_more_below && i == visible - 2 {
        DOT_RADIUS_MEDIUM
    } else {
        DOT_RADIUS
    }
}

/// Dot `i` of the indicator.
pub open spec fn dot_at(v: DotIndicatorView, i: int) -> Dot {
    Dot {
        center: Point { x: v.point.x, y: center_y(v, i) as i32 },
        radius: radius_at(i, visible_count(v), more_above(v), more_below(v)),
        active: first_visible(v) + i == v.selected,
    }
}

/// The dots of the indicator, top to bottom.
pub open spec fn dots_of(v: DotIndicatorView) -> Seq<Dot> {
    Seq::new(visible_count(v) as nat, |i: int| dot_at(v, i))
}

/// The arithmetic that places dot `i` stays within `i32`.
pub open spec fn center_fits(v: DotIndicatorView, i: int) -> bool {
    &&& fits_i32(dot_spacing(v) * i)
    &&& fits_i32(column_top(v) + dot_spacing(v) * i)
    &&& fits_i32(center_y(v, i))
}

/// The arithmetic that places the dots stays within `i32` (painting panics otherwise).
pub open spec fn dots_fit(v: DotIndicatorView) -> bool {
    &&& visible_count(v) < i32::MAX
    &&& fits_i32(dot_spacing(v) * visible_count(v))
    &&& fits_i32(column_top(v))
    &&& forall|i: int| 0 <= i < visible_count(v) ==> #[trigger] center_fits(v, i)
}

/// Whether the indicator has something to paint.
pub open spec fn wants_draw(v: DotIndicatorView) -> bool {
    v.dirty && v.total > 1
}

/// The indicator after `set_state(selected, total)`.
pub open spec fn with_state(v: DotIndicatorView, selected: usize, total: usize) -> DotIndicatorView {
    if v.selected != selected || v.total != total {
        DotIndicatorView { selected, total, dirty: true, ..v }
    } else {
        v
    }
}

/// The window of dots lies within the list: it starts at or after the first
/// item and ends at or before the last.
pub proof fn lemma_window_within_list(v: DotIndicatorView)
    ensures
        0 <= first_visible(v),
        first_visible(v) + visible_count(v) <= v.total,
        dots_of(v).len() == visible_count(v),
{
}

/// The selected item is always shown, and its dot is the only active one.
pub proof fn lemma_selected_dot_is_only_active(v: DotIndicatorView)
    requires
        v.selected < v.total,
        v.window_size > 0,
    ensures
        first_visible(v) <= v.selected < first_visible(v) + visible_count(v),
        dots_of(v)[v.selected - first_visible(v)].active,
        forall|i: int|
            0 <= i < dots_of(v).len() && i != v.selected - first_visible(v) ==> !(
            #[trigger] dots_of(v)[i]).active,
{
}

/// When the list is longer than the window, the window is centred on the
/// selected item: the selected item's dot is the middle one (at `visible / 2`)
/// unless that would run the window past an end of the list, in which case
/// the window sits against that end.
pub proof fn lemma_window_centred_on_selection(v: DotIndicatorView)
    requires
        0 < v.window_size < v.total,
        v.selected < v.total,
    ensures
        ({
            let visible = v.window_size as int;
            let half = visible / 2;
            let k = v.selected - first_visible(v);
            &&& 0 <= k < visible
            &&& dots_of(v)[k].active
            &&& half <= v.selected && v.selected + (visible - half) <= v.total ==> k == half
            &&& v.selected < half ==> first_visible(v) == 0 && k == v.selected
            &&& v.selected + (visible - half) > v.total ==> first_visible(v) + visible == v.total
        }),
{
}

/// Dots shrink only at an edge beyond which items are hidden: every radius is
/// one of the three sizes, and when the whole list fits every dot has the
/// normal radius.
pub proof fn lemma_dot_radii(v: DotIndicatorView)
    ensures
        forall|i: int|
            0 <= i < dots_of(v).len() ==> {
                let r = (#[trigger] dots_of(v)[i]).radius;
                r == DOT_RADIUS || r == DOT_RADIUS_MEDIUM || r == DOT_RADIUS_SMALL
            },
        v.total <= v.window_size ==> forall|i: int|
            0 <= i < dots_of(v).len() ==> (#[trigger] dots_of(v)[i]).radius == DOT_RADIUS,
{
}

/// The two edges shrink alike: dot `i` seen from the top has the radius of
/// dot `i` seen from the bottom, with the two edges swapped.
pub proof fn lemma_radius_mirror(i: int, visible: int, has_more_above: bool, has_more_below: bool)
    requires
        visible >= 3,
        0 <= i < visible,
    ensures
        radius_at(i, visible, has_more_above, has_more_below) == radius_at(
            visible - 1 - i,
            visible,
            has_more_below,
            has_more_above,
        ),
{
}

/// Setting the state records the selected item and the number of items, and
/// asks for a repaint exactly when either changed (a pending repaint stays).
pub proof fn lemma_set_state_records(v: DotIndicatorView, selected: usize, total: usize)
    ensures
        with_state(v, selected, total).selected == selected,
        with_state(v, selected, total).total == total,
        with_state(v, selected, total).dirty == (v.dirty || v.selected != selected || v.total
            != total),
        with_state(v, selected, total).point == v.point,
        with_state(v, selected, total).height == v.height,
        with_state(v, selected, total).window_size == v.window_size,
{
}

/// The dots stand in one column, evenly spaced from top to bottom.
pub proof fn lemma_dots_evenly_spaced(v: DotIndicatorView)
    ensures
        forall|i: int|
            0 <= i < dots_of(v).len() ==> (#[trigger] dots_of(v)[i]).center.x == v.point.x,
        forall|i: int|
            0 <= i && i + 1 < visible_count(v) && center_fits(v, i) && center_fits(v, i + 1) ==> (
            #[trigger] dots_of(v)[i + 1]).center.y - dots_of(v)[i].center.y == dot_spacing(v),
{
    assert forall|i: int|
        0 <= i && i + 1 < visible_count(v) && center_fits(v, i) && center_fits(v, i + 1) implies (
        #[trigger] dots_of(v)[i + 1]).center.y - dots_of(v)[i].center.y == dot_spacing(v) by {
        assert(dot_spacing(v) * (i + 1) == dot_spacing(v) * i + dot_spacing(v)) by (nonlinear_arith);
    }
}

/// Setting the same state twice is the same as setting it once.
pub proof fn lemma_set_state_idempotent(v: DotIndicatorView, selected: usize, total: usize)
    ensures
        with_state(with_state(v, selected, total), selected, total) == with_state(
            v,
            selected,
            total,
        ),
{
}

/// After painting, the indicator asks for no repaint until something changes.
pub proof fn lemma_draw_settles(v: DotIndicatorView)
    ensures
        !wants_draw(DotIndicatorView { dirty: false, ..v }),
{
}

impl DotIndicator {
    /// An indicator centred on `point`, `height` tall, showing at most
    /// `window_size` dots, for an empty list.
    pub fn new(point: Point, height: u32, window_size: usize) -> (d: DotIndicator)
        ensures
            d@.point == point,
            d@.height == height,
            d@.window_size == window_size,
            d@.total == 0,
            d@.selected == 0,
            d@.dirty,
    {
        DotIndicator { point, height, window_size, total: 0, selected: 0, dirty: true }
    }

    /// Records the selected item and the number of items; the indicator needs
    /// repainting when either changed.
    pub fn set_state(&mut self, selected: usize, total: usize)
        ensures
            final(self)@ == with_state(old(self)@, selected, total),
    {
        if self.selected != selected || self.total != total {
            self.selected = selected;
            self.total = total;
            self.dirty = true;
        }
    }

    /// Radius of dot `i` of `visible`.
    fn dot_radius(&self, i: usize, visible: usize, has_more_above: bool, has_more_below: bool) -> (r: u32)
        requires
            i < visible,
        ensures
            r == radius_at(i as int, visible as int, has_more_above, has_more_below),
    {
        if has_more_above {
            if i == 0 {
                return DOT_RADIUS_SMALL;
            }
            if i == 1 {
                return DOT_RADIUS_MEDIUM;
            }
        }
        if has_more_below {
            if i == visible - 1 {
                return DOT_RADIUS_SMALL;
            }
            if i == visible - 2 {
                return DOT_RADIUS_MEDIUM;
            }
        }
        DOT_RADIUS
    }

    /// The dots to paint, top to bottom.
    pub fn draw_dots(&self) -> (dots: Vec<Dot>)
        requires
            dots_fit(self@),
        ensures
            dots@ == dots_of(self@),
    {
        let ghost v = self@;
        let visible = if self.window_size <= self.total { self.window_size } else { self.total };
        let window_start = if self.total <= self.window_size {
            0
        } else {
            let half = visible / 2;
            let start = if self.selected >= half { self.selected - half } else { 0 };
            if start <= self.total - visible { start } else { self.total - visible }
        };
        assert(visible == visible_count(v));
        assert(window_start == first_visible(v));
        let has_more_above = window_start > 0;
        let has_more_below = window_start + visible < self.total;

        let visible_i32 = visible as i32;
        let spacing = self.height as i32 / (visible_i32 + 1);
        assert(spacing == dot_spacing(v));
        let top_y = self.point.y - (spacing * visible_i32) / 2;
        assert(top_y == column_top(v));

        let mut dots: Vec<Dot> = Vec::new();
        let mut i: usize = 0;
        while i < visible
            invariant
                v == self@,
                dots_fit(v),
                visible == visible_count(v),
                window_start == first_visible(v),
                has_more_above == more_above(v),
                has_more_below == more_below(v),
                spacing == dot_spacing(v),
                top_y == column_top(v),
                i <= visible,
                dots@.len() == i,
                forall|j: int| 0 <= j < i ==> dots@[j] == dot_at(v, j),
            decreases visible - i,
        {
            assert(center_fits(v, i as int));
            let radius = self.dot_radius(i, visible, has_more_above, has_more_below);
            let active = window_start + i == self.selected;
            let y = top_y + spacing * (i as i32) + spacing / 2;
            let dot = Dot { center: Point::new(self.point.x, y), radius, active };
            dots.push(dot);
            i = i + 1;
        }
        assert(dots@ =~= dots_of(v));
        dots
    }

    /// Paints the indicator if it needs it: gives the dots to paint, or `None`
    /// when there is nothing to paint (a list of at most one item, or nothing
    /// changed). Either way the indicator no longer needs repainting.
    pub fn draw(&mut self) -> (dots: Option<Vec<Dot>>)
        requires
            wants_draw(old(self)@) ==> dots_fit(old(self)@),
        ensures
            final(self)@ == (DotIndicatorView { dirty: false, ..old(self)@ }),
            dots is Some <==> wants_draw(old(self)@),
            dots matches Some(d) ==> d@ == dots_of(old(self)@),
    {
        if self.total <= 1 {
            self.dirty = false;
            return None;
        }
        if !self.dirty {
            return None;
        }
        let dots = self.draw_dots();
        self.dirty = false;
        Some(dots)
    }

    /// Whether the indicator needs repainting.
    pub fn should_draw(&self) -> (b: bool)
        ensures
            b == wants_draw(self@),
    {
        self.dirty && self.total > 1
    }

    /// Marks the indicator as needing repainting.
    pub fn set_should_draw(&mut self)
        ensures
            final(self)@ == (DotIndicatorView { dirty: true, ..old(self)@ }),
    {
        self.dirty = true;
    }

    /// The indicator takes no keys: it reports every key as unhandled.
    pub fn handle_key_event(&mut self, _event: KeyEvent) -> (handled: bool)
        ensures
            !handled,
            final(self)@ == old(self)@,
    {
        false
    }

    /// The rectangle the indicator covers.
    pub fn bounding_box(&self) -> (r: Rect)
        requires
            fits_i32(self@.point.x - DOT_RADIUS),
            fits_i32(self@.point.y - tdiv((self@.height as i32) as int, 2)),
        ensures
            r.x == self@.point.x - DOT_RADIUS,
            r.y == self@.point.y - tdiv((self@.height as i32) as int, 2),
            r.w == DOT_RADIUS * 2,
            r.h == self@.height,
    {
        Rect::new(
            self.point.x - DOT_RADIUS as i32,
            self.point.y - self.height as i32 / 2,
            DOT_RADIUS * 2,
            self.height,
        )
    }

    /// Moves the indicator so that it is centred on `point`, and marks it as
    /// needing repainting.
    pub fn set_position(&mut self, point: Point)
        ensures
            final(self)@ == (DotIndicatorView { point, dirty: true, ..old(self)@ }),
    {
        self.point = point;
        self.dirty = true;
    }
}

} // verus!
