//! Monitor rectangles in desktop coordinates, and the layout of all monitors
//! that decides where the cat's window starts and which monitor holds it.
use vstd::prelude::*;

verus! {

broadcast use vstd::seq_lib::group_to_multiset_ensures;

/// What a platform's cursor backend can do.
#[derive(Debug, Clone, Copy)]
pub struct PlatformCursorCapabilities {
    /// A name for the backend, for diagnostics.
    pub backend_name: &'static str,
    /// The backend reports the cursor position anywhere on the desktop.
    pub supports_global_cursor: bool,
    /// The backend reports the bounds of the monitor under a point.
    pub supports_native_monitor_bounds: bool,
}

/// A position in physical desktop pixels.
#[derive(Debug, Clone, Copy, PartialEq, Eq, Structural)]
pub struct PixelPosition {
    pub x: i32,
    pub y: i32,
}

impl PixelPosition {
    pub fn new(x: i32, y: i32) -> (p: Self)
        ensures
            p.x == x,
            p.y == y,
    {
        PixelPosition { x, y }
    }
}

/// A monitor's rectangle in desktop pixels: `left..right` by `top..bottom`.
#[derive(Debug, Clone, Copy, PartialEq, Eq, Structural)]
pub struct MonitorBounds {
    pub left: i32,
    pub top: i32,
    pub right: i32,
    pub bottom: i32,
}

/// A monitor of the desktop and whether it is the primary one.
#[derive(Debug, Clone, Copy, PartialEq, Eq, Structural)]
pub struct DesktopMonitor {
    pub bounds: MonitorBounds,
    pub is_primary: bool,
}

/// Whether `v` is a value of `i32`.
pub open spec fn in_i32(v: int) -> bool {
    i32::MIN <= v <= i32::MAX
}

/// `a` if it is at least `b`, else `b`.
pub open spec fn max_int(a: int, b: int) -> int {
    if a >= b { a } else { b }
}

impl MonitorBounds {
    pub open spec fn spec_width(self) -> int {
        self.right - self.left
    }

    pub open spec fn spec_height(self) -> int {
        self.bottom - self.top
    }

    /// The top-left corner that centres a `window_width` by `window_height`
    /// window on the monitor; a window larger than the monitor is put at its
    /// top-left corner on that axis.
    pub open spec fn centered(self, window_width: int, window_height: int) -> (int, int) {
        (
            self.left + max_int(self.spec_width() - window_width, 0) / 2,
            self.top + max_int(self.spec_height() - window_height, 0) / 2,
        )
    }

    /// The arithmetic of centring such a window stays within `i32`.
    pub open spec fn centering_fits(self, window_width: int, window_height: int) -> bool {
        &&& in_i32(self.spec_width())
        &&& in_i32(self.spec_height())
        &&& in_i32(self.spec_width() - window_width)
        &&& in_i32(self.spec_height() - window_height)
        &&& in_i32(self.centered(window_width, window_height).0)
        &&& in_i32(self.centered(window_width, window_height).1)
    }

    /// The rectangle monitor of origin `(x, y)` and the given size, the size
    /// taken as `i32` as Rust's `as` does.
    pub fn from_origin_and_size(x: i32, y: i32, width: u32, height: u32) -> (bounds: Self)
        requires
            in_i32(x + (width as i32)),
            in_i32(y + (height as i32)),
        ensures
            bounds.left == x,
            bounds.top == y,
            bounds.right == x + (width as i32),
            bounds.bottom == y + (height as i32),
    {
        MonitorBounds { left: x, top: y, right: x + width as i32, bottom: y + height as i32 }
    }

    pub fn width(self) -> (w: i32)
        requires
            in_i32(self.spec_width()),
        ensures
            w == self.spec_width(),
    {
        self.right - self.left
    }

    pub fn height(self) -> (h: i32)
        requires
            in_i32(self.spec_height()),
        ensures
            h == self.spec_height(),
    {
        self.bottom - self.top
    }

    /// Whether `centered_window_position` can be computed for such a window.
    pub fn can_center(self, window_width: i32, window_height: i32) -> (fits: bool)
        ensures
            fits == self.centering_fits(window_width as int, window_height as int),
    {
        let w = self.right as i64 - self.left as i64;
        let h = self.bottom as i64 - self.top as i64;
        if w < i32::MIN as i64 || w > i32::MAX as i64 || h < i32::MIN as i64 || h > i32::MAX as i64 {
            return false;
        }
        let dw = w - window_width as i64;
        let dh = h - window_height as i64;
        if dw < i32::MIN as i64 || dw > i32::MAX as i64 || dh < i32::MIN as i64 || dh > i32::MAX as i64 {
            return false;
        }
        let x = self.left as i64 + (if dw >= 0 { dw } else { 0 }) / 2;
        let y = self.top as i64 + (if dh >= 0 { dh } else { 0 }) / 2;
        x <= i32::MAX as i64 && y <= i32::MAX as i64
    }

    /// The top-left corner of a window of the given size centred on the monitor.
    pub fn centered_window_position(self, window_width: i32, window_height: i32) -> (p: PixelPosition)
        requires
            self.centering_fits(window_width as int, window_height as int),
        ensures
            (p.x as int, p.y as int) == self.centered(window_width as int, window_height as int),
    {
        let dw = self.width() - window_width;
        let dh = self.height() - window_height;
        let x = self.left + (if dw >= 0 { dw } else { 0 }) / 2;
        let y = self.top + (if dh >= 0 { dh } else { 0 }) / 2;
        PixelPosition::new(x, y)
    }

    /// The smallest and largest top-left corner that keep a window of the
    /// given size on the monitor; when the window is larger than the monitor
    /// on an axis, both are the monitor's edge on that axis.
    pub fn window_position_limits(self, window_width: i32, window_height: i32) -> (limits: (PixelPosition, PixelPosition))
        requires
            in_i32(self.right - window_width),
            in_i32(self.bottom - window_height),
        ensures
            limits.0.x == self.left,
            limits.0.y == self.top,
            limits.1.x == max_int(self.right - window_width, self.left as int),
            limits.1.y == max_int(self.bottom - window_height, self.top as int),
            limits.0.x <= limits.1.x,
            limits.0.y <= limits.1.y,
    {
        let max_x = self.right - window_width;
        let max_y = self.bottom - window_height;
        (
            PixelPosition::new(self.left, self.top),
            PixelPosition::new(
                if max_x >= self.left { max_x } else { self.left },
                if max_y >= self.top { max_y } else { self.top },
            ),
        )
    }
}

/// What is known of a desktop point relative to one monitor: whether the
/// monitor's rectangle holds it, and a key that orders monitors by their
/// distance to the point (a smaller key is a nearer monitor, equal keys are
/// equally near).
#[derive(Debug, Clone, Copy, PartialEq, Eq, Structural)]
pub struct PointRelation {
    pub inside: bool,
    pub distance_key: u32,
}

/// `i` is the first monitor that holds the point.
pub open spec fn is_first_inside(relations: Seq<PointRelation>, i: int) -> bool {
    &&& 0 <= i < relations.len()
    &&& relations[i].inside
    &&& forall|j: int| 0 <= j < i ==> !(#[trigger] relations[j]).inside
}

/// No monitor holds the point.
pub open spec fn none_inside(relations: Seq<PointRelation>) -> bool {
    forall|j: int| 0 <= j < relations.len() ==> !(#[trigger] relations[j]).inside
}

/// `i` is the first of the monitors nearest to the point.
pub open spec fn is_first_nearest(relations: Seq<PointRelation>, i: int) -> bool {
    &&& 0 <= i < relations.len()
    &&& forall|j: int| 0 <= j < relations.len() ==> relations[i].distance_key <= (#[trigger] relations[j]).distance_key
    &&& forall|j: int| 0 <= j < i ==> relations[i].distance_key < (#[trigger] relations[j]).distance_key
}

/// `i` is the monitor that is active for the point: the first one holding it,
/// or, when the point lies outside every monitor, the first nearest one.
pub open spec fn is_active_index(relations: Seq<PointRelation>, i: int) -> bool {
    ||| is_first_inside(relations, i)
    ||| none_inside(relations) && is_first_nearest(relations, i)
}

/// The active monitor holds the point whenever some monitor does, and no
/// monitor before it does; when none does, no monitor is nearer than it and
/// every monitor before it is farther.
pub proof fn lemma_active_monitor_choice(relations: Seq<PointRelation>, i: int)
    requires
        is_active_index(relations, i),
    ensures
        0 <= i < relations.len(),
        (exists|k: int| 0 <= k < relations.len() && relations[k].inside) ==> relations[i].inside,
        forall|k: int| 0 <= k < i ==> !relations[k].inside,
        !relations[i].inside ==> forall|k: int|
            0 <= k < relations.len() ==> relations[i].distance_key <= relations[k].distance_key,
        !relations[i].inside ==> forall|k: int|
            0 <= k < i ==> relations[i].distance_key < relations[k].distance_key,
{
    if !relations[i].inside {
        assert(none_inside(relations));
    }
}

/// At most one monitor is active for a point.
pub proof fn lemma_active_index_unique(relations: Seq<PointRelation>, i: int, k: int)
    requires
        is_active_index(relations, i),
        is_active_index(relations, k),
    ensures
        i == k,
{
    if i < k {
        assert(relations[i].distance_key >= relations[k].distance_key || relations[i].inside);
    } else if k < i {
        assert(relations[k].distance_key >= relations[i].distance_key || relations[k].inside);
    }
}

/// The layout order of monitors: the primary monitor first, then by left,
/// top, right and bottom edge.
pub open spec fn primary_rank(m: DesktopMonitor) -> int {
    if m.is_primary { 0 } else { 1 }
}

pub open spec fn monitor_le(a: DesktopMonitor, b: DesktopMonitor) -> bool {
    ||| primary_rank(a) < primary_rank(b)
    ||| primary_rank(a) == primary_rank(b) && a.bounds.left < b.bounds.left
    ||| primary_rank(a) == primary_rank(b) && a.bounds.left == b.bounds.left && a.bounds.top < b.bounds.top
    ||| primary_rank(a) == primary_rank(b) && a.bounds.left == b.bounds.left && a.bounds.top == b.bounds.top
        && a.bounds.right < b.bounds.right
    ||| primary_rank(a) == primary_rank(b) && a.bounds.left == b.bounds.left && a.bounds.top == b.bounds.top
        && a.bounds.right == b.bounds.right && a.bounds.bottom <= b.bounds.bottom
}

/// Monitors listed in layout order.
pub open spec fn monitors_sorted(s: Seq<DesktopMonitor>) -> bool {
    forall|i: int, j: int| 0 <= i < j < s.len() ==> monitor_le(#[trigger] s[i], #[trigger] s[j])
}

/// The layout order is a total order on monitors.
pub proof fn lemma_monitor_order(a: DesktopMonitor, b: DesktopMonitor, c: DesktopMonitor)
    ensures
        monitor_le(a, a),
        monitor_le(a, b) || monitor_le(b, a),
        monitor_le(a, b) && monitor_le(b, a) ==> a == b,
        monitor_le(a, b) && monitor_le(b, c) ==> monitor_le(a, c),
{
}

fn monitor_le_exec(a: &DesktopMonitor, b: &DesktopMonitor) -> (le: bool)
    ensures
        le == monitor_le(*a, *b),
{
    if a.is_primary != b.is_primary {
        return a.is_primary;
    }
    if a.bounds.left != b.bounds.left {
        return a.bounds.left < b.bounds.left;
    }
    if a.bounds.top != b.bounds.top {
        return a.bounds.top < b.bounds.top;
    }
    if a.bounds.right != b.bounds.right {
        return a.bounds.right < b.bounds.right;
    }
    a.bounds.bottom <= b.bounds.bottom
}

/// All monitors of the desktop, kept in layout order.
#[derive(Debug)]
pub struct DesktopMonitorLayout {
    monitors: Vec<DesktopMonitor>,
}

impl Clone for DesktopMonitorLayout {
    fn clone(&self) -> (copy: Self)
        ensures
            copy@ == self@,
    {
        proof {
            use_type_invariant(self);
        }
        let monitors = self.monitors.clone();
        proof {
            assert(monitors@ =~= self.monitors@);
        }
        DesktopMonitorLayout { monitors }
    }
}

impl Default for DesktopMonitorLayout {
    /// The layout without monitors.
    fn default() -> (layout: Self)
        ensures
            layout@ == Seq::<DesktopMonitor>::empty(),
    {
        DesktopMonitorLayout { monitors: Vec::new() }
    }
}

impl View for DesktopMonitorLayout {
    type V = Seq<DesktopMonitor>;

    closed spec fn view(&self) -> Seq<DesktopMonitor> {
        self.monitors@
    }
}

impl DesktopMonitorLayout {
    #[verifier::type_invariant]
    spec fn sorted_inv(self) -> bool {
        monitors_sorted(self.monitors@)
    }

    /// The layout of the given monitors: the same monitors, put in layout order.
    pub fn new(monitors: Vec<DesktopMonitor>) -> (layout: Self)
        ensures
            monitors_sorted(layout@),
            layout@.to_multiset() == monitors@.to_multiset(),
            layout@.len() == monitors@.len(),
            forall|m: DesktopMonitor| layout@.contains(m) <==> monitors@.contains(m),
    {
        let mut sorted: Vec<DesktopMonitor> = Vec::new();
        let mut i: usize = 0;
        while i < monitors.len()
            invariant
                i <= monitors.len(),
                monitors_sorted(sorted@),
                sorted@.len() == i,
                sorted@.to_multiset() == monitors@.take(i as int).to_multiset(),
            decreases monitors.len() - i,
        {
            let m = monitors[i];
            let mut j: usize = 0;
            while j < sorted.len() && monitor_le_exec(&sorted[j], &m)
                invariant
                    j <= sorted.len(),
                    monitors_sorted(sorted@),
                    forall|k: int| 0 <= k < j ==> monitor_le(#[trigger] sorted@[k], m),
                decreases sorted.len() - j,
            {
                j = j + 1;
            }
            proof {
                if j < sorted.len() {
                    assert forall|k: int| j <= k < sorted@.len() implies monitor_le(m, #[trigger] sorted@[k]) by {
                        lemma_monitor_order(m, sorted@[j as int], sorted@[k]);
                    }
                }
            }
            sorted.insert(j, m);
            proof {
                assert forall|a: int, b: int| 0 <= a < b < sorted@.len() implies monitor_le(
                    #[trigger] sorted@[a],
                    #[trigger] sorted@[b],
                ) by {
                    if a < j && b > j {
                        lemma_monitor_order(sorted@[a], m, sorted@[b]);
                    }
                }
                assert(monitors@.take(i + 1) =~= monitors@.take(i as int).push(m));
            }
            i = i + 1;
        }
        proof {
            assert(monitors@.take(monitors.len() as int) =~= monitors@);
            assert forall|m: DesktopMonitor| sorted@.contains(m) <==> monitors@.contains(m) by {
                vstd::seq_lib::to_multiset_contains(sorted@, m);
                vstd::seq_lib::to_multiset_contains(monitors@, m);
            }
        }
        DesktopMonitorLayout { monitors: sorted }
    }

    /// The monitors, which are always in layout order.
    pub fn monitors(&self) -> (monitors: &Vec<DesktopMonitor>)
        ensures
            monitors@ == self@,
            monitors_sorted(self@),
    {
        proof {
            use_type_invariant(self);
        }
        &self.monitors
    }

    pub fn is_empty(&self) -> (empty: bool)
        ensures
            empty == (self@.len() == 0),
    {
        self.monitors.len() == 0
    }

    /// The first primary monitor, if any.
    pub fn primary_monitor(&self) -> (primary: Option<DesktopMonitor>)
        ensures
            primary is None <==> forall|i: int| 0 <= i < self@.len() ==> !(#[trigger] self@[i]).is_primary,
            primary matches Some(m) ==> exists|i: int|
                0 <= i < self@.len() && self@[i] == m && m.is_primary
                && forall|j: int| 0 <= j < i ==> !(#[trigger] self@[j]).is_primary,
    {
        let mut i: usize = 0;
        while i < self.monitors.len()
            invariant
                i <= self@.len(),
                self.monitors@ == self@,
                forall|j: int| 0 <= j < i ==> !(#[trigger] self@[j]).is_primary,
            decreases self@.len() - i,
        {
            if self.monitors[i].is_primary {
                return Some(self.monitors[i]);
            }
            i = i + 1;
        }
        None
    }

    /// The first monitor in layout order, if any.
    pub fn first_monitor(&self) -> (first: Option<DesktopMonitor>)
        ensures
            first == (if self@.len() == 0 { None } else { Some(self@[0]) }),
    {
        if self.monitors.len() == 0 {
            None
        } else {
            Some(self.monitors[0])
        }
    }

    /// The first monitor that holds the point described by `relations`.
    fn monitor_containing_point(&self, relations: &Vec<PointRelation>) -> (found: Option<DesktopMonitor>)
        requires
            relations@.len() == self@.len(),
        ensures
            found is None <==> none_inside(relations@),
            found matches Some(m) ==> exists|i: int| is_first_inside(relations@, i) && self@[i] == m,
    {
        let mut i: usize = 0;
        while i < relations.len()
            invariant
                i <= relations@.len(),
                relations@.len() == self@.len(),
                self.monitors@ == self@,
                forall|j: int| 0 <= j < i ==> !(#[trigger] relations@[j]).inside,
            decreases relations@.len() - i,
        {
            if relations[i].inside {
                proof {
                    assert(is_first_inside(relations@, i as int));
                }
                return Some(self.monitors[i]);
            }
            i = i + 1;
        }
        None
    }

    /// The first of the monitors nearest to the point described by `relations`.
    fn nearest_monitor(&self, relations: &Vec<PointRelation>) -> (found: Option<DesktopMonitor>)
        requires
            relations@.len() == self@.len(),
        ensures
            found is None <==> self@.len() == 0,
            found matches Some(m) ==> exists|i: int| is_first_nearest(relations@, i) && self@[i] == m,
    {
        if relations.len() == 0 {
            return None;
        }
        let mut best: usize = 0;
        let mut i: usize = 1;
        while i < relations.len()
            invariant
                1 <= i <= relations@.len(),
                best < i,
                relations@.len() == self@.len(),
                self.monitors@ == self@,
                forall|j: int| 0 <= j < i ==> relations@[best as int].distance_key <= (#[trigger] relations@[j]).distance_key,
                forall|j: int| 0 <= j < best ==> relations@[best as int].distance_key < (#[trigger] relations@[j]).distance_key,
            decreases relations@.len() - i,
        {
            if relations[i].distance_key < relations[best].distance_key {
                best = i;
            }
            i = i + 1;
        }
        proof {
            assert(is_first_nearest(relations@, best as int));
        }
        Some(self.monitors[best])
    }

    /// The monitor that holds the point described by `relations` (one entry
    /// per monitor, in layout order), or the nearest one when the point lies
    /// in a gap between monitors; `None` only for a layout without monitors.
    pub fn active_monitor(&self, relations: &Vec<PointRelation>) -> (active: Option<DesktopMonitor>)
        requires
            relations@.len() == self@.len(),
        ensures
            active is None <==> self@.len() == 0,
            active matches Some(m) ==> exists|i: int| is_active_index(relations@, i) && self@[i] == m,
    {
        match self.monitor_containing_point(relations) {
            Some(m) => Some(m),
            None => self.nearest_monitor(relations),
        }
    }

    /// Whether every monitor can centre a window of the given size within `i32`.
    pub fn can_center_on_every_monitor(&self, window_width: i32, window_height: i32) -> (fits: bool)
        ensures
            fits == forall|i: int| 0 <= i < self@.len() ==> (#[trigger] self@[i]).bounds.centering_fits(
                window_width as int,
                window_height as int,
            ),
    {
        let mut i: usize = 0;
        while i < self.monitors.len()
            invariant
                i <= self@.len(),
                self.monitors@ == self@,
                forall|j: int| 0 <= j < i ==> (#[trigger] self@[j]).bounds.centering_fits(
                    window_width as int,
                    window_height as int,
                ),
            decreases self@.len() - i,
        {
            if !self.monitors[i].bounds.can_center(window_width, window_height) {
                return false;
            }
            i = i + 1;
        }
        true
    }

    /// Where the cat's window starts: centred on the monitor active for the
    /// cursor when the cursor position is known (`cursor` describes it, one
    /// entry per monitor), else on the primary monitor, else on the first
    /// monitor; `None` for a layout without monitors.
    pub fn initial_window_position(
        &self,
        cursor: Option<&Vec<PointRelation>>,
        window_width: i32,
        window_height: i32,
    ) -> (position: Option<PixelPosition>)
        requires
            cursor matches Some(relations) ==> relations@.len() == self@.len(),
            forall|i: int| 0 <= i < self@.len() ==> (#[trigger] self@[i]).bounds.centering_fits(
                window_width as int,
                window_height as int,
            ),
        ensures
            position is None <==> self@.len() == 0,
            position matches Some(p) ==> exists|i: int| {
                &&& 0 <= i < self@.len()
                &&& (p.x as int, p.y as int) == (#[trigger] self@[i]).bounds.centered(window_width as int, window_height as int)
                &&& match cursor {
                    Some(relations) => is_active_index(relations@, i),
                    None => i == 0,
                }
            },
    {
        proof {
            use_type_invariant(self);
        }
        let monitor = match cursor {
            Some(relations) => self.active_monitor(relations),
            None => None,
        };
        let monitor = match monitor {
            Some(m) => Some(m),
            None => {
                let primary = self.primary_monitor();
                proof {
                    if let Some(m) = primary {
                        let i = choose|i: int|
                            0 <= i < self@.len() && self@[i] == m && m.is_primary
                            && forall|j: int| 0 <= j < i ==> !(#[trigger] self@[j]).is_primary;
                        if i > 0 {
                            assert(monitor_le(self@[0], self@[i]));
                        }
                    }
                }
                match primary {
                    Some(m) => Some(m),
                    None => self.first_monitor(),
                }
            },
        };
        match monitor {
            Some(m) => Some(m.bounds.centered_window_position(window_width, window_height)),
            None => None,
        }
    }
}

/// A window no larger than the monitor, centred on it, lies on the monitor,
/// with equal margins up to one pixel.
pub proof fn lemma_centered_window_on_monitor(b: MonitorBounds, window_width: int, window_height: int)
    requires
        0 <= window_width <= b.spec_width(),
        0 <= window_height <= b.spec_height(),
    ensures
        ({
            let (x, y) = b.centered(window_width, window_height);
            &&& b.left <= x && x + window_width <= b.right
            &&& b.top <= y && y + window_height <= b.bottom
            &&& 0 <= (b.right - (x + window_width)) - (x - b.left) <= 1
            &&& 0 <= (b.bottom - (y + window_height)) - (y - b.top) <= 1
        }),
{
}

/// In a layout the primary monitor comes first: when any monitor is primary,
/// the first monitor is, so `primary_monitor` and `first_monitor` agree.
pub proof fn lemma_primary_comes_first(s: Seq<DesktopMonitor>, i: int)
    requires
        monitors_sorted(s),
        0 <= i < s.len(),
        s[i].is_primary,
    ensures
        s[0].is_primary,
{
    if i > 0 {
        assert(monitor_le(s[0], s[i]));
    }
}

/// Where a monitor stands in a layout, told by its flag and edges alone: a
/// primary monitor before any other; among monitors alike in that, the one
/// further left first, then the one higher up, then the one whose right edge
/// is further left, then the one whose bottom edge is higher up.
pub proof fn lemma_layout_order_by_edges(s: Seq<DesktopMonitor>, i: int, j: int)
    requires
        monitors_sorted(s),
        0 <= i < s.len(),
        0 <= j < s.len(),
    ensures
        s[i].is_primary && !s[j].is_primary ==> i < j,
        s[i].is_primary == s[j].is_primary && s[i].bounds.left < s[j].bounds.left ==> i < j,
        s[i].is_primary == s[j].is_primary && s[i].bounds.left == s[j].bounds.left
            && s[i].bounds.top < s[j].bounds.top ==> i < j,
        s[i].is_primary == s[j].is_primary && s[i].bounds.left == s[j].bounds.left
            && s[i].bounds.top == s[j].bounds.top && s[i].bounds.right < s[j].bounds.right ==> i < j,
        s[i].is_primary == s[j].is_primary && s[i].bounds.left == s[j].bounds.left
            && s[i].bounds.top == s[j].bounds.top && s[i].bounds.right == s[j].bounds.right
            && s[i].bounds.bottom < s[j].bounds.bottom ==> i < j,
{
    if j < i {
        assert(monitor_le(s[j], s[i]));
    }
}

/// A layout does not depend on the order in which its monitors were listed:
/// two sequences in layout order holding the same monitors are equal.
pub proof fn lemma_layout_order_independent(a: Seq<DesktopMonitor>, b: Seq<DesktopMonitor>)
    requires
        monitors_sorted(a),
        monitors_sorted(b),
        a.to_multiset() == b.to_multiset(),
    ensures
        a == b,
    decreases a.len(),
{
    assert(a.len() == b.len()) by {
        vstd::seq_lib::to_multiset_len(a);
        vstd::seq_lib::to_multiset_len(b);
    }
    if a.len() == 0 {
        assert(a =~= b);
    } else {
        vstd::seq_lib::to_multiset_contains(a, b[0]);
        vstd::seq_lib::to_multiset_contains(b, b[0]);
        vstd::seq_lib::to_multiset_contains(a, a[0]);
        vstd::seq_lib::to_multiset_contains(b, a[0]);
        assert(b.contains(b[0]));
        assert(a.contains(a[0]));
        let ia = choose|k: int| 0 <= k < a.len() && a[k] == b[0];
        let ib = choose|k: int| 0 <= k < b.len() && b[k] == a[0];
        if ia > 0 {
            assert(monitor_le(a[0], a[ia]));
        }
        if ib > 0 {
            assert(monitor_le(b[0], b[ib]));
        }
        lemma_monitor_order(a[0], b[0], a[0]);
        assert(a[0] == b[0]);
        vstd::seq_lib::to_multiset_remove(a, 0);
        vstd::seq_lib::to_multiset_remove(b, 0);
        assert(a.remove(0) =~= a.drop_first());
        assert(b.remove(0) =~= b.drop_first());
        assert(monitors_sorted(a.drop_first()));
        assert(monitors_sorted(b.drop_first()));
        lemma_layout_order_independent(a.drop_first(), b.drop_first());
        assert(a =~= seq![a[0]] + a.drop_first());
        assert(b =~= seq![b[0]] + b.drop_first());
    }
}

} // verus!
