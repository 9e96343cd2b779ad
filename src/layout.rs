//! Partition of a screen rectangle into the dashboard's named regions.
use vstd::prelude::*;

verus! {

/// A rectangle of character cells: its top-left corner and its size.
#[derive(Clone, Copy, Debug, PartialEq, Eq, Structural)]
pub struct Rect {
    pub x: u16,
    pub y: u16,
    pub width: u16,
    pub height: u16,
}

/// The regions that the dashboard draws into.
#[derive(Clone, Copy, Debug, PartialEq, Eq, Structural)]
pub struct RegionTree {
    pub title: Rect,
    pub description: Rect,
    pub options: Rect,
    pub map: Rect,
    pub footer: Rect,
}

/// Height of the title band.
pub const TITLE_HEIGHT: u16 = 1;

/// Height of the footer band.
pub const FOOTER_HEIGHT: u16 = 3;

/// Share of the main band's width given to the left column, in percent.
pub const LEFT_COLUMN_PERCENT: u16 = 25;

/// Share of the left column's height given to the description, in percent.
pub const DESCRIPTION_PERCENT: u16 = 25;

impl Rect {
    /// The rectangle lies in the coordinate space: its far edges fit in `u16`.
    pub open spec fn wf(self) -> bool {
        self.x + self.width <= u16::MAX && self.y + self.height <= u16::MAX
    }

    pub open spec fn is_empty(self) -> bool {
        self.width == 0 || self.height == 0
    }

    /// `self` lies within `outer`.
    pub open spec fn inside(self, outer: Rect) -> bool {
        outer.x <= self.x && self.x + self.width <= outer.x + outer.width && outer.y <= self.y
            && self.y + self.height <= outer.y + outer.height
    }

    /// No cell belongs to both rectangles.
    pub open spec fn disjoint(self, other: Rect) -> bool {
        self.is_empty() || other.is_empty() || self.x + self.width <= other.x || other.x
            + other.width <= self.x || self.y + self.height <= other.y || other.y + other.height
            <= self.y
    }

    pub fn new(x: u16, y: u16, width: u16, height: u16) -> (r: Rect)
        requires
            x + width <= u16::MAX,
            y + height <= u16::MAX,
        ensures
            r == (Rect { x, y, width, height }),
            r.wf(),
    {
        Rect { x, y, width, height }
    }

    /// Whether the far edges of the rectangle fit in `u16`.
    pub fn is_valid(&self) -> (r: bool)
        ensures
            r == self.wf(),
    {
        self.x as u32 + self.width as u32 <= u16::MAX as u32 && self.y as u32 + self.height as u32
            <= u16::MAX as u32
    }
}

/// `percent` percent of `total`, rounded down.
pub open spec fn percent_spec(total: int, percent: int) -> int {
    total * percent / 100
}

/// Heights of the title, main and footer bands of a screen of height `h`:
/// the fixed bands take their heights as far as the screen allows, and the
/// main band takes what is left.
pub open spec fn bands_spec(h: int) -> (int, int, int) {
    let t = if h < TITLE_HEIGHT as int { h } else { TITLE_HEIGHT as int };
    let f = if h - t < FOOTER_HEIGHT as int { h - t } else { FOOTER_HEIGHT as int };
    (t, h - t - f, f)
}

/// The regions of the screen `s`.
pub open spec fn partition_spec(s: Rect) -> RegionTree {
    let (t, m, f) = bands_spec(s.height as int);
    let main_y = s.y + t;
    let left_w = percent_spec(s.width as int, LEFT_COLUMN_PERCENT as int);
    let desc_h = percent_spec(m, DESCRIPTION_PERCENT as int);
    RegionTree {
        title: Rect { x: s.x, y: s.y, width: s.width, height: t as u16 },
        description: Rect { x: s.x, y: main_y as u16, width: left_w as u16, height: desc_h as u16 },
        options: Rect {
            x: s.x,
            y: (main_y + desc_h) as u16,
            width: left_w as u16,
            height: (m - desc_h) as u16,
        },
        map: Rect {
            x: (s.x + left_w) as u16,
            y: main_y as u16,
            width: (s.width - left_w) as u16,
            height: m as u16,
        },
        footer: Rect { x: s.x, y: (main_y + m) as u16, width: s.width, height: f as u16 },
    }
}

/// Splits `total` cells in two by a percentage: the first part is `percent`
/// percent of `total` rounded down, the second part takes the rest.
pub fn split_percent(total: u16, percent: u16) -> (r: (u16, u16))
    requires
        percent <= 100,
    ensures
        r.0 == percent_spec(total as int, percent as int),
        r.0 + r.1 == total,
{
    assert(0 <= total as int * percent as int <= total as int * 100) by (nonlinear_arith)
        requires
            percent <= 100,
    ;
    let product: u32 = total as u32 * percent as u32;
    let first = (product / 100) as u16;
    (first, total - first)
}

/// Splits a height into the title, main and footer bands.
pub fn split_bands(height: u16) -> (r: (u16, u16, u16))
    ensures
        (r.0 as int, r.1 as int, r.2 as int) == bands_spec(height as int),
{
    let title = if height < TITLE_HEIGHT {
        height
    } else {
        TITLE_HEIGHT
    };
    let footer = if height - title < FOOTER_HEIGHT {
        height - title
    } else {
        FOOTER_HEIGHT
    };
    (title, height - title - footer, footer)
}

/// Computes the regions of the screen `area`: a title band of height one at
/// the top, a footer band of height three at the bottom, and between them a
/// main band whose left quarter holds the description above the options
/// (a quarter and three quarters of its height) and whose right three
/// quarters hold the map.
pub fn partition(area: Rect) -> (r: RegionTree)
    requires
        area.wf(),
    ensures
        r == partition_spec(area),
{
    let (title_h, main_h, footer_h) = split_bands(area.height);
    let title = Rect { x: area.x, y: area.y, width: area.width, height: title_h };
    let main = Rect { x: area.x, y: area.y + title_h, width: area.width, height: main_h };
    let footer = Rect { x: area.x, y: main.y + main_h, width: area.width, height: footer_h };
    let (left_w, right_w) = split_percent(main.width, LEFT_COLUMN_PERCENT);
    let (desc_h, options_h) = split_percent(main.height, DESCRIPTION_PERCENT);
    let description = Rect { x: main.x, y: main.y, width: left_w, height: desc_h };
    let options = Rect { x: main.x, y: main.y + desc_h, width: left_w, height: options_h };
    let map = Rect { x: main.x + left_w, y: main.y, width: right_w, height: main.height };
    RegionTree { title, description, options, map, footer }
}

/// Every region of a screen lies within the screen, and no two regions
/// share a cell.
pub proof fn lemma_partition_within_screen(s: Rect)
    requires
        s.wf(),
    ensures
        ({
            let r = partition_spec(s);
            &&& r.title.inside(s)
            &&& r.description.inside(s)
            &&& r.options.inside(s)
            &&& r.map.inside(s)
            &&& r.footer.inside(s)
            &&& r.title.disjoint(r.description)
            &&& r.title.disjoint(r.options)
            &&& r.title.disjoint(r.map)
            &&& r.title.disjoint(r.footer)
            &&& r.description.disjoint(r.options)
            &&& r.description.disjoint(r.map)
            &&& r.description.disjoint(r.footer)
            &&& r.options.disjoint(r.map)
            &&& r.options.disjoint(r.footer)
            &&& r.map.disjoint(r.footer)
        }),
{
    lemma_percent_bounds(s.width as int, LEFT_COLUMN_PERCENT as int);
    let m = bands_spec(s.height as int).1;
    lemma_percent_bounds(m, DESCRIPTION_PERCENT as int);
}

/// The main band, and with it the description, options and map, is empty
/// on a screen no taller than the title and footer bands together; the
/// title and footer bands still get their heights.
pub proof fn lemma_partition_short_screen(s: Rect)
    requires
        s.wf(),
        s.height <= TITLE_HEIGHT + FOOTER_HEIGHT,
    ensures
        ({
            let r = partition_spec(s);
            &&& r.description.height == 0
            &&& r.options.height == 0
            &&& r.map.height == 0
            &&& r.title.height + r.footer.height == s.height
        }),
{
    let m = bands_spec(s.height as int).1;
    lemma_percent_bounds(m, DESCRIPTION_PERCENT as int);
}

/// The partition depends on the screen rectangle alone: equal screens give
/// equal region trees.
pub proof fn lemma_partition_deterministic(a: Rect, b: Rect)
    requires
        a == b,
    ensures
        partition_spec(a) == partition_spec(b),
{
}

proof fn lemma_percent_bounds(total: int, percent: int)
    requires
        0 <= total,
        0 <= percent <= 100,
    ensures
        0 <= percent_spec(total, percent) <= total,
{
    assert(0 <= total * percent <= total * 100) by (nonlinear_arith)
        requires
            0 <= total,
            0 <= percent <= 100,
    ;
}

} // verus!
