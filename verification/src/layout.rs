//! Dividing the screen into panels and placing a pop-up in its middle, with ratatui's layout
//! solver.
use vstd::prelude::*;

use ratatui::layout::{Constraint, Direction, Layout, Rect};

verus! {

/// A rectangle of terminal cells.
#[derive(Clone, Copy, PartialEq, Eq, Structural, Debug)]
pub struct Area {
    pub x: u16,
    pub y: u16,
    pub width: u16,
    pub height: u16,
}

/// The direction in which an area is cut.
#[derive(Clone, Copy, PartialEq, Eq, Structural, Debug)]
pub enum Axis {
    /// Into rows, top to bottom.
    Vertical,
    /// Into columns, left to right.
    Horizontal,
}

/// How much of an area a part asks for.
#[derive(Clone, Copy, PartialEq, Eq, Structural, Debug)]
pub enum SizeRule {
    /// Exactly this many cells.
    Length(u16),
    /// At least this many cells.
    Min(u16),
    /// This share, in percent, of the area.
    Percentage(u16),
}

/// The far edge of `a` along the horizontal axis, saturating at the last cell
/// (`Rect::right`).
pub open spec fn right_edge(a: Area) -> int {
    if a.x + a.width > 0xffff { 0xffff } else { a.x + a.width }
}

/// The far edge of `a` along the vertical axis, saturating at the last cell (`Rect::bottom`).
pub open spec fn bottom_edge(a: Area) -> int {
    if a.y + a.height > 0xffff { 0xffff } else { a.y + a.height }
}

/// `inner` lies within `outer`.
pub open spec fn area_within(inner: Area, outer: Area) -> bool {
    &&& outer.x <= inner.x
    &&& inner.x + inner.width <= right_edge(outer)
    &&& outer.y <= inner.y
    &&& inner.y + inner.height <= bottom_edge(outer)
}

/// Where `a` starts along `axis`.
pub open spec fn axis_start(a: Area, axis: Axis) -> int {
    match axis {
        Axis::Vertical => a.y as int,
        Axis::Horizontal => a.x as int,
    }
}

/// How far `a` reaches along `axis`, its far edge capped at the last cell.
pub open spec fn axis_extent(a: Area, axis: Axis) -> int {
    match axis {
        Axis::Vertical => bottom_edge(a) - a.y,
        Axis::Horizontal => right_edge(a) - a.x,
    }
}

/// The size of `a` along `axis`.
pub open spec fn axis_size(a: Area, axis: Axis) -> int {
    match axis {
        Axis::Vertical => a.height as int,
        Axis::Horizontal => a.width as int,
    }
}

/// What each part of a split of `area` along `axis` keeps: it spans the whole of `area`
/// across the axis, and lies within it along the axis.
pub open spec fn split_part(part: Area, area: Area, axis: Axis) -> bool {
    match axis {
        Axis::Vertical => {
            &&& part.x == area.x
            &&& part.width == area.width
            &&& area.y <= part.y
            &&& part.y + part.height <= bottom_edge(area)
        },
        Axis::Horizontal => {
            &&& part.y == area.y
            &&& part.height == area.height
            &&& area.x <= part.x
            &&& part.x + part.width <= right_edge(area)
        },
    }
}

/// Every rule asks for a percentage.
pub open spec fn all_percentages(rules: Seq<SizeRule>) -> bool {
    forall|i: int| 0 <= i < rules.len() ==> #[trigger] rules[i] is Percentage
}

/// The percentage that a rule asks for (none for other rules).
pub open spec fn percent_share(rule: SizeRule) -> int {
    match rule {
        SizeRule::Percentage(p) => p as int,
        _ => 0,
    }
}

/// The percentages asked for by the first `k` rules, together.
pub open spec fn shares_before(rules: Seq<SizeRule>, k: int) -> int
    decreases k,
{
    if k <= 0 || k > rules.len() {
        0
    } else {
        shares_before(rules, k - 1) + percent_share(rules[k - 1])
    }
}

/// `part` starts, along `axis`, within one cell of `before` percent of `area`'s extent past
/// `area`'s start, and its size is within one cell of `share` percent of that extent.
pub open spec fn near_share(part: Area, area: Area, axis: Axis, before: int, share: int) -> bool {
    let e = axis_extent(area, axis);
    &&& -100 <= 100 * (axis_start(part, axis) - axis_start(area, axis)) - e * before <= 100
    &&& -100 <= 100 * axis_size(part, axis) - e * share <= 100
}

/// The cell at which an edge `v` hundredths of a cell past 0 lands after ratatui rounds it
/// twice (to whole hundredths, then to whole cells, halves away from zero):
/// `floor(v / 100 + 0.505)`.
pub open spec fn cell_of(v: int) -> int {
    (2 * v + 101) / 200
}

/// `part` is the segment of `area` along `axis` that runs from `before` percent to
/// `before + share` percent of `area`'s extent, its edges rounded to cells.
pub open spec fn share_part(part: Area, area: Area, axis: Axis, before: int, share: int) -> bool {
    let a = axis_start(area, axis);
    let e = axis_extent(area, axis);
    let s = cell_of(100 * a + e * before);
    let t = cell_of(100 * a + e * (before + share));
    &&& axis_start(part, axis) == s
    &&& axis_size(part, axis) == t - s
}

/// The total of the fixed lengths among the first `k` rules.
pub open spec fn lengths_before(rules: Seq<SizeRule>, k: int) -> int
    decreases k,
{
    if k <= 0 || k > rules.len() {
        0
    } else {
        lengths_before(rules, k - 1) + match rules[k - 1] {
            SizeRule::Length(n) => n as int,
            _ => 0,
        }
    }
}

/// How many of the first `k` rules ask for a minimum.
pub open spec fn mins_before(rules: Seq<SizeRule>, k: int) -> int
    decreases k,
{
    if k <= 0 || k > rules.len() {
        0
    } else {
        mins_before(rules, k - 1) + if rules[k - 1] is Min { 1int } else { 0int }
    }
}

/// The total of the minimum lengths among the first `k` rules.
pub open spec fn min_lengths_before(rules: Seq<SizeRule>, k: int) -> int
    decreases k,
{
    if k <= 0 || k > rules.len() {
        0
    } else {
        min_lengths_before(rules, k - 1) + match rules[k - 1] {
            SizeRule::Min(n) => n as int,
            _ => 0,
        }
    }
}

/// Fixed lengths around one minimum, all of which fit into an extent of `e` cells.
pub open spec fn fill_rules(rules: Seq<SizeRule>, e: int) -> bool {
    &&& forall|i: int| 0 <= i < rules.len() ==> !(#[trigger] rules[i] is Percentage)
    &&& forall|i: int| 0 <= i < rules.len() ==> (#[trigger] rules[i] matches SizeRule::Min(m) ==> m < 0x8000)
    &&& mins_before(rules, rules.len() as int) == 1
    &&& lengths_before(rules, rules.len() as int) + min_lengths_before(rules, rules.len() as int) <= e
}

/// The size that rule `i` gets among fixed lengths around one minimum in an extent of `e`
/// cells: a fixed length gets its length, the minimum gets what the fixed lengths leave.
pub open spec fn filled_size(rules: Seq<SizeRule>, i: int, e: int) -> int {
    match rules[i] {
        SizeRule::Length(n) => n as int,
        _ => e - lengths_before(rules, rules.len() as int),
    }
}

/// The sizes that the first `k` rules get, together.
pub open spec fn filled_before(rules: Seq<SizeRule>, k: int, e: int) -> int
    decreases k,
{
    if k <= 0 || k > rules.len() {
        0
    } else {
        filled_before(rules, k - 1, e) + filled_size(rules, k - 1, e)
    }
}

/// Calls ratatui's `Layout::split` on a default layout (no margin, `Flex::Start`, no spacing)
/// in direction `axis`, with one constraint per rule (`Length`, `Min` or `Percentage`). The
/// contract claims what the source shows of every outcome:
/// - One area per rule: `try_split` builds one segment per constraint.
/// - Each area spans the given area across the axis: `changes_to_rects` copies the cross-axis
///   position and size from it.
/// - Along the axis each area lies within the given one: `try_split` adds the required
///   constraints that every edge lies between the area's start and end and that each segment's
///   start precedes its end; the cassowary solver either keeps required constraints or refuses
///   them (and the split then panics); rounding to whole cells keeps values between whole
///   bounds.
/// - Where every rule is a percentage and together they ask for at most 100 percent, the
///   segments run one after another from the area's start, each over its share: under
///   `Flex::Start` the first spacer is empty (strength `REQUIRED - 1`), the inner spacers have
///   size 0 (`REQUIRED / 10`), each segment has `area.size() * p / 100` (`STRONG`), and the
///   only other wishes are the last spacer filling the area (`MEDIUM / 10`) and the segments
///   being equal (`WEAK`). All constraints of strength `STRONG` and above can then hold at
///   once, and any departure from them costs more than it gains on the weaker ones, so the
///   solver's optimum is unique and meets them, in hundredths of a cell: an edge lies at
///   `100 * start + extent * percent` hundredths. `changes_to_rects` rounds an edge at `v`
///   hundredths to `(v.round() / 100).round()`, which is `floor(v / 100 + 0.505)` (`cell_of`).
///   For a whole `v` that value is never within half a hundredth of a cell boundary, so the
///   solver's floating-point error does not move it.
/// - Where the rules are fixed lengths (`Length`) around one minimum (`Min` below 32768) and
///   together they fit into the extent, the segments run one after another from the area's
///   start, each fixed length exactly, the minimum over what the fixed lengths leave: the
///   fixed lengths have strength `STRONG * 10`, the minimum's lower bound `STRONG * 100`, and
///   its wish to fill the area (`MEDIUM`) outweighs the last spacer's (`MEDIUM / 10`) and the
///   segments' wish to be equal (`WEAK`); the edges are whole cells, which the rounding keeps.
/// For other rules the areas are left unsaid. The split panics only if the solver rejects one of its required constraints,
/// which can all be met for any area.
#[verifier::external_body]
fn split_area(area: Area, axis: Axis, rules: &Vec<SizeRule>) -> (parts: Vec<Area>)
    ensures
        parts@.len() == rules@.len(),
        forall|i: int| 0 <= i < parts@.len() ==> split_part(#[trigger] parts@[i], area, axis),
        all_percentages(rules@) && shares_before(rules@, rules@.len() as int) <= 100 ==> forall|
            i: int,
        |
            0 <= i < parts@.len() ==> share_part(
                #[trigger] parts@[i],
                area,
                axis,
                shares_before(rules@, i),
                percent_share(rules@[i]),
            ),
        fill_rules(rules@, axis_extent(area, axis)) ==> forall|i: int|
            0 <= i < parts@.len() ==> axis_start(#[trigger] parts@[i], axis) == axis_start(area, axis)
                + filled_before(rules@, i, axis_extent(area, axis)) && axis_size(parts@[i], axis)
                == filled_size(rules@, i, axis_extent(area, axis)),
{
    let direction = match axis {
        Axis::Vertical => Direction::Vertical,
        Axis::Horizontal => Direction::Horizontal,
    };
    let constraints = rules.iter().map(|rule| match *rule {
        SizeRule::Length(n) => Constraint::Length(n),
        SizeRule::Min(n) => Constraint::Min(n),
        SizeRule::Percentage(p) => Constraint::Percentage(p),
    });
    let rects = Layout::default().direction(direction).constraints(constraints).split(
        Rect { x: area.x, y: area.y, width: area.width, height: area.height },
    );
    rects.iter().map(|r| Area { x: r.x, y: r.y, width: r.width, height: r.height }).collect()
}

/// The share on each side of a centred share of `percent`.
pub open spec fn side_share(percent: u16) -> u16 {
    ((100 - percent) / 2) as u16
}

/// The three percentage rules that centre a share of `percent`.
pub open spec fn centring_shares(percent: u16) -> Seq<SizeRule> {
    seq![
        SizeRule::Percentage(side_share(percent)),
        SizeRule::Percentage(percent),
        SizeRule::Percentage(side_share(percent)),
    ]
}

/// The three percentage rules that centre a share of `percent` (at most 100).
pub fn centring_constraints(percent: u16) -> (shares: Vec<SizeRule>)
    requires
        percent <= 100,
    ensures
        shares@ == centring_shares(percent),
{
    let side = (100 - percent) / 2;
    let mut shares: Vec<SizeRule> = Vec::new();
    shares.push(SizeRule::Percentage(side));
    shares.push(SizeRule::Percentage(percent));
    shares.push(SizeRule::Percentage(side));
    assert(shares@ =~= centring_shares(percent));
    shares
}

proof fn lemma_centring_shares(percent: u16)
    requires
        percent <= 100,
    ensures
        all_percentages(centring_shares(percent)),
        shares_before(centring_shares(percent), 0) == 0,
        shares_before(centring_shares(percent), 1) == side_share(percent),
        shares_before(centring_shares(percent), 2) == side_share(percent) + percent,
        shares_before(centring_shares(percent), 3) == 2 * side_share(percent) + percent,
        shares_before(centring_shares(percent), 3) <= 100,
{
    reveal_with_fuel(shares_before, 4);
}

/// The middle cell of a 3 by 3 split of `r` whose middle row and column take `percent_y` and
/// `percent_x` percent, the rest shared equally on both sides: it lies within `r`, and along
/// each axis it runs from one side share to one side share plus its own share of `r`'s extent,
/// its edges rounded to cells as ratatui rounds them.
pub fn centered_rect(percent_x: u16, percent_y: u16, r: Area) -> (middle: Area)
    requires
        percent_x <= 100,
        percent_y <= 100,
    ensures
        area_within(middle, r),
        share_part(middle, r, Axis::Horizontal, side_share(percent_x) as int, percent_x as int),
        share_part(middle, r, Axis::Vertical, side_share(percent_y) as int, percent_y as int),
{
    proof {
        lemma_centring_shares(percent_x);
        lemma_centring_shares(percent_y);
    }
    let rows = split_area(r, Axis::Vertical, &centring_constraints(percent_y));
    assert(split_part(rows@[1], r, Axis::Vertical));
    assert(share_part(rows@[1], r, Axis::Vertical, side_share(percent_y) as int, percent_y as int));
    let columns = split_area(rows[1], Axis::Horizontal, &centring_constraints(percent_x));
    assert(split_part(columns@[1], rows@[1], Axis::Horizontal));
    assert(share_part(
        columns@[1],
        rows@[1],
        Axis::Horizontal,
        side_share(percent_x) as int,
        percent_x as int,
    ));
    columns[1]
}

/// A segment rounded from its share lies within a cell of that share, at both ends.
pub proof fn law_share_part_is_near(part: Area, area: Area, axis: Axis, before: int, share: int)
    requires
        share_part(part, area, axis, before, share),
        0 <= before,
        0 <= share,
    ensures
        near_share(part, area, axis, before, share),
{
    let a = axis_start(area, axis);
    let e = axis_extent(area, axis);
    let v = 100 * a + e * before;
    let w = 100 * a + e * (before + share);
    let s = cell_of(v);
    let t = cell_of(w);
    assert(e * (before + share) == e * before + e * share) by (nonlinear_arith);
    assert(200 * s <= 2 * v + 101 < 200 * s + 200) by {
        vstd::arithmetic::div_mod::lemma_fundamental_div_mod(2 * v + 101, 200);
    }
    assert(200 * t <= 2 * w + 101 < 200 * t + 200) by {
        vstd::arithmetic::div_mod::lemma_fundamental_div_mod(2 * w + 101, 200);
    }
}

/// The panels of the main screen.
pub struct ScreenLayout {
    pub header: Area,
    pub devices: Area,
    pub messages: Area,
    pub log: Area,
    pub input: Area,
    pub shortcuts: Area,
}

/// The main screen's rows: a 3-line header, the body (at least 10 lines), a 3-line input line
/// and a 1-line shortcut bar.
pub open spec fn screen_rows() -> Seq<SizeRule> {
    seq![SizeRule::Length(3), SizeRule::Min(10), SizeRule::Length(3), SizeRule::Length(1)]
}

/// The panels of the main screen: header, body, input line and shortcut bar stacked over the
/// screen's full width (on a screen of at least 17 rows: the header on the first 3, the input
/// box on the 3 above the last, the shortcut bar on the last, the body on the rest); the body cut into the device list (35%) and a right column (65%); the
/// right column cut into the messages (60%) over the log (40%).
pub fn screen_layout(screen: Area) -> (s: ScreenLayout)
    ensures
        split_part(s.header, screen, Axis::Vertical),
        split_part(s.input, screen, Axis::Vertical),
        split_part(s.shortcuts, screen, Axis::Vertical),
        area_within(s.devices, screen),
        area_within(s.messages, screen),
        area_within(s.log, screen),
        axis_extent(screen, Axis::Vertical) >= 17 ==> {
            let e = axis_extent(screen, Axis::Vertical);
            &&& s.header.y == screen.y && s.header.height == 3
            &&& s.devices.y == screen.y + 3 && s.devices.height == e - 7
            &&& s.input.y == screen.y + e - 4 && s.input.height == 3
            &&& s.shortcuts.y == screen.y + e - 1 && s.shortcuts.height == 1
        },
        share_part(s.devices, screen, Axis::Horizontal, 0, 35),
        share_part(s.messages, screen, Axis::Horizontal, 35, 65),
        s.log.x == s.messages.x && s.log.width == s.messages.width,
        share_part(s.messages, s.devices, Axis::Vertical, 0, 60),
        share_part(s.log, s.devices, Axis::Vertical, 60, 40),
{
    let mut rows_rules: Vec<SizeRule> = Vec::new();
    rows_rules.push(SizeRule::Length(3));
    rows_rules.push(SizeRule::Min(10));
    rows_rules.push(SizeRule::Length(3));
    rows_rules.push(SizeRule::Length(1));
    proof {
        reveal_with_fuel(lengths_before, 5);
        reveal_with_fuel(mins_before, 5);
        reveal_with_fuel(min_lengths_before, 5);
        reveal_with_fuel(filled_before, 5);
        assert(rows_rules@ == screen_rows());
    }
    let rows = split_area(screen, Axis::Vertical, &rows_rules);
    let body = rows[1];
    assert(split_part(rows@[0], screen, Axis::Vertical));
    assert(split_part(rows@[1], screen, Axis::Vertical));
    assert(split_part(rows@[2], screen, Axis::Vertical));
    assert(split_part(rows@[3], screen, Axis::Vertical));

    let mut body_rules: Vec<SizeRule> = Vec::new();
    body_rules.push(SizeRule::Percentage(35));
    body_rules.push(SizeRule::Percentage(65));
    proof {
        reveal_with_fuel(shares_before, 3);
        assert(all_percentages(body_rules@));
        assert(shares_before(body_rules@, 1) == 35);
        assert(shares_before(body_rules@, 2) == 100);
    }
    let columns = split_area(body, Axis::Horizontal, &body_rules);
    assert(split_part(columns@[0], body, Axis::Horizontal));
    assert(split_part(columns@[1], body, Axis::Horizontal));
    assert(share_part(columns@[0], body, Axis::Horizontal, 0, 35));
    assert(share_part(columns@[1], body, Axis::Horizontal, 35, 65));
    let right = columns[1];

    let mut right_rules: Vec<SizeRule> = Vec::new();
    right_rules.push(SizeRule::Percentage(60));
    right_rules.push(SizeRule::Percentage(40));
    proof {
        reveal_with_fuel(shares_before, 3);
        assert(all_percentages(right_rules@));
        assert(shares_before(right_rules@, 1) == 60);
        assert(shares_before(right_rules@, 2) == 100);
    }
    let stacked = split_area(right, Axis::Vertical, &right_rules);
    assert(split_part(stacked@[0], right, Axis::Vertical));
    assert(split_part(stacked@[1], right, Axis::Vertical));
    assert(share_part(stacked@[0], right, Axis::Vertical, 0, 60));
    assert(share_part(stacked@[1], right, Axis::Vertical, 60, 40));

    ScreenLayout {
        header: rows[0],
        devices: columns[0],
        messages: stacked[0],
        log: stacked[1],
        input: rows[2],
        shortcuts: rows[3],
    }
}

} // verus!
