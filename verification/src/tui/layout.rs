//! Where the tiles and popups go on the screen: a tree of splits of the frame,
//! each split made by the terminal library's layout solver.
use vstd::prelude::*;

use crate::tui::input::Area;
use crate::tui::tile::TileId;

verus! {

/// The direction a split divides its area in.
#[derive(Debug, Clone, Copy, PartialEq, Eq, Structural)]
pub enum Direction {
    Horizontal,
    Vertical,
}

/// A constraint on one part of a split.
#[derive(Debug, Clone, Copy, PartialEq, Eq, Structural)]
pub enum Constraint {
    Min(u16),
    Length(u16),
    Percentage(u16),
}

/// The layout of the screen: splits down to the tiles.
pub enum LayoutNode {
    Split { direction: Direction, constraints: Vec<Constraint>, children: Vec<LayoutNode> },
    Leaf { tile_id: TileId, visible: bool },
}

/// `p` lies inside `outer`.
pub open spec fn inside(p: Area, outer: Area) -> bool {
    &&& outer.x <= p.x
    &&& p.x + p.width <= outer.x + outer.width
    &&& outer.y <= p.y
    &&& p.y + p.height <= outer.y + outer.height
}

/// `p` is a band of `outer` in `direction`: it spans `outer` across that
/// direction and lies within it along it.
pub open spec fn band_of(p: Area, outer: Area, direction: Direction) -> bool {
    match direction {
        Direction::Horizontal => {
            &&& p.y == outer.y
            &&& p.height == outer.height
            &&& outer.x <= p.x
            &&& p.x + p.width <= outer.x + outer.width
        },
        Direction::Vertical => {
            &&& p.x == outer.x
            &&& p.width == outer.width
            &&& outer.y <= p.y
            &&& p.y + p.height <= outer.y + outer.height
        },
    }
}

/// The area as the terminal library holds it: width and height cut so that
/// the right and bottom edges stay within 16-bit coordinates. An area that
/// fits is unchanged.
pub open spec fn clamp_area(a: Area) -> Area {
    Area {
        x: a.x,
        y: a.y,
        width: if a.x + a.width > 0xFFFF {
            (0xFFFF - a.x) as u16
        } else {
            a.width
        },
        height: if a.y + a.height > 0xFFFF {
            (0xFFFF - a.y) as u16
        } else {
            a.height
        },
    }
}

/// Calls `ratatui::layout::Layout::new` with the direction and constraints and
/// `split` on the area. `Rect::new` first cuts the area's width and height so
/// that its edges stay within 16-bit coordinates (`clamp_area`). The contract
/// states what the crate's source shows of every outcome: one part for each
/// constraint, each part spanning that cut area across the direction (the
/// part is built from its position and size there) and lying within it along
/// the direction (the solver is given its ends as required bounds of every
/// part). Where the solver
/// places each part along the direction is left unsaid: the solver walks maps
/// hashed with a per-process seed, and the crate documents the result of
/// conflicting constraints as indeterminate.
#[verifier::external_body]
pub fn split(direction: Direction, constraints: &Vec<Constraint>, area: Area) -> (r: Vec<Area>)
    ensures
        r@.len() == constraints@.len(),
        forall|i: int| 0 <= i < r@.len() ==> band_of(#[trigger] r@[i], clamp_area(area), direction),
{
    let dir = match direction {
        Direction::Horizontal => ratatui::layout::Direction::Horizontal,
        Direction::Vertical => ratatui::layout::Direction::Vertical,
    };
    let cs = constraints.iter().map(|c| match c {
        Constraint::Min(n) => ratatui::layout::Constraint::Min(*n),
        Constraint::Length(n) => ratatui::layout::Constraint::Length(*n),
        Constraint::Percentage(n) => ratatui::layout::Constraint::Percentage(*n),
    });
    let rect = ratatui::layout::Rect::new(area.x, area.y, area.width, area.height);
    ratatui::layout::Layout::new(dir, cs).split(rect).iter().map(
        |r| Area { x: r.x, y: r.y, width: r.width, height: r.height },
    ).collect()
}

/// The visible tiles of a layout, in the order of its leaves. A split places
/// only as many children as it has constraints.
pub open spec fn leaf_ids(node: LayoutNode) -> Seq<TileId>
    decreases node,
{
    match node {
        LayoutNode::Leaf { tile_id, visible } => if visible {
            seq![tile_id]
        } else {
            Seq::empty()
        },
        LayoutNode::Split { direction, constraints, children } => leaf_ids_all(
            children@,
            constraints@.len() as int,
            0,
        ),
    }
}

/// The visible tiles of `nodes` from the `i`-th on, up to the `count`-th.
pub open spec fn leaf_ids_all(nodes: Seq<LayoutNode>, count: int, i: int) -> Seq<TileId>
    decreases nodes, nodes.len() - i,
{
    if 0 <= i < nodes.len() && i < count {
        leaf_ids(nodes[i]) + leaf_ids_all(nodes, count, i + 1)
    } else {
        Seq::empty()
    }
}

/// The tiles of placed areas.
pub open spec fn placed_ids(s: Seq<(TileId, Area)>) -> Seq<TileId> {
    s.map_values(|p: (TileId, Area)| p.0)
}

/// `n` is a leaf of the tile `t`, shown.
pub open spec fn shown_leaf(n: LayoutNode, t: TileId) -> bool {
    n == LayoutNode::Leaf { tile_id: t, visible: true }
}

/// `n` splits in `d` by `cs` into `children`.
pub open spec fn splits(n: LayoutNode, d: Direction, cs: Seq<Constraint>, count: nat) -> bool {
    n matches LayoutNode::Split { direction, constraints, children } && direction == d
        && constraints@ == cs && children@.len() == count
}

/// The child `i` of a split.
pub open spec fn child(n: LayoutNode, i: int) -> LayoutNode {
    match n {
        LayoutNode::Split { children, .. } => children@[i],
        _ => n,
    }
}

/// The browser's layout: the file list on the left; the properties (30%) over
/// the preview (70%) on the right; the status bar below, one row high.
pub open spec fn is_default_layout(n: LayoutNode) -> bool {
    &&& splits(n, Direction::Vertical, seq![Constraint::Min(1), Constraint::Length(1)], 2)
    &&& splits(
        child(n, 0),
        Direction::Horizontal,
        seq![Constraint::Percentage(50), Constraint::Percentage(50)],
        2,
    )
    &&& shown_leaf(child(child(n, 0), 0), TileId::FileList)
    &&& splits(
        child(child(n, 0), 1),
        Direction::Vertical,
        seq![Constraint::Percentage(30), Constraint::Percentage(70)],
        2,
    )
    &&& shown_leaf(child(child(child(n, 0), 1), 0), TileId::Properties)
    &&& shown_leaf(child(child(child(n, 0), 1), 1), TileId::Preview)
    &&& shown_leaf(child(n, 1), TileId::StatusBar)
}

impl LayoutNode {
    /// The browser's layout: the file list on the left; the properties over
    /// the preview on the right; the status bar below, one row high.
    pub fn default_layout() -> (r: LayoutNode)
        ensures
            is_default_layout(r),
    {
        let right = LayoutNode::Split {
            direction: Direction::Vertical,
            constraints: vec![Constraint::Percentage(30), Constraint::Percentage(70)],
            children: vec![
                LayoutNode::Leaf { tile_id: TileId::Properties, visible: true },
                LayoutNode::Leaf { tile_id: TileId::Preview, visible: true },
            ],
        };
        let top = LayoutNode::Split {
            direction: Direction::Horizontal,
            constraints: vec![Constraint::Percentage(50), Constraint::Percentage(50)],
            children: vec![LayoutNode::Leaf { tile_id: TileId::FileList, visible: true }, right],
        };
        let r = LayoutNode::Split {
            direction: Direction::Vertical,
            constraints: vec![Constraint::Min(1), Constraint::Length(1)],
            children: vec![top, LayoutNode::Leaf { tile_id: TileId::StatusBar, visible: true }],
        };
        assert(is_default_layout(r));
        r
    }

    /// The areas of the visible tiles over `area`: each visible leaf, in
    /// order, with an area inside `area`. A split's children are placed by
    /// `place_children` in the parts the split of `area` gave.
    pub fn resolve(&self, area: Area) -> (r: Vec<(TileId, Area)>)
        ensures
            placed_ids(r@) == leaf_ids(*self),
            forall|i: int| 0 <= i < r@.len() ==> inside(#[trigger] r@[i].1, area),
        decreases *self, 1int,
    {
        match self {
            LayoutNode::Leaf { tile_id, visible } => {
                let mut r = Vec::new();
                if *visible {
                    r.push((*tile_id, area));
                }
                assert(placed_ids(r@) =~= leaf_ids(*self));
                r
            },
            LayoutNode::Split { direction, constraints, children } => {
                let parts = split(*direction, constraints, area);
                assert forall|k: int| 0 <= k < parts@.len() implies inside(#[trigger] parts@[k], area) by {
                    assert(band_of(parts@[k], clamp_area(area), *direction));
                }
                self.place_children(&parts, area)
            },
        }
    }

    /// Places the children of a split in `parts`, the parts its split gave:
    /// child `i` is resolved in part `i`, children beyond the parts are left
    /// out, and the tiles come out in the order of the leaves. Every area lies
    /// inside `outer` when every part does.
    pub fn place_children(&self, parts: &Vec<Area>, outer: Area) -> (r: Vec<(TileId, Area)>)
        requires
            self is Split,
            parts@.len() == self->constraints@.len(),
            forall|k: int| 0 <= k < parts@.len() ==> inside(#[trigger] parts@[k], outer),
        ensures
            placed_ids(r@) == leaf_ids(*self),
            forall|k: int, j: int|
                #![trigger leaves_before(self->children@, k), r@[j]]
                0 <= k < self->children@.len() && k < parts@.len() && leaves_before(self->children@, k)
                    <= j < leaves_before(self->children@, k + 1) ==> inside(r@[j].1, parts@[k]),
            forall|j: int| 0 <= j < r@.len() ==> inside(#[trigger] r@[j].1, outer),
        decreases *self, 0int,
    {
        let children = match self {
            LayoutNode::Split { children, .. } => children,
            LayoutNode::Leaf { .. } => {
                proof {
                    assert(false);
                }
                return Vec::new();
            },
        };
        let ghost cs = children@;
        let ghost count = self->constraints@.len() as int;
        let mut r: Vec<(TileId, Area)> = Vec::new();
        let mut i: usize = 0;
        let n = if children.len() < parts.len() {
            children.len()
        } else {
            parts.len()
        };
        assert(placed_ids(r@) =~= Seq::<TileId>::empty());
        assert(Seq::<TileId>::empty() + leaf_ids_all(cs, count, 0) =~= leaf_ids_all(cs, count, 0));
        while i < n
            invariant
                self is Split,
                cs == self->children@,
                *children == self->children,
                count == self->constraints@.len(),
                n <= cs.len(),
                n <= parts@.len(),
                parts@.len() == count,
                n == cs.len() || n == parts@.len(),
                i <= n,
                leaf_ids(*self) == placed_ids(r@) + leaf_ids_all(cs, count, i as int),
                r@.len() == leaves_before(cs, i as int),
                forall|k: int, j: int|
                    #![trigger leaves_before(cs, k), r@[j]]
                    0 <= k < i && leaves_before(cs, k) <= j < leaves_before(cs, k + 1) ==> inside(
                        r@[j].1,
                        parts@[k],
                    ),
                forall|k: int| 0 <= k < parts@.len() ==> inside(#[trigger] parts@[k], outer),
                forall|j: int| 0 <= j < r@.len() ==> inside(#[trigger] r@[j].1, outer),
            decreases n - i,
        {
            proof {
                assert(decreases_to!(*self => (*self)->children));
                assert(decreases_to!(*children => children@));
                assert(decreases_to!(children@ => children@[i as int]));
                assert(decreases_to!(*self => children@[i as int]));
            }
            let part = parts[i];
            let sub = children[i].resolve(part);
            let ghost before = r@;
            let mut m: usize = 0;
            while m < sub.len()
                invariant
                    m <= sub@.len(),
                    r@ == before + sub@.subrange(0, m as int),
                decreases sub.len() - m,
            {
                r.push(sub[m]);
                m = m + 1;
                assert(r@ =~= before + sub@.subrange(0, m as int));
            }
            assert(sub@.subrange(0, sub@.len() as int) =~= sub@);
            assert(placed_ids(sub@).len() == sub@.len());
            assert(leaves_before(cs, i + 1) == leaves_before(cs, i as int) + leaf_ids(cs[i as int]).len());
            assert forall|k: int, j: int|
                #![trigger leaves_before(cs, k), r@[j]]
                0 <= k < i + 1 && leaves_before(cs, k) <= j < leaves_before(cs, k + 1) implies inside(
                    r@[j].1,
                    parts@[k],
                ) by {
                lemma_leaves_before_monotonic(cs, 0, k);
                if k < i {
                    lemma_leaves_before_monotonic(cs, k + 1, i as int);
                    assert(j < before.len());
                    assert(r@[j] == before[j]);
                } else {
                    assert(r@[j] == sub@[j - before.len()]);
                }
            }
            assert forall|j: int| 0 <= j < r@.len() implies inside(#[trigger] r@[j].1, outer) by {
                if j >= before.len() {
                    assert(r@[j] == sub@[j - before.len()]);
                    assert(inside(parts@[i as int], outer));
                } else {
                    assert(r@[j] == before[j]);
                }
            }
            assert(placed_ids(r@) =~= placed_ids(before) + placed_ids(sub@));
            assert(leaf_ids_all(cs, count, i as int) == leaf_ids(cs[i as int]) + leaf_ids_all(
                cs,
                count,
                i + 1,
            ));
            assert(placed_ids(before) + leaf_ids_all(cs, count, i as int) =~= placed_ids(r@)
                + leaf_ids_all(cs, count, i + 1));
            i = i + 1;
        }
        assert(leaf_ids_all(cs, count, i as int) =~= Seq::<TileId>::empty());
        assert(placed_ids(r@) + Seq::<TileId>::empty() =~= placed_ids(r@));
        assert forall|k: int, j: int|
            #![trigger leaves_before(cs, k), r@[j]]
            0 <= k < cs.len() && k < parts@.len() && leaves_before(cs, k) <= j < leaves_before(cs, k + 1)
                implies inside(r@[j].1, parts@[k]) by {
            assert(k < i);
        }
        r
    }
}

/// How many visible tiles the first `i` of `nodes` hold.
pub open spec fn leaves_before(nodes: Seq<LayoutNode>, i: int) -> int
    decreases i,
{
    if i <= 0 {
        0
    } else {
        leaves_before(nodes, i - 1) + leaf_ids(nodes[i - 1]).len()
    }
}

proof fn lemma_leaves_before_monotonic(nodes: Seq<LayoutNode>, a: int, b: int)
    requires
        0 <= a <= b,
    ensures
        leaves_before(nodes, a) <= leaves_before(nodes, b),
    decreases b - a,
{
    if a < b {
        lemma_leaves_before_monotonic(nodes, a, b - 1);
    }
}

/// The constraints of a three-way split whose middle takes `percent` percent
/// and whose outer parts take half of what is left each.
pub fn middle_constraints(percent: u16) -> (r: Vec<Constraint>)
    requires
        percent <= 100,
    ensures
        r@ == seq![
            Constraint::Percentage(((100 - percent) / 2) as u16),
            Constraint::Percentage(percent),
            Constraint::Percentage(((100 - percent) / 2) as u16),
        ],
{
    let side = (100 - percent) / 2;
    let r = vec![Constraint::Percentage(side), Constraint::Percentage(percent), Constraint::Percentage(side)];
    assert(r@ =~= seq![
        Constraint::Percentage(((100 - percent) / 2) as u16),
        Constraint::Percentage(percent),
        Constraint::Percentage(((100 - percent) / 2) as u16),
    ]);
    r
}

/// The constraints of a three-way split whose middle is `height` long between
/// two flexible parts.
pub fn fixed_middle_constraints(height: u16) -> (r: Vec<Constraint>)
    ensures
        r@ == seq![Constraint::Min(0), Constraint::Length(height), Constraint::Min(0)],
{
    let r = vec![Constraint::Min(0), Constraint::Length(height), Constraint::Min(0)];
    assert(r@ =~= seq![Constraint::Min(0), Constraint::Length(height), Constraint::Min(0)]);
    r
}

/// The middle of three parts.
pub fn middle_of(parts: &Vec<Area>) -> (r: Area)
    requires
        parts@.len() == 3,
    ensures
        r == parts@[1],
{
    parts[1]
}

/// The middle part of three in `direction`, split by `middle_constraints`:
/// where the solver places it is left to the solver; it is a band in
/// `direction` of `area` as the terminal library holds it, which is `area`
/// itself when its edges fit in 16-bit coordinates.
pub fn middle_part(direction: Direction, percent: u16, area: Area) -> (r: Area)
    requires
        percent <= 100,
    ensures
        band_of(r, clamp_area(area), direction),
        inside(r, area),
{
    let constraints = middle_constraints(percent);
    let parts = split(direction, &constraints, area);
    assert(band_of(parts@[1], clamp_area(area), direction));
    middle_of(&parts)
}

/// A popup's area: the middle `percent_y` percent of the rows of `area`, and
/// of those the middle `percent_x` percent of the columns; it lies inside
/// `area`.
pub fn centered_rect(percent_x: u16, percent_y: u16, area: Area) -> (r: Area)
    requires
        percent_x <= 100,
        percent_y <= 100,
    ensures
        inside(r, area),
{
    let rows = middle_part(Direction::Vertical, percent_y, area);
    middle_part(Direction::Horizontal, percent_x, rows)
}

/// A popup's area of fixed height: `height` rows between two flexible bands
/// (`fixed_middle_constraints`), and of those the middle `percent_x` percent
/// of the columns; it lies inside `area`.
pub fn centered_rect_fixed(percent_x: u16, height: u16, area: Area) -> (r: Area)
    requires
        percent_x <= 100,
    ensures
        inside(r, area),
{
    let constraints = fixed_middle_constraints(height);
    let parts = split(Direction::Vertical, &constraints, area);
    assert(band_of(parts@[1], clamp_area(area), Direction::Vertical));
    let rows = middle_of(&parts);
    middle_part(Direction::Horizontal, percent_x, rows)
}

} // verus!
