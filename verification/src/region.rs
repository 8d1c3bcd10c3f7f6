//! Lookup of the named area that holds a world position.
//!
//! The areas are an ordered table of rectangles. The first rectangle that
//! holds a position names it; a position that none holds is `"unknown"`.

use vstd::prelude::*;

verus! {

/// A named rectangle of world coordinates, bounds included.
#[derive(Debug, Clone, Copy)]
pub struct RegionBox {
    pub x_min: i32,
    pub x_max: i32,
    pub y_min: i32,
    pub y_max: i32,
    pub name: &'static str,
}

impl RegionBox {
    /// The rectangle holds the position.
    pub open spec fn holds(self, x: int, y: int) -> bool {
        self.x_min <= x <= self.x_max && self.y_min <= y <= self.y_max
    }

    /// Whether the rectangle holds the position.
    pub fn contains(&self, x: i32, y: i32) -> (inside: bool)
        ensures
            inside == self.holds(x as int, y as int),
    {
        x >= self.x_min && x <= self.x_max && y >= self.y_min && y <= self.y_max
    }
}

/// The name given to a position that no rectangle holds.
pub open spec fn unknown_region() -> Seq<char> {
    "unknown"@
}

/// The areas, in lookup order.
pub open spec fn region_table() -> Seq<RegionBox> {
    seq![
        RegionBox { x_min: 3050, x_max: 3150, y_min: 3050, y_max: 3150, name: "Tutorial Island" },
        RegionBox { x_min: 3200, x_max: 3250, y_min: 3200, y_max: 3250, name: "Lumbridge" },
        RegionBox { x_min: 3180, x_max: 3290, y_min: 3380, y_max: 3500, name: "Varrock" },
        RegionBox { x_min: 2940, x_max: 3040, y_min: 3310, y_max: 3400, name: "Falador" },
        RegionBox { x_min: 3080, x_max: 3120, y_min: 3230, y_max: 3280, name: "Draynor" },
        RegionBox { x_min: 3270, x_max: 3330, y_min: 3140, y_max: 3200, name: "Al Kharid" },
        RegionBox { x_min: 3080, x_max: 3110, y_min: 3480, y_max: 3520, name: "Edgeville" },
        RegionBox {
            x_min: 3070,
            x_max: 3110,
            y_min: 3410,
            y_max: 3440,
            name: "Barbarian Village",
        },
    ]
}

/// The name of the first rectangle at or after index `from` that holds the
/// position, or `"unknown"`.
pub open spec fn region_from(table: Seq<RegionBox>, x: int, y: int, from: int) -> Seq<char>
    decreases table.len() - from,
{
    if from < 0 || from >= table.len() {
        unknown_region()
    } else if table[from].holds(x, y) {
        table[from].name@
    } else {
        region_from(table, x, y, from + 1)
    }
}

/// The name of the area that holds the position.
pub open spec fn region_name(x: int, y: int) -> Seq<char> {
    region_from(region_table(), x, y, 0)
}

/// The table of areas.
pub fn region_boxes() -> (table: Vec<RegionBox>)
    ensures
        table@ == region_table(),
{
    let table = vec![
        RegionBox { x_min: 3050, x_max: 3150, y_min: 3050, y_max: 3150, name: "Tutorial Island" },
        RegionBox { x_min: 3200, x_max: 3250, y_min: 3200, y_max: 3250, name: "Lumbridge" },
        RegionBox { x_min: 3180, x_max: 3290, y_min: 3380, y_max: 3500, name: "Varrock" },
        RegionBox { x_min: 2940, x_max: 3040, y_min: 3310, y_max: 3400, name: "Falador" },
        RegionBox { x_min: 3080, x_max: 3120, y_min: 3230, y_max: 3280, name: "Draynor" },
        RegionBox { x_min: 3270, x_max: 3330, y_min: 3140, y_max: 3200, name: "Al Kharid" },
        RegionBox { x_min: 3080, x_max: 3110, y_min: 3480, y_max: 3520, name: "Edgeville" },
        RegionBox {
            x_min: 3070,
            x_max: 3110,
            y_min: 3410,
            y_max: 3440,
            name: "Barbarian Village",
        },
    ];
    assert(table@ =~= region_table());
    table
}

/// Names the area that holds a world position.
pub fn infer_region(x: i32, y: i32) -> (name: &'static str)
    ensures
        name@ == region_name(x as int, y as int),
{
    let table = region_boxes();
    let mut i: usize = 0;
    while i < table.len()
        invariant
            i <= table.len(),
            region_name(x as int, y as int) == region_from(table@, x as int, y as int, i as int),
        decreases table.len() - i,
    {
        if table[i].contains(x, y) {
            return table[i].name;
        }
        i = i + 1;
    }
    "unknown"
}

/// The first match wins: a position takes the name of a rectangle that
/// holds it when no earlier rectangle of the table does.
pub proof fn lemma_region_first_match(x: int, y: int, i: int)
    requires
        0 <= i < region_table().len(),
        region_table()[i].holds(x, y),
        forall|j: int| 0 <= j < i ==> !(#[trigger] region_table()[j]).holds(x, y),
    ensures
        region_name(x, y) == region_table()[i].name@,
{
    lemma_region_skip(x, y, 0, i);
}

/// A position that no rectangle of the table holds is unknown.
pub proof fn lemma_region_no_match(x: int, y: int)
    requires
        forall|j: int| 0 <= j < region_table().len() ==> !(#[trigger] region_table()[j]).holds(x, y),
    ensures
        region_name(x, y) == unknown_region(),
{
    lemma_region_skip(x, y, 0, region_table().len() as int);
}

/// Lookup passes over rectangles that do not hold the position.
proof fn lemma_region_skip(x: int, y: int, from: int, to: int)
    requires
        0 <= from <= to <= region_table().len(),
        forall|j: int| from <= j < to ==> !(#[trigger] region_table()[j]).holds(x, y),
    ensures
        region_from(region_table(), x, y, from) == region_from(region_table(), x, y, to),
    decreases to - from,
{
    if from < to {
        lemma_region_skip(x, y, from + 1, to);
    }
}

/// A position outside the span of the table, which reaches from 2940 to 3330
/// in `x` and from 3050 to 3520 in `y`, is unknown.
pub proof fn lemma_region_out_of_range(x: int, y: int)
    requires
        x < 2940 || x > 3330 || y < 3050 || y > 3520,
    ensures
        region_name(x, y) == unknown_region(),
{
    lemma_region_no_match(x, y);
}

/// The rectangles of the table are pairwise disjoint, so a position lies in
/// at most one of them and the order of the table decides nothing.
pub proof fn lemma_regions_disjoint(x: int, y: int, i: int, j: int)
    requires
        0 <= i < region_table().len(),
        0 <= j < region_table().len(),
        region_table()[i].holds(x, y),
        region_table()[j].holds(x, y),
    ensures
        i == j,
{
}

/// A position takes the name of whichever rectangle of the table holds it.
pub proof fn lemma_region_of_holder(x: int, y: int, i: int)
    requires
        0 <= i < region_table().len(),
        region_table()[i].holds(x, y),
    ensures
        region_name(x, y) == region_table()[i].name@,
{
    assert forall|j: int| 0 <= j < i implies !(#[trigger] region_table()[j]).holds(x, y) by {
        if region_table()[j].holds(x, y) {
            lemma_regions_disjoint(x, y, i, j);
        }
    }
    lemma_region_first_match(x, y, i);
}

} // verus!
