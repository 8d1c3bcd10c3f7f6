//! Lookup of the tutorial phase that a progress value stands for.
//!
//! The phases are an ordered table of half-open ranges of progress values.
//! The ranges follow one another without gap from zero on, and the last has
//! no end, so every value from zero on lies in exactly one of them.

use vstd::prelude::*;

verus! {

/// A named range of progress values: from `from` on, and below `until`
/// where there is one.
#[derive(Debug, Clone, Copy)]
pub struct PhaseRange {
    pub from: i32,
    pub until: Option<i32>,
    pub name: &'static str,
}

impl PhaseRange {
    /// The range holds the value.
    pub open spec fn holds(self, value: int) -> bool {
        self.from <= value && (self.until matches Some(end) ==> value < end)
    }

    /// Whether the range holds the value.
    pub fn contains(&self, value: i32) -> (inside: bool)
        ensures
            inside == self.holds(value as int),
    {
        value >= self.from && match self.until {
            Some(end) => value < end,
            None => true,
        }
    }
}

/// The name given to a value that no range holds.
pub open spec fn unknown_phase() -> Seq<char> {
    "unknown"@
}

/// The phases, in lookup order.
pub open spec fn phase_table() -> Seq<PhaseRange> {
    seq![
        PhaseRange { from: 0, until: Some(1), name: "character_creation" },
        PhaseRange { from: 1, until: Some(10), name: "gielinor_guide" },
        PhaseRange { from: 10, until: Some(20), name: "gielinor_guide" },
        PhaseRange { from: 20, until: Some(70), name: "survival_expert" },
        PhaseRange { from: 70, until: Some(120), name: "master_chef" },
        PhaseRange { from: 120, until: Some(170), name: "quest_guide" },
        PhaseRange { from: 170, until: Some(230), name: "mining_instructor" },
        PhaseRange { from: 230, until: Some(270), name: "combat_instructor" },
        PhaseRange { from: 270, until: Some(310), name: "financial_advisor" },
        PhaseRange { from: 310, until: Some(400), name: "brother_brace" },
        PhaseRange { from: 400, until: Some(500), name: "magic_instructor" },
        PhaseRange { from: 500, until: Some(600), name: "magic_instructor_final" },
        PhaseRange { from: 600, until: None, name: "completed" },
    ]
}

/// The name of the first range at or after index `from` that holds the
/// value, or `"unknown"`.
pub open spec fn phase_from(table: Seq<PhaseRange>, value: int, from: int) -> Seq<char>
    decreases table.len() - from,
{
    if from < 0 || from >= table.len() {
        unknown_phase()
    } else if table[from].holds(value) {
        table[from].name@
    } else {
        phase_from(table, value, from + 1)
    }
}

/// The name of the phase that the progress value stands for.
pub open spec fn phase_name(value: int) -> Seq<char> {
    phase_from(phase_table(), value, 0)
}

/// The ranges of a table follow one another without gap from zero on, and
/// only the last has no end.
pub open spec fn contiguous_from_zero(table: Seq<PhaseRange>) -> bool {
    &&& table.len() > 0
    &&& table[0].from == 0
    &&& table.last().until is None
    &&& forall|i: int|
        0 <= i < table.len() - 1 ==> {
            &&& (#[trigger] table[i]).until == Some(table[i + 1].from)
            &&& table[i].from < table[i + 1].from
        }
}

/// The table of phases.
pub fn phase_ranges() -> (table: Vec<PhaseRange>)
    ensures
        table@ == phase_table(),
{
    let table = vec![
        PhaseRange { from: 0, until: Some(1), name: "character_creation" },
        PhaseRange { from: 1, until: Some(10), name: "gielinor_guide" },
        PhaseRange { from: 10, until: Some(20), name: "gielinor_guide" },
        PhaseRange { from: 20, until: Some(70), name: "survival_expert" },
        PhaseRange { from: 70, until: Some(120), name: "master_chef" },
        PhaseRange { from: 120, until: Some(170), name: "quest_guide" },
        PhaseRange { from: 170, until: Some(230), name: "mining_instructor" },
        PhaseRange { from: 230, until: Some(270), name: "combat_instructor" },
        PhaseRange { from: 270, until: Some(310), name: "financial_advisor" },
        PhaseRange { from: 310, until: Some(400), name: "brother_brace" },
        PhaseRange { from: 400, until: Some(500), name: "magic_instructor" },
        PhaseRange { from: 500, until: Some(600), name: "magic_instructor_final" },
        PhaseRange { from: 600, until: None, name: "completed" },
    ];
    assert(table@ =~= phase_table());
    table
}

/// Names the tutorial phase that a progress value stands for.
pub fn infer_tutorial_phase(varbit_281: i32) -> (name: &'static str)
    ensures
        name@ == phase_name(varbit_281 as int),
{
    let table = phase_ranges();
    let mut i: usize = 0;
    while i < table.len()
        invariant
            i <= table.len(),
            phase_name(varbit_281 as int) == phase_from(table@, varbit_281 as int, i as int),
        decreases table.len() - i,
    {
        if table[i].contains(varbit_281) {
            return table[i].name;
        }
        i = i + 1;
    }
    "unknown"
}

/// Lookup passes over ranges that do not hold the value.
proof fn lemma_phase_skip(value: int, from: int, to: int)
    requires
        0 <= from <= to <= phase_table().len(),
        forall|j: int| from <= j < to ==> !(#[trigger] phase_table()[j]).holds(value),
    ensures
        phase_from(phase_table(), value, from) == phase_from(phase_table(), value, to),
    decreases to - from,
{
    if from < to {
        lemma_phase_skip(value, from + 1, to);
    }
}

/// The phase table is contiguous from zero on.
pub proof fn lemma_phase_table_contiguous()
    ensures
        contiguous_from_zero(phase_table()),
{
}

/// In a table that is contiguous from zero on, every value from zero on lies
/// in a range at or after any range that starts at or below it.
proof fn lemma_contiguous_covers(table: Seq<PhaseRange>, value: int, start: int) -> (i: int)
    requires
        contiguous_from_zero(table),
        0 <= start < table.len(),
        table[start].from <= value,
    ensures
        start <= i < table.len(),
        table[i].holds(value),
    decreases table.len() - start,
{
    if table[start].holds(value) {
        start
    } else {
        assert(start < table.len() - 1);
        lemma_contiguous_covers(table, value, start + 1)
    }
}

/// In a table that is contiguous from zero on, the starts of the ranges
/// grow with their index.
proof fn lemma_contiguous_ordered(table: Seq<PhaseRange>, i: int, j: int)
    requires
        contiguous_from_zero(table),
        0 <= i < j < table.len(),
    ensures
        table[i].until matches Some(end) && end <= table[j].from,
    decreases j - i,
{
    if i + 1 < j {
        lemma_contiguous_ordered(table, i + 1, j);
    }
}

/// The ranges are contiguous and exhaustive: every progress value from zero
/// on lies in exactly one range of the table, and the phase it stands for is
/// the name of that range.
pub proof fn lemma_phase_exactly_one(value: int) -> (i: int)
    requires
        value >= 0,
    ensures
        0 <= i < phase_table().len(),
        phase_table()[i].holds(value),
        forall|j: int|
            0 <= j < phase_table().len() && (#[trigger] phase_table()[j]).holds(value) ==> j == i,
        phase_name(value) == phase_table()[i].name@,
{
    let table = phase_table();
    lemma_phase_table_contiguous();
    let i = lemma_contiguous_covers(table, value, 0);
    assert forall|j: int| 0 <= j < table.len() && (#[trigger] table[j]).holds(value) implies j
        == i by {
        if j < i {
            lemma_contiguous_ordered(table, j, i);
        } else if i < j {
            lemma_contiguous_ordered(table, i, j);
        }
    }
    lemma_phase_skip(value, 0, i);
    i
}

/// A negative progress value stands for no phase.
pub proof fn lemma_phase_negative_unknown(value: int)
    requires
        value < 0,
    ensures
        phase_name(value) == unknown_phase(),
{
    lemma_phase_skip(value, 0, phase_table().len() as int);
}

/// Every progress value from 600 on stands for the last phase.
pub proof fn lemma_phase_completed(value: int)
    requires
        value >= 600,
    ensures
        phase_name(value) == "completed"@,
{
    let i = lemma_phase_exactly_one(value);
    assert(phase_table()[12].holds(value));
}

/// No range of the table is named `"unknown"`, so every progress value from
/// zero on stands for a defined phase.
pub proof fn lemma_phase_defined(value: int)
    requires
        value >= 0,
    ensures
        phase_name(value) != unknown_phase(),
{
    let i = lemma_phase_exactly_one(value);
    reveal_strlit("unknown");
    reveal_strlit("character_creation");
    reveal_strlit("gielinor_guide");
    reveal_strlit("survival_expert");
    reveal_strlit("master_chef");
    reveal_strlit("quest_guide");
    reveal_strlit("mining_instructor");
    reveal_strlit("combat_instructor");
    reveal_strlit("financial_advisor");
    reveal_strlit("brother_brace");
    reveal_strlit("magic_instructor");
    reveal_strlit("magic_instructor_final");
    reveal_strlit("completed");
    assert(unknown_phase().len() == 7);
    assert(phase_table()[i].name@.len() > 7);
}

} // verus!
