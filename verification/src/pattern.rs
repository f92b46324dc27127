//! Sequencer patterns: named boolean step grids.
//!
//! A pattern holds one 16-column row per instrument slot; column `s` of row
//! `i` says whether instrument `i` triggers on sequencer step `s`. Rows are
//! positionally aligned to the instrument list, so growing the instrument
//! list appends an all-false row to every pattern.

use vstd::prelude::*;

verus! {

/// A named fixed-size boolean grid: rows are instrument slots, columns the
/// 16 sequencer steps.
pub struct Pattern {
    /// Display name.
    pub name: String,
    /// The grid: one 16-entry row per instrument slot.
    pub data: Vec<Vec<bool>>,
}

/// Validity of a bare step grid: every row has exactly 16 columns.
pub open spec fn grid_wf(g: Seq<Vec<bool>>) -> bool {
    forall|r: int| 0 <= r < g.len() ==> (#[trigger] g[r])@.len() == 16
}

/// A grid of `rows` all-false rows of 16 columns.
pub fn blank_grid(rows: usize) -> (g: Vec<Vec<bool>>)
    ensures
        g@.len() == rows,
        grid_wf(g@),
        forall|r: int, s: int| 0 <= r < rows && 0 <= s < 16 ==> !(#[trigger] g@[r]@[s]),
{
    let mut g: Vec<Vec<bool>> = Vec::new();
    let mut r: usize = 0;
    while r < rows
        invariant
            r <= rows,
            g@.len() == r,
            grid_wf(g@),
            forall|i: int, s: int| 0 <= i < r && 0 <= s < 16 ==> !(#[trigger] g@[i]@[s]),
        decreases rows - r,
    {
        g.push(blank_row());
        r = r + 1;
    }
    g
}

/// One all-false row of 16 columns.
pub fn blank_row() -> (row: Vec<bool>)
    ensures
        row@.len() == 16,
        forall|s: int| 0 <= s < 16 ==> !(#[trigger] row@[s]),
{
    let mut row: Vec<bool> = Vec::new();
    let mut s: usize = 0;
    while s < 16
        invariant
            s <= 16,
            row@.len() == s,
            forall|j: int| 0 <= j < s ==> !(#[trigger] row@[j]),
        decreases 16 - s,
    {
        row.push(false);
        s = s + 1;
    }
    row
}

/// A copy of a step grid, row by row.
pub fn copy_grid(g: &Vec<Vec<bool>>) -> (r: Vec<Vec<bool>>)
    ensures
        r@.len() == g@.len(),
        forall|i: int| 0 <= i < g@.len() ==> (#[trigger] r@[i])@ == g@[i]@,
{
    let mut out: Vec<Vec<bool>> = Vec::new();
    let mut i: usize = 0;
    while i < g.len()
        invariant
            i <= g@.len(),
            out@.len() == i,
            forall|j: int| 0 <= j < i ==> (#[trigger] out@[j])@ == g@[j]@,
        decreases g@.len() - i,
    {
        let row = &g[i];
        let mut copy: Vec<bool> = Vec::new();
        let mut s: usize = 0;
        while s < row.len()
            invariant
                s <= row@.len(),
                copy@.len() == s,
                forall|j: int| 0 <= j < s ==> #[trigger] copy@[j] == row@[j],
            decreases row@.len() - s,
        {
            copy.push(row[s]);
            s = s + 1;
        }
        proof {
            assert(copy@ =~= g@[i as int]@);
        }
        out.push(copy);
        i = i + 1;
    }
    out
}

impl Pattern {
    /// Validity: every row has exactly 16 columns.
    pub open spec fn wf(self) -> bool {
        grid_wf(self.data@)
    }

    /// A named pattern of `rows` all-false rows.
    pub fn blank(name: String, rows: usize) -> (p: Pattern)
        ensures
            p.wf(),
            p.name == name,
            p.data@.len() == rows,
            forall|r: int, s: int| 0 <= r < rows && 0 <= s < 16 ==> !(#[trigger] p.data@[r]@[s]),
    {
        Pattern { name, data: blank_grid(rows) }
    }

    /// Appends an all-false row for a freshly added instrument slot.
    pub fn add_row(&mut self)
        ensures
            final(self).name == old(self).name,
            final(self).data@.len() == old(self).data@.len() + 1,
            forall|r: int|
                0 <= r < old(self).data@.len() ==> (#[trigger] final(self).data@[r])@ == old(
                    self,
                ).data@[r]@,
            (final(self).data@[old(self).data@.len() as int])@.len() == 16,
            forall|s: int|
                0 <= s < 16 ==> !(#[trigger] (final(self).data@[old(self).data@.len() as int])@[s]),
            old(self).wf() ==> final(self).wf(),
    {
        self.data.push(blank_row());
    }

    /// A copy of this pattern under a new name.
    pub fn duplicate(&self, name: String) -> (p: Pattern)
        ensures
            p.name == name,
            p.data@.len() == self.data@.len(),
            forall|r: int| 0 <= r < self.data@.len() ==> (#[trigger] p.data@[r])@ == self.data@[r]@,
            self.wf() ==> p.wf(),
    {
        Pattern { name, data: copy_grid(&self.data) }
    }

    /// Number of instrument rows.
    pub fn row_count(&self) -> (n: usize)
        ensures
            n == self.data@.len(),
    {
        self.data.len()
    }

    /// Whether instrument `row` triggers on step `step`; a row or step
    /// outside the grid reads as false.
    pub fn step_on(&self, row: usize, step: usize) -> (b: bool)
        ensures
            b == (row < self.data@.len() && step < self.data@[row as int]@.len()
                && self.data@[row as int]@[step as int]),
    {
        if row < self.data.len() {
            let r = &self.data[row];
            if step < r.len() {
                r[step]
            } else {
                false
            }
        } else {
            false
        }
    }
}

} // verus!
