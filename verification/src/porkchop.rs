//! The transfer-window (porkchop) search: a grid of total delta-v over
//! departure offset and transfer duration, with the global-minimum cell
//! and its Lambert branch recorded while the grid is built.
//!
//! Each cell is designed twice, once per Lambert branch, and keeps the
//! cheaper branch; a cell where neither branch yields a design costs
//! `INF_COST`. The recorded minimum provably equals the minimum of the
//! whole grid.

use vstd::prelude::*;

verus! {

use crate::fixed::{FP_LIM, fp_add_s, fp_add};
use crate::vec3::V3;
use crate::bodies::{BodyState, BodyInfo};
use crate::archive::StateArchive;
use crate::interplanetary::{interplanetary, interplanetary_s, lambert_view};

/// The cost of a cell that no branch can serve: the saturation rail.
pub const INF_COST: i128 = FP_LIM;

/// Lambert velocities for one grid cell, one pair per branch choice
/// (`None` where the boundary-value solve failed).
pub struct PorkchopCell {
    pub depart_step: usize,
    pub arrival_step: usize,
    pub v_short: Option<(V3, V3)>,
    pub v_long: Option<(V3, V3)>,
}

/// The cost of one cell and the branch that won it: the short-way and
/// long-way designs compared by total delta-v, the cheaper kept (the
/// short way on a tie); `INF_COST` when neither branch yields a design.
pub open spec fn cell_cost_s(
    snaps: Seq<Vec<BodyState>>,
    infos: Seq<BodyInfo>,
    body1: int,
    body2: int,
    c: PorkchopCell,
) -> (int, bool) {
    let st1 = snaps[c.depart_step as int]@[body1]@;
    let st2 = snaps[c.arrival_step as int]@[body2]@;
    let short = interplanetary_s(
        st1,
        st2,
        infos[0].mu as int,
        infos[body1].mu as int,
        infos[body2].mu as int,
        body1,
        body2,
        lambert_view(c.v_short),
    );
    let long = interplanetary_s(
        st1,
        st2,
        infos[0].mu as int,
        infos[body1].mu as int,
        infos[body2].mu as int,
        body1,
        body2,
        lambert_view(c.v_long),
    );
    match short {
        Ok(s) => match long {
            Ok(l) => if fp_add_s(s.dv1, s.dv2) < fp_add_s(l.dv1, l.dv2) {
                (fp_add_s(s.dv1, s.dv2), true)
            } else {
                (fp_add_s(l.dv1, l.dv2), false)
            },
            Err(_) => (fp_add_s(s.dv1, s.dv2), true),
        },
        Err(_) => match long {
            Ok(l) => (fp_add_s(l.dv1, l.dv2), false),
            Err(_) => (INF_COST as int, true),
        },
    }
}

/// The smaller of two costs, the left one on a tie.
pub open spec fn cost_min(a: int, b: int) -> int {
    if b < a {
        b
    } else {
        a
    }
}

/// The minimum over the first `k` entries of a row, starting from
/// `INF_COST`.
pub open spec fn row_min_s(row: Seq<i128>, k: nat) -> int
    decreases k,
{
    if k == 0 {
        INF_COST as int
    } else {
        cost_min(row_min_s(row, (k - 1) as nat), row[k - 1] as int)
    }
}

/// The minimum over the first `k` rows of a grid.
pub open spec fn grid_min_s(rows: Seq<Vec<i128>>, k: nat) -> int
    decreases k,
{
    if k == 0 {
        INF_COST as int
    } else {
        cost_min(grid_min_s(rows, (k - 1) as nat), row_min_s(rows[k - 1]@, rows[k - 1]@.len()))
    }
}

/// The row minimum is no larger than any scanned entry.
pub proof fn lemma_row_min_le(row: Seq<i128>, k: nat, j: int)
    requires
        0 <= j < k,
        k <= row.len(),
    ensures
        row_min_s(row, k) <= row[j],
    decreases k,
{
    if j < k - 1 {
        lemma_row_min_le(row, (k - 1) as nat, j);
    }
}

/// The recorded grid minimum is no larger than any cell of the grid:
/// what the running minimum records is what a brute-force scan finds.
pub proof fn lemma_grid_min_is_least(rows: Seq<Vec<i128>>, k: nat, i: int, j: int)
    requires
        0 <= i < k,
        k <= rows.len(),
        0 <= j < rows[i]@.len(),
    ensures
        grid_min_s(rows, k) <= rows[i]@[j],
    decreases k,
{
    if i < k - 1 {
        lemma_grid_min_is_least(rows, (k - 1) as nat, i, j);
    } else {
        lemma_row_min_le(rows[i]@, rows[i]@.len(), j);
    }
}


/// A running row minimum never exceeds its starting value.
proof fn lemma_row_min_le_inf(row: Seq<i128>, k: nat)
    ensures
        row_min_s(row, k) <= INF_COST,
    decreases k,
{
    if k > 0 {
        lemma_row_min_le_inf(row, (k - 1) as nat);
    }
}

/// A running grid minimum never exceeds its starting value.
proof fn lemma_grid_min_le_inf(rows: Seq<Vec<i128>>, k: nat)
    ensures
        grid_min_s(rows, k) <= INF_COST,
    decreases k,
{
    if k > 0 {
        lemma_grid_min_le_inf(rows, (k - 1) as nat);
    }
}

/// Two rows that agree on their first `k` entries have the same running
/// minimum over them.
proof fn lemma_row_min_take(a: Seq<i128>, b: Seq<i128>, k: nat)
    requires
        k <= a.len(),
        k <= b.len(),
        forall|i: int| 0 <= i < k ==> a[i] == b[i],
    ensures
        row_min_s(a, k) == row_min_s(b, k),
    decreases k,
{
    if k > 0 {
        lemma_row_min_take(a, b, (k - 1) as nat);
    }
}

/// A porkchop cost map: one total-delta-v value per (transfer duration,
/// departure offset) cell, plus the recorded global-minimum cell.
pub struct PorkchopGrid {
    /// Cost rows: one row per transfer duration, one column per
    /// departure offset.
    pub rows: Vec<Vec<i128>>,
    /// The smallest cost in the grid (`INF_COST` when every cell failed).
    pub min_value: i128,
    /// Row (transfer-duration) index of the recorded minimum cell.
    pub min_travel: usize,
    /// Column (departure-offset) index of the recorded minimum cell.
    pub min_depart: usize,
    /// The Lambert branch that won the recorded minimum cell.
    pub min_short: bool,
}

/// An independent brute-force scan of a cost grid: the minimum cell value.
pub fn scan_min(rows: &Vec<Vec<i128>>) -> (m: i128)
    ensures
        m == grid_min_s(rows@, rows@.len() as nat),
{
    let mut m: i128 = INF_COST;
    let mut i: usize = 0;
    while i < rows.len()
        invariant
            i <= rows@.len(),
            m == grid_min_s(rows@, i as nat),
        decreases rows@.len() - i,
    {
        let row = &rows[i];
        proof {
            lemma_grid_min_le_inf(rows@, i as nat);
        }
        let mut j: usize = 0;
        while j < row.len()
            invariant
                i < rows@.len(),
                row == rows@[i as int],
                j <= row@.len(),
                m == cost_min(grid_min_s(rows@, i as nat), row_min_s(row@, j as nat)),
            decreases row@.len() - j,
        {
            if row[j] < m {
                m = row[j];
            }
            j = j + 1;
        }
        i = i + 1;
    }
    m
}

/// Build the porkchop grid: design every cell (both Lambert branches,
/// cheaper kept) and track the running global minimum with its cell
/// coordinates and branch choice. The recorded minimum provably equals
/// the grid minimum, and its coordinates point at a cell holding it.
#[verifier::rlimit(100)]
pub fn make_porkchop_grid(
    archive: &StateArchive,
    infos: &Vec<BodyInfo>,
    body1: usize,
    body2: usize,
    cells: &Vec<Vec<PorkchopCell>>,
) -> (g: PorkchopGrid)
    requires
        archive.wf(),
        body1 < archive.n_bodies(),
        body2 < archive.n_bodies(),
        infos@.len() == archive.n_bodies(),
        infos@.len() > 0,
        forall|i: int, j: int|
            0 <= i < cells@.len() && 0 <= j < cells@[i]@.len() ==> (
            #[trigger] cells@[i]@[j]).depart_step < archive.snaps@.len()
                && cells@[i]@[j].arrival_step < archive.snaps@.len(),
    ensures
        g.rows@.len() == cells@.len(),
        forall|i: int|
            0 <= i < cells@.len() ==> (#[trigger] g.rows@[i])@.len() == cells@[i]@.len(),
        forall|i: int, j: int|
            0 <= i < cells@.len() && 0 <= j < cells@[i]@.len() ==> (#[trigger] g.rows@[i]@[j])
                as int == cell_cost_s(archive.snaps@, infos@, body1 as int, body2 as int,
            cells@[i]@[j]).0,
        g.min_value == grid_min_s(g.rows@, g.rows@.len() as nat),
        g.min_value < INF_COST ==> g.min_travel < g.rows@.len() && g.min_depart
            < g.rows@[g.min_travel as int]@.len() && g.rows@[g.min_travel as int]@[g.min_depart as int]
            == g.min_value && g.min_short == cell_cost_s(
            archive.snaps@,
            infos@,
            body1 as int,
            body2 as int,
            cells@[g.min_travel as int]@[g.min_depart as int],
        ).1,
{
    let mut rows: Vec<Vec<i128>> = Vec::new();
    let mut min_value: i128 = INF_COST;
    let mut min_travel: usize = 0;
    let mut min_depart: usize = 0;
    let mut min_short: bool = true;
    let mut i: usize = 0;
    while i < cells.len()
        invariant
            archive.wf(),
            body1 < archive.n_bodies(),
            body2 < archive.n_bodies(),
            infos@.len() == archive.n_bodies(),
            infos@.len() > 0,
            forall|a: int, b: int|
                0 <= a < cells@.len() && 0 <= b < cells@[a]@.len() ==> (
                #[trigger] cells@[a]@[b]).depart_step < archive.snaps@.len()
                    && cells@[a]@[b].arrival_step < archive.snaps@.len(),
            i <= cells@.len(),
            rows@.len() == i,
            forall|a: int| 0 <= a < i ==> (#[trigger] rows@[a])@.len() == cells@[a]@.len(),
            forall|a: int, b: int|
                0 <= a < i && 0 <= b < cells@[a]@.len() ==> (#[trigger] rows@[a]@[b]) as int
                    == cell_cost_s(archive.snaps@, infos@, body1 as int, body2 as int,
                cells@[a]@[b]).0,
            min_value == grid_min_s(rows@, i as nat),
            min_value < INF_COST ==> min_travel < i && min_depart
                < rows@[min_travel as int]@.len() && rows@[min_travel as int]@[min_depart as int]
                == min_value && min_short == cell_cost_s(
                archive.snaps@,
                infos@,
                body1 as int,
                body2 as int,
                cells@[min_travel as int]@[min_depart as int],
            ).1,
        decreases cells@.len() - i,
    {
        let crow = &cells[i];
        let mut row: Vec<i128> = Vec::new();
        proof {
            lemma_grid_min_le_inf(rows@, i as nat);
        }
        let mut j: usize = 0;
        while j < crow.len()
            invariant
                archive.wf(),
                body1 < archive.n_bodies(),
                body2 < archive.n_bodies(),
                infos@.len() == archive.n_bodies(),
                infos@.len() > 0,
                forall|a: int, b: int|
                    0 <= a < cells@.len() && 0 <= b < cells@[a]@.len() ==> (
                    #[trigger] cells@[a]@[b]).depart_step < archive.snaps@.len()
                        && cells@[a]@[b].arrival_step < archive.snaps@.len(),
                i < cells@.len(),
                crow == cells@[i as int],
                rows@.len() == i,
                forall|a: int| 0 <= a < i ==> (#[trigger] rows@[a])@.len() == cells@[a]@.len(),
                forall|a: int, b: int|
                    0 <= a < i && 0 <= b < cells@[a]@.len() ==> (#[trigger] rows@[a]@[b]) as int
                        == cell_cost_s(archive.snaps@, infos@, body1 as int, body2 as int,
                    cells@[a]@[b]).0,
                j <= crow@.len(),
                row@.len() == j,
                forall|b: int|
                    0 <= b < j ==> (#[trigger] row@[b]) as int == cell_cost_s(
                        archive.snaps@,
                        infos@,
                        body1 as int,
                        body2 as int,
                        cells@[i as int]@[b],
                    ).0,
                min_value == cost_min(grid_min_s(rows@, i as nat), row_min_s(row@, j as nat)),
                min_value < INF_COST ==> (min_travel < i && min_depart
                    < rows@[min_travel as int]@.len() && rows@[min_travel as int]@[min_depart as int]
                    == min_value && min_short == cell_cost_s(
                    archive.snaps@,
                    infos@,
                    body1 as int,
                    body2 as int,
                    cells@[min_travel as int]@[min_depart as int],
                ).1) || (min_travel == i && min_depart < j && row@[min_depart as int] == min_value
                    && min_short == cell_cost_s(
                    archive.snaps@,
                    infos@,
                    body1 as int,
                    body2 as int,
                    cells@[min_travel as int]@[min_depart as int],
                ).1),
            decreases crow@.len() - j,
        {
            let c = &crow[j];
            let ip_short = interplanetary(
                archive,
                infos,
                c.depart_step,
                c.arrival_step,
                body1,
                body2,
                c.v_short,
            );
            let ip_long = interplanetary(
                archive,
                infos,
                c.depart_step,
                c.arrival_step,
                body1,
                body2,
                c.v_long,
            );
            let cost: i128;
            let short: bool;
            match ip_short {
                Ok(s) => {
                    match ip_long {
                        Ok(l) => {
                            let cs: i128 = fp_add(s.dv1, s.dv2);
                            let cl: i128 = fp_add(l.dv1, l.dv2);
                            if cs < cl {
                                cost = cs;
                                short = true;
                            } else {
                                cost = cl;
                                short = false;
                            }
                        },
                        Err(_) => {
                            cost = fp_add(s.dv1, s.dv2);
                            short = true;
                        },
                    }
                },
                Err(_) => {
                    match ip_long {
                        Ok(l) => {
                            cost = fp_add(l.dv1, l.dv2);
                            short = false;
                        },
                        Err(_) => {
                            cost = INF_COST;
                            short = true;
                        },
                    }
                },
            }
            let ghost row_before = row@;
            row.push(cost);
            proof {
                lemma_row_min_take(row@, row_before, j as nat);
            }
            if cost < min_value {
                min_value = cost;
                min_travel = i;
                min_depart = j;
                min_short = short;
            }
            j = j + 1;
        }
        let ghost rows_before = rows@;
        rows.push(row);
        proof {
            lemma_grid_min_take(rows@, rows_before, i as nat);
            assert(rows@[i as int]@ == row@);
        }
        i = i + 1;
    }
    PorkchopGrid { rows, min_value, min_travel, min_depart, min_short }
}

/// Two grids that agree on their first `k` rows have the same running
/// minimum over those rows.
proof fn lemma_grid_min_take(a: Seq<Vec<i128>>, b: Seq<Vec<i128>>, k: nat)
    requires
        k <= a.len(),
        k <= b.len(),
        forall|i: int| 0 <= i < k ==> a[i] == b[i],
    ensures
        grid_min_s(a, k) == grid_min_s(b, k),
    decreases k,
{
    if k > 0 {
        lemma_grid_min_take(a, b, (k - 1) as nat);
    }
}

} // verus!
