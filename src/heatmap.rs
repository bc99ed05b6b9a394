//! The price surface shown as a heatmap: a fixed square grid of formatted
//! call and put prices over a spot axis and a volatility axis.
use vstd::prelude::*;

verus! {

/// Points on each axis of the heatmap.
pub const GRID_STEPS: usize = 10;

/// Formatted heatmap: row `i` belongs to spot label `i`, column `j` to
/// volatility label `j`.
pub struct HeatmapData {
    pub spot_prices: Vec<String>,
    pub volatilities: Vec<String>,
    pub call_data: Vec<Vec<String>>,
    pub put_data: Vec<Vec<String>>,
}

impl HeatmapData {
    /// Both axes have `GRID_STEPS` labels and both price tables are
    /// `GRID_STEPS` rows of `GRID_STEPS` cells.
    pub open spec fn is_grid(&self) -> bool {
        &&& self.spot_prices.len() == GRID_STEPS
        &&& self.volatilities.len() == GRID_STEPS
        &&& self.call_data.len() == GRID_STEPS
        &&& self.put_data.len() == GRID_STEPS
        &&& forall|i: int| 0 <= i < GRID_STEPS ==> #[trigger] self.call_data[i].len() == GRID_STEPS
        &&& forall|i: int| 0 <= i < GRID_STEPS ==> #[trigger] self.put_data[i].len() == GRID_STEPS
    }

    /// Fills the grid: `spot_label(i)` and `vol_label(j)` label the axes, and
    /// `cell(i, j)` gives the formatted (call, put) prices at spot point `i`
    /// and volatility point `j`.
    pub fn tabulate<S, V, C>(spot_label: S, vol_label: V, cell: C) -> (r: HeatmapData) where
        S: Fn(usize) -> String,
        V: Fn(usize) -> String,
        C: Fn(usize, usize) -> (String, String),

        requires
            forall|i: usize| i < GRID_STEPS ==> #[trigger] spot_label.requires((i,)),
            forall|j: usize| j < GRID_STEPS ==> #[trigger] vol_label.requires((j,)),
            forall|i: usize, j: usize|
                i < GRID_STEPS && j < GRID_STEPS ==> #[trigger] cell.requires((i, j)),
        ensures
            r.is_grid(),
            forall|i: int| 0 <= i < GRID_STEPS ==> spot_label.ensures((i as usize,), #[trigger] r.spot_prices[i]),
            forall|j: int| 0 <= j < GRID_STEPS ==> vol_label.ensures((j as usize,), #[trigger] r.volatilities[j]),
            forall|i: int, j: int|
                0 <= i < GRID_STEPS && 0 <= j < GRID_STEPS ==> cell.ensures(
                    (i as usize, j as usize),
                    (#[trigger] r.call_data[i][j], r.put_data[i][j]),
                ),
    {
        let mut spot_prices: Vec<String> = Vec::new();
        let mut volatilities: Vec<String> = Vec::new();
        let mut call_data: Vec<Vec<String>> = Vec::new();
        let mut put_data: Vec<Vec<String>> = Vec::new();
        let mut i: usize = 0;
        while i < GRID_STEPS
            invariant
                forall|i: usize| i < GRID_STEPS ==> #[trigger] spot_label.requires((i,)),
                forall|j: usize| j < GRID_STEPS ==> #[trigger] vol_label.requires((j,)),
                forall|i: usize, j: usize|
                    i < GRID_STEPS && j < GRID_STEPS ==> #[trigger] cell.requires((i, j)),
                i <= GRID_STEPS,
                spot_prices.len() == i,
                call_data.len() == i,
                put_data.len() == i,
                volatilities.len() == if i == 0 { 0 } else { GRID_STEPS },
                forall|a: int| 0 <= a < i ==> spot_label.ensures((a as usize,), #[trigger] spot_prices[a]),
                forall|b: int| 0 <= b < volatilities.len() ==> vol_label.ensures((b as usize,), #[trigger] volatilities[b]),
                forall|a: int| 0 <= a < i ==> #[trigger] call_data[a].len() == GRID_STEPS,
                forall|a: int| 0 <= a < i ==> #[trigger] put_data[a].len() == GRID_STEPS,
                forall|a: int, b: int|
                    0 <= a < i && 0 <= b < GRID_STEPS ==> cell.ensures(
                        (a as usize, b as usize),
                        (#[trigger] call_data[a][b], put_data[a][b]),
                    ),
            decreases GRID_STEPS - i,
        {
            spot_prices.push(spot_label(i));
            let mut call_row: Vec<String> = Vec::new();
            let mut put_row: Vec<String> = Vec::new();
            let mut j: usize = 0;
            while j < GRID_STEPS
                invariant
                    forall|j: usize| j < GRID_STEPS ==> #[trigger] vol_label.requires((j,)),
                    forall|i: usize, j: usize|
                        i < GRID_STEPS && j < GRID_STEPS ==> #[trigger] cell.requires((i, j)),
                    i < GRID_STEPS,
                    j <= GRID_STEPS,
                    call_row.len() == j,
                    put_row.len() == j,
                    volatilities.len() == if i == 0 { j } else { GRID_STEPS },
                    forall|b: int| 0 <= b < volatilities.len() ==> vol_label.ensures((b as usize,), #[trigger] volatilities[b]),
                    forall|b: int|
                        0 <= b < j ==> cell.ensures((i, b as usize), (#[trigger] call_row[b], put_row[b])),
                decreases GRID_STEPS - j,
            {
                if i == 0 {
                    volatilities.push(vol_label(j));
                }
                let (call, put) = cell(i, j);
                call_row.push(call);
                put_row.push(put);
                j = j + 1;
            }
            call_data.push(call_row);
            put_data.push(put_row);
            i = i + 1;
        }
        HeatmapData { spot_prices, volatilities, call_data, put_data }
    }
}

} // verus!
