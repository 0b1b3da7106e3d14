use vstd::prelude::*;

use crate::guess::{GuessLetter, GuessResult};

verus! {

/// What one row of the grid shows: the guess it holds, if any, and whether
/// it accepts input.
#[derive(Debug, PartialEq, Eq)]
pub struct RowPlan {
    pub guess: Option<GuessResult>,
    pub editable: bool,
}

/// The mathematical content of a [`RowPlan`].
pub ghost struct RowPlanView {
    pub guess: Option<Seq<GuessLetter>>,
    pub editable: bool,
}

impl View for RowPlan {
    type V = RowPlanView;

    open spec fn view(&self) -> RowPlanView {
        RowPlanView { guess: guess_view(self.guess), editable: self.editable }
    }
}

pub open spec fn guess_view(g: Option<GuessResult>) -> Option<Seq<GuessLetter>> {
    match g {
        Some(r) => Some(r@),
        None => None,
    }
}

/// A history whose slots may be empty, as the planner sees it.
pub open spec fn slots_view(h: Seq<Option<GuessResult>>) -> Seq<Option<Seq<GuessLetter>>> {
    h.map_values(|g: Option<GuessResult>| guess_view(g))
}

/// A history of submitted guesses, each slot filled.
pub open spec fn filled(h: Seq<Seq<GuessLetter>>) -> Seq<Option<Seq<GuessLetter>>> {
    h.map_values(|g: Seq<GuessLetter>| Some(g))
}

pub open spec fn history_view(h: Seq<GuessResult>) -> Seq<Seq<GuessLetter>> {
    h.map_values(|g: GuessResult| g@)
}

pub open spec fn plans_view(rows: Seq<RowPlan>) -> Seq<RowPlanView> {
    rows.map_values(|r: RowPlan| r@)
}

/// The guess shown on row `i`: the slot of the history at `i`, absent past
/// its end.
pub open spec fn slot_at(h: Seq<Option<Seq<GuessLetter>>>, i: int) -> Option<Seq<GuessLetter>> {
    if 0 <= i < h.len() {
        h[i]
    } else {
        None
    }
}

/// Row `i` accepts input when it holds no guess and it is the first row, or
/// the row before it holds one.
pub open spec fn editable_at(h: Seq<Option<Seq<GuessLetter>>>, i: int) -> bool {
    slot_at(h, i) is None && (i == 0 || slot_at(h, i - 1) is Some)
}

pub open spec fn row_at(h: Seq<Option<Seq<GuessLetter>>>, i: int) -> RowPlanView {
    RowPlanView { guess: slot_at(h, i), editable: editable_at(h, i) }
}

/// The rows planned for `total` rows over the history `h`.
pub open spec fn planned(h: Seq<Option<Seq<GuessLetter>>>, total: nat) -> Seq<RowPlanView> {
    Seq::new(total, |i: int| row_at(h, i))
}

/// No empty slot of `h` is followed by a filled one.
pub open spec fn is_contiguous(h: Seq<Option<Seq<GuessLetter>>>) -> bool {
    forall|i: int, j: int| 0 <= i < j < h.len() && h[i] is None ==> h[j] is None
}

/// Plans `total_rows` rows over a history whose slots may be empty.
///
/// Total over every input: a history with a gap gets the rows that the
/// rule of [`editable_at`] gives, which may hold more than one, or no,
/// editable row.
pub fn plan(history: &Vec<Option<GuessResult>>, total_rows: usize) -> (r: Vec<RowPlan>)
    ensures
        r.len() == total_rows,
        plans_view(r@) == planned(slots_view(history@), total_rows as nat),
        forall|i: int| 0 <= i < total_rows ==> #[trigger] r@[i]@ == row_at(slots_view(history@), i),
{
    let ghost h = slots_view(history@);
    let mut rows: Vec<RowPlan> = Vec::new();
    let mut i: usize = 0;
    while i < total_rows
        invariant
            h == slots_view(history@),
            i <= total_rows,
            rows.len() == i,
            forall|j: int| 0 <= j < i ==> #[trigger] rows@[j]@ == row_at(h, j),
        decreases total_rows - i,
    {
        let guess = if i < history.len() {
            match &history[i] {
                Some(g) => Some(g.duplicate()),
                None => None,
            }
        } else {
            None
        };
        let prev_present = i > 0 && i - 1 < history.len() && history[i - 1].is_some();
        let editable = guess.is_none() && (i == 0 || prev_present);
        rows.push(RowPlan { guess, editable });
        i += 1;
    }
    assert(plans_view(rows@) =~= planned(h, total_rows as nat));
    rows
}

/// Plans the rows for a history of submitted guesses: one row per guess,
/// then one more, the row that takes the next guess.
pub fn plan_guesses(past: &Vec<GuessResult>) -> (r: Vec<RowPlan>)
    requires
        past.len() < usize::MAX,
    ensures
        r.len() == past.len() + 1,
        plans_view(r@) == planned(filled(history_view(past@)), (past.len() + 1) as nat),
        forall|i: int| 0 <= i < past.len() ==> #[trigger] r@[i]@ == (RowPlanView { guess: Some(past@[i]@), editable: false }),
        r@[past.len() as int]@ == (RowPlanView { guess: None, editable: true }),
{
    let ghost h = filled(history_view(past@));
    let n = past.len() + 1;
    let mut rows: Vec<RowPlan> = Vec::new();
    let mut i: usize = 0;
    while i < n
        invariant
            h == filled(history_view(past@)),
            n == past.len() + 1,
            i <= n,
            rows.len() == i,
            forall|j: int| 0 <= j < i ==> #[trigger] rows@[j]@ == row_at(h, j),
        decreases n - i,
    {
        let guess = if i < past.len() {
            Some(past[i].duplicate())
        } else {
            None
        };
        let editable = guess.is_none() && (i == 0 || i - 1 < past.len());
        rows.push(RowPlan { guess, editable });
        i += 1;
    }
    assert(plans_view(rows@) =~= planned(h, n as nat));
    rows
}

} // verus!
