use vstd::prelude::*;

use crate::grid::{change_message, lines_for, relayed, GridPropertiesView};
use crate::guess::GuessLetter;
use crate::planner::{editable_at, filled, is_contiguous, planned, slot_at};

verus! {

/// For a history of `n` submitted guesses the planner gives `n + 1` rows, and
/// exactly one of them, the row at index `n`, is editable.
pub proof fn lemma_history_single_editable(g: Seq<Seq<GuessLetter>>)
    ensures
        planned(filled(g), g.len() + 1).len() == g.len() + 1,
        forall|i: int|
            0 <= i <= g.len() ==> (#[trigger] planned(filled(g), g.len() + 1)[i].editable <==> i
                == g.len()),
{
}

/// Over a contiguous history whose first `k` slots are filled (and the rest
/// empty), exactly one of the `len + 1` planned rows is editable: row `k`.
pub proof fn lemma_contiguous_single_editable(h: Seq<Option<Seq<GuessLetter>>>, k: int)
    requires
        is_contiguous(h),
        0 <= k <= h.len(),
        forall|i: int| 0 <= i < k ==> #[trigger] h[i] is Some,
        k == h.len() || h[k] is None,
    ensures
        planned(h, h.len() + 1).len() == h.len() + 1,
        forall|i: int|
            0 <= i <= h.len() ==> (#[trigger] planned(h, h.len() + 1)[i].editable <==> i == k),
{
    assert forall|i: int| 0 <= i <= h.len() implies (#[trigger] planned(h, h.len() + 1)[i].editable
        <==> i == k) by {
        if i > k && i < h.len() {
            assert(h[i] is None);
            assert(k <= i - 1);
            if k < i - 1 {
                assert(h[i - 1] is None);
            }
        }
        if i == h.len() && k < h.len() {
            if k < i - 1 {
                assert(h[i - 1] is None);
            }
        }
    }
}

/// A history with a gap at `k` (after a filled slot, or at the start) and a
/// guess at `j > k` is planned by the same rule as any other: row `k` is
/// editable, row `j` is not, and the row after `j` is editable exactly when
/// it holds no guess. Such a history thus gets more than one editable row
/// when the row after its last guess is empty.
pub proof fn lemma_gap_rows(h: Seq<Option<Seq<GuessLetter>>>, k: int, j: int)
    requires
        0 <= k < j < h.len(),
        h[k] is None,
        k == 0 || h[k - 1] is Some,
        h[j] is Some,
    ensures
        planned(h, h.len() + 1)[k].editable,
        planned(h, h.len() + 1)[k].guess is None,
        !planned(h, h.len() + 1)[j].editable,
        planned(h, h.len() + 1)[j].guess == h[j],
        planned(h, h.len() + 1)[j + 1].editable <==> slot_at(h, j + 1) is None,
        !is_contiguous(h),
{
}

/// Equal properties give equal rows: planning depends on the properties
/// alone.
pub proof fn lemma_render_deterministic(p1: GridPropertiesView, p2: GridPropertiesView)
    requires
        p1 == p2,
    ensures
        lines_for(p1) == lines_for(p2),
        planned(filled(p1.past_guesses), p1.past_guesses.len() + 1) == planned(
            filled(p2.past_guesses),
            p2.past_guesses.len() + 1,
        ),
{
}

/// With the history unchanged, a new width changes the cell count of every
/// row and nothing else: neither the guesses, nor which row is editable, nor
/// which row has a change handler.
pub proof fn lemma_width_changes_cells_only(g: Seq<Seq<GuessLetter>>, w1: nat, w2: nat)
    ensures
        ({
            let a = lines_for(GridPropertiesView { past_guesses: g, width: w1 });
            let b = lines_for(GridPropertiesView { past_guesses: g, width: w2 });
            &&& a.len() == b.len()
            &&& forall|i: int|
                0 <= i < a.len() ==> {
                    &&& #[trigger] a[i].width == w1
                    &&& b[i].width == w2
                    &&& a[i].editable == b[i].editable
                    &&& a[i].guess == b[i].guess
                    &&& a[i].has_change_handler == b[i].has_change_handler
                }
        }),
{
}

/// A word entered on the editable row reaches the owner's callback once and
/// unchanged; no other row has a handler to send anything.
pub proof fn lemma_submit_notifies_once(p: GridPropertiesView, word: Seq<char>)
    ensures
        ({
            let lines = lines_for(p);
            let n = p.past_guesses.len() as int;
            &&& lines[n].editable
            &&& change_message(lines[n], word) == Some(word)
            &&& relayed(word).notify == Some(word)
            &&& !relayed(word).rerender
            &&& forall|i: int| 0 <= i < n ==> #[trigger] change_message(lines[i], word) is None
        }),
{
}

} // verus!
