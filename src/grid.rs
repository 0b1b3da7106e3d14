use vstd::prelude::*;

use crate::guess::{GuessLetter, GuessResult};
use crate::planner::{filled, history_view, plan_guesses, planned, plans_view, RowPlanView};

verus! {

/// What the grid receives on each render: the guesses submitted so far, in
/// the order they were made, and the number of letters per row.
#[derive(Debug, PartialEq, Eq)]
pub struct GridProperties {
    pub past_guesses: Vec<GuessResult>,
    pub width: usize,
}

pub ghost struct GridPropertiesView {
    pub past_guesses: Seq<Seq<GuessLetter>>,
    pub width: nat,
}

impl View for GridProperties {
    type V = GridPropertiesView;

    open spec fn view(&self) -> GridPropertiesView {
        GridPropertiesView { past_guesses: history_view(self.past_guesses@), width: self.width as nat }
    }
}

impl GridProperties {
    pub fn new(past_guesses: Vec<GuessResult>, width: usize) -> (r: GridProperties)
        ensures
            r.past_guesses@ == past_guesses@,
            r.width == width,
    {
        GridProperties { past_guesses, width }
    }
}

/// What the grid hands to the component that draws one row: its guess, if
/// any, the number of cells, whether it accepts input, and whether a change
/// handler is attached to it.
#[derive(Debug, PartialEq, Eq)]
pub struct LineProps {
    pub guess: Option<GuessResult>,
    pub width: usize,
    pub editable: bool,
    pub has_change_handler: bool,
}

pub ghost struct LinePropsView {
    pub guess: Option<Seq<GuessLetter>>,
    pub width: nat,
    pub editable: bool,
    pub has_change_handler: bool,
}

impl View for LineProps {
    type V = LinePropsView;

    open spec fn view(&self) -> LinePropsView {
        LinePropsView {
            guess: crate::planner::guess_view(self.guess),
            width: self.width as nat,
            editable: self.editable,
            has_change_handler: self.has_change_handler,
        }
    }
}

pub open spec fn lines_view(lines: Seq<LineProps>) -> Seq<LinePropsView> {
    lines.map_values(|l: LineProps| l@)
}

/// The props of a row planned as `row`, with `width` cells; only an editable
/// row gets a change handler.
pub open spec fn line_of(row: RowPlanView, width: nat) -> LinePropsView {
    LinePropsView {
        guess: row.guess,
        width,
        editable: row.editable,
        has_change_handler: row.editable,
    }
}

/// The props of every row that the grid draws for `p`.
pub open spec fn lines_for(p: GridPropertiesView) -> Seq<LinePropsView> {
    planned(filled(p.past_guesses), p.past_guesses.len() + 1).map_values(
        |row: RowPlanView| line_of(row, p.width),
    )
}

/// The word that a row's change handler passes on when `word` is entered:
/// only a row with a handler passes anything on.
pub open spec fn change_message(line: LinePropsView, word: Seq<char>) -> Option<Seq<char>> {
    if line.has_change_handler {
        Some(word)
    } else {
        None
    }
}

impl LineProps {
    /// The message that this row's change handler sends once `word` has been
    /// entered, or none where the row has no handler.
    pub fn on_change(&self, word: String) -> (r: Option<Msg>)
        ensures
            message_word(r) == change_message(self@, word@),
    {
        if self.has_change_handler {
            Some(Msg::UpdateGuess(word))
        } else {
            None
        }
    }
}

pub open spec fn message_word(m: Option<Msg>) -> Option<Seq<char>> {
    match m {
        Some(msg) => Some(msg.word()),
        None => None,
    }
}

/// The one message that the grid receives: a row's edit completed, with the
/// word entered.
#[derive(Debug, PartialEq, Eq)]
pub enum Msg {
    UpdateGuess(String),
}

impl Msg {
    pub open spec fn word(&self) -> Seq<char> {
        match self {
            Msg::UpdateGuess(w) => w@,
        }
    }
}

/// What the grid does in answer to a message: the word to hand to the
/// owner's notification callback, if any, and whether to draw itself again.
#[derive(Debug, PartialEq, Eq)]
pub struct Relay {
    pub notify: Option<String>,
    pub rerender: bool,
}

pub ghost struct RelayView {
    pub notify: Option<Seq<char>>,
    pub rerender: bool,
}

impl View for Relay {
    type V = RelayView;

    open spec fn view(&self) -> RelayView {
        RelayView {
            notify: match self.notify {
                Some(w) => Some(w@),
                None => None,
            },
            rerender: self.rerender,
        }
    }
}

/// A completed word goes to the owner once, exactly as entered, and the grid
/// waits for the owner's new properties rather than drawing itself again.
pub open spec fn relayed(word: Seq<char>) -> RelayView {
    RelayView { notify: Some(word), rerender: false }
}

/// The grid itself holds no state: each render derives its rows from the
/// properties, and each message is passed on at once.
#[derive(Debug)]
pub struct GridComponent;

impl GridComponent {
    pub fn create() -> (r: GridComponent) {
        GridComponent
    }

    /// New properties always bring a fresh render.
    pub fn changed(&mut self) -> (r: bool)
        ensures
            r,
    {
        true
    }

    /// The rows to draw for `props`: one per past guess, shown and closed,
    /// then the row that takes the next guess, open and with a change handler.
    pub fn view(&self, props: &GridProperties) -> (r: Vec<LineProps>)
        requires
            props.past_guesses.len() < usize::MAX,
        ensures
            r.len() == props.past_guesses.len() + 1,
            lines_view(r@) == lines_for(props@),
            forall|i: int| 0 <= i < r.len() ==> #[trigger] r@[i]@ == lines_for(props@)[i],
    {
        let rows = plan_guesses(&props.past_guesses);
        let ghost planned_rows = plans_view(rows@);
        let mut lines: Vec<LineProps> = Vec::new();
        let mut i: usize = 0;
        while i < rows.len()
            invariant
                planned_rows == plans_view(rows@),
                i <= rows.len(),
                lines.len() == i,
                forall|j: int| 0 <= j < i ==> #[trigger] lines@[j]@ == line_of(planned_rows[j], props.width as nat),
            decreases rows.len() - i,
        {
            let row = &rows[i];
            let guess = match &row.guess {
                Some(g) => Some(g.duplicate()),
                None => None,
            };
            lines.push(LineProps {
                guess,
                width: props.width,
                editable: row.editable,
                has_change_handler: row.editable,
            });
            i += 1;
        }
        assert(lines_view(lines@) =~= lines_for(props@));
        lines
    }

    /// Passes the word of a completed edit on to the owner, unchanged.
    pub fn update(&mut self, msg: Msg) -> (r: Relay)
        ensures
            r@ == relayed(msg.word()),
    {
        match msg {
            Msg::UpdateGuess(word) => Relay { notify: Some(word), rerender: false },
        }
    }
}

} // verus!
