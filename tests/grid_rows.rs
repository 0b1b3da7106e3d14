use guess_grid::grid::{GridComponent, GridProperties, LineProps, Msg, Relay};
use guess_grid::guess::{GuessLetter, GuessResult, LetterStatus};
use guess_grid::planner::{plan, plan_guesses, RowPlan};

fn guess_of(word: &str, status: LetterStatus) -> GuessResult {
    GuessResult::new(word.chars().map(|letter| GuessLetter { letter, status }).collect())
}

fn editable_flags(rows: &[RowPlan]) -> Vec<bool> {
    rows.iter().map(|r| r.editable).collect()
}

#[test]
fn empty_history_has_one_open_row() {
    let rows = plan_guesses(&Vec::new());
    assert_eq!(rows.len(), 1);
    assert_eq!(rows[0].guess, None);
    assert!(rows[0].editable);
}

#[test]
fn one_guess_closes_first_row_and_opens_second() {
    let g0 = guess_of("crane", LetterStatus::Present);
    let rows = plan_guesses(&vec![g0.clone()]);
    assert_eq!(rows.len(), 2);
    assert_eq!(rows[0].guess, Some(g0));
    assert!(!rows[0].editable);
    assert_eq!(rows[1].guess, None);
    assert!(rows[1].editable);
}

#[test]
fn history_of_three_has_four_rows_and_one_open_at_the_end() {
    let past = vec![
        guess_of("abc", LetterStatus::NotInWord),
        guess_of("bcd", LetterStatus::Present),
        guess_of("cde", LetterStatus::Correct),
    ];
    let rows = plan_guesses(&past);
    assert_eq!(rows.len(), 4);
    assert_eq!(editable_flags(&rows), vec![false, false, false, true]);
    for i in 0..3 {
        assert_eq!(rows[i].guess.as_ref(), Some(&past[i]));
    }
    assert_eq!(rows[3].guess, None);
}

#[test]
fn plan_over_full_slots_matches_plan_guesses() {
    let past = vec![guess_of("ab", LetterStatus::Correct), guess_of("cd", LetterStatus::Present)];
    let slots: Vec<Option<GuessResult>> = past.iter().cloned().map(Some).collect();
    assert_eq!(plan(&slots, 3), plan_guesses(&past));
}

#[test]
fn plan_with_gap_opens_the_gap_and_the_row_after_the_last_guess() {
    let g = guess_of("xy", LetterStatus::Correct);
    let slots = vec![Some(g.clone()), None, Some(g.clone())];
    let rows = plan(&slots, 4);
    assert_eq!(rows.len(), 4);
    assert_eq!(editable_flags(&rows), vec![false, true, false, true]);
    assert_eq!(rows[1].guess, None);
    assert_eq!(rows[2].guess, Some(g));
    assert_eq!(rows[3].guess, None);
    assert_eq!(plan(&slots, 4), rows);
}

#[test]
fn plan_with_leading_gap_opens_first_row_only_before_guesses() {
    let g = guess_of("xy", LetterStatus::Present);
    let slots = vec![None, Some(g.clone()), None];
    let rows = plan(&slots, 4);
    assert_eq!(editable_flags(&rows), vec![true, false, true, false]);
}

#[test]
fn plan_with_trailing_empty_slots_opens_first_empty_one() {
    let g = guess_of("xy", LetterStatus::Present);
    let slots = vec![Some(g), None, None];
    let rows = plan(&slots, 4);
    assert_eq!(editable_flags(&rows), vec![false, true, false, false]);
}

#[test]
fn plan_with_no_rows_is_empty() {
    let slots = vec![Some(guess_of("a", LetterStatus::Correct))];
    assert!(plan(&slots, 0).is_empty());
    assert!(plan(&Vec::new(), 0).is_empty());
}

#[test]
fn view_gives_width_and_handler_only_to_open_row() {
    let g0 = guess_of("hello", LetterStatus::Correct);
    let props = GridProperties::new(vec![g0.clone()], 5);
    let lines = GridComponent::create().view(&props);
    assert_eq!(
        lines,
        vec![
            LineProps { guess: Some(g0), width: 5, editable: false, has_change_handler: false },
            LineProps { guess: None, width: 5, editable: true, has_change_handler: true },
        ]
    );
}

#[test]
fn rendering_twice_gives_identical_rows() {
    let past = vec![guess_of("melon", LetterStatus::Present), guess_of("lemon", LetterStatus::Correct)];
    let props = GridProperties::new(past, 5);
    let c = GridComponent::create();
    assert_eq!(c.view(&props), c.view(&props));
    assert_eq!(plan_guesses(&props.past_guesses), plan_guesses(&props.past_guesses));
}

#[test]
fn changing_width_changes_cells_but_not_editability() {
    let past = vec![guess_of("abcde", LetterStatus::NotInWord), guess_of("fghij", LetterStatus::Present)];
    let c = GridComponent::create();
    let narrow = c.view(&GridProperties::new(past.clone(), 5));
    let wide = c.view(&GridProperties::new(past, 7));
    assert_eq!(narrow.len(), wide.len());
    for (a, b) in narrow.iter().zip(wide.iter()) {
        assert_eq!(a.width, 5);
        assert_eq!(b.width, 7);
        assert_eq!(a.editable, b.editable);
        assert_eq!(a.has_change_handler, b.has_change_handler);
        assert_eq!(a.guess, b.guess);
    }
}

#[test]
fn submitted_word_is_relayed_once_and_unchanged() {
    let props = GridProperties::new(vec![guess_of("arise", LetterStatus::Present)], 5);
    let mut c = GridComponent::create();
    let lines = c.view(&props);
    let word = String::from(" MiXeD ");
    let msg = lines[1].on_change(word.clone());
    assert_eq!(msg, Some(Msg::UpdateGuess(word.clone())));
    let relay = c.update(msg.unwrap());
    assert_eq!(relay, Relay { notify: Some(word), rerender: false });
}

#[test]
fn closed_row_sends_no_message() {
    let props = GridProperties::new(vec![guess_of("arise", LetterStatus::Present)], 5);
    let lines = GridComponent::create().view(&props);
    assert_eq!(lines[0].on_change(String::from("words")), None);
}

#[test]
fn empty_word_is_relayed_as_is() {
    let mut c = GridComponent::create();
    let relay = c.update(Msg::UpdateGuess(String::new()));
    assert_eq!(relay.notify, Some(String::new()));
    assert!(!relay.rerender);
}

#[test]
fn new_properties_always_rerender() {
    let mut c = GridComponent::create();
    assert!(c.changed());
}

#[test]
fn duplicate_keeps_letters() {
    let g = guess_of("pride", LetterStatus::Correct);
    assert_eq!(g.duplicate(), g);
    assert_eq!(g.duplicate().letters.len(), 5);
}
