use vstd::prelude::*;

verus! {

/// How one letter of a submitted guess compares with the hidden word.
#[derive(Clone, Copy, Debug, PartialEq, Eq, Structural)]
pub enum LetterStatus {
    /// The letter stands at this place in the hidden word.
    Correct,
    /// The letter occurs in the hidden word, at another place.
    Present,
    /// The letter does not occur in the hidden word.
    NotInWord,
}

/// One cell of a submitted guess: the letter and its classification.
#[derive(Clone, Copy, Debug, PartialEq, Eq, Structural)]
pub struct GuessLetter {
    pub letter: char,
    pub status: LetterStatus,
}

/// One submitted attempt, with the classification of each letter as an
/// evaluator outside this library computed it.
#[derive(Clone, Debug, PartialEq, Eq)]
pub struct GuessResult {
    pub letters: Vec<GuessLetter>,
}

impl View for GuessResult {
    type V = Seq<GuessLetter>;

    open spec fn view(&self) -> Seq<GuessLetter> {
        self.letters@
    }
}

impl GuessResult {
    pub fn new(letters: Vec<GuessLetter>) -> (r: GuessResult)
        ensures
            r@ == letters@,
    {
        GuessResult { letters }
    }

    /// A second, independent value with the same letters.
    pub fn duplicate(&self) -> (r: GuessResult)
        ensures
            r@ == self@,
    {
        let r = self.letters.clone();
        GuessResult { letters: r }
    }
}

} // verus!
