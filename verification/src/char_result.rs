//! One character of a guess with its classification, and how an attempt is
//! printed.

use crate::text::push_char;
use crate::words::GuessResult;
use vstd::prelude::*;
use vstd::string::*;

verus! {

/// One character of a guess and how it relates to the target word.
#[derive(Clone, Copy, Debug, PartialEq, Eq)]
pub struct CharResult {
    pub char: char,
    pub result: GuessResult,
}

/// The texts of the characters of an attempt, separated by a comma and a
/// space.
pub open spec fn joined(attempt: Seq<CharResult>) -> Seq<char>
    decreases attempt.len(),
{
    if attempt.len() == 0 {
        Seq::empty()
    } else if attempt.len() == 1 {
        attempt[0].text()
    } else {
        joined(attempt.drop_last()) + ", "@ + attempt.last().text()
    }
}

/// An attempt as it is printed: the texts of its characters, separated by a
/// comma and a space, in square brackets. The empty attempt is `[]`.
pub open spec fn attempt_text(attempt: Seq<CharResult>) -> Seq<char> {
    "["@ + joined(attempt) + "]"@
}

impl CharResult {
    /// The character as it is printed: in single quotes, followed by ` => `
    /// and the name of its classification.
    pub open spec fn text(self) -> Seq<char> {
        "'"@ + seq![self.char] + "' => "@ + self.result.name()
    }

    /// The character `char` with the classification `result`.
    pub open spec fn spec_new(char: char, result: GuessResult) -> Self {
        CharResult { char, result }
    }

    /// The character `char` with the classification `result`.
    #[verifier::when_used_as_spec(spec_new)]
    pub fn new(char: char, result: GuessResult) -> (r: Self)
        ensures
            r == (CharResult { char, result }),
    {
        Self { char, result }
    }

    /// The character `char`, which stands at its position in the target word.
    pub fn correct(char: char) -> (r: Self)
        ensures
            r == (CharResult { char, result: GuessResult::Correct }),
    {
        Self::new(char, GuessResult::Correct)
    }

    /// The character `char`, which does not occur in the target word.
    pub fn absent(char: char) -> (r: Self)
        ensures
            r == (CharResult { char, result: GuessResult::Absent }),
    {
        Self::new(char, GuessResult::Absent)
    }

    /// The character `char`, which occurs elsewhere in the target word.
    pub fn present(char: char) -> (r: Self)
        ensures
            r == (CharResult { char, result: GuessResult::Present }),
    {
        Self::new(char, GuessResult::Present)
    }

    /// The character as it is printed.
    pub fn to_string(&self) -> (r: String)
        ensures
            r@ == self.text(),
    {
        let mut r = String::from_str("'");
        push_char(&mut r, self.char);
        r.append("' => ");
        r.append(self.result.as_str());
        r
    }

    /// The attempt as it is printed.
    pub fn display(attempt: &[CharResult]) -> (r: String)
        ensures
            r@ == attempt_text(attempt@),
    {
        let mut r = String::from_str("[");
        let mut i: usize = 0;
        while i < attempt.len()
            invariant
                i <= attempt.len(),
                r@ == "["@ + joined(attempt@.take(i as int)),
            decreases attempt.len() - i,
        {
            if i > 0 {
                r.append(", ");
            }
            let item = attempt[i].to_string();
            r.append(item.as_str());
            assert(attempt@.take(i + 1).drop_last() == attempt@.take(i as int));
            i = i + 1;
        }
        assert(attempt@.take(i as int) == attempt@);
        r.append("]");
        r
    }
}

} // verus!
