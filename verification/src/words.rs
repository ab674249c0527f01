//! The word list and the position index of a target word.

use crate::app_error::{AppError, AppResult};
use crate::text::{is_white_space, is_whitespace, lowercase, push_char, to_lowercase};
use rand::Rng;
use std::collections::HashMap;
use std::collections::HashSet;
use std::str::Utf8Error;
use vstd::prelude::*;
use vstd::string::*;
use vstd::utf8::{decode_utf8, valid_utf8};

verus! {

/// How one character of a guess relates to the target word.
#[derive(Clone, Copy, Debug, PartialEq, Eq)]
pub enum GuessResult {
    /// The character stands at this position in the target word.
    Correct,
    /// The character occurs in the target word, but not at this position.
    Present,
    /// The character does not occur in the target word.
    Absent,
}

impl GuessResult {
    /// The name of the classification as it is printed.
    pub open spec fn name(self) -> Seq<char> {
        match self {
            GuessResult::Correct => "Correct"@,
            GuessResult::Present => "Present"@,
            GuessResult::Absent => "Absent"@,
        }
    }

    /// The name of the classification as it is printed.
    pub fn as_str(&self) -> (r: &'static str)
        ensures
            r@ == self.name(),
    {
        match self {
            GuessResult::Correct => "Correct",
            GuessResult::Present => "Present",
            GuessResult::Absent => "Absent",
        }
    }
}

/// The position index of a word: for each character of the word, keyed by its
/// code point, the set of zero-based positions at which it occurs.
pub type CharMap = HashMap<u32, HashSet<usize>>;

/// The key under which the position index files a character.
pub open spec fn code(c: char) -> u32 {
    c as u32
}

/// The positions at which `c` occurs in `word`.
pub open spec fn positions_of(word: Seq<char>, c: char) -> Set<usize> {
    Set::new(|i: usize| i < word.len() && word[i as int] == c)
}

/// `map` is the position index of `word`: its keys are the characters of the
/// word and no others, and each character is mapped to all its positions.
pub open spec fn indexes(map: CharMap, word: Seq<char>) -> bool {
    &&& forall|k: u32| #[trigger]
        map@.contains_key(k) ==> exists|i: int| 0 <= i < word.len() && code(#[trigger] word[i]) == k
    &&& forall|i: int|
        0 <= i < word.len() ==> {
            &&& map@.contains_key(code(#[trigger] word[i]))
            &&& map@[code(word[i])]@ == positions_of(word, word[i])
        }
}

/// Two characters filed under the same key are the same character.
pub proof fn lemma_code_injective(c: char, d: char)
    requires
        code(c) == code(d),
    ensures
        c == d,
{
    vstd::utf8::char_u32_cast(c, code(c));
    vstd::utf8::char_u32_cast(d, code(d));
}

/// A position index holds every position of its word exactly once: the
/// position `i` is filed under the character at `i`, and what is filed under
/// a key is a position of the word at which the character of that key stands.
pub proof fn index_covers_every_position(map: CharMap, word: Seq<char>)
    requires
        indexes(map, word),
        word.len() <= usize::MAX,
    ensures
        forall|i: int|
            0 <= i < word.len() ==> map@[code(#[trigger] word[i])]@.contains(i as usize),
        forall|k: u32, p: usize|
            map@.contains_key(k) && #[trigger] map@[k]@.contains(p) ==> p < word.len() && code(
                word[p as int],
            ) == k,
{
}

/// Appending a character to a word adds the new position to that character's
/// positions and leaves the positions of every other character as they were.
proof fn lemma_positions_push(word: Seq<char>, c: char, d: char)
    requires
        word.len() < usize::MAX,
    ensures
        positions_of(word.push(c), d) == if d == c {
            positions_of(word, d).insert(word.len() as usize)
        } else {
            positions_of(word, d)
        },
{
}

/// Builds the position index of `s`.
pub fn char_map_from(s: &str) -> (map: CharMap)
    ensures
        indexes(map, s@),
{
    let n: usize = s.unicode_len();
    let mut map: CharMap = HashMap::new();
    let mut i: usize = 0;
    for c in it: s.chars()
        invariant
            i == it.index(),
            it.seq() == s@,
            n == s@.len(),
            indexes(map, s@.take(i as int)),
    {
        let ghost before = map;
        let ghost seen = s@.take(i as int);
        let key: u32 = c as u32;
        let mut set = match map.remove(&key) {
            Some(set) => set,
            None => HashSet::new(),
        };
        proof {
            lemma_positions_push(seen, c, c);
            if before@.contains_key(key) {
                let j = choose|j: int| 0 <= j < seen.len() && code(#[trigger] seen[j]) == key;
                lemma_code_injective(seen[j], c);
            }
        }
        set.insert(i);
        map.insert(key, set);
        proof {
            let longer = s@.take(i + 1);
            assert forall|k: u32| #[trigger] map@.contains_key(k) implies exists|j: int|
                0 <= j < longer.len() && code(#[trigger] longer[j]) == k by {
                if k == key {
                    assert(code(longer[i as int]) == k);
                }
            }
            assert forall|j: int| 0 <= j < longer.len() implies map@.contains_key(
                code(#[trigger] longer[j]),
            ) && map@[code(longer[j])]@ == positions_of(longer, longer[j]) by {
                lemma_positions_push(seen, c, longer[j]);
                if longer[j] != c && code(longer[j]) == key {
                    lemma_code_injective(longer[j], c);
                }
            }
        }
        i = i + 1;
    }
    assert(s@.take(n as int) == s@);
    map
}

/// The number of characters from position `from` of `text` up to the next
/// white space or the end of the text.
pub open spec fn run(text: Seq<char>, from: int) -> nat
    decreases text.len() - from,
{
    if from < 0 || from >= text.len() || is_white_space(text[from]) {
        0
    } else {
        1 + run(text, from + 1)
    }
}

/// A word ends where its run ends: one character on, the run is one shorter.
proof fn lemma_run_step(text: Seq<char>, from: int)
    requires
        0 <= from < text.len(),
        !is_white_space(text[from]),
    ensures
        run(text, from) == 1 + run(text, from + 1),
        from + run(text, from) <= text.len(),
    decreases text.len() - from,
{
    if from + 1 < text.len() && !is_white_space(text[from + 1]) {
        lemma_run_step(text, from + 1);
    } else {
        assert(run(text, from + 1) == 0);
    }
}

#[via_fn]
proof fn split_words_terminates(text: Seq<char>, from: int) {
    if 0 <= from < text.len() && !is_white_space(text[from]) {
        lemma_run_step(text, from);
    }
}

/// The words of `text` from position `from` on, where no word begins before
/// `from`: the runs of characters between white space, in their order.
pub open spec fn split_words(text: Seq<char>, from: int) -> Seq<Seq<char>>
    decreases text.len() - from,
    via split_words_terminates
{
    if from < 0 || from >= text.len() {
        Seq::empty()
    } else if is_white_space(text[from]) {
        split_words(text, from + 1)
    } else {
        seq![text.subrange(from, from + run(text, from))] + split_words(
            text,
            from + run(text, from),
        )
    }
}

/// The words of `text`: its longest runs of characters that hold no white
/// space, in their order.
pub open spec fn words_of(text: Seq<char>) -> Seq<Seq<char>> {
    split_words(text, 0)
}

/// No character of a run is white space.
proof fn lemma_run_holds_no_white_space(text: Seq<char>, from: int, j: int)
    requires
        from <= j < from + run(text, from),
    ensures
        0 <= j < text.len(),
        !is_white_space(text[j]),
    decreases text.len() - from,
{
    if j > from {
        lemma_run_holds_no_white_space(text, from + 1, j);
    }
}

/// Every word of a text holds at least one character, and no white space.
pub proof fn words_hold_no_white_space(text: Seq<char>, from: int)
    ensures
        forall|k: int|
            0 <= k < split_words(text, from).len() ==> {
                let word = #[trigger] split_words(text, from)[k];
                &&& word.len() > 0
                &&& forall|j: int| 0 <= j < word.len() ==> !is_white_space(#[trigger] word[j])
            },
    decreases text.len() - from,
{
    if 0 <= from < text.len() {
        if is_white_space(text[from]) {
            words_hold_no_white_space(text, from + 1);
            assert(split_words(text, from) == split_words(text, from + 1));
        } else {
            let end = from + run(text, from);
            let first = text.subrange(from, end);
            lemma_run_step(text, from);
            words_hold_no_white_space(text, end);
            assert forall|j: int| 0 <= j < first.len() implies !is_white_space(
                #[trigger] first[j],
            ) by {
                lemma_run_holds_no_white_space(text, from, from + j);
            }
            assert forall|k: int| 0 <= k < split_words(text, from).len() implies ({
                let word = #[trigger] split_words(text, from)[k];
                &&& word.len() > 0
                &&& forall|j: int| 0 <= j < word.len() ==> !is_white_space(#[trigger] word[j])
            }) by {
                if k > 0 {
                    assert(split_words(text, from)[k] == split_words(text, end)[k - 1]);
                }
            }
        }
    }
}

/// The word list that the bytes `bytes` hold: the words of their text in
/// lower case. Bytes that are not UTF-8 are refused, and so is a text
/// without a word.
pub open spec fn word_list(bytes: Seq<u8>) -> Result<Seq<Seq<char>>, AppError> {
    if !valid_utf8(bytes) {
        Err(AppError::InvalidCharset)
    } else if words_of(lowercase(decode_utf8(bytes))).len() == 0 {
        Err(AppError::NoWords)
    } else {
        Ok(words_of(lowercase(decode_utf8(bytes))))
    }
}

/// The error of `std::str::from_utf8`.
#[verifier::external_type_specification]
#[verifier::external_body]
pub struct ExUtf8Error(Utf8Error);

/// `std::str::from_utf8`: the bytes are read as text if and only if they are
/// valid UTF-8, and the text is then what they encode.
#[verifier::external_body]
fn from_utf8(bytes: &[u8]) -> (r: Result<&str, Utf8Error>)
    ensures
        r is Ok <==> valid_utf8(bytes@),
        r matches Ok(text) ==> text@ == decode_utf8(bytes@),
{
    std::str::from_utf8(bytes)
}

/// `rand::thread_rng` and `Rng::gen_range` on the range from zero up to, not
/// including, `upper_bound`: the number is drawn at random, so nothing is
/// said of it but that it lies in the range. `gen_range` panics on an empty
/// range, and `thread_rng` where the system gives it no seed.
#[verifier::external_body]
pub(crate) fn random_number(upper_bound: usize) -> (n: usize)
    requires
        upper_bound > 0,
    ensures
        n < upper_bound,
{
    rand::thread_rng().gen_range(0..upper_bound)
}

/// The words of `text`.
pub fn words_in(text: &str) -> (words: Vec<String>)
    ensures
        words.deep_view() == words_of(text@),
{
    let mut chars: Vec<char> = Vec::new();
    for c in it: text.chars()
        invariant
            it.seq() == text@,
            chars@ == text@.take(it.index() as int),
    {
        chars.push(c);
    }
    let n: usize = chars.len();
    let mut words: Vec<String> = Vec::new();
    let mut i: usize = 0;
    while i < n
        invariant
            i <= n,
            n == chars.len(),
            chars@ == text@,
            words.deep_view() + split_words(text@, i as int) == words_of(text@),
        decreases n - i,
    {
        if is_whitespace(chars[i]) {
            i = i + 1;
        } else {
            let start: usize = i;
            let mut word = String::new();
            while i < n && !is_whitespace(chars[i])
                invariant
                    start <= i <= n,
                    n == chars.len(),
                    chars@ == text@,
                    word@ == text@.subrange(start as int, i as int),
                    start + run(text@, start as int) == i + run(text@, i as int),
                decreases n - i,
            {
                proof {
                    lemma_run_step(text@, i as int);
                }
                push_char(&mut word, chars[i]);
                i = i + 1;
            }
            words.push(word);
        }
    }
    words
}

/// Reads a word list: the words of the text that `bytes` hold, in lower
/// case.
pub fn words_from(bytes: &[u8]) -> (r: AppResult<Vec<String>>)
    ensures
        match r {
            Ok(words) => word_list(bytes@) == Ok::<Seq<Seq<char>>, AppError>(words.deep_view()),
            Err(e) => word_list(bytes@) == Err::<Seq<Seq<char>>, AppError>(e),
        },
{
    let text = match from_utf8(bytes) {
        Ok(text) => text,
        Err(_) => {
            return Err(AppError::InvalidCharset);
        },
    };
    let file_content = to_lowercase(text);
    let words = words_in(file_content.as_str());
    if words.len() == 0 {
        return Err(AppError::NoWords);
    }
    Ok(words)
}

/// The word at position `index` of `words`, if there is one.
pub fn word_at(words: &Vec<String>, index: usize) -> (r: AppResult<&str>)
    ensures
        r is Ok <==> index < words.len(),
        match r {
            Ok(word) => index < words.len() && word@ == words[index as int]@,
            Err(e) => index >= words.len() && e == AppError::NoWords,
        },
{
    if index < words.len() {
        Ok(words[index].as_str())
    } else {
        Err(AppError::NoWords)
    }
}

/// Picks one of `words` at random. An empty list has no word to pick.
pub fn pick_word(words: &Vec<String>) -> (r: AppResult<&str>)
    ensures
        r is Err <==> words.len() == 0,
        match r {
            Ok(word) => exists|i: int| 0 <= i < words.len() && word@ == #[trigger] words[i]@,
            Err(e) => words.len() == 0 && e == AppError::NoWords,
        },
{
    if words.len() == 0 {
        return Err(AppError::NoWords);
    }
    let index: usize = random_number(words.len());
    word_at(words, index)
}

} // verus!
