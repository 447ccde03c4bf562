//! What the command grammar needs of text: words, their plain-ASCII form, and
//! a few searches in them.
//!
//! Splitting into words, transliteration, the classification of a character
//! as numeric and the reading of a number are taken from `std` and from
//! `deunicode`, on trust, through the declarations at the top of this file.
//! The rest is proved.

use vstd::prelude::*;
use vstd::string::{StrSliceExecFns, StringExecFns};

verus! {

/// The words of a text as `str::split_whitespace` yields them: its maximal
/// runs of characters that are not Unicode white space, in order.
pub uninterp spec fn whitespace_words(text: Seq<char>) -> Seq<Seq<char>>;

/// The ASCII transliteration of a text as `deunicode::deunicode` gives it.
pub uninterp spec fn deunicoded(text: Seq<char>) -> Seq<char>;

/// Whether `char::is_numeric` holds of a character.
pub uninterp spec fn is_numeric(character: char) -> bool;

/// The number that `str::parse::<usize>` reads from a text, if it reads one.
pub uninterp spec fn parsed_usize(text: Seq<char>) -> Option<usize>;

/// The words that a vector of strings holds.
pub open spec fn words_view(words: &Vec<String>) -> Seq<Seq<char>> {
    Seq::new(words@.len(), |position: int| words@[position]@)
}

/// `str::split_whitespace`, each word copied into a string of its own.
#[verifier::external_body]
pub(crate) fn split_whitespace(text: &str) -> (words: Vec<String>)
    ensures
        words_view(&words) == whitespace_words(text@),
{
    text.split_whitespace().map(str::to_owned).collect()
}

/// `deunicode::deunicode`: the ASCII transliteration of a text.
#[verifier::external_body]
fn deunicode(text: &str) -> (ascii: String)
    ensures
        ascii@ == deunicoded(text@),
{
    deunicode::deunicode(text)
}

/// `char::is_numeric`: whether Unicode classes the character as a number.
#[verifier::external_body]
fn char_is_numeric(character: char) -> (numeric: bool)
    ensures
        numeric == is_numeric(character),
{
    character.is_numeric()
}

/// `String::push`: appends one character.
#[verifier::external_body]
fn push_char(text: &mut String, character: char)
    ensures
        final(text)@ == old(text)@.push(character),
{
    text.push(character)
}

/// `str::parse::<usize>`: the number that the text spells, or nothing where
/// `parse` reports an error.
#[verifier::external_body]
fn parse_usize(text: &str) -> (number: Option<usize>)
    ensures
        number == parsed_usize(text@),
{
    text.parse::<usize>().ok()
}

/// A character with the ASCII capitals mapped to their small letters.
pub open spec fn ascii_lowercase(character: char) -> char {
    if 'A' <= character && character <= 'Z' {
        ((character as u8) + 32) as char
    } else {
        character
    }
}

/// The form in which the grammar looks at a word: transliterated to ASCII,
/// capitals made small.
pub open spec fn normalized(word: Seq<char>) -> Seq<char> {
    deunicoded(word).map_values(|character: char| ascii_lowercase(character))
}

/// A text with every occurrence of one character replaced by another.
pub open spec fn replaced(text: Seq<char>, from: char, to: char) -> Seq<char> {
    text.map_values(
        |character: char|
            if character == from {
                to
            } else {
                character
            },
    )
}

/// Whether `pattern` stands in `text` at `position`.
pub open spec fn occurs_at(text: Seq<char>, pattern: Seq<char>, position: int) -> bool {
    &&& 0 <= position
    &&& position + pattern.len() <= text.len()
    &&& text.subrange(position, position + pattern.len()) == pattern
}

/// Whether `pattern` stands anywhere in `text`.
pub open spec fn has_substring(text: Seq<char>, pattern: Seq<char>) -> bool {
    exists|position: int| occurs_at(text, pattern, position)
}

/// Whether `position` is the first place at which `pattern` stands in
/// `text`.
pub open spec fn is_first_occurrence(text: Seq<char>, pattern: Seq<char>, position: int) -> bool {
    &&& occurs_at(text, pattern, position)
    &&& forall|earlier: int| 0 <= earlier < position ==> !occurs_at(text, pattern, earlier)
}

/// The numeric characters of a text, in order.
pub open spec fn numeric_part(text: Seq<char>) -> Seq<char>
    decreases text.len(),
{
    if text.len() == 0 {
        Seq::empty()
    } else if is_numeric(text.last()) {
        numeric_part(text.drop_last()).push(text.last())
    } else {
        numeric_part(text.drop_last())
    }
}

/// Words put together again with one space between each two.
pub open spec fn joined(words: Seq<Seq<char>>) -> Seq<char>
    decreases words.len(),
{
    if words.len() == 0 {
        Seq::empty()
    } else if words.len() == 1 {
        words[0]
    } else {
        joined(words.drop_last()) + seq![' '] + words.last()
    }
}

/// A word in the form in which the grammar looks at it.
pub fn normalize(word: &str) -> (characters: Vec<char>)
    ensures
        characters@ == normalized(word@),
{
    let ascii = deunicode(word);
    let ascii = ascii.as_str();
    let length = ascii.unicode_len();
    let mut characters: Vec<char> = Vec::new();
    let mut position: usize = 0;
    while position < length
        invariant
            length == ascii@.len(),
            ascii@ == deunicoded(word@),
            position <= length,
            characters@ == normalized(word@).take(position as int),
        decreases length - position,
    {
        let character = ascii.get_char(position);
        let lowered = if 'A' <= character && character <= 'Z' {
            ((character as u8) + 32) as char
        } else {
            character
        };
        characters.push(lowered);
        proof {
            assert(characters@ =~= normalized(word@).take(position + 1));
        }
        position += 1;
    }
    proof {
        assert(normalized(word@).take(length as int) =~= normalized(word@));
    }
    characters
}

/// A copy of a text with every occurrence of one character replaced by
/// another.
pub fn replace(text: &Vec<char>, from: char, to: char) -> (result: Vec<char>)
    ensures
        result@ == replaced(text@, from, to),
{
    let mut result: Vec<char> = Vec::new();
    let mut position: usize = 0;
    while position < text.len()
        invariant
            position <= text.len(),
            result@ == replaced(text@, from, to).take(position as int),
        decreases text.len() - position,
    {
        let character = text[position];
        result.push(
            if character == from {
                to
            } else {
                character
            },
        );
        proof {
            assert(result@ =~= replaced(text@, from, to).take(position + 1));
        }
        position += 1;
    }
    proof {
        assert(replaced(text@, from, to).take(position as int) =~= replaced(text@, from, to));
    }
    result
}

fn matches_at(text: &Vec<char>, pattern: &Vec<char>, position: usize) -> (found: bool)
    requires
        position + pattern@.len() <= text@.len(),
    ensures
        found == occurs_at(text@, pattern@, position as int),
{
    let length = text.len();
    let mut offset: usize = 0;
    while offset < pattern.len()
        invariant
            offset <= pattern@.len(),
            position + pattern@.len() <= text@.len(),
            length == text@.len(),
            text@.subrange(position as int, position + offset) == pattern@.take(offset as int),
        decreases pattern.len() - offset,
    {
        if text[position + offset] != pattern[offset] {
            proof {
                let window = text@.subrange(position as int, position + pattern@.len());
                assert(window[offset as int] != pattern@[offset as int]);
            }
            return false;
        }
        proof {
            assert(text@.subrange(position as int, position + offset + 1) =~= pattern@.take(
                offset + 1,
            ));
        }
        offset += 1;
    }
    proof {
        assert(pattern@.take(offset as int) =~= pattern@);
    }
    true
}

/// The characters of a text.
pub fn characters_of(text: &str) -> (characters: Vec<char>)
    ensures
        characters@ == text@,
{
    let length = text.unicode_len();
    let mut characters: Vec<char> = Vec::new();
    let mut position: usize = 0;
    while position < length
        invariant
            length == text@.len(),
            position <= length,
            characters@ == text@.take(position as int),
        decreases length - position,
    {
        characters.push(text.get_char(position));
        proof {
            assert(characters@ =~= text@.take(position + 1));
        }
        position += 1;
    }
    proof {
        assert(text@.take(length as int) =~= text@);
    }
    characters
}

/// The first place at which `pattern` stands in `text`, if it stands
/// anywhere.
pub fn find(text: &Vec<char>, pattern: &str) -> (position: Option<usize>)
    ensures
        match position {
            Some(position) => is_first_occurrence(text@, pattern@, position as int),
            None => !has_substring(text@, pattern@),
        },
{
    let wanted = characters_of(pattern);
    if wanted.len() > text.len() {
        return None;
    }
    let last = text.len() - wanted.len();
    let mut position: usize = 0;
    loop
        invariant
            wanted@ == pattern@,
            last == text@.len() - wanted@.len(),
            position <= last,
            forall|earlier: int| 0 <= earlier < position ==> !occurs_at(text@, wanted@, earlier),
        decreases last - position,
    {
        if matches_at(text, &wanted, position) {
            return Some(position);
        }
        if position == last {
            return None;
        }
        position += 1;
    }
}

/// Whether `pattern` stands anywhere in `text`.
pub fn contains(text: &Vec<char>, pattern: &str) -> (found: bool)
    ensures
        found == has_substring(text@, pattern@),
{
    match find(text, pattern) {
        Some(position) => {
            assert(occurs_at(text@, pattern@, position as int));
            true
        },
        None => false,
    }
}

/// The number that the numeric characters of a word spell, if they spell
/// one.
pub fn number_in(word: &Vec<char>) -> (number: Option<usize>)
    ensures
        number == parsed_usize(numeric_part(word@)),
{
    let mut digits = String::new();
    let mut position: usize = 0;
    while position < word.len()
        invariant
            position <= word.len(),
            digits@ == numeric_part(word@.take(position as int)),
        decreases word.len() - position,
    {
        proof {
            assert(word@.take(position + 1).drop_last() =~= word@.take(position as int));
        }
        if char_is_numeric(word[position]) {
            push_char(&mut digits, word[position]);
        }
        position += 1;
    }
    proof {
        assert(word@.take(position as int) =~= word@);
    }
    parse_usize(digits.as_str())
}

/// The words from `start` on, put together with one space between each two.
pub fn join_from(words: &Vec<String>, start: usize) -> (text: String)
    requires
        start <= words@.len(),
    ensures
        text@ == joined(words_view(words).skip(start as int)),
{
    let ghost rest = words_view(words).skip(start as int);
    let mut text = String::new();
    let mut position: usize = start;
    while position < words.len()
        invariant
            start <= position <= words@.len(),
            rest == words_view(words).skip(start as int),
            text@ == joined(rest.take(position - start)),
        decreases words.len() - position,
    {
        proof {
            assert(rest.take(position - start + 1).drop_last() =~= rest.take(position - start));
            assert(rest.take(position - start + 1).last() == words@[position as int]@);
        }
        if position > start {
            text.append(" ");
            proof {
                reveal_strlit(" ");
                assert(" "@ =~= seq![' ']);
            }
        }
        text.append(words[position].as_str());
        proof {
            assert(text@ =~= joined(rest.take(position - start + 1)));
        }
        position += 1;
    }
    proof {
        assert(rest.take(position - start) =~= rest);
    }
    text
}

} // verus!
