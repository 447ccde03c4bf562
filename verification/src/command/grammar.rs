//! The spoken-command grammar: from a transcribed sentence to an action.
//!
//! A sentence is read word by word. Nothing counts until a word names the
//! bot. From then on each word either completes a command, leads deeper into
//! one (the queue, a position in it, a yes or no), or is passed over.
//! Words are matched by what they contain, and with the letters that the
//! transcription tends to confuse treated as one.

use super::text::{
    contains, has_substring, join_from, joined, normalize, normalized, number_in, numeric_part,
    parsed_usize, replace, replaced, split_whitespace, whitespace_words, words_view,
};
use vstd::prelude::*;

verus! {

/// What a user asks of a player.
pub enum Action {
    Play { text_channel_id: u64, voice_channel_id: u64, query: String },
    VoicePlay { query: String },
    QueueView,
    QueueMove { index: usize },
    QueueRepeat(bool),
    QueueShuffle,
    Next,
    Previous,
    Pause,
    Resume,
    Repeat(bool),
    Stop,
}

/// What an action is, mathematically.
pub enum ActionView {
    Play { text_channel_id: u64, voice_channel_id: u64, query: Seq<char> },
    VoicePlay { query: Seq<char> },
    QueueView,
    QueueMove { index: usize },
    QueueRepeat(bool),
    QueueShuffle,
    Next,
    Previous,
    Pause,
    Resume,
    Repeat(bool),
    Stop,
}

impl View for Action {
    type V = ActionView;

    open spec fn view(&self) -> ActionView {
        match self {
            Action::Play { text_channel_id, voice_channel_id, query } => ActionView::Play {
                text_channel_id: *text_channel_id,
                voice_channel_id: *voice_channel_id,
                query: query@,
            },
            Action::VoicePlay { query } => ActionView::VoicePlay { query: query@ },
            Action::QueueView => ActionView::QueueView,
            Action::QueueMove { index } => ActionView::QueueMove { index: *index },
            Action::QueueRepeat(repeat) => ActionView::QueueRepeat(*repeat),
            Action::QueueShuffle => ActionView::QueueShuffle,
            Action::Next => ActionView::Next,
            Action::Previous => ActionView::Previous,
            Action::Pause => ActionView::Pause,
            Action::Resume => ActionView::Resume,
            Action::Repeat(repeat) => ActionView::Repeat(*repeat),
            Action::Stop => ActionView::Stop,
        }
    }
}

/// How far into a command the words read so far have led.
#[derive(Clone, Copy, Debug, PartialEq, Eq, Structural)]
pub enum Stage {
    /// The bot has not been named yet.
    Unaddressed,
    /// The bot has been named; a command is awaited.
    Base,
    /// The queue has been named; what to do with it is awaited.
    Queue,
    /// A position in the queue is awaited.
    QueueMove,
    /// A yes or no on repeating the queue is awaited.
    QueueRepeat,
    /// A yes or no on repeating the track is awaited.
    Repeat,
}

/// What a word does to the reading of a sentence.
pub enum Reading {
    /// The sentence is this action.
    Settled(ActionView),
    /// The sentence is no command.
    Nothing,
    /// Reading goes on at this stage.
    Onward(Stage),
}

/// Whether a word, or the word with `from` written as `to`, contains
/// `pattern`.
pub open spec fn sounds_like(word: Seq<char>, from: char, to: char, pattern: Seq<char>) -> bool {
    has_substring(replaced(word, from, to), pattern)
}

/// The position that a word names: the number that its numeric characters
/// spell, counted from one, as a position counted from zero.
pub open spec fn position_named_by(word: Seq<char>) -> Option<usize> {
    match parsed_usize(numeric_part(word)) {
        Some(number) if number >= 1 => Some((number - 1) as usize),
        _ => None,
    }
}

/// What a word in its normal form does at a stage, given the words that
/// follow it.
pub open spec fn read_word(stage: Stage, word: Seq<char>, rest: Seq<Seq<char>>) -> Reading {
    match stage {
        Stage::Unaddressed => if sounds_like(word, 'z', 's', "trans"@) || sounds_like(
            word,
            'z',
            's',
            "istor"@,
        ) {
            Reading::Onward(Stage::Base)
        } else {
            Reading::Onward(Stage::Unaddressed)
        },
        Stage::Base => if sounds_like(word, 'd', 't', "rat"@) || has_substring(word, "hra"@) {
            if rest.len() == 0 {
                Reading::Nothing
            } else {
                Reading::Settled(ActionView::VoicePlay { query: joined(rest) })
            }
        } else if has_substring(word, "front"@) {
            Reading::Onward(Stage::Queue)
        } else if sounds_like(word, 't', 'd', "dal"@) {
            Reading::Settled(ActionView::Next)
        } else if sounds_like(word, 't', 'd', "pred"@) || sounds_like(word, 's', 'z', "hoz"@) {
            Reading::Settled(ActionView::Previous)
        } else if has_substring(word, "pau"@) {
            Reading::Settled(ActionView::Pause)
        } else if sounds_like(word, 'g', 'k', "krac"@) {
            Reading::Settled(ActionView::Resume)
        } else if has_substring(word, "pako"@) {
            Reading::Onward(Stage::Repeat)
        } else if sounds_like(word, 'd', 't', "top"@) {
            Reading::Settled(ActionView::Stop)
        } else {
            Reading::Onward(Stage::Base)
        },
        Stage::Queue => if sounds_like(word, 's', 'z', "obraz"@) {
            Reading::Settled(ActionView::QueueView)
        } else if has_substring(word, "suno"@) {
            Reading::Onward(Stage::QueueMove)
        } else if has_substring(word, "pako"@) {
            Reading::Onward(Stage::QueueRepeat)
        } else if sounds_like(word, 't', 'd', "hod"@) {
            Reading::Settled(ActionView::QueueShuffle)
        } else {
            Reading::Onward(Stage::Queue)
        },
        Stage::QueueMove => match position_named_by(word) {
            Some(index) => Reading::Settled(ActionView::QueueMove { index }),
            None => Reading::Onward(Stage::QueueMove),
        },
        Stage::QueueRepeat => if has_substring(word, "ano"@) {
            Reading::Settled(ActionView::QueueRepeat(true))
        } else if has_substring(word, "ne"@) {
            Reading::Settled(ActionView::QueueRepeat(false))
        } else {
            Reading::Onward(Stage::QueueRepeat)
        },
        Stage::Repeat => if has_substring(word, "ano"@) {
            Reading::Settled(ActionView::Repeat(true))
        } else if has_substring(word, "ne"@) {
            Reading::Settled(ActionView::Repeat(false))
        } else {
            Reading::Onward(Stage::Repeat)
        },
    }
}

/// The action that a run of words amounts to when reading starts at
/// `stage`: that of the first word that settles it. Empty words are passed
/// over; words that run out before anything is settled are no command.
pub open spec fn read_from(stage: Stage, words: Seq<Seq<char>>) -> Result<ActionView, ()>
    decreases words.len(),
{
    if words.len() == 0 {
        Err(())
    } else if words.first().len() == 0 {
        read_from(stage, words.drop_first())
    } else {
        match read_word(stage, normalized(words.first()), words.drop_first()) {
            Reading::Settled(action) => Ok(action),
            Reading::Nothing => Err(()),
            Reading::Onward(next) => read_from(next, words.drop_first()),
        }
    }
}

/// The action that a sentence amounts to.
pub open spec fn read(text: Seq<char>) -> Result<ActionView, ()> {
    read_from(Stage::Unaddressed, whitespace_words(text))
}

/// The view of what reading a sentence has given.
pub open spec fn result_view(result: Result<Action, ()>) -> Result<ActionView, ()> {
    match result {
        Ok(action) => Ok(action@),
        Err(_) => Err(()),
    }
}

/// What one word leads to, in executable form.
enum Step {
    Settled(Action),
    Nothing,
    Onward(Stage),
}

impl View for Step {
    type V = Reading;

    closed spec fn view(&self) -> Reading {
        match self {
            Step::Settled(action) => Reading::Settled(action@),
            Step::Nothing => Reading::Nothing,
            Step::Onward(stage) => Reading::Onward(*stage),
        }
    }
}

fn sounds_like_pattern(word: &Vec<char>, from: char, to: char, pattern: &str) -> (found: bool)
    ensures
        found == sounds_like(word@, from, to, pattern@),
{
    let heard = replace(word, from, to);
    contains(&heard, pattern)
}

fn position_of(word: &Vec<char>) -> (position: Option<usize>)
    ensures
        position == position_named_by(word@),
{
    match number_in(word) {
        Some(number) => if number >= 1 {
            Some(number - 1)
        } else {
            None
        },
        None => None,
    }
}

fn step(stage: Stage, word: &Vec<char>, words: &Vec<String>, following: usize) -> (step: Step)
    requires
        following <= words@.len(),
    ensures
        step@ == read_word(stage, word@, words_view(words).skip(following as int)),
{
    match stage {
        Stage::Unaddressed => {
            if sounds_like_pattern(word, 'z', 's', "trans") || sounds_like_pattern(
                word,
                'z',
                's',
                "istor",
            ) {
                Step::Onward(Stage::Base)
            } else {
                Step::Onward(Stage::Unaddressed)
            }
        },
        Stage::Base => {
            if sounds_like_pattern(word, 'd', 't', "rat") || contains(word, "hra") {
                if following == words.len() {
                    Step::Nothing
                } else {
                    Step::Settled(Action::VoicePlay { query: join_from(words, following) })
                }
            } else if contains(word, "front") {
                Step::Onward(Stage::Queue)
            } else if sounds_like_pattern(word, 't', 'd', "dal") {
                Step::Settled(Action::Next)
            } else if sounds_like_pattern(word, 't', 'd', "pred") || sounds_like_pattern(
                word,
                's',
                'z',
                "hoz",
            ) {
                Step::Settled(Action::Previous)
            } else if contains(word, "pau") {
                Step::Settled(Action::Pause)
            } else if sounds_like_pattern(word, 'g', 'k', "krac") {
                Step::Settled(Action::Resume)
            } else if contains(word, "pako") {
                Step::Onward(Stage::Repeat)
            } else if sounds_like_pattern(word, 'd', 't', "top") {
                Step::Settled(Action::Stop)
            } else {
                Step::Onward(Stage::Base)
            }
        },
        Stage::Queue => {
            if sounds_like_pattern(word, 's', 'z', "obraz") {
                Step::Settled(Action::QueueView)
            } else if contains(word, "suno") {
                Step::Onward(Stage::QueueMove)
            } else if contains(word, "pako") {
                Step::Onward(Stage::QueueRepeat)
            } else if sounds_like_pattern(word, 't', 'd', "hod") {
                Step::Settled(Action::QueueShuffle)
            } else {
                Step::Onward(Stage::Queue)
            }
        },
        Stage::QueueMove => match position_of(word) {
            Some(index) => Step::Settled(Action::QueueMove { index }),
            None => Step::Onward(Stage::QueueMove),
        },
        Stage::QueueRepeat => {
            if contains(word, "ano") {
                Step::Settled(Action::QueueRepeat(true))
            } else if contains(word, "ne") {
                Step::Settled(Action::QueueRepeat(false))
            } else {
                Step::Onward(Stage::QueueRepeat)
            }
        },
        Stage::Repeat => {
            if contains(word, "ano") {
                Step::Settled(Action::Repeat(true))
            } else if contains(word, "ne") {
                Step::Settled(Action::Repeat(false))
            } else {
                Step::Onward(Stage::Repeat)
            }
        },
    }
}

impl Action {
    /// Reads an action from the words of a sentence.
    pub fn from_words(words: &Vec<String>) -> (result: Result<Action, ()>)
        ensures
            result_view(result) == read_from(Stage::Unaddressed, words_view(words)),
    {
        let ghost all = words_view(words);
        let mut stage = Stage::Unaddressed;
        let mut position: usize = 0;
        proof {
            assert(all.skip(0) =~= all);
        }
        while position < words.len()
            invariant
                position <= words@.len(),
                all == words_view(words),
                read_from(Stage::Unaddressed, all) == read_from(stage, all.skip(position as int)),
            decreases words.len() - position,
        {
            let ghost rest = all.skip(position as int);
            proof {
                assert(rest.first() == words@[position as int]@);
                assert(rest.drop_first() =~= all.skip(position + 1));
            }
            let word = words[position].as_str();
            if word.unicode_len() != 0 {
                let word = normalize(word);
                match step(stage, &word, words, position + 1) {
                    Step::Settled(action) => {
                        return Ok(action);
                    },
                    Step::Nothing => {
                        return Err(());
                    },
                    Step::Onward(next) => {
                        stage = next;
                    },
                }
            }
            position += 1;
        }
        Err(())
    }

    /// Reads an action from a transcribed sentence. Fails if the sentence is
    /// no command.
    pub fn from_str(text: &str) -> (result: Result<Action, ()>)
        ensures
            result_view(result) == read(text@),
    {
        let words = split_whitespace(text);
        Action::from_words(&words)
    }
}

} // verus!
