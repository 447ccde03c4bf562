//! What the bot's messages say: their icons and their texts.
//!
//! A message is put together here as plain text; turning it into a message of
//! the chat service is left to the caller.

use crate::command::execution::{Executed, UserCausedError};
use crate::command::FromInteractionUserCausedError;
use crate::model::Track;
use crate::player::Queue;
use vstd::prelude::*;
use vstd::string::StringExecFns;

verus! {

/// Address under which every icon is found.
pub const ICONS_BASE_URL: &'static str =
    "https://raw.githubusercontent.com/matous-volf/tranzistorak/main/icons/";

/// Number of tracks that a view of the queue shows on either side of the
/// current one, at most.
pub const QUEUE_VIEW_MAX_TRACKS: usize = 15;

/// The icon of a message.
#[derive(Clone, Copy, Debug, PartialEq, Eq, Structural)]
pub enum EmbedIcon {
    Bot,
    YouTube,
    Error,
    Queue,
    Next,
    Previous,
    Pause,
    Resume,
    Repeat,
    Stop,
}

impl EmbedIcon {
    /// Name of the icon's file, without its extension.
    pub open spec fn spec_name(&self) -> Seq<char> {
        match self {
            EmbedIcon::Bot => "bot"@,
            EmbedIcon::YouTube => "youtube"@,
            EmbedIcon::Error => "error"@,
            EmbedIcon::Queue => "queue"@,
            EmbedIcon::Next => "next"@,
            EmbedIcon::Previous => "previous"@,
            EmbedIcon::Pause => "pause"@,
            EmbedIcon::Resume => "resume"@,
            EmbedIcon::Repeat => "repeat"@,
            EmbedIcon::Stop => "stop"@,
        }
    }

    /// Name of the icon's file, without its extension.
    pub fn name(&self) -> (name: &'static str)
        ensures
            name@ == self.spec_name(),
    {
        match self {
            EmbedIcon::Bot => "bot",
            EmbedIcon::YouTube => "youtube",
            EmbedIcon::Error => "error",
            EmbedIcon::Queue => "queue",
            EmbedIcon::Next => "next",
            EmbedIcon::Previous => "previous",
            EmbedIcon::Pause => "pause",
            EmbedIcon::Resume => "resume",
            EmbedIcon::Repeat => "repeat",
            EmbedIcon::Stop => "stop",
        }
    }

    /// Address of the icon: the base address, the icon's name, `.png`.
    pub fn url(&self) -> (url: String)
        ensures
            url@ == ICONS_BASE_URL@ + self.spec_name() + ".png"@,
    {
        let mut url = String::from_str(ICONS_BASE_URL);
        url.append(self.name());
        url.append(".png");
        url
    }
}

/// A message of the bot: who speaks, under which icon, and what is said.
pub struct EmbedContent {
    pub author_text: String,
    pub author_icon: EmbedIcon,
    pub title: String,
    pub description: Option<String>,
    pub url: Option<String>,
    pub thumbnail_url: Option<String>,
    /// Whether the message reports an error and is shown in red.
    pub is_error: bool,
}

/// What a message is, mathematically.
pub struct EmbedContentView {
    pub author_text: Seq<char>,
    pub author_icon: EmbedIcon,
    pub title: Seq<char>,
    pub description: Option<Seq<char>>,
    pub url: Option<Seq<char>>,
    pub thumbnail_url: Option<Seq<char>>,
    pub is_error: bool,
}

/// The text that an optional string holds.
pub open spec fn text_view(text: Option<String>) -> Option<Seq<char>> {
    match text {
        Some(text) => Some(text@),
        None => None,
    }
}

impl View for EmbedContent {
    type V = EmbedContentView;

    open spec fn view(&self) -> EmbedContentView {
        EmbedContentView {
            author_text: self.author_text@,
            author_icon: self.author_icon,
            title: self.title@,
            description: text_view(self.description),
            url: text_view(self.url),
            thumbnail_url: text_view(self.thumbnail_url),
            is_error: self.is_error,
        }
    }
}

/// The character of a decimal digit.
pub open spec fn digit(value: nat) -> char {
    (48 + value) as char
}

/// A number written in decimal.
pub open spec fn decimal(number: nat) -> Seq<char>
    decreases number,
{
    if number < 10 {
        seq![digit(number)]
    } else {
        decimal(number / 10).push(digit(number % 10))
    }
}

/// A plain message: author, icon and title, nothing else.
pub open spec fn base_view(author_text: Seq<char>, author_icon: EmbedIcon, title: Seq<char>) -> EmbedContentView {
    EmbedContentView {
        author_text,
        author_icon,
        title,
        description: None,
        url: None,
        thumbnail_url: None,
        is_error: false,
    }
}

/// An error message: a plain message under the error icon, marked as an
/// error.
pub open spec fn error_view(author_text: Seq<char>, title: Seq<char>) -> EmbedContentView {
    EmbedContentView { is_error: true, ..base_view(author_text, EmbedIcon::Error, title) }
}

/// The message for an error that the user can do nothing about.
pub open spec fn command_generic_error_view() -> EmbedContentView {
    error_view("Chyba"@, "Při vykonávání příkazu nastala chyba."@)
}

/// The message for an interaction that is no command through the user's
/// doing.
pub open spec fn from_interaction_user_caused_error_view(
    error: FromInteractionUserCausedError,
) -> EmbedContentView {
    error_view(
        "Chyba"@,
        match error {
            FromInteractionUserCausedError::NotInGuild => {
                "Příkazy je možné použít pouze na serveru, v přímé konverzaci nikoli."@
            },
            FromInteractionUserCausedError::UserNotInVoiceChannel => {
                "Pro ovládání je nutné se připojit do hlasového kanálu."@
            },
        },
    )
}

/// The position after `index`, counted from one, in decimal.
pub open spec fn ordinal(index: usize) -> Seq<char> {
    decimal((index + 1) as nat)
}

/// The message for a command that was not carried out through the user's
/// doing.
pub open spec fn user_caused_error_view(error: UserCausedError) -> EmbedContentView {
    error_view(
        "Chyba"@,
        match error {
            UserCausedError::UserInDifferentVoiceChannel => {
                "Pro ovládání je nutné se připojit do hlasového kanálu, v němž se nachází bot."@
            },
            UserCausedError::CouldNotJoin => "Nebylo možné připojit se do hlasového kanálu."@,
            UserCausedError::NotPlaying => "Neprobíhá přehrávání."@,
            UserCausedError::QueueMove(error) => "Fronta "@ + ordinal(error.0)
                + ". pozici neobsahuje."@,
            UserCausedError::Next(_) => "Ve frontě se nenachází žádné další položky."@,
            UserCausedError::Previous(_) => "Ve frontě se nenachází žádné předchozí položky."@,
        },
    )
}

/// How a switch is put into words.
pub open spec fn switch_word(on: bool) -> Seq<char> {
    if on {
        "zapnuto"@
    } else {
        "vypnuto"@
    }
}

/// First position that a view of the queue shows: fifteen before the
/// current one, or the first.
pub open spec fn view_start(queue: Queue) -> nat {
    match queue.current_playing_track_index {
        Some(index) if index > QUEUE_VIEW_MAX_TRACKS => (index - QUEUE_VIEW_MAX_TRACKS) as nat,
        _ => 0,
    }
}

/// Position behind the last one that a view of the queue shows: fifteen
/// behind the current one, or the end of the queue.
pub open spec fn view_end(queue: Queue) -> nat {
    let index = match queue.current_playing_track_index {
        Some(index) => index as nat,
        None => 0,
    };
    if index + QUEUE_VIEW_MAX_TRACKS < queue.tracks@.len() {
        index + QUEUE_VIEW_MAX_TRACKS as nat
    } else {
        queue.tracks@.len()
    }
}

/// The line of a track in a view of the queue: its position counted from
/// one, and its title as a link, in bold if it is the current track.
pub open spec fn view_line(queue: Queue, position: int) -> Seq<char> {
    let track = queue.tracks@[position];
    decimal((position + 1) as nat) + ". ["@ + (if queue.current_playing_track_index == Some(
        position as usize,
    ) {
        "**"@ + track.title@ + "** "@
    } else {
        track.title@
    }) + "]("@ + track.youtube_url@ + ")"@
}

/// The lines of the tracks from `start` up to `end`, one below the other.
pub open spec fn view_lines(queue: Queue, start: int, end: int) -> Seq<char>
    decreases end - start,
{
    if end <= start {
        Seq::empty()
    } else if end == start + 1 {
        view_line(queue, start)
    } else {
        view_lines(queue, start, end - 1) + "\n"@ + view_line(queue, end - 1)
    }
}

/// The text of a view of the queue: how many tracks come before the ones
/// shown, if any; the tracks shown; how many follow, if any.
pub open spec fn queue_text(queue: Queue) -> Seq<char> {
    let start = view_start(queue);
    let end = view_end(queue);
    (if start > 0 {
        "*předcházejících: "@ + decimal(start) + "*\n"@
    } else {
        Seq::empty()
    }) + view_lines(queue, start as int, end as int) + (if end != queue.tracks@.len() {
        "\n*následujících: "@ + decimal((queue.tracks@.len() - end) as nat) + "*"@
    } else {
        Seq::empty()
    })
}

/// The message that reports what a command has done.
pub open spec fn executed_view<T>(executed: Executed<T>) -> EmbedContentView {
    match executed {
        Executed::Play(None) => error_view(
            "Nenalezeno"@,
            "Dle zadaného textu nebyl nalezen žádný výsledek."@,
        ),
        Executed::Play(Some(fetched)) => EmbedContentView {
            url: Some(fetched.url@),
            thumbnail_url: text_view(fetched.thumbnail_url),
            ..base_view("Přidáno do fronty"@, EmbedIcon::Queue, fetched.title@)
        },
        Executed::QueueView(queue) => EmbedContentView {
            description: Some(queue_text(queue)),
            ..base_view("Fronta"@, EmbedIcon::Queue, "Položky ve frontě:"@)
        },
        Executed::QueueMove { index } => base_view(
            "Fronta"@,
            EmbedIcon::Queue,
            "Přehrávání posunuto na "@ + ordinal(index) + ". pozici ve frontě."@,
        ),
        Executed::QueueRepeat(repeat) => base_view(
            "Ovládání"@,
            EmbedIcon::Repeat,
            "Opakované přehrávání fronty je "@ + switch_word(repeat) + "."@,
        ),
        Executed::QueueShuffle => base_view(
            "Ovládání"@,
            EmbedIcon::Repeat,
            "Fronta byla náhodně zamíchána."@,
        ),
        Executed::Next => base_view("Ovládání"@, EmbedIcon::Next, "Přehrávání další položky."@),
        Executed::Previous => base_view(
            "Ovládání"@,
            EmbedIcon::Previous,
            "Přehrávání předchozí položky."@,
        ),
        Executed::Pause => base_view("Ovládání"@, EmbedIcon::Pause, "Přehrávání pozastaveno."@),
        Executed::Resume => base_view("Ovládání"@, EmbedIcon::Resume, "Přehrávání pokračuje."@),
        Executed::Repeat(repeat) => base_view(
            "Ovládání"@,
            EmbedIcon::Repeat,
            "Opakované přehrávání aktuální položky je "@ + switch_word(repeat) + "."@,
        ),
        Executed::Stop => base_view("Ovládání"@, EmbedIcon::Stop, "Přehrávání zastaveno."@),
    }
}

/// The message that announces a track that has started to play.
pub open spec fn started_playing_view(track: Track) -> EmbedContentView {
    EmbedContentView {
        url: Some(track.youtube_url@),
        thumbnail_url: text_view(track.thumbnail_url),
        ..base_view("Přehrávání"@, EmbedIcon::YouTube, track.title@)
    }
}

fn digit_text(value: u8) -> (text: &'static str)
    requires
        value < 10,
    ensures
        text@ == seq![digit(value as nat)],
{
    proof {
        reveal_strlit("0");
        reveal_strlit("1");
        reveal_strlit("2");
        reveal_strlit("3");
        reveal_strlit("4");
        reveal_strlit("5");
        reveal_strlit("6");
        reveal_strlit("7");
        reveal_strlit("8");
        reveal_strlit("9");
    }
    let text = match value {
        0 => "0",
        1 => "1",
        2 => "2",
        3 => "3",
        4 => "4",
        5 => "5",
        6 => "6",
        7 => "7",
        8 => "8",
        _ => "9",
    };
    assert(text@ =~= seq![digit(value as nat)]);
    text
}

/// Writes a number in decimal.
pub fn decimal_string(number: u128) -> (text: String)
    ensures
        text@ == decimal(number as nat),
    decreases number,
{
    if number < 10 {
        String::from_str(digit_text(number as u8))
    } else {
        let mut text = decimal_string(number / 10);
        text.append(digit_text((number % 10) as u8));
        text
    }
}

fn ordinal_string(index: usize) -> (text: String)
    ensures
        text@ == ordinal(index),
{
    decimal_string(index as u128 + 1)
}

fn switch_text(on: bool) -> (text: &'static str)
    ensures
        text@ == switch_word(on),
{
    if on {
        "zapnuto"
    } else {
        "vypnuto"
    }
}

/// A plain message: author, icon and title, nothing else.
pub fn base(author_text: &str, author_icon: EmbedIcon, title: &str) -> (content: EmbedContent)
    ensures
        content@ == base_view(author_text@, author_icon, title@),
{
    EmbedContent {
        author_text: String::from_str(author_text),
        author_icon,
        title: String::from_str(title),
        description: None,
        url: None,
        thumbnail_url: None,
        is_error: false,
    }
}

/// An error message: a plain message under the error icon, marked as an
/// error.
pub fn error(author_text: &str, title: &str) -> (content: EmbedContent)
    ensures
        content@ == error_view(author_text@, title@),
{
    let mut content = base(author_text, EmbedIcon::Error, title);
    content.is_error = true;
    content
}

/// The message for an error that the user can do nothing about.
pub fn command_generic_error() -> (content: EmbedContent)
    ensures
        content@ == command_generic_error_view(),
{
    error("Chyba", "Při vykonávání příkazu nastala chyba.")
}

/// The message for an interaction that is no command through the user's
/// doing.
pub fn from_interaction_user_caused_error(error: FromInteractionUserCausedError) -> (content:
    EmbedContent)
    ensures
        content@ == from_interaction_user_caused_error_view(error),
{
    self::error(
        "Chyba",
        match error {
            FromInteractionUserCausedError::NotInGuild => {
                "Příkazy je možné použít pouze na serveru, v přímé konverzaci nikoli."
            },
            FromInteractionUserCausedError::UserNotInVoiceChannel => {
                "Pro ovládání je nutné se připojit do hlasového kanálu."
            },
        },
    )
}

/// The message for a command that was not carried out through the user's
/// doing.
pub fn user_caused_error(error: UserCausedError) -> (content: EmbedContent)
    ensures
        content@ == user_caused_error_view(error),
{
    match error {
        UserCausedError::UserInDifferentVoiceChannel => self::error(
            "Chyba",
            "Pro ovládání je nutné se připojit do hlasového kanálu, v němž se nachází bot.",
        ),
        UserCausedError::CouldNotJoin => self::error(
            "Chyba",
            "Nebylo možné připojit se do hlasového kanálu.",
        ),
        UserCausedError::NotPlaying => self::error("Chyba", "Neprobíhá přehrávání."),
        UserCausedError::QueueMove(error) => {
            let mut title = String::from_str("Fronta ");
            title.append(ordinal_string(error.0).as_str());
            title.append(". pozici neobsahuje.");
            self::error("Chyba", title.as_str())
        },
        UserCausedError::Next(_) => self::error(
            "Chyba",
            "Ve frontě se nenachází žádné další položky.",
        ),
        UserCausedError::Previous(_) => self::error(
            "Chyba",
            "Ve frontě se nenachází žádné předchozí položky.",
        ),
    }
}

fn view_line_text(queue: &Queue, position: usize) -> (line: String)
    requires
        position < queue.tracks@.len(),
    ensures
        line@ == view_line(*queue, position as int),
{
    let track = &queue.tracks[position];
    let is_current = match queue.current_playing_track_index {
        Some(index) => index == position,
        None => false,
    };
    let mut line = decimal_string(position as u128 + 1);
    line.append(". [");
    if is_current {
        line.append("**");
        line.append(track.title.as_str());
        line.append("** ");
    } else {
        line.append(track.title.as_str());
    }
    line.append("](");
    line.append(track.youtube_url.as_str());
    line.append(")");
    proof {
        assert(line@ =~= view_line(*queue, position as int));
    }
    line
}

/// Writes the text of a view of the queue.
pub fn queue_view_text(queue: &Queue) -> (text: String)
    requires
        queue.wf(),
    ensures
        text@ == queue_text(*queue),
{
    let length = queue.tracks.len();
    let index = match queue.current_playing_track_index {
        Some(index) => index,
        None => 0,
    };
    let start = if index > QUEUE_VIEW_MAX_TRACKS {
        index - QUEUE_VIEW_MAX_TRACKS
    } else {
        0
    };
    let end = if length > index && length - index > QUEUE_VIEW_MAX_TRACKS {
        index + QUEUE_VIEW_MAX_TRACKS
    } else {
        length
    };
    assert(start == view_start(*queue));
    assert(end == view_end(*queue));
    let mut text = String::new();
    if start > 0 {
        text.append("*předcházejících: ");
        text.append(decimal_string(start as u128).as_str());
        text.append("*\n");
    }
    let ghost head = text@;
    let mut position = start;
    while position < end
        invariant
            start <= position <= end <= length,
            start <= end,
            length == queue.tracks@.len(),
            text@ == head + view_lines(*queue, start as int, position as int),
        decreases end - position,
    {
        if position > start {
            text.append("\n");
        }
        text.append(view_line_text(queue, position).as_str());
        proof {
            assert(text@ =~= head + view_lines(*queue, start as int, position + 1));
        }
        position += 1;
    }
    if end != length {
        text.append("\n*následujících: ");
        text.append(decimal_string((length - end) as u128).as_str());
        text.append("*");
    }
    proof {
        assert(text@ =~= queue_text(*queue));
    }
    text
}

/// The message that reports what a command has done.
pub fn executed<T>(outcome: Executed<T>) -> (content: EmbedContent)
    requires
        outcome matches Executed::QueueView(queue) ==> queue.wf(),
    ensures
        content@ == executed_view(outcome),
{
    match outcome {
        Executed::Play(None) => error(
            "Nenalezeno",
            "Dle zadaného textu nebyl nalezen žádný výsledek.",
        ),
        Executed::Play(Some(fetched)) => {
            let mut content = base("Přidáno do fronty", EmbedIcon::Queue, fetched.title.as_str());
            content.url = Some(fetched.url);
            content.thumbnail_url = fetched.thumbnail_url;
            content
        },
        Executed::QueueView(queue) => {
            let mut content = base("Fronta", EmbedIcon::Queue, "Položky ve frontě:");
            content.description = Some(queue_view_text(&queue));
            content
        },
        Executed::QueueMove { index } => {
            let mut title = String::from_str("Přehrávání posunuto na ");
            title.append(ordinal_string(index).as_str());
            title.append(". pozici ve frontě.");
            base("Fronta", EmbedIcon::Queue, title.as_str())
        },
        Executed::QueueRepeat(repeat) => {
            let mut title = String::from_str("Opakované přehrávání fronty je ");
            title.append(switch_text(repeat));
            title.append(".");
            base("Ovládání", EmbedIcon::Repeat, title.as_str())
        },
        Executed::QueueShuffle => base(
            "Ovládání",
            EmbedIcon::Repeat,
            "Fronta byla náhodně zamíchána.",
        ),
        Executed::Next => base("Ovládání", EmbedIcon::Next, "Přehrávání další položky."),
        Executed::Previous => base("Ovládání", EmbedIcon::Previous, "Přehrávání předchozí položky."),
        Executed::Pause => base("Ovládání", EmbedIcon::Pause, "Přehrávání pozastaveno."),
        Executed::Resume => base("Ovládání", EmbedIcon::Resume, "Přehrávání pokračuje."),
        Executed::Repeat(repeat) => {
            let mut title = String::from_str("Opakované přehrávání aktuální položky je ");
            title.append(switch_text(repeat));
            title.append(".");
            base("Ovládání", EmbedIcon::Repeat, title.as_str())
        },
        Executed::Stop => base("Ovládání", EmbedIcon::Stop, "Přehrávání zastaveno."),
    }
}

/// The message that announces a track that has started to play.
pub fn started_playing(track: Track) -> (content: EmbedContent)
    ensures
        content@ == started_playing_view(track),
{
    let mut content = base("Přehrávání", EmbedIcon::YouTube, track.title.as_str());
    content.url = Some(track.youtube_url);
    content.thumbnail_url = track.thumbnail_url;
    content
}

} // verus!
