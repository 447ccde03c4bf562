//! Commands: what a user may ask of a player, and how a request is read from
//! a slash-command interaction or from spoken text.

use vstd::prelude::*;

pub mod execution;
pub mod grammar;
pub mod text;

use grammar::{read, Action, ActionView};
use text::characters_of;

verus! {

/// Why an interaction is no command, where the user can do something about
/// it.
#[derive(Clone, Copy, Debug, PartialEq, Eq, Structural)]
pub enum FromInteractionUserCausedError {
    NotInGuild,
    UserNotInVoiceChannel,
}

/// Why an interaction is no command, where the user cannot do anything
/// about it.
#[derive(Clone, Copy, Debug, PartialEq, Eq, Structural)]
pub enum FromInteractionInternalError {
    GuildNotFoundById,
    InvalidOption,
}

/// Why an interaction is no command.
#[derive(Clone, Copy, Debug, PartialEq, Eq, Structural)]
pub enum FromInteractionError {
    UserCaused(FromInteractionUserCausedError),
    Internal(FromInteractionInternalError),
}

/// The value of an option inside a subcommand.
pub enum SubcommandOptionValue {
    Boolean(bool),
    Integer(i64),
    Other,
}

/// The value of an option of a slash command. Of a subcommand only the value
/// of its first option is kept, if it has any.
pub enum CommandOptionValue {
    Boolean(bool),
    String(String),
    SubCommand(Option<SubcommandOptionValue>),
    Other,
}

/// One option of a slash command.
pub struct CommandOption {
    pub name: String,
    pub value: CommandOptionValue,
}

/// What is known of the guild that an interaction came from.
#[derive(Clone, Copy, Debug, PartialEq, Eq, Structural)]
pub enum InteractionGuild {
    /// The interaction did not come from a guild.
    Absent,
    /// It names a guild, but nothing is known of that guild.
    Unknown,
    /// It came from this guild, where the user is in this voice channel, if
    /// in any.
    Known { guild_id: u64, user_voice_channel_id: Option<u64> },
}

/// A slash-command interaction, as far as a command is read from it.
pub struct Interaction {
    pub guild: InteractionGuild,
    /// The channel in which the command was given.
    pub channel_id: u64,
    /// The name of the command.
    pub name: String,
    /// The first option of the command, if it has any.
    pub first_option: Option<CommandOption>,
}

/// A request to a player: whose it is, where the answer goes, and what is
/// asked.
pub struct Command {
    pub guild_id: u64,
    /// Not set for voice commands.
    pub voice_channel_id: Option<u64>,
    pub text_channel_id: Option<u64>,
    pub action: Action,
}

/// What a command is, mathematically.
pub struct CommandView {
    pub guild_id: u64,
    pub voice_channel_id: Option<u64>,
    pub text_channel_id: Option<u64>,
    pub action: ActionView,
}

impl View for Command {
    type V = CommandView;

    open spec fn view(&self) -> CommandView {
        CommandView {
            guild_id: self.guild_id,
            voice_channel_id: self.voice_channel_id,
            text_channel_id: self.text_channel_id,
            action: self.action@,
        }
    }
}

/// The position that a subcommand option names: the number it holds, counted
/// from one, as a position counted from zero.
pub open spec fn position_in(value: Option<SubcommandOptionValue>) -> Option<usize> {
    match value {
        Some(SubcommandOptionValue::Integer(number)) if 1 <= number && number - 1 <= usize::MAX => {
            Some((number - 1) as usize)
        },
        _ => None,
    }
}

/// The yes or no that a subcommand option holds.
pub open spec fn switch_in(value: Option<SubcommandOptionValue>) -> Option<bool> {
    match value {
        Some(SubcommandOptionValue::Boolean(switch)) => Some(switch),
        _ => None,
    }
}

/// The action that a queue subcommand asks for.
pub open spec fn queue_action_of(option: Option<CommandOption>) -> Result<
    ActionView,
    FromInteractionInternalError,
> {
    match option {
        Some(CommandOption { name, value: CommandOptionValue::SubCommand(value) }) => {
            if name@ == "zobrazit"@ {
                Ok(ActionView::QueueView)
            } else if name@ == "posunout"@ {
                match position_in(value) {
                    Some(index) => Ok(ActionView::QueueMove { index }),
                    None => Err(FromInteractionInternalError::InvalidOption),
                }
            } else if name@ == "opakovat"@ {
                match switch_in(value) {
                    Some(repeat) => Ok(ActionView::QueueRepeat(repeat)),
                    None => Err(FromInteractionInternalError::InvalidOption),
                }
            } else if name@ == "nahodne"@ {
                Ok(ActionView::QueueShuffle)
            } else {
                Err(FromInteractionInternalError::InvalidOption)
            }
        },
        _ => Err(FromInteractionInternalError::InvalidOption),
    }
}

/// The action that a slash command asks for, given the voice channel that
/// the user is in.
pub open spec fn action_of(interaction: Interaction, voice_channel_id: u64) -> Result<
    ActionView,
    FromInteractionInternalError,
> {
    let name = interaction.name@;
    if name == "hrat"@ {
        match interaction.first_option {
            Some(CommandOption { value: CommandOptionValue::String(query), .. }) => Ok(
                ActionView::Play {
                    text_channel_id: interaction.channel_id,
                    voice_channel_id,
                    query: query@,
                },
            ),
            _ => Err(FromInteractionInternalError::InvalidOption),
        }
    } else if name == "fronta"@ {
        queue_action_of(interaction.first_option)
    } else if name == "dalsi"@ {
        Ok(ActionView::Next)
    } else if name == "predchozi"@ {
        Ok(ActionView::Previous)
    } else if name == "pauza"@ {
        Ok(ActionView::Pause)
    } else if name == "pokracovat"@ {
        Ok(ActionView::Resume)
    } else if name == "opakovat"@ {
        match interaction.first_option {
            Some(CommandOption { value: CommandOptionValue::Boolean(repeat), .. }) => Ok(
                ActionView::Repeat(repeat),
            ),
            _ => Err(FromInteractionInternalError::InvalidOption),
        }
    } else if name == "stop"@ {
        Ok(ActionView::Stop)
    } else {
        Err(FromInteractionInternalError::InvalidOption)
    }
}

/// The command that an interaction amounts to.
///
/// It has to come from a known guild, from a user who is in a voice channel
/// there, and has to name an action with the option that the action needs.
/// The command then carries the guild, that voice channel, and the channel
/// of the interaction as the place for the answer.
pub open spec fn command_of(interaction: Interaction) -> Result<CommandView, FromInteractionError> {
    match interaction.guild {
        InteractionGuild::Absent => Err(
            FromInteractionError::UserCaused(FromInteractionUserCausedError::NotInGuild),
        ),
        InteractionGuild::Unknown => Err(
            FromInteractionError::Internal(FromInteractionInternalError::GuildNotFoundById),
        ),
        InteractionGuild::Known { guild_id, user_voice_channel_id } => match user_voice_channel_id {
            None => Err(
                FromInteractionError::UserCaused(
                    FromInteractionUserCausedError::UserNotInVoiceChannel,
                ),
            ),
            Some(voice_channel_id) => match action_of(interaction, voice_channel_id) {
                Err(error) => Err(FromInteractionError::Internal(error)),
                Ok(action) => Ok(
                    CommandView {
                        guild_id,
                        voice_channel_id: Some(voice_channel_id),
                        text_channel_id: Some(interaction.channel_id),
                        action,
                    },
                ),
            },
        },
    }
}

/// The command that a transcribed sentence of a guild amounts to: the action
/// read from it, without channels.
pub open spec fn command_of_text(text: Seq<char>, guild_id: u64) -> Result<CommandView, ()> {
    match read(text) {
        Ok(action) => Ok(
            CommandView { guild_id, voice_channel_id: None, text_channel_id: None, action },
        ),
        Err(_) => Err(()),
    }
}

/// The view of what reading an interaction has given.
pub open spec fn command_result_view<E>(result: Result<Command, E>) -> Result<CommandView, E> {
    match result {
        Ok(command) => Ok(command@),
        Err(error) => Err(error),
    }
}

/// The view of what reading an action from an interaction has given.
pub open spec fn action_result_view(result: Result<Action, FromInteractionInternalError>) -> Result<
    ActionView,
    FromInteractionInternalError,
> {
    match result {
        Ok(action) => Ok(action@),
        Err(error) => Err(error),
    }
}

/// Whether two texts are the same.
pub fn same_text(text: &str, other: &str) -> (same: bool)
    ensures
        same == (text@ == other@),
{
    let left = characters_of(text);
    let right = characters_of(other);
    if left.len() != right.len() {
        return false;
    }
    let mut position: usize = 0;
    while position < left.len()
        invariant
            left@ == text@,
            right@ == other@,
            position <= left@.len(),
            left@.len() == right@.len(),
            left@.take(position as int) == right@.take(position as int),
        decreases left.len() - position,
    {
        if left[position] != right[position] {
            return false;
        }
        proof {
            assert(left@.take(position + 1) =~= left@.take(position as int).push(
                left@[position as int],
            ));
            assert(right@.take(position + 1) =~= right@.take(position as int).push(
                right@[position as int],
            ));
        }
        position += 1;
    }
    proof {
        assert(left@.take(position as int) =~= left@);
        assert(right@.take(position as int) =~= right@);
    }
    true
}

fn position_from(value: &Option<SubcommandOptionValue>) -> (position: Option<usize>)
    ensures
        position == position_in(*value),
{
    match value {
        Some(SubcommandOptionValue::Integer(number)) => {
            let number = *number;
            if number >= 1 && (number - 1) as u64 <= usize::MAX as u64 {
                Some((number - 1) as usize)
            } else {
                None
            }
        },
        _ => None,
    }
}

fn switch_from(value: &Option<SubcommandOptionValue>) -> (switch: Option<bool>)
    ensures
        switch == switch_in(*value),
{
    match value {
        Some(SubcommandOptionValue::Boolean(switch)) => Some(*switch),
        _ => None,
    }
}

fn queue_action_from(option: &Option<CommandOption>) -> (result: Result<
    Action,
    FromInteractionInternalError,
>)
    ensures
        action_result_view(result) == queue_action_of(*option),
{
    match option {
        Some(CommandOption { name, value: CommandOptionValue::SubCommand(value) }) => {
            let name = name.as_str();
            if same_text(name, "zobrazit") {
                Ok(Action::QueueView)
            } else if same_text(name, "posunout") {
                match position_from(value) {
                    Some(index) => Ok(Action::QueueMove { index }),
                    None => Err(FromInteractionInternalError::InvalidOption),
                }
            } else if same_text(name, "opakovat") {
                match switch_from(value) {
                    Some(repeat) => Ok(Action::QueueRepeat(repeat)),
                    None => Err(FromInteractionInternalError::InvalidOption),
                }
            } else if same_text(name, "nahodne") {
                Ok(Action::QueueShuffle)
            } else {
                Err(FromInteractionInternalError::InvalidOption)
            }
        },
        _ => Err(FromInteractionInternalError::InvalidOption),
    }
}

fn action_from(interaction: &Interaction, voice_channel_id: u64) -> (result: Result<
    Action,
    FromInteractionInternalError,
>)
    ensures
        action_result_view(result) == action_of(*interaction, voice_channel_id),
{
    let name = interaction.name.as_str();
    if same_text(name, "hrat") {
        match &interaction.first_option {
            Some(CommandOption { value: CommandOptionValue::String(query), .. }) => Ok(
                Action::Play {
                    text_channel_id: interaction.channel_id,
                    voice_channel_id,
                    query: query.clone(),
                },
            ),
            _ => Err(FromInteractionInternalError::InvalidOption),
        }
    } else if same_text(name, "fronta") {
        queue_action_from(&interaction.first_option)
    } else if same_text(name, "dalsi") {
        Ok(Action::Next)
    } else if same_text(name, "predchozi") {
        Ok(Action::Previous)
    } else if same_text(name, "pauza") {
        Ok(Action::Pause)
    } else if same_text(name, "pokracovat") {
        Ok(Action::Resume)
    } else if same_text(name, "opakovat") {
        match &interaction.first_option {
            Some(CommandOption { value: CommandOptionValue::Boolean(repeat), .. }) => Ok(
                Action::Repeat(*repeat),
            ),
            _ => Err(FromInteractionInternalError::InvalidOption),
        }
    } else if same_text(name, "stop") {
        Ok(Action::Stop)
    } else {
        Err(FromInteractionInternalError::InvalidOption)
    }
}

impl Command {
    /// Reads a command from a slash-command interaction.
    pub fn try_from_interaction(interaction: &Interaction) -> (result: Result<
        Command,
        FromInteractionError,
    >)
        ensures
            command_result_view(result) == command_of(*interaction),
    {
        let (guild_id, voice_channel_id) = match interaction.guild {
            InteractionGuild::Absent => {
                return Err(
                    FromInteractionError::UserCaused(FromInteractionUserCausedError::NotInGuild),
                );
            },
            InteractionGuild::Unknown => {
                return Err(
                    FromInteractionError::Internal(FromInteractionInternalError::GuildNotFoundById),
                );
            },
            InteractionGuild::Known { guild_id, user_voice_channel_id } => {
                match user_voice_channel_id {
                    None => {
                        return Err(
                            FromInteractionError::UserCaused(
                                FromInteractionUserCausedError::UserNotInVoiceChannel,
                            ),
                        );
                    },
                    Some(voice_channel_id) => (guild_id, voice_channel_id),
                }
            },
        };
        match action_from(interaction, voice_channel_id) {
            Err(error) => Err(FromInteractionError::Internal(error)),
            Ok(action) => Ok(
                Command {
                    guild_id,
                    voice_channel_id: Some(voice_channel_id),
                    text_channel_id: Some(interaction.channel_id),
                    action,
                },
            ),
        }
    }

    /// Reads a command from a transcribed sentence spoken in a guild. Fails
    /// if the sentence is no command.
    pub fn try_from_text(text: &str, guild_id: u64) -> (result: Result<Command, ()>)
        ensures
            command_result_view(result) == command_of_text(text@, guild_id),
    {
        match Action::from_str(text) {
            Ok(action) => Ok(
                Command { guild_id, voice_channel_id: None, text_channel_id: None, action },
            ),
            Err(_) => Err(()),
        }
    }
}

} // verus!
