//! Whether a command is taken on, and by which player.
//!
//! A guild has at most one player. A command for a guild whose player is
//! alive goes to that player, provided the user is where the player is. A
//! command for a guild without a live player is taken on only if it asks to
//! play something: then a player is created for it.

use super::grammar::{Action, ActionView};
use super::{Command, CommandView};
use crate::player::{
    NextNoTrackError, PreviousNoTrackError, Queue, QueueMoveIndexExceedsQueueLengthError,
};
use crate::query::Fetched;
use vstd::prelude::*;

verus! {

/// Why a command was not carried out, where the user can do something about
/// it.
#[derive(Clone, Copy, Debug, PartialEq, Eq, Structural)]
pub enum UserCausedError {
    UserInDifferentVoiceChannel,
    CouldNotJoin,
    NotPlaying,
    QueueMove(QueueMoveIndexExceedsQueueLengthError),
    Next(NextNoTrackError),
    Previous(PreviousNoTrackError),
}

/// What a command has done. `T` is the source that the tracks of a query are
/// drawn from.
pub enum Executed<T> {
    /// What the query has found and enqueued, if it has found anything.
    Play(Option<Fetched<T>>),
    QueueView(Queue),
    QueueMove { index: usize },
    QueueRepeat(bool),
    QueueShuffle,
    Next,
    Previous,
    Pause,
    Resume,
    Repeat(bool),
    Stop,
}

/// What is known of the player of a guild.
#[derive(Clone, Copy, Debug, PartialEq, Eq, Structural)]
pub struct PlayerStatus {
    pub is_stopped: bool,
    /// The voice channel that the player is connected to, if it is connected.
    pub voice_channel_id: Option<u64>,
}

/// What becomes of a command before anything is played.
#[derive(Clone, Copy, Debug, PartialEq, Eq, Structural)]
pub enum Admission {
    /// The command goes to the player that the guild has.
    Existing,
    /// A player is to be created in these channels; the command goes to it.
    Create { voice_channel_id: u64, text_channel_id: u64 },
    /// The command is refused because nothing plays. Where a player was found
    /// that is not stopped yet has lost its voice channel, it is to be
    /// stopped.
    NotPlaying { stop_player: bool },
    /// The command is refused because the user is in another voice channel
    /// than the player.
    UserInDifferentVoiceChannel,
}

/// What becomes of a command, given the player of its guild, if there is
/// one.
pub open spec fn admission_of(player: Option<PlayerStatus>, command: CommandView) -> Admission {
    match player {
        Some(PlayerStatus { is_stopped: false, voice_channel_id }) => match voice_channel_id {
            None => Admission::NotPlaying { stop_player: true },
            Some(player_voice_channel_id) => match command.voice_channel_id {
                Some(voice_channel_id) if voice_channel_id != player_voice_channel_id => {
                    Admission::UserInDifferentVoiceChannel
                },
                _ => Admission::Existing,
            },
        },
        _ => match command.action {
            ActionView::Play { text_channel_id, voice_channel_id, .. } => Admission::Create {
                voice_channel_id,
                text_channel_id,
            },
            _ => Admission::NotPlaying { stop_player: false },
        },
    }
}

/// Decides what becomes of a command, given the player of its guild, if
/// there is one.
pub fn decide_admission(player: Option<PlayerStatus>, command: &Command) -> (admission: Admission)
    ensures
        admission == admission_of(player, command@),
{
    if let Some(status) = player {
        if !status.is_stopped {
            return match status.voice_channel_id {
                None => Admission::NotPlaying { stop_player: true },
                Some(player_voice_channel_id) => match command.voice_channel_id {
                    Some(voice_channel_id) => {
                        if voice_channel_id != player_voice_channel_id {
                            Admission::UserInDifferentVoiceChannel
                        } else {
                            Admission::Existing
                        }
                    },
                    None => Admission::Existing,
                },
            };
        }
    }
    match &command.action {
        Action::Play { text_channel_id, voice_channel_id, .. } => Admission::Create {
            voice_channel_id: *voice_channel_id,
            text_channel_id: *text_channel_id,
        },
        _ => Admission::NotPlaying { stop_player: false },
    }
}

} // verus!
