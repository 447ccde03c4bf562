//! What a query for something to play comes back with.

use crate::command::text::{characters_of, find, has_substring, is_first_occurrence};
use crate::model::Track;
use vstd::prelude::*;
use vstd::string::StrSliceExecFns;

verus! {

/// Whether `part` is what follows the first occurrence of `marker` in `url`,
/// `length` characters long.
pub open spec fn follows_marker(
    url: Seq<char>,
    marker: Seq<char>,
    length: nat,
    part: Seq<char>,
) -> bool {
    exists|position: int|
        {
            &&& is_first_occurrence(url, marker, position)
            &&& position + marker.len() + length <= url.len()
            &&& part == url.subrange(
                position + marker.len(),
                position + marker.len() + length,
            )
        }
}

/// Whether `url` holds `marker` with at least `length` characters behind its
/// first occurrence.
pub open spec fn has_part_after_marker(url: Seq<char>, marker: Seq<char>, length: nat) -> bool {
    exists|position: int|
        is_first_occurrence(url, marker, position) && position + marker.len() + length
            <= url.len()
}

/// The part of an address that names what the address points at: the
/// `length` characters that follow the first occurrence of `marker`. There
/// is none where the marker is missing or fewer characters follow it.
pub fn part_after_marker<'a>(url: &'a str, marker: &str, length: usize) -> (part: Option<
    &'a str,
>)
    ensures
        match part {
            Some(part) => follows_marker(url@, marker@, length as nat, part@),
            None => !has_part_after_marker(url@, marker@, length as nat),
        },
{
    let characters = characters_of(url);
    let marker_length = marker.unicode_len();
    match find(&characters, marker) {
        None => {
            assert(!has_substring(url@, marker@));
            None
        },
        Some(position) => {
            let total = characters.len();
            assert(position + marker@.len() <= total);
            let start = position + marker_length;
            if length > total - start {
                assert forall|other: int| is_first_occurrence(url@, marker@, other) implies other
                    == position by {
                    if other < position {
                    } else if position < other {
                    }
                }
                return None;
            }
            Some(url.substring_char(start, start + length))
        },
    }
}

/// The answer to a query: what was found, under which address, and the source
/// its tracks are drawn from one by one.
pub struct Fetched<T> {
    pub title: String,
    pub url: String,
    pub thumbnail_url: Option<String>,
    pub tracks: T,
}

impl<T> Fetched<T> {
    pub fn new(title: String, url: String, thumbnail_url: Option<String>, tracks: T) -> (fetched:
        Self)
        ensures
            fetched.title == title,
            fetched.url == url,
            fetched.thumbnail_url == thumbnail_url,
            fetched.tracks == tracks,
    {
        Self { title, url, thumbnail_url, tracks }
    }
}

/// A source of tracks that yields one track at most.
pub struct FetchedSingleTrack {
    track: Option<Track>,
}

impl View for FetchedSingleTrack {
    type V = Option<Track>;

    /// The track that is still to be yielded, if any.
    closed spec fn view(&self) -> Option<Track> {
        self.track
    }
}

impl FetchedSingleTrack {
    pub fn new(track: Option<Track>) -> (fetched: Self)
        ensures
            fetched@ == track,
    {
        Self { track }
    }

    /// Yields the track on the first call, if there is one, and nothing ever
    /// after.
    pub fn next(&mut self) -> (track: Option<Track>)
        ensures
            track == old(self)@,
            final(self)@.is_none(),
    {
        self.track.take()
    }
}

} // verus!
