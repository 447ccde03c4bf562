//! What the bot plays.

use vstd::prelude::*;
use vstd::string::StringExecFns;

verus! {

/// One playable item: its title, where it is found, and a picture if it has
/// one.
#[derive(Clone, Debug)]
pub struct Track {
    pub title: String,
    pub youtube_url: String,
    pub thumbnail_url: Option<String>,
}

impl Track {
    pub fn new(title: String, youtube_url: String, thumbnail_url: Option<String>) -> (track: Self)
        ensures
            track.title == title,
            track.youtube_url == youtube_url,
            track.thumbnail_url == thumbnail_url,
    {
        Self { title, youtube_url, thumbnail_url }
    }

    /// A track from what is known of a search result. A result without a
    /// title or without an address is no track.
    pub fn try_from_metadata(
        title: Option<String>,
        source_url: Option<String>,
        thumbnail: Option<String>,
    ) -> (track: Result<Self, ()>)
        ensures
            match (title, source_url) {
                (Some(title), Some(source_url)) => track == Ok::<Track, ()>(
                    Track { title, youtube_url: source_url, thumbnail_url: thumbnail },
                ),
                _ => track.is_err(),
            },
    {
        match (title, source_url) {
            (Some(title), Some(source_url)) => Ok(Self::new(title, source_url, thumbnail)),
            _ => Err(()),
        }
    }
}

/// A picture of something playable, in one of the sizes it is offered in.
pub struct Image {
    pub url: String,
    /// The width in pixels, where it is known.
    pub width: Option<u32>,
}

/// How a width ranks among others: an unknown width below every known one.
pub open spec fn width_rank(width: Option<u32>) -> int {
    match width {
        Some(width) => width as int,
        None => -1,
    }
}

/// Whether the picture at `position` is the widest of all, and the last of
/// those that are as wide.
pub open spec fn is_widest(images: Seq<Image>, position: int) -> bool {
    &&& 0 <= position < images.len()
    &&& forall|other: int|
        0 <= other < images.len() ==> width_rank(#[trigger] images[other].width) <= width_rank(
            images[position].width,
        )
    &&& forall|other: int|
        position < other < images.len() ==> width_rank(#[trigger] images[other].width)
            < width_rank(images[position].width)
}

/// The address of the widest picture, or of the last of the widest where
/// several are as wide; nothing where there is no picture.
pub fn widest_image_url(images: Vec<Image>) -> (url: Option<String>)
    ensures
        images@.len() == 0 ==> url.is_none(),
        images@.len() > 0 ==> exists|position: int|
            is_widest(images@, position) && url == Some(images@[position].url),
{
    let mut images = images;
    let ghost all = images@;
    if images.len() == 0 {
        return None;
    }
    let mut best: usize = 0;
    let mut position: usize = 1;
    while position < images.len()
        invariant
            images@ == all,
            0 <= best < position <= images@.len(),
            forall|other: int|
                0 <= other < position ==> width_rank(#[trigger] images@[other].width)
                    <= width_rank(images@[best as int].width),
            forall|other: int|
                best < other < position ==> width_rank(#[trigger] images@[other].width)
                    < width_rank(images@[best as int].width),
        decreases images.len() - position,
    {
        let wider_or_equal = match (images[position].width, images[best].width) {
            (Some(width), Some(best_width)) => width >= best_width,
            (_, None) => true,
            (None, Some(_)) => false,
        };
        if wider_or_equal {
            best = position;
        }
        position += 1;
    }
    assert(is_widest(all, best as int));
    let image = images.swap_remove(best);
    Some(image.url)
}

/// What to search for to find a track elsewhere: the artist, if known, and
/// the title.
pub fn to_search_query(title: &str, artist_name: Option<&str>) -> (query: String)
    ensures
        query@ == match artist_name {
            Some(artist_name) => artist_name@ + " "@ + title@,
            None => title@,
        },
{
    match artist_name {
        Some(artist_name) => {
            let mut query = String::from_str(artist_name);
            query.append(" ");
            query.append(title);
            query
        },
        None => String::from_str(title),
    }
}

} // verus!
