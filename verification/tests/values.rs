use tranzistorak::embed::{EmbedIcon, ICONS_BASE_URL};
use tranzistorak::model::{to_search_query, widest_image_url, Image, Track};
use tranzistorak::query::{part_after_marker, Fetched, FetchedSingleTrack};
use tranzistorak::voice::{
    BUFFER_CAPACITY, EVENT_FIRE_INTERVAL_MILLIS, SAMPLE_RATE_RAW, SILENCE_SAMPLE_THRESHOLD,
    SILENCE_SEPARATOR_SAMPLE_COUNT, SILENCE_SEPARATOR_SECONDS, TICK_SAMPLE_COUNT,
    TRANSCRIPTION_SECONDS,
};

#[test]
fn icon_urls() {
    assert_eq!(
        EmbedIcon::Bot.url(),
        "https://raw.githubusercontent.com/matous-volf/tranzistorak/main/icons/bot.png"
    );
    let icons = [
        (EmbedIcon::Bot, "bot"),
        (EmbedIcon::YouTube, "youtube"),
        (EmbedIcon::Error, "error"),
        (EmbedIcon::Queue, "queue"),
        (EmbedIcon::Next, "next"),
        (EmbedIcon::Previous, "previous"),
        (EmbedIcon::Pause, "pause"),
        (EmbedIcon::Resume, "resume"),
        (EmbedIcon::Repeat, "repeat"),
        (EmbedIcon::Stop, "stop"),
    ];
    for (icon, name) in icons {
        assert_eq!(icon.name(), name);
        assert_eq!(icon.url(), format!("{}{}.png", ICONS_BASE_URL, name));
    }
}

#[test]
fn track_keeps_what_it_is_given() {
    let track = Track::new(
        "title".to_owned(),
        "https://youtu.be/x".to_owned(),
        Some("https://img/x.jpg".to_owned()),
    );
    assert_eq!(track.title, "title");
    assert_eq!(track.youtube_url, "https://youtu.be/x");
    assert_eq!(track.thumbnail_url.as_deref(), Some("https://img/x.jpg"));
    let bare = Track::new("a".to_owned(), "b".to_owned(), None);
    assert_eq!(bare.thumbnail_url, None);
    let copy = bare.clone();
    assert_eq!(copy.title, "a");
    assert_eq!(copy.youtube_url, "b");
}

#[test]
fn fetched_keeps_what_it_is_given() {
    let fetched = Fetched::new(
        "playlist".to_owned(),
        "https://list".to_owned(),
        None,
        vec![1u8, 2, 3],
    );
    assert_eq!(fetched.title, "playlist");
    assert_eq!(fetched.url, "https://list");
    assert_eq!(fetched.thumbnail_url, None);
    assert_eq!(fetched.tracks, vec![1u8, 2, 3]);
}

#[test]
fn single_track_is_yielded_once() {
    let mut fetched =
        FetchedSingleTrack::new(Some(Track::new("t".to_owned(), "u".to_owned(), None)));
    let first = fetched.next();
    assert_eq!(first.map(|track| track.title), Some("t".to_owned()));
    assert!(fetched.next().is_none());
    assert!(fetched.next().is_none());
}

#[test]
fn no_track_is_never_yielded() {
    let mut fetched = FetchedSingleTrack::new(None);
    assert!(fetched.next().is_none());
    assert!(fetched.next().is_none());
}

#[test]
fn sample_counts_follow_from_durations() {
    assert_eq!(SILENCE_SAMPLE_THRESHOLD, i16::MAX / 50);
    assert_eq!(SILENCE_SAMPLE_THRESHOLD, 655);
    assert_eq!(
        TICK_SAMPLE_COUNT as u32 * 1000,
        EVENT_FIRE_INTERVAL_MILLIS * SAMPLE_RATE_RAW
    );
    assert_eq!(TICK_SAMPLE_COUNT, 320);
    assert_eq!(
        SILENCE_SEPARATOR_SAMPLE_COUNT as u32,
        SILENCE_SEPARATOR_SECONDS * SAMPLE_RATE_RAW
    );
    assert_eq!(SILENCE_SEPARATOR_SAMPLE_COUNT, 48_000);
    assert_eq!(
        BUFFER_CAPACITY as u32,
        (SILENCE_SEPARATOR_SECONDS + TRANSCRIPTION_SECONDS) * SAMPLE_RATE_RAW
    );
    assert_eq!(BUFFER_CAPACITY, 160_000);
}

#[test]
fn metadata_needs_title_and_address() {
    let track = Track::try_from_metadata(
        Some("t".to_owned()),
        Some("u".to_owned()),
        Some("i".to_owned()),
    )
    .unwrap();
    assert_eq!(track.title, "t");
    assert_eq!(track.youtube_url, "u");
    assert_eq!(track.thumbnail_url.as_deref(), Some("i"));
    assert!(Track::try_from_metadata(Some("t".to_owned()), Some("u".to_owned()), None).is_ok());
    assert!(Track::try_from_metadata(None, Some("u".to_owned()), None).is_err());
    assert!(Track::try_from_metadata(Some("t".to_owned()), None, None).is_err());
    assert!(Track::try_from_metadata(None, None, Some("i".to_owned())).is_err());
}

#[test]
fn widest_image_is_the_last_of_the_widest() {
    let image = |url: &str, width: Option<u32>| Image {
        url: url.to_owned(),
        width,
    };
    assert_eq!(widest_image_url(Vec::new()), None);
    assert_eq!(
        widest_image_url(vec![image("a", None)]).as_deref(),
        Some("a")
    );
    assert_eq!(
        widest_image_url(vec![
            image("a", Some(64)),
            image("b", Some(640)),
            image("c", Some(300))
        ])
        .as_deref(),
        Some("b")
    );
    assert_eq!(
        widest_image_url(vec![
            image("a", Some(640)),
            image("b", Some(64)),
            image("c", Some(640)),
            image("d", None)
        ])
        .as_deref(),
        Some("c")
    );
    assert_eq!(
        widest_image_url(vec![image("a", None), image("b", Some(0)), image("c", None)]).as_deref(),
        Some("b")
    );
    assert_eq!(
        widest_image_url(vec![image("a", None), image("b", None)]).as_deref(),
        Some("b")
    );
    // The rule of `Iterator::max_by_key`.
    let widths = [Some(3), None, Some(7), Some(7), Some(1)];
    let expected = widths
        .iter()
        .enumerate()
        .max_by_key(|(_, width)| **width)
        .map(|(position, _)| position.to_string());
    assert_eq!(
        widest_image_url(
            widths
                .iter()
                .enumerate()
                .map(|(position, width)| image(&position.to_string(), *width))
                .collect()
        ),
        expected
    );
}

#[test]
fn search_query_names_the_artist_first() {
    assert_eq!(to_search_query("Song", Some("Band")), "Band Song");
    assert_eq!(to_search_query("Song", None), "Song");
    assert_eq!(to_search_query("", Some("")), " ");
}

#[test]
fn part_after_marker_is_cut_out_of_an_address() {
    assert_eq!(
        part_after_marker(
            "https://open.spotify.com/playlist/37i9dQZF1DXcBWIGoYBM5M?si=abc",
            "playlist/",
            22
        ),
        Some("37i9dQZF1DXcBWIGoYBM5M")
    );
    assert_eq!(
        part_after_marker("https://open.spotify.com/track/4y4VO05kYgUTo2bzbox1an", "track/", 22),
        Some("4y4VO05kYgUTo2bzbox1an")
    );
    // Too short, or no marker at all.
    assert_eq!(part_after_marker("spotify.com/track/4y4VO05k", "track/", 22), None);
    assert_eq!(part_after_marker("spotify.com/track/", "track/", 1), None);
    assert_eq!(part_after_marker("spotify.com/album/4y4VO05k", "track/", 2), None);
    assert_eq!(part_after_marker("", "track/", 0), None);
    // Only the first occurrence counts.
    assert_eq!(part_after_marker("a/track/x/track/yz", "track/", 2), Some("x/"));
    assert_eq!(part_after_marker("track/ab/track/abcdefgh", "track/", 12), Some("ab/track/abc"));
    assert_eq!(part_after_marker("track/ab", "track/", 0), Some(""));
    assert_eq!(part_after_marker("ab", "", 1), Some("a"));
    // Characters are counted, not bytes.
    assert_eq!(part_after_marker("é/track/žluťoučký", "track/", 4), Some("žluť"));
}
