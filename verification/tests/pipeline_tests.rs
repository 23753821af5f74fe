use hot100::chart::{align, extract_songs, SelectorConfig, SelectorError, Song};
use hot100::pipeline::{error_message, run_pipeline, status_of, FetchError};
use hot100::text::normalize;

const TITLE_SEL: &str = ".c-title.a-no-trucate";
const ARTIST_SEL: &str = ".c-label.a-no-trucate";

fn song(rank: usize, artist: &str, title: &str) -> Song {
    Song { rank, artist: artist.to_string(), song: title.to_string() }
}

#[test]
fn normalize_trims_surrounding_whitespace() {
    assert_eq!(normalize("  Song X \t\n"), "Song X");
    assert_eq!(normalize("\u{3000} padded \u{3000}"), "padded");
}

#[test]
fn normalize_is_idempotent_on_normal_forms() {
    assert_eq!(normalize("Song X"), "Song X");
    let once = normalize("   a b   ");
    assert_eq!(normalize(&once), once);
}

#[test]
fn normalize_all_whitespace_gives_empty() {
    assert_eq!(normalize(" \t \n "), "");
    assert_eq!(normalize(""), "");
}

#[test]
fn align_truncates_to_shorter_sequence() {
    let titles = vec!["T1".to_string(), "T2".to_string(), "T3".to_string()];
    let artists = vec!["A1".to_string(), "A2".to_string()];
    let songs = align(&titles, &artists);
    assert_eq!(songs, vec![song(1, "A1", "T1"), song(2, "A2", "T2")]);

    let songs = align(&artists, &titles);
    assert_eq!(songs, vec![song(1, "T1", "A1"), song(2, "T2", "A2")]);
}

#[test]
fn align_equal_lengths_keeps_everything() {
    let titles = vec!["T1".to_string(), "T2".to_string()];
    let artists = vec!["A1".to_string(), "A2".to_string()];
    let songs = align(&titles, &artists);
    assert_eq!(songs.len(), 2);
    assert_eq!(songs[0], song(1, "A1", "T1"));
    assert_eq!(songs[1], song(2, "A2", "T2"));
}

#[test]
fn scenario_second_title_dropped() {
    let html = "<div class=\"c-title a-no-trucate\">Song X</div>\
                <div class=\"c-title a-no-trucate\">Song Y</div>\
                <div class=\"c-label a-no-trucate\">Artist X</div>";
    let songs = extract_songs(TITLE_SEL, ARTIST_SEL, html).unwrap();
    assert_eq!(songs, vec![song(1, "Artist X", "Song X")]);
}

#[test]
fn empty_document_yields_empty_success() {
    let songs = extract_songs(TITLE_SEL, ARTIST_SEL, "<p>no chart here</p>").unwrap();
    assert_eq!(songs, Vec::new());
}

#[test]
fn zero_matches_for_one_selector_yields_empty_success() {
    let html = "<div class=\"c-title a-no-trucate\">Song X</div>";
    let songs = extract_songs(TITLE_SEL, ARTIST_SEL, html).unwrap();
    assert_eq!(songs, Vec::new());
}

#[test]
fn rank_follows_document_order() {
    let forward = "<span class=\"c-title a-no-trucate\">First</span>\
                   <span class=\"c-title a-no-trucate\">Second</span>\
                   <span class=\"c-label a-no-trucate\">One</span>\
                   <span class=\"c-label a-no-trucate\">Two</span>";
    let swapped = "<span class=\"c-title a-no-trucate\">Second</span>\
                   <span class=\"c-title a-no-trucate\">First</span>\
                   <span class=\"c-label a-no-trucate\">Two</span>\
                   <span class=\"c-label a-no-trucate\">One</span>";
    let a = extract_songs(TITLE_SEL, ARTIST_SEL, forward).unwrap();
    let b = extract_songs(TITLE_SEL, ARTIST_SEL, swapped).unwrap();
    assert_eq!(a, vec![song(1, "One", "First"), song(2, "Two", "Second")]);
    assert_eq!(b, vec![song(1, "Two", "Second"), song(2, "One", "First")]);
}

#[test]
fn nested_markup_contributes_text_only() {
    let html = "<div class=\"c-title a-no-trucate\"> <span>Song</span> <b>X</b> </div>\
                <div class=\"c-label a-no-trucate\">Artist &amp; Friends</div>";
    let songs = extract_songs(TITLE_SEL, ARTIST_SEL, html).unwrap();
    assert_eq!(songs, vec![song(1, "Artist & Friends", "Song X")]);
}

#[test]
fn malformed_markup_degrades_gracefully() {
    let html = "<div class=\"c-title a-no-trucate\">Unclosed\
                <div class=\"c-label a-no-trucate\">Artist";
    let songs = extract_songs(TITLE_SEL, ARTIST_SEL, html).unwrap();
    assert_eq!(songs.len(), 1);
    assert_eq!(songs[0].rank, 1);
}

#[test]
fn invalid_title_selector_is_rejected() {
    let r = SelectorConfig::new("???".to_string(), ARTIST_SEL.to_string());
    assert_eq!(r.err().unwrap(), SelectorError::InvalidTitleSelector);
    let r = extract_songs("???", ARTIST_SEL, "<p></p>");
    assert_eq!(r.err().unwrap(), SelectorError::InvalidTitleSelector);
}

#[test]
fn invalid_artist_selector_is_rejected() {
    let r = SelectorConfig::new(TITLE_SEL.to_string(), "".to_string());
    assert_eq!(r.err().unwrap(), SelectorError::InvalidArtistSelector);
}

#[test]
fn transport_failure_maps_to_server_error() {
    let cfg = SelectorConfig::new(TITLE_SEL.to_string(), ARTIST_SEL.to_string()).unwrap();
    let failed = run_pipeline(&cfg, Err(FetchError::Transport));
    assert_eq!(status_of(&failed), 500);
    assert_eq!(failed.err().unwrap(), FetchError::Transport);

    // An independent later request is unaffected by the earlier failure.
    let html = "<i class=\"c-title a-no-trucate\">Song X</i>\
                <i class=\"c-label a-no-trucate\">Artist X</i>".to_string();
    let ok = run_pipeline(&cfg, Ok(html));
    assert_eq!(status_of(&ok), 200);
    assert_eq!(ok.unwrap(), vec![song(1, "Artist X", "Song X")]);
}

#[test]
fn every_failure_class_maps_to_server_error() {
    let cfg = SelectorConfig::new(TITLE_SEL.to_string(), ARTIST_SEL.to_string()).unwrap();
    for e in [FetchError::Transport, FetchError::Status(404), FetchError::Decode] {
        let r = run_pipeline(&cfg, Err(e));
        assert_eq!(status_of(&r), 500);
        assert_eq!(r.err().unwrap(), e);
        assert!(!error_message(&e).is_empty());
    }
}

#[test]
fn empty_extraction_is_served_as_success() {
    let cfg = SelectorConfig::new(TITLE_SEL.to_string(), ARTIST_SEL.to_string()).unwrap();
    let r = run_pipeline(&cfg, Ok("<p>structure drifted</p>".to_string()));
    assert_eq!(status_of(&r), 200);
    assert_eq!(r.unwrap(), Vec::new());
}

#[test]
fn error_messages_do_not_leak_details() {
    assert_eq!(error_message(&FetchError::Transport), "could not reach the chart source");
    assert_eq!(
        error_message(&FetchError::Status(503)),
        "the chart source answered with an error status"
    );
    assert_eq!(
        error_message(&FetchError::Decode),
        "the chart source answered with an unreadable body"
    );
}
