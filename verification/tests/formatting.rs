use songbot::display::format_duration;
use songbot::display::format_padded;
use songbot::display::format_u64;
use songbot::resolve::catalog_search_phrase;
use songbot::track::Song;
use songbot::track::SongSource;
use songbot::track::watch_url;

#[test]
fn durations_render_as_minutes_and_seconds() {
    assert_eq!(format_duration(45), "0:45");
    assert_eq!(format_duration(125), "2:05");
    assert_eq!(format_duration(3725), "01:02:05");
}

#[test]
fn duration_edges() {
    assert_eq!(format_duration(0), "0:00");
    assert_eq!(format_duration(59), "0:59");
    assert_eq!(format_duration(60), "1:00");
    assert_eq!(format_duration(3599), "59:59");
    assert_eq!(format_duration(3600), "01:00:00");
    assert_eq!(format_duration(360000), "100:00:00");
}

#[test]
fn decimal_rendering() {
    assert_eq!(format_u64(0), "0");
    assert_eq!(format_u64(7), "7");
    assert_eq!(format_u64(12345), "12345");
    assert_eq!(format_padded(3), "03");
    assert_eq!(format_padded(42), "42");
}

#[test]
fn watch_urls_name_the_video_id() {
    assert_eq!(watch_url("dQw4w9WgXcQ"), "https://youtube.com/watch?v=dQw4w9WgXcQ");
}

#[test]
fn songs_from_videos_decode_html_apostrophes() {
    let s = Song::from_video(
        "Don&#39;t Stop Me Now",
        "Queen Official",
        "freddie#0001".to_string(),
        209,
        "HgzGwKwLmgM",
    );
    assert_eq!(s.title, "Don't Stop Me Now");
    assert_eq!(s.artist, "Queen Official");
    assert_eq!(s.author, "freddie#0001");
    assert_eq!(s.duration_secs, 209);
    let SongSource::YouTube { id, url } = &s.source;
    assert_eq!(id, "HgzGwKwLmgM");
    assert_eq!(url, "https://youtube.com/watch?v=HgzGwKwLmgM");
}

#[test]
fn titles_link_to_their_source() {
    let s = Song::from_video("Tune", "Someone", "who#1".to_string(), 10, "abcdefghijk");
    assert_eq!(
        s.title_with_link(),
        "[Tune](https://youtube.com/watch?v=abcdefghijk)"
    );
}

#[test]
fn catalog_phrases_carry_name_lead_artist_and_refinements() {
    assert_eq!(
        catalog_search_phrase("Bohemian Rhapsody", &vec!["Queen".to_string()]),
        "Bohemian Rhapsody Queen lyrics explicit"
    );
    assert_eq!(
        catalog_search_phrase("Under Pressure", &vec!["Queen".to_string(), "David Bowie".to_string()]),
        "Under Pressure Queen lyrics explicit"
    );
    assert_eq!(catalog_search_phrase("Solo", &vec![]), "Solo  lyrics explicit");
}
