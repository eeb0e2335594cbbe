use music_tui::scan::{
    is_audio, parse_year, pick_cover, progress_due, strip_year_prefix, track_from_tags,
    year_from_text, TagFields,
};

fn tags() -> TagFields {
    TagFields {
        title: None,
        artist: None,
        album: None,
        album_artist: None,
        year: None,
        recording_date: None,
        track: None,
        disc: None,
    }
}

#[test]
fn audio_files_are_known_by_extension() {
    assert!(is_audio("/m/a/song.flac"));
    assert!(is_audio("/m/a/SONG.MP3"));
    assert!(is_audio("x.Opus"));
    assert!(is_audio("/m/a.b/c.aif"));
    assert!(!is_audio("/m/notes.txt"));
    assert!(!is_audio("/m/noext"));
    assert!(!is_audio("/m/.flac"));
    assert!(!is_audio("/m/cover.jpg"));
}

#[test]
fn year_prefix_is_stripped_only_when_it_repeats_the_year() {
    assert_eq!(strip_year_prefix("[1996] Odelay", Some(1996)), "Odelay");
    assert_eq!(strip_year_prefix("(1996)   Odelay", Some(1996)), "Odelay");
    assert_eq!(strip_year_prefix("[1996] Odelay", Some(1997)), "[1996] Odelay");
    assert_eq!(strip_year_prefix("[1996] Odelay", None), "[1996] Odelay");
    // Nothing would be left: keep the title.
    assert_eq!(strip_year_prefix("[1996]  ", Some(1996)), "[1996]  ");
    assert_eq!(strip_year_prefix("[-5] Old", Some(-5)), "Old");
}

#[test]
fn years_are_read_from_the_first_four_characters() {
    assert_eq!(year_from_text("1996"), Some(1996));
    assert_eq!(year_from_text("2001-05-04"), Some(2001));
    assert_eq!(year_from_text("-012"), Some(-12));
    assert_eq!(year_from_text("+123"), Some(123));
    assert_eq!(year_from_text("199"), None);
    assert_eq!(year_from_text("19a6"), None);
    assert_eq!(year_from_text("é996"), None);
    assert_eq!(year_from_text(" 1996"), None);
    assert_eq!(parse_year(Some("1994".into()), Some("2000".into())), Some(1994));
    assert_eq!(parse_year(None, Some("2000-01-01".into())), Some(2000));
    assert_eq!(parse_year(Some("n/a".into()), Some("2000".into())), None);
    assert_eq!(parse_year(None, None), None);
}

#[test]
fn tracks_from_tags_fall_back_sensibly() {
    let t = track_from_tags("/m/Album/one.wav".into(), None, 2);
    assert_eq!(t.title, "one");
    assert_eq!(t.track_artist, "Unknown Artist");
    assert_eq!(t.album, "Unknown Album");
    assert_eq!(t.album_artist, "Unknown Artist");
    assert_eq!(t.year, None);
    assert_eq!(t.length_secs, 2);
    assert_eq!(t.id, 0);
    assert_eq!(t.path, "/m/Album/one.wav");

    let mut f = tags();
    f.artist = Some("Beck".into());
    f.album = Some("[1996] Odelay".into());
    f.recording_date = Some("1996-06-18".into());
    f.track = Some(3);
    let t = track_from_tags("/m/x/03 Hotwax.flac".into(), Some(f), 229);
    assert_eq!(t.title, "03 Hotwax");
    assert_eq!(t.track_artist, "Beck");
    assert_eq!(t.album_artist, "Beck");
    assert_eq!(t.album, "Odelay");
    assert_eq!(t.year, Some(1996));
    assert_eq!(t.track_no, Some(3));
    assert_eq!(t.disc_no, None);

    let mut f = tags();
    f.title = Some("Song".into());
    f.album_artist = Some("Various Artists".into());
    let t = track_from_tags("/m/s.mp3".into(), Some(f), 10);
    assert_eq!(t.title, "Song");
    assert_eq!(t.track_artist, "Unknown Artist");
    assert_eq!(t.album_artist, "Various Artists");
}

#[test]
fn progress_every_25_files_and_at_the_end() {
    assert!(progress_due(0, 100));
    assert!(!progress_due(1, 100));
    assert!(progress_due(25, 100));
    assert!(progress_due(99, 100));
    assert!(!progress_due(98, 100));
}

#[test]
fn the_front_cover_is_preferred() {
    assert_eq!(pick_cover(&vec![]), None);
    assert_eq!(pick_cover(&vec![false, true, true]), Some(1));
    assert_eq!(pick_cover(&vec![false, false]), Some(0));
}
