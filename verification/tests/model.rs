use music_tui::model::{
    article_sort_key, display_artist, fmt_time, AlbumRef, Library, RepeatMode, Track,
};

fn track(title: &str, ta: &str, aa: &str, album: &str, year: i32, no: u32) -> Track {
    Track {
        id: 0,
        path: format!("/m/{title}.flac"),
        title: title.into(),
        track_artist: ta.into(),
        album_artist: aa.into(),
        album: album.into(),
        year: Some(year),
        track_no: Some(no),
        disc_no: None,
        length_secs: 200,
    }
}

fn sample() -> Library {
    Library::new(vec![
        track("Song B", "Beck", "Beck", "Odelay", 1996, 2),
        track("Song A", "Beck", "Beck", "Odelay", 1996, 1),
        track("Older", "Beck", "Beck", "Mellow Gold", 1994, 1),
        // A compilation: album_artist differs from track artists.
        track("Guest One", "Artist X", "Various Artists", "Comp", 2001, 1),
        track("Guest Two", "Artist Y", "Various Artists", "Comp", 2001, 2),
    ])
}

#[test]
fn album_artists_are_distinct_and_sorted() {
    let lib = sample();
    // "Beck" and "Various Artists" — track artists X/Y do NOT appear here.
    assert_eq!(lib.album_artists("", true), vec!["Beck", "Various Artists"]);
}

#[test]
fn albums_filtered_by_artist_and_sorted_by_year() {
    let lib = sample();
    let albums = lib.albums("", Some("Beck"));
    let titles: Vec<_> = albums.iter().map(|a| a.title.as_str()).collect();
    assert_eq!(titles, vec!["Mellow Gold", "Odelay"]); // 1994 before 1996
}

#[test]
fn tracks_view_respects_album_and_track_order() {
    let lib = sample();
    let album = AlbumRef {
        album_artist: "Beck".into(),
        title: "Odelay".into(),
        year: Some(1996),
    };
    let tracks = lib.tracks_view("", Some("Beck"), Some(&album));
    let titles: Vec<_> = tracks.iter().map(|t| t.title.as_str()).collect();
    assert_eq!(titles, vec!["Song A", "Song B"]); // sorted by track_no
}

#[test]
fn search_filters_across_fields() {
    let lib = sample();
    // Matching a track artist that is not an album artist still surfaces the album.
    assert_eq!(lib.album_artists("artist x", true), vec!["Various Artists"]);
    assert_eq!(lib.tracks_view("guest two", None, None).len(), 1);
}

#[test]
fn all_albums_sorted_by_artist_then_year() {
    let lib = sample();
    let titles: Vec<String> = lib.albums("", None).into_iter().map(|a| a.title).collect();
    assert_eq!(titles, vec!["Mellow Gold", "Odelay", "Comp"]);
}

#[test]
fn search_matches_lowercased_fields() {
    let lib = sample();
    // The blobs are lowercase; callers lowercase the query first.
    assert_eq!(lib.album_artists("odelay", true), vec!["Beck"]);
    assert!(lib.album_artists("ODELAY", true).is_empty());
    assert!(lib.album_artists("no such thing", true).is_empty());
    assert_eq!(lib.tracks_view("song", None, None).len(), 2);
}

#[test]
fn album_artists_sort_ignoring_article() {
    let lib = Library::new(vec![
        track("x", "The Zombies", "The Zombies", "Odessey", 1968, 1),
        track("y", "Blur", "Blur", "Parklife", 1994, 1),
        track("z", "Air", "Air", "Moon Safari", 1998, 1),
    ]);
    assert_eq!(lib.album_artists("", true), vec!["Air", "Blur", "The Zombies"]);
    assert_eq!(lib.album_artists("", false), vec!["Air", "Blur", "The Zombies"]);
    let lib2 = Library::new(vec![
        track("x", "The Beatles", "The Beatles", "Help", 1965, 1),
        track("y", "Blur", "Blur", "Parklife", 1994, 1),
    ]);
    // "beatles, the" < "blur" with articles ignored; "the beatles" > "blur" otherwise.
    assert_eq!(lib2.album_artists("", true), vec!["The Beatles", "Blur"]);
    assert_eq!(lib2.album_artists("", false), vec!["Blur", "The Beatles"]);
}

#[test]
fn album_cover_track_is_first_in_library_order() {
    let lib = sample();
    let album = AlbumRef {
        album_artist: "Beck".into(),
        title: "Odelay".into(),
        year: Some(1996),
    };
    // The first of the album's tracks in library order.
    let t = lib.album_cover_track(&album).expect("album has tracks");
    assert_eq!(t.title, "Song B");
    let missing = AlbumRef { album_artist: "Nobody".into(), title: "None".into(), year: None };
    assert!(lib.album_cover_track(&missing).is_none());
}

#[test]
fn library_size_and_emptiness() {
    assert!(Library::new(vec![]).is_empty());
    let lib = sample();
    assert!(!lib.is_empty());
    assert_eq!(lib.len(), 5);
    assert_eq!(lib.tracks().len(), 5);
}

#[test]
fn article_sort_key_moves_the_article() {
    assert_eq!(article_sort_key("The Doors", true), "doors, the");
    assert_eq!(article_sort_key("the doors", true), "doors, the");
    assert_eq!(article_sort_key("The Doors", false), "the doors");
    assert_eq!(article_sort_key("Theatre", true), "theatre");
}

#[test]
fn display_artist_moves_the_article() {
    assert_eq!(display_artist("The Doors", true), "Doors, The");
    assert_eq!(display_artist("The Doors", false), "The Doors");
    assert_eq!(display_artist("Beck", true), "Beck");
}

#[test]
fn fmt_time_formats_minutes_and_hours() {
    assert_eq!(fmt_time(0), "0:00");
    assert_eq!(fmt_time(65), "1:05");
    assert_eq!(fmt_time(599), "9:59");
    assert_eq!(fmt_time(3600), "1:00:00");
    assert_eq!(fmt_time(3725), "1:02:05");
}

#[test]
fn repeat_mode_cycles_through_three() {
    assert_eq!(RepeatMode::Off.next(), RepeatMode::All);
    assert_eq!(RepeatMode::All.next(), RepeatMode::One);
    assert_eq!(RepeatMode::One.next(), RepeatMode::Off);
    assert_eq!(RepeatMode::Off.next().next().next(), RepeatMode::Off);
    assert_ne!(RepeatMode::Off.glyph(), RepeatMode::One.glyph());
}

#[test]
fn album_artists_drop_repeats_apart_in_the_sort() {
    let lib = Library::new(vec![
        track("One", "A", "A", "X", 2000, 1),
        track("Two", "a", "a", "Y", 2000, 1),
        track("Three", "A", "A", "Z", 2000, 1),
    ]);
    assert_eq!(lib.album_artists("", true), vec!["A", "a"]);
}

fn is_subseq(a: &[Track], b: &[Track]) -> bool {
    let mut k = 0;
    for t in b {
        if k < a.len() && a[k].title == t.title && a[k].path == t.path {
            k += 1;
        }
    }
    k == a.len()
}

#[test]
fn narrowing_the_filters_keeps_the_order() {
    let lib = sample();
    let all = lib.tracks_view("", None, None);
    let beck = lib.tracks_view("", Some("Beck"), None);
    let odelay = AlbumRef { album_artist: "Beck".into(), title: "Odelay".into(), year: Some(1996) };
    let one_album = lib.tracks_view("", Some("Beck"), Some(&odelay));
    let song = lib.tracks_view("song", Some("Beck"), Some(&odelay));
    let song_a = lib.tracks_view("song a", Some("Beck"), Some(&odelay));
    assert!(is_subseq(&beck, &all));
    assert!(is_subseq(&one_album, &beck));
    assert!(is_subseq(&song, &one_album));
    assert!(is_subseq(&song_a, &song));
    assert_eq!(song_a.len(), 1);
    assert_eq!(beck.len(), 3);
}
