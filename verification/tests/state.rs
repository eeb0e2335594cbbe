use music_tui::model::{search_blob, Track};
use music_tui::state::{clamp, move_state, Focus, ListState};

#[test]
fn tab_cycles_through_all_eight_targets() {
    let mut f = Focus::Artists;
    let mut seen = vec![];
    for _ in 0..8 {
        seen.push(f);
        f = f.next();
    }
    assert_eq!(f, Focus::Artists);
    assert_eq!(seen.len(), 8);
    assert_eq!(Focus::Search.prev(), Focus::Volume);
    assert_eq!(Focus::Volume.next(), Focus::Search);
    for g in seen {
        assert_eq!(g.next().prev(), g);
    }
}

#[test]
fn left_and_right_move_between_the_four_lists() {
    assert_eq!(Focus::Artists.right(), Focus::Albums);
    assert_eq!(Focus::Albums.right(), Focus::Tracks);
    assert_eq!(Focus::Tracks.right(), Focus::Queue);
    assert_eq!(Focus::Queue.right(), Focus::Queue);
    assert_eq!(Focus::Artists.left(), Focus::Artists);
    assert_eq!(Focus::Queue.left(), Focus::Tracks);
    assert_eq!(Focus::Albums.right().left(), Focus::Albums);
    assert!(Focus::Tracks.is_list());
    assert!(!Focus::Search.is_list());
    assert!(!Focus::Volume.is_list());
}

#[test]
fn selections_stay_inside_their_lists() {
    let mut s = ListState::new();
    move_state(&mut s, 5, -3);
    assert_eq!(s.selected(), Some(0));
    move_state(&mut s, 5, 100);
    assert_eq!(s.selected(), Some(4));
    move_state(&mut s, 0, 1);
    assert_eq!(s.selected(), None);
    s.select(Some(9));
    clamp(&mut s, 3);
    assert_eq!(s.selected(), Some(2));
    clamp(&mut s, 0);
    assert_eq!(s.selected(), None);
    assert_eq!(s.offset(), 0);
    clamp(&mut s, 4);
    assert_eq!(s.selected(), Some(0));
}

#[test]
fn search_text_joins_the_lowercased_fields() {
    let t = Track {
        id: 0,
        path: "/m/x.flac".into(),
        title: "Hotwax".into(),
        track_artist: "BECK".into(),
        album_artist: "Beck".into(),
        album: "Odelay".into(),
        year: None,
        track_no: None,
        disc_no: None,
        length_secs: 0,
    };
    assert_eq!(search_blob(&t), "hotwax\u{1f}beck\u{1f}odelay\u{1f}beck");
}
