use music_tui::state::Rects;
use music_tui::ui::lay_out_body;
use music_tui::art::{art_thumb_name, art_thumb_path, art_thumb_path_in};
use music_tui::model::{AlbumRef, Track};
use music_tui::playlist::Playlist;
use music_tui::state::{ListState, Rect};
use music_tui::ui::{
    album_label, fit, playlist_label, queue_row, scan_status, scroll_window, seek_label,
    strip_year_bracket, track_cells, track_widths, transport_layout,
};

#[test]
fn labels_fit_their_width() {
    assert_eq!(fit("abc", 5), "abc  ");
    assert_eq!(fit("abc", 3), "abc");
    assert_eq!(fit("abcdef", 4), "abc…");
    assert_eq!(fit("héllo wörld", 6), "héllo…");
    assert_eq!(fit("ab", 0), "…");
    assert_eq!(fit("", 0), "");
}

#[test]
fn year_brackets_are_hidden() {
    assert_eq!(strip_year_bracket("[1996] Odelay"), "Odelay");
    assert_eq!(strip_year_bracket("(2001)Comp"), "Comp");
    assert_eq!(strip_year_bracket("[1996) Odelay"), "[1996) Odelay");
    assert_eq!(strip_year_bracket("[19x6] Odelay"), "[19x6] Odelay");
    assert_eq!(strip_year_bracket("[1996"), "[1996");
    assert_eq!(strip_year_bracket("Odelay"), "Odelay");
}

#[test]
fn thumbnails_are_named_by_path_hash() {
    let a = art_thumb_name("/m/a.flac");
    let b = art_thumb_name("/m/b.flac");
    assert_eq!(a.len(), 16 + "-1024.png".len());
    assert!(a.ends_with("-1024.png"));
    assert!(a[..16].chars().all(|c| c.is_ascii_hexdigit() && !c.is_ascii_uppercase()));
    assert_eq!(a, art_thumb_name("/m/a.flac"));
    assert_ne!(a, b);
    assert!(art_thumb_path("/m/a.flac").ends_with(&a));
}

#[test]
fn track_columns_share_the_width() {
    // Everything fits: full widths.
    assert_eq!(track_widths(80, 10, 12, 5), (10, 12));
    // Too narrow: the budget (80 - 12 - 1 = 67) is shared in proportion.
    let (t, a) = track_widths(80, 60, 40, 5);
    assert_eq!((t, a), (40, 27));
    assert_eq!(t + a, 67);
    // Nothing left: one cell each.
    assert_eq!(track_widths(5, 10, 10, 5), (1, 1));
}

#[test]
fn track_row_cells() {
    let t = Track {
        id: 0,
        path: "/m/x.flac".into(),
        title: "Hotwax".into(),
        track_artist: "Beck".into(),
        album_artist: "Beck".into(),
        album: "Odelay".into(),
        year: Some(1996),
        track_no: Some(3),
        disc_no: None,
        length_secs: 229,
    };
    let c = track_cells(&t, 8, 4, 5, 40);
    assert_eq!(c.no, "  3 ");
    assert_eq!(c.title, "Hotwax  ");
    assert_eq!(c.album, "Ode…");
    assert_eq!(c.fill, " ".repeat(40 - (4 + 8 + 2 + 4 + 5 + 1)));
    assert_eq!(c.length, " 3:49 ");
    let mut u = t.clone();
    u.track_no = None;
    let c = track_cells(&u, 8, 4, 5, 10);
    assert_eq!(c.no, "    ");
    assert_eq!(c.fill, " ");
}

#[test]
fn column_labels() {
    let al = AlbumRef { album_artist: "Beck".into(), title: "[1996] Odelay".into(), year: Some(1996) };
    assert_eq!(album_label(0, &al), (String::new(), "All".to_string()));
    assert_eq!(album_label(1, &al), ("[1996] ".to_string(), "Odelay".to_string()));
    let undated = AlbumRef { album_artist: "X".into(), title: "Y".into(), year: None };
    assert_eq!(album_label(2, &undated), ("[----] ".to_string(), "Y".to_string()));
    assert_eq!(scan_status(Some((3, 10)), 0), "Scanning… 3/10");
    assert_eq!(scan_status(Some((3, 0)), 0), "Scanning… 3 files");
    assert_eq!(scan_status(None, 42), "42 tracks indexed.");
    let t = Track {
        id: 0,
        path: "p".into(),
        title: "T".into(),
        track_artist: "A".into(),
        album_artist: "A".into(),
        album: "B".into(),
        year: None,
        track_no: None,
        disc_no: None,
        length_secs: 1,
    };
    assert_eq!(queue_row(2, Some(2), &t), ("▶ ".to_string(), "A — T".to_string()));
    assert_eq!(queue_row(1, Some(2), &t).0, "  ");
    let p = Playlist { name: "Mix".into(), tracks: vec![t.clone(), t] };
    assert_eq!(playlist_label(&p), "Mix  (2)");
    assert_eq!(seek_label(65, 3725), "1:05 / 1:02:05");
}

#[test]
fn scroll_windows_keep_the_last_page_full() {
    let mut s = ListState::new();
    s.select(Some(3));
    s.offset = 8;
    // 10 rows, 4 visible: the offset is capped at 6; row 3 is off screen.
    assert_eq!(scroll_window(&mut s, 10, 4, 1), None);
    assert_eq!(s.offset, 6);
    s.select(Some(7));
    assert_eq!(scroll_window(&mut s, 10, 4, 1), Some(7));
    // Two-line rows: 2 visible.
    assert_eq!(scroll_window(&mut s, 10, 4, 2), Some(7));
    assert_eq!(s.offset, 6);
    let mut e = ListState::new();
    assert_eq!(scroll_window(&mut e, 0, 4, 1), None);
    assert_eq!(e.offset, 0);
}

#[test]
fn transport_buttons_are_centred() {
    let area = Rect { x: 16, y: 30, width: 45, height: 7 };
    let r = transport_layout(area, false);
    // Five 5-wide buttons with 2 between: 33 wide, centred in 45.
    assert_eq!(r[0], Rect { x: 22, y: 33, width: 5, height: 1 });
    assert_eq!(r[4], Rect { x: 50, y: 33, width: 5, height: 1 });
    let r = transport_layout(area, true);
    assert_eq!(r[0], Rect { x: 23, y: 32, width: 2, height: 2 });
    assert_eq!(r[1].x, 30);
}

#[test]
fn thumbnail_lies_in_the_given_cache_directory() {
    let name = art_thumb_name("/m/a.flac");
    assert_eq!(art_thumb_path_in("/cache/art", "/m/a.flac"), format!("/cache/art/{name}"));
}

#[test]
fn body_layout_records_the_dividers() {
    let mut rects = Rects::zero();
    let area = Rect { x: 0, y: 4, width: 100, height: 40 };
    let b = lay_out_body(&mut rects, area, [20, 30, 50], 25);
    assert_eq!(b.columns[0], Rect { x: 0, y: 4, width: 20, height: 40 });
    assert_eq!(b.columns[1], Rect { x: 20, y: 4, width: 30, height: 40 });
    assert_eq!(b.columns[2], Rect { x: 50, y: 4, width: 50, height: 40 });
    assert_eq!(b.tracks, Rect { x: 50, y: 4, width: 50, height: 30 });
    assert_eq!(b.queue, Rect { x: 50, y: 34, width: 50, height: 10 });
    assert_eq!(rects.body, area);
    assert_eq!(rects.col_div0, 20);
    assert_eq!(rects.col_div1, 50);
    assert_eq!(rects.col3, b.columns[2]);
    assert_eq!(rects.queue_div, 34);
}
