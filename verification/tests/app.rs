use music_tui::app::App;
use music_tui::config::Config;
use music_tui::model::{Library, RepeatMode, Track};
use music_tui::playlist::Playlist;
use music_tui::scan::ScanMsg;
use music_tui::state::{Effect, Focus, ListState, PlPane, Tab};

fn track(title: &str, ta: &str, aa: &str, album: &str, year: i32, no: u32) -> Track {
    Track {
        id: 0,
        path: format!("/m/{title}.flac"),
        title: title.into(),
        track_artist: ta.into(),
        album_artist: aa.into(),
        album: album.into(),
        year: Some(year),
        track_no: Some(no),
        disc_no: None,
        length_secs: 200,
    }
}

fn sample_tracks() -> Vec<Track> {
    vec![
        track("Song B", "Beck", "Beck", "Odelay", 1996, 2),
        track("Song A", "Beck", "Beck", "Odelay", 1996, 1),
        track("Older", "Beck", "Beck", "Mellow Gold", 1994, 1),
        track("Guest One", "Artist X", "Various Artists", "Comp", 2001, 1),
        track("Guest Two", "Artist Y", "Various Artists", "Comp", 2001, 2),
    ]
}

fn config() -> Config {
    let mut c = Config::default();
    c.music_dir = "/music".into();
    c.ui.cache_all_art = false;
    c
}

fn app() -> App {
    App::new(config(), Library::new(sample_tracks()), vec![], 42, 0)
}

fn titles(v: &[Track]) -> Vec<String> {
    v.iter().map(|t| t.title.clone()).collect()
}

fn played_title(e: &Effect) -> Option<String> {
    match e {
        Effect::Play(t) => Some(t.title.clone()),
        _ => None,
    }
}

#[test]
fn new_app_reports_the_library() {
    let a = app();
    assert_eq!(a.status, "5 tracks loaded.");
    assert_eq!(a.view_artists, vec!["All", "Beck", "Various Artists"]);
    assert_eq!(a.view_albums.len(), 4);
    assert_eq!(a.view_albums[0].title, "All");
    assert_eq!(a.view_tracks.len(), 5);
    assert_eq!(a.focus, Focus::Artists);
    assert_eq!(a.tab, Tab::Browser);
    assert_eq!(a.transport_sel, 2);
    assert_eq!(a.col_widths, [25, 30, 45]);
    assert_eq!(a.queue_pct, 28);
    assert_eq!(a.rng, 43);
    assert!(a.effects.is_empty());
    assert!(a.is_consistent());

    let empty = App::new(config(), Library::new(vec![]), vec![], 0, 0);
    assert_eq!(empty.status, "Library empty — press 3 for settings, then r to scan.");
    assert_eq!(empty.rng, 1);

    let mut c = config();
    c.ui.cache_all_art = true;
    let caching = App::new(c, Library::new(vec![]), vec![], 0, 0);
    assert!(matches!(caching.effects.as_slice(), [Effect::StartArtPrecache]));
}

#[test]
fn selecting_an_artist_narrows_the_columns() {
    let mut a = app();
    a.move_selection(1); // "Beck"
    assert_eq!(a.selected_artist(), Some("Beck".to_string()));
    let albums: Vec<String> = a.view_albums.iter().map(|x| x.title.clone()).collect();
    assert_eq!(albums, vec!["All", "Mellow Gold", "Odelay"]);
    assert_eq!(titles(&a.view_tracks), vec!["Older", "Song A", "Song B"]);
    a.move_column(true);
    a.move_selection(2); // "Odelay"
    assert_eq!(a.selected_album().map(|x| x.title), Some("Odelay".to_string()));
    assert_eq!(titles(&a.view_tracks), vec!["Song A", "Song B"]);
}

#[test]
fn search_typing_filters_and_backspace_restores() {
    let mut a = app();
    a.set_focus(Focus::Search);
    for c in "GUEST".chars() {
        a.search_input(c);
    }
    assert_eq!(a.search, "GUEST");
    assert_eq!(a.search_cursor, 5);
    // The query is lowercased before filtering.
    assert_eq!(a.view_artists, vec!["All", "Various Artists"]);
    assert_eq!(a.view_tracks.len(), 2);
    a.search_input('x');
    assert!(a.view_tracks.is_empty());
    a.search_backspace();
    assert_eq!(a.search, "GUEST");
    assert_eq!(a.view_tracks.len(), 2);
    a.clear_search();
    assert_eq!(a.search, "");
    assert_eq!(a.view_tracks.len(), 5);
}

#[test]
fn search_cursor_motions_and_kills() {
    let mut a = app();
    a.set_focus(Focus::Search);
    for c in "hello big world".chars() {
        a.search_input(c);
    }
    a.search_move_word(-1);
    assert_eq!(a.search_cursor, 10);
    a.search_kill_word_back();
    assert_eq!(a.search, "hello world");
    assert_eq!(a.kill_buffer, "big ");
    assert_eq!(a.search_cursor, 6);
    a.search_yank();
    assert_eq!(a.search, "hello big world");
    assert_eq!(a.search_cursor, 10);
    a.search_home();
    a.search_kill_to_end();
    assert_eq!(a.search, "");
    assert_eq!(a.kill_buffer, "hello big world");
    a.search_yank();
    assert_eq!(a.search, "hello big world");
    a.search_move(-100);
    assert_eq!(a.search_cursor, 0);
    a.search_delete_forward();
    assert_eq!(a.search, "ello big world");
    a.search_end();
    a.search_kill_to_start();
    assert_eq!(a.search, "");
    assert_eq!(a.kill_buffer, "ello big world");
    assert_eq!(a.search_word_boundary(1), 0);
}

#[test]
fn adding_to_queue_and_playing() {
    let mut a = app();
    a.move_selection(1); // Beck
    a.add_to_queue(); // artist focused: all Beck tracks
    assert_eq!(titles(&a.queue), vec!["Older", "Song A", "Song B"]);
    assert_eq!(a.status, "Added 3 track(s) to queue.");
    assert_eq!(a.queue_state.selected(), Some(0));
    a.set_focus(Focus::Queue);
    a.move_selection(1);
    a.activate();
    assert_eq!(a.now, Some(1));
    let effects = a.take_effects();
    assert_eq!(effects.len(), 1);
    assert_eq!(played_title(&effects[0]), Some("Song A".to_string()));
    assert!(a.effects.is_empty());
    let t = a.queue[1].clone();
    a.play_started(&t);
    assert_eq!(a.now_playing, "▶ Beck — Song A");
    assert_eq!(a.status, a.now_playing);
    a.play_failed("no device");
    assert_eq!(a.status, "Error: no device");
}

#[test]
fn next_and_previous_follow_the_queue() {
    let mut a = app();
    a.play_tracks(sample_tracks()[..3].to_vec(), 0);
    assert_eq!(a.now, Some(0));
    a.next_track(true);
    assert_eq!(a.now, Some(1));
    a.next_track(true);
    assert_eq!(a.now, Some(2));
    a.take_effects();
    // At the end without repeat: playback stops.
    a.next_track(false);
    assert_eq!(a.now, None);
    assert!(matches!(a.take_effects().as_slice(), [Effect::Stop]));
    // Repeat all wraps around.
    a.play_index(2);
    a.cycle_repeat();
    assert_eq!(a.repeat, RepeatMode::All);
    assert_eq!(a.status, "Repeat: all");
    a.next_track(false);
    assert_eq!(a.now, Some(0));
    // Previous from the first entry with repeat all goes to the last.
    a.set_clock(0, 0);
    a.prev_track();
    assert_eq!(a.now, Some(2));
    // More than three seconds in: previous restarts the current track.
    a.set_clock(0, 10);
    a.take_effects();
    a.prev_track();
    assert_eq!(a.now, Some(2));
    assert_eq!(a.take_effects().len(), 1);
    // Repeat one replays the current track when it ends on its own.
    a.cycle_repeat();
    assert_eq!(a.repeat, RepeatMode::One);
    a.next_track(false);
    assert_eq!(a.now, Some(2));
    // ...but a user skip still advances, and stops past the end.
    a.play_index(0);
    a.next_track(true);
    assert_eq!(a.now, Some(1));
    a.play_index(2);
    a.next_track(true);
    assert_eq!(a.now, None);
}

#[test]
fn shuffle_never_replays_the_current_entry() {
    let mut a = app();
    a.play_tracks(sample_tracks(), 0);
    a.toggle_shuffle();
    assert!(a.shuffle);
    assert_eq!(a.status, "Shuffle on");
    for _ in 0..50 {
        let before = a.now.unwrap();
        a.next_track(true);
        let after = a.now.unwrap();
        assert_ne!(before, after);
        assert!(after < 5);
    }
}

#[test]
fn peeking_the_next_entry() {
    let mut a = app();
    assert_eq!(a.peek_next_index(), None);
    a.play_tracks(sample_tracks()[..2].to_vec(), 0);
    assert_eq!(a.peek_next_index(), Some(1));
    a.play_index(1);
    assert_eq!(a.peek_next_index(), None);
    a.cycle_repeat(); // all
    assert_eq!(a.peek_next_index(), Some(0));
    a.cycle_repeat(); // one
    assert_eq!(a.peek_next_index(), None);
    a.crossfade_started(0);
    assert_eq!(a.now, Some(0));
    assert_eq!(a.now_playing, "▶ Beck — Song B");
}

#[test]
fn removing_from_queue_keeps_the_playing_track() {
    let mut a = app();
    a.play_tracks(sample_tracks(), 3);
    assert_eq!(a.now, Some(3));
    a.queue_state.select(Some(1));
    a.remove_from_queue();
    assert_eq!(a.queue.len(), 4);
    assert_eq!(a.now, Some(2));
    assert_eq!(a.queue[2].title, "Guest One");
    assert_eq!(a.status, "Removed from queue.");
    // Removing the playing entry leaves nothing marked as playing.
    a.queue_state.select(Some(2));
    a.remove_from_queue();
    assert_eq!(a.now, None);
    assert_eq!(a.queue_state.selected(), Some(2));
    a.clear_queue();
    assert!(a.queue.is_empty());
    assert_eq!(a.status, "Queue cleared.");
    assert_eq!(a.queue_state.selected(), None);
}

#[test]
fn transport_selection_wraps_among_five() {
    let mut a = app();
    a.set_focus(Focus::Transport);
    a.transport_sel = 4;
    a.on_right();
    assert_eq!(a.transport_sel, 0);
    a.on_left();
    assert_eq!(a.transport_sel, 4);
    a.activate(); // repeat button
    assert_eq!(a.repeat, RepeatMode::All);
    a.transport_sel = 0;
    a.activate(); // shuffle button
    assert!(a.shuffle);
    a.transport_sel = 2;
    a.take_effects();
    a.activate_transport();
    assert!(matches!(a.take_effects().as_slice(), [Effect::TogglePause]));
}

#[test]
fn keyboard_resize_keeps_widths_summing_to_100() {
    let mut a = app();
    a.set_focus(Focus::Albums);
    a.resize_focused(true);
    assert_eq!(a.col_widths, [25, 34, 41]);
    assert_eq!(a.config.layout.columns, vec![25, 34, 41]);
    assert!(matches!(a.take_effects().as_slice(), [Effect::SaveConfig]));
    a.set_focus(Focus::Tracks);
    a.resize_focused(false);
    assert_eq!(a.col_widths, [25, 38, 37]);
    assert_eq!(a.col_widths.iter().sum::<u16>(), 100);
    // A column never shrinks below 10.
    a.col_widths = [12, 48, 40];
    a.set_focus(Focus::Artists);
    a.resize_focused(false);
    assert_eq!(a.col_widths, [12, 48, 40]);
    // The queue resizes its height instead, within 10..=60.
    a.set_focus(Focus::Queue);
    a.queue_pct = 58;
    a.resize_focused(true);
    assert_eq!(a.queue_pct, 60);
    a.resize_focused(true);
    assert_eq!(a.queue_pct, 60);
}

#[test]
fn dragging_dividers_keeps_widths_summing_to_100() {
    let mut a = app();
    a.drag_divider(0, 5);
    assert_eq!(a.col_widths, [10, 45, 45]);
    a.drag_divider(0, 40);
    assert_eq!(a.col_widths, [40, 15, 45]);
    a.drag_divider(1, 99);
    assert_eq!(a.col_widths, [40, 50, 10]);
    a.drag_divider(1, 0);
    assert_eq!(a.col_widths, [40, 10, 50]);
    assert_eq!(a.col_widths.iter().sum::<u16>(), 100);
    a.persist_columns();
    assert_eq!(a.config.layout.columns, vec![40, 10, 50]);
    a.drag_queue_divider(95);
    assert_eq!(a.queue_pct, 60);
    a.drag_queue_divider(3);
    assert_eq!(a.queue_pct, 10);
    a.persist_queue_pct();
    assert_eq!(a.config.layout.queue_pct, 10);
}

#[test]
fn saving_the_queue_as_a_playlist() {
    let mut a = app();
    a.begin_new_playlist();
    assert_eq!(a.status, "Queue is empty — nothing to save as a playlist.");
    assert!(a.editing_playlist_name.is_none());
    a.play_tracks(sample_tracks()[..2].to_vec(), 0);
    a.begin_new_playlist();
    for c in "  Mix ".chars() {
        a.pl_name_input(c);
    }
    a.pl_name_input('!');
    a.pl_name_backspace();
    a.take_effects();
    a.commit_new_playlist();
    assert_eq!(a.playlists.len(), 1);
    assert_eq!(a.playlists[0].name, "Mix");
    assert_eq!(titles(&a.playlists[0].tracks), vec!["Song B", "Song A"]);
    assert_eq!(a.status, "Saved playlist 'Mix' (2 tracks).");
    assert_eq!(a.playlist_state.selected(), Some(0));
    assert!(matches!(a.take_effects().as_slice(), [Effect::SavePlaylists]));
    // A blank name saves nothing.
    a.begin_new_playlist();
    a.pl_name_input(' ');
    a.commit_new_playlist();
    assert_eq!(a.playlists.len(), 1);
    assert!(a.editing_playlist_name.is_none());
    // Appending the queue, removing a track, deleting the playlist.
    a.append_queue_to_playlist();
    assert_eq!(a.playlists[0].tracks.len(), 4);
    assert_eq!(a.status, "Added 2 track(s) to 'Mix'.");
    a.pl_set_pane(PlPane::Tracks);
    a.pl_move(1);
    assert_eq!(a.pl_track_state.selected(), Some(1));
    a.remove_pl_track();
    assert_eq!(titles(&a.playlists[0].tracks), vec!["Song B", "Song B", "Song A"]);
    a.delete_playlist();
    assert!(a.playlists.is_empty());
    assert_eq!(a.status, "Deleted playlist 'Mix'.");
    assert_eq!(a.playlist_state.selected(), None);
}

#[test]
fn activating_a_playlist_plays_it() {
    let pl = Playlist { name: "P".into(), tracks: sample_tracks()[3..].to_vec() };
    let empty = Playlist { name: "E".into(), tracks: vec![] };
    let mut a = App::new(config(), Library::new(sample_tracks()), vec![pl, empty], 1, 0);
    a.tab = Tab::Playlists;
    a.pl_move(0);
    assert_eq!(a.playlist_state.selected(), Some(0));
    assert_eq!(a.pl_track_state.selected(), Some(0));
    a.pl_set_pane(PlPane::Tracks);
    a.pl_move(1);
    a.pl_activate();
    assert_eq!(titles(&a.queue), vec!["Guest One", "Guest Two"]);
    assert_eq!(a.now, Some(1));
    a.pl_set_pane(PlPane::List);
    a.pl_move(1);
    assert_eq!(a.pl_track_state.selected(), None);
    a.pl_activate();
    assert_eq!(a.status, "Playlist is empty.");
    assert_eq!(a.selected_playlist().map(|p| p.name.clone()), Some("E".to_string()));
}

#[test]
fn scanning_reports_progress_and_loads() {
    let mut a = app();
    let (changed, found) = a.poll_scan(vec![ScanMsg::Progress { done: 1, total: 2 }]);
    assert!(!changed && found.is_none());
    assert_eq!(a.scanning, None);
    a.start_scan();
    assert_eq!(a.status, "Scanning /music…");
    assert_eq!(a.scanning, Some((0, 0)));
    assert!(matches!(a.take_effects().as_slice(), [Effect::StartScan(d)] if d == "/music"));
    assert!(!a.poll_scan(vec![]).0);
    assert_eq!(a.scanning, Some((0, 0)));
    let (changed, found) = a.poll_scan(vec![ScanMsg::Progress { done: 1, total: 2 }]);
    assert!(changed && found.is_none());
    assert_eq!(a.scanning, Some((1, 2)));
    let found = a
        .poll_scan(vec![
            ScanMsg::Progress { done: 2, total: 2 },
            ScanMsg::Finished(sample_tracks()[..2].to_vec()),
        ])
        .1
        .expect("finished scan hands back its tracks");
    assert_eq!(found.len(), 2);
    assert_eq!(a.scanning, None);
    a.persist_and_load(found.clone(), Ok(found.clone()));
    assert_eq!(a.status, "Scan complete: 2 tracks.");
    assert_eq!(a.library.len(), 2);
    assert_eq!(a.view_artists, vec!["All", "Beck"]);
    a.persist_and_load(sample_tracks(), Err("disk full".into()));
    assert_eq!(a.status, "Loaded (DB save failed: disk full).");
    assert_eq!(a.library.len(), 5);
    a.start_scan();
    let (changed, found) = a.poll_scan(vec![ScanMsg::Error("unreadable".into())]);
    assert!(changed && found.is_none());
    assert_eq!(a.status, "Scan error: unreadable");
    assert_eq!(a.scanning, None);
}

#[test]
fn settings_toggles_are_saved() {
    let mut a = app();
    a.toggle_big_icons();
    assert!(!a.big_icons);
    assert!(!a.config.ui.big_transport_icons);
    assert!(matches!(a.take_effects().as_slice(), [Effect::SaveConfig]));
    a.toggle_cache_all_art();
    assert!(a.cache_all_art && a.config.ui.cache_all_art);
    assert_eq!(a.status, "Caching all album art in background…");
    assert!(matches!(a.take_effects().as_slice(), [Effect::SaveConfig, Effect::StartArtPrecache]));
    a.toggle_cache_all_art();
    assert_eq!(a.status, "Album-art pre-caching off.");
    a.toggle_sort_articles();
    assert!(!a.config.ui.sort_articles);
    a.open_art_popup();
    assert!(a.show_art_popup);
}

#[test]
fn editing_the_music_directory() {
    let mut a = app();
    a.begin_edit_path();
    assert_eq!(a.editing_path.as_deref(), Some("/music"));
    for _ in 0..6 {
        a.edit_path_backspace();
    }
    for c in "  /srv/audio  ".chars() {
        a.edit_path_input(c);
    }
    a.take_effects();
    a.commit_edit_path();
    assert_eq!(a.config.music_dir, "/srv/audio");
    assert_eq!(a.status, "Music dir set to /srv/audio");
    assert!(a.editing_path.is_none());
    assert!(matches!(a.take_effects().as_slice(), [Effect::SaveConfig]));
    // A blank entry changes nothing.
    a.begin_edit_path();
    for _ in 0..20 {
        a.edit_path_backspace();
    }
    a.edit_path_input(' ');
    a.commit_edit_path();
    assert_eq!(a.config.music_dir, "/srv/audio");
    a.begin_edit_path();
    a.cancel_edit_path();
    assert!(a.editing_path.is_none());
}

#[test]
fn notifications_expire_back_to_now_playing() {
    let mut a = app();
    a.set_clock(1000, 0);
    a.toggle_shuffle();
    assert_eq!(a.notify_until, Some(5000));
    a.set_clock(4999, 0);
    assert!(!a.on_tick(false));
    assert_eq!(a.status, "Shuffle on");
    a.set_clock(5000, 0);
    assert!(a.on_tick(false));
    assert_eq!(a.status, a.now_playing);
    assert_eq!(a.notify_until, None);
    assert!(a.on_tick(true));
    a.show_art_popup = true;
    assert!(!a.on_tick(true));
}

#[test]
fn double_clicks_need_the_same_cell_within_400ms() {
    let mut a = app();
    a.set_clock(1000, 0);
    assert!(!a.is_double_click(3, 4));
    a.set_clock(1399, 0);
    assert!(a.is_double_click(3, 4));
    // A double resets, so a third click is not another double.
    a.set_clock(1450, 0);
    assert!(!a.is_double_click(3, 4));
    a.set_clock(1900, 0);
    assert!(!a.is_double_click(3, 4));
    a.set_clock(1950, 0);
    assert!(!a.is_double_click(4, 4));
}

#[test]
fn seeking_and_volume_are_requested() {
    let mut a = app();
    a.seek_relative(-5);
    a.volume_up();
    a.volume_down();
    a.toggle_pause();
    let e = a.take_effects();
    assert!(matches!(
        e.as_slice(),
        [Effect::SeekRelative(-5), Effect::VolumeStep(true), Effect::VolumeStep(false), Effect::TogglePause]
    ));
    a.seek_refused();
    assert_eq!(a.status, "Seeking not supported for this track.");
}

#[test]
fn list_state_selection_and_offset() {
    let mut s = ListState::new();
    assert_eq!(s.selected(), None);
    assert_eq!(s.offset(), 0);
    s.select(Some(3));
    assert_eq!(s.selected(), Some(3));
}

#[test]
fn a_cleared_queue_does_not_advance() {
    let mut a = app();
    a.play_tracks(sample_tracks(), 1);
    a.clear_queue();
    assert_eq!(a.now, None);
    a.take_effects();
    a.next_track(false);
    a.next_track(true);
    assert!(a.take_effects().is_empty());
    assert!(a.queue.is_empty());
}

#[test]
fn a_rescan_keeps_playlists_and_the_queue() {
    let pl = Playlist { name: "Keep".into(), tracks: sample_tracks()[..1].to_vec() };
    let mut a = App::new(config(), Library::new(sample_tracks()), vec![pl], 5, 0);
    a.play_tracks(sample_tracks()[1..3].to_vec(), 0);
    a.start_scan();
    let found = a.poll_scan(vec![ScanMsg::Finished(vec![])]).1.unwrap();
    a.persist_and_load(found, Ok(vec![]));
    assert_eq!(a.library.len(), 0);
    assert_eq!(a.playlists.len(), 1);
    assert_eq!(titles(&a.playlists[0].tracks), vec!["Song B"]);
    assert_eq!(titles(&a.queue), vec!["Song A", "Older"]);
    assert_eq!(a.view_artists, vec!["All"]);
    assert!(a.view_tracks.is_empty());
}

#[test]
fn focus_moves_between_columns_and_through_the_cycle() {
    let mut a = app();
    for _ in 0..8 {
        a.cycle_focus(true);
    }
    assert_eq!(a.focus, Focus::Artists);
    a.cycle_focus(false);
    assert_eq!(a.focus, Focus::Search);
    assert!(a.is_searching());
    a.set_focus(Focus::Queue);
    a.on_left();
    assert_eq!(a.focus, Focus::Tracks);
    a.on_right();
    a.on_right();
    assert_eq!(a.focus, Focus::Queue);
}

#[test]
fn removed_playing_entry_plays_out_without_advancing() {
    let mut a = app();
    a.play_tracks(sample_tracks()[..3].to_vec(), 0);
    assert_eq!(a.now, Some(0));
    a.queue_state.select(Some(0));
    a.remove_from_queue();
    assert_eq!(a.now, None);
    a.take_effects();
    // The track ends: the automatic advance starts nothing.
    a.next_track(false);
    assert_eq!(a.now, None);
    assert!(a.take_effects().is_empty());
    // Asking for the next track still plays from the queue.
    a.next_track(true);
    assert_eq!(a.now, Some(1));
}

#[test]
fn kill_to_end_then_yank_puts_the_text_back() {
    let mut a = app();
    a.set_focus(Focus::Search);
    for c in "odelay".chars() {
        a.search_input(c);
    }
    a.search_move(-4);
    assert_eq!(a.search_cursor, 2);
    a.search_kill_to_end();
    assert_eq!(a.search, "od");
    a.search_yank();
    assert_eq!(a.search, "odelay");
    assert_eq!(a.search_cursor, 6);
}
