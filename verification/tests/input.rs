use music_tui::app::App;
use music_tui::config::Config;
use music_tui::input::{
    click_target_at, dispatch_cmd, focus_at, handle_click, handle_drag, handle_key, handle_mouse, hit,
    key_action, near_divider, near_queue_divider, row_index, ClickTarget, Key, KeyAction,
    KeyCode, Mouse, MouseKind,
};
use music_tui::ipc::Cmd;
use music_tui::model::{Library, RepeatMode, Track};
use music_tui::state::{Drag, Effect, Focus, ListState, Rect, Rects, Tab};

fn track(title: &str, aa: &str, album: &str, year: i32, no: u32) -> Track {
    Track {
        id: 0,
        path: format!("/m/{title}.flac"),
        title: title.into(),
        track_artist: aa.into(),
        album_artist: aa.into(),
        album: album.into(),
        year: Some(year),
        track_no: Some(no),
        disc_no: None,
        length_secs: 200,
    }
}

fn app() -> App {
    let mut c = Config::default();
    c.music_dir = "/music".into();
    c.ui.cache_all_art = false;
    let lib = Library::new(vec![
        track("One", "Air", "Moon Safari", 1998, 1),
        track("Two", "Air", "Moon Safari", 1998, 2),
        track("Three", "Blur", "Parklife", 1994, 1),
    ]);
    App::new(c, lib, vec![], 7, 0)
}

fn key(c: char) -> Key {
    Key { code: KeyCode::Char(c), ctrl: false, alt: false }
}

fn ctrl(c: char) -> Key {
    Key { code: KeyCode::Char(c), ctrl: true, alt: false }
}

fn code(k: KeyCode) -> Key {
    Key { code: k, ctrl: false, alt: false }
}

fn rect(x: u16, y: u16, width: u16, height: u16) -> Rect {
    Rect { x, y, width, height }
}

fn layout() -> Rects {
    let mut r = Rects::zero();
    r.tab_browser = rect(0, 0, 10, 1);
    r.tab_playlists = rect(10, 0, 10, 1);
    r.tab_settings = rect(20, 0, 10, 1);
    r.help_hint = rect(70, 0, 10, 1);
    r.search = rect(0, 1, 80, 1);
    r.body = rect(0, 2, 80, 20);
    r.artists = rect(1, 3, 18, 18);
    r.albums = rect(21, 3, 18, 18);
    r.tracks = rect(41, 3, 38, 10);
    r.queue = rect(41, 15, 38, 6);
    r.col_div0 = 20;
    r.col_div1 = 40;
    r.col3 = rect(40, 2, 40, 20);
    r.queue_div = 14;
    r.btn_shuffle = rect(0, 23, 2, 1);
    r.btn_prev = rect(3, 23, 2, 1);
    r.btn_play = rect(6, 23, 2, 1);
    r.btn_next = rect(9, 23, 2, 1);
    r.btn_repeat = rect(12, 23, 2, 1);
    r.seekbar = rect(20, 23, 40, 1);
    r.volume = rect(79, 10, 1, 10);
    r.art = rect(0, 24, 8, 4);
    r.pl_list = rect(1, 3, 30, 18);
    r.pl_tracks = rect(32, 3, 47, 18);
    r
}

fn mouse(kind: MouseKind, column: u16, row: u16) -> Mouse {
    Mouse { kind, column, row }
}

#[test]
fn ctrl_c_always_quits() {
    let mut a = app();
    a.show_help = true;
    a.editing_path = Some(String::new());
    assert_eq!(key_action(&a, ctrl('c')), KeyAction::Quit);
    handle_key(&mut a, ctrl('c'));
    assert!(a.should_quit);
}

#[test]
fn overlays_take_any_key() {
    let mut a = app();
    a.show_help = true;
    handle_key(&mut a, key('q'));
    assert!(!a.show_help);
    assert!(!a.should_quit);
    a.show_art_popup = true;
    handle_key(&mut a, code(KeyCode::Enter));
    assert!(!a.show_art_popup);
}

#[test]
fn browser_keys() {
    let mut a = app();
    handle_key(&mut a, key('j'));
    assert_eq!(a.selected_artist(), Some("Air".to_string()));
    handle_key(&mut a, key('l'));
    assert_eq!(a.focus, Focus::Albums);
    handle_key(&mut a, code(KeyCode::Tab));
    assert_eq!(a.focus, Focus::Tracks);
    handle_key(&mut a, key('a'));
    assert_eq!(a.queue.len(), 1);
    handle_key(&mut a, key('s'));
    assert!(a.shuffle);
    handle_key(&mut a, key('r'));
    handle_key(&mut a, key('+'));
    handle_key(&mut a, key('['));
    handle_key(&mut a, Key { code: KeyCode::Char(']'), ctrl: false, alt: true });
    assert_eq!(a.col_widths, [25, 26, 49]); // tracks wider by taking from albums
    let effects = a.take_effects();
    assert!(matches!(
        effects.as_slice(),
        [Effect::VolumeStep(true), Effect::SeekRelative(-5), Effect::SaveConfig]
    ));
    handle_key(&mut a, key('2'));
    assert_eq!(a.tab, Tab::Playlists);
    handle_key(&mut a, key('3'));
    assert_eq!(a.tab, Tab::Settings);
    handle_key(&mut a, key('1'));
    assert_eq!(a.tab, Tab::Browser);
    handle_key(&mut a, key('?'));
    assert!(a.show_help);
    handle_key(&mut a, key('x'));
    handle_key(&mut a, key('q'));
    assert!(a.should_quit);
}

#[test]
fn queue_key_removes_when_the_queue_is_focused() {
    let mut a = app();
    a.set_focus(Focus::Tracks);
    a.track_state.select(Some(0));
    handle_key(&mut a, key('a'));
    handle_key(&mut a, key('a'));
    assert_eq!(a.queue.len(), 2);
    a.set_focus(Focus::Queue);
    assert_eq!(key_action(&a, key('a')), KeyAction::RemoveFromQueue);
    handle_key(&mut a, key('a'));
    assert_eq!(a.queue.len(), 1);
    handle_key(&mut a, key('c'));
    assert!(a.queue.is_empty());
}

#[test]
fn search_field_keys() {
    let mut a = app();
    handle_key(&mut a, key('/'));
    assert_eq!(a.focus, Focus::Search);
    for c in "air x".chars() {
        handle_key(&mut a, key(c));
    }
    assert_eq!(a.search, "air x");
    assert_eq!(key_action(&a, key('q')), KeyAction::SearchInput('q'));
    handle_key(&mut a, ctrl('w'));
    assert_eq!(a.search, "air ");
    handle_key(&mut a, code(KeyCode::Backspace));
    assert_eq!(a.search, "air");
    assert_eq!(a.view_tracks.len(), 2);
    handle_key(&mut a, ctrl('a'));
    assert_eq!(a.search_cursor, 0);
    handle_key(&mut a, ctrl('e'));
    assert_eq!(a.search_cursor, 3);
    handle_key(&mut a, Key { code: KeyCode::Char('b'), ctrl: false, alt: true });
    assert_eq!(a.search_cursor, 0);
    handle_key(&mut a, ctrl('k'));
    assert_eq!(a.search, "");
    handle_key(&mut a, ctrl('y'));
    assert_eq!(a.search, "air");
    // A Ctrl chord is never typed as text.
    handle_key(&mut a, ctrl('z'));
    assert_eq!(a.search, "air");
    handle_key(&mut a, code(KeyCode::Esc));
    assert_eq!(a.search, "");
    assert_eq!(a.focus, Focus::Artists);
}

#[test]
fn settings_and_playlists_keymaps() {
    let mut a = app();
    a.tab = Tab::Settings;
    handle_key(&mut a, key('k'));
    assert!(!a.big_icons);
    handle_key(&mut a, key('+'));
    let e = a.take_effects();
    assert!(matches!(e.as_slice(), [Effect::SaveConfig, Effect::AdjustGapless(true)]));
    handle_key(&mut a, key('r'));
    assert_eq!(a.status, "Scanning /music…");
    handle_key(&mut a, key('e'));
    assert_eq!(a.editing_path.as_deref(), Some("/music"));
    handle_key(&mut a, code(KeyCode::Backspace));
    handle_key(&mut a, key('X'));
    handle_key(&mut a, code(KeyCode::Enter));
    assert_eq!(a.config.music_dir, "/musiX");
    a.tab = Tab::Playlists;
    a.play_tracks(vec![track("One", "Air", "Moon Safari", 1998, 1)], 0);
    handle_key(&mut a, key('n'));
    for c in "Fav".chars() {
        handle_key(&mut a, key(c));
    }
    handle_key(&mut a, code(KeyCode::Enter));
    assert_eq!(a.playlists.len(), 1);
    assert_eq!(a.playlists[0].name, "Fav");
    handle_key(&mut a, key('d'));
    assert!(a.playlists.is_empty());
    handle_key(&mut a, key('i'));
    assert!(a.show_art_popup);
}

#[test]
fn hit_testing_helpers() {
    let r = rect(2, 3, 4, 5);
    assert!(hit(r, 2, 3));
    assert!(hit(r, 5, 7));
    assert!(!hit(r, 6, 7));
    assert!(!hit(r, 5, 8));
    assert!(!hit(rect(0, 0, 0, 0), 0, 0));
    let mut s = ListState::new();
    assert_eq!(row_index(rect(0, 10, 5, 5), &s, 12, 10, 1), Some(2));
    assert_eq!(row_index(rect(0, 10, 5, 5), &s, 9, 10, 1), None);
    assert_eq!(row_index(rect(0, 10, 5, 5), &s, 12, 2, 1), None);
    assert_eq!(row_index(rect(0, 10, 5, 5), &s, 14, 10, 2), Some(2));
    assert_eq!(row_index(rect(0, 10, 5, 5), &s, 12, 10, 0), None);
    s.offset = 5;
    assert_eq!(row_index(rect(0, 10, 5, 5), &s, 12, 10, 1), Some(7));
    let l = layout();
    assert!(near_queue_divider(&l, 50, 14));
    assert!(near_queue_divider(&l, 50, 13));
    assert!(!near_queue_divider(&l, 50, 12));
    assert_eq!(near_divider(&l, 20, 5), Some(0));
    assert_eq!(near_divider(&l, 19, 5), Some(0));
    assert_eq!(near_divider(&l, 39, 5), Some(1));
    assert_eq!(near_divider(&l, 30, 5), None);
    assert_eq!(near_divider(&l, 20, 1), None);
    let mut a = app();
    a.rects = l;
    assert_eq!(focus_at(&a, 5, 5), Some(Focus::Artists));
    assert_eq!(focus_at(&a, 50, 16), Some(Focus::Queue));
    assert_eq!(focus_at(&a, 0, 0), None);
    assert_eq!(click_target_at(&l, Tab::Browser, 7, 23), ClickTarget::Transport(2));
    assert_eq!(click_target_at(&l, Tab::Browser, 5, 1), ClickTarget::Search);
    assert_eq!(click_target_at(&l, Tab::Settings, 5, 5), ClickTarget::Nothing);
    assert_eq!(click_target_at(&l, Tab::Playlists, 5, 5), ClickTarget::PlList);
}

#[test]
fn clicks_select_rows_and_double_clicks_play() {
    let mut a = app();
    a.rects = layout();
    a.set_clock(1000, 0);
    handle_click(&mut a, 5, 4); // artists row 1: "Air"
    assert_eq!(a.focus, Focus::Artists);
    assert_eq!(a.selected_artist(), Some("Air".to_string()));
    assert!(a.queue.is_empty());
    a.set_clock(1200, 0);
    handle_click(&mut a, 5, 4); // double click plays the artist
    assert_eq!(a.queue.len(), 2);
    assert_eq!(a.now, Some(0));
    a.set_clock(1300, 0);
    handle_click(&mut a, 5, 4); // a third click is not another double
    assert_eq!(a.take_effects().len(), 1);
    handle_click(&mut a, 15, 0);
    assert_eq!(a.tab, Tab::Playlists);
    handle_click(&mut a, 5, 0);
    assert_eq!(a.tab, Tab::Browser);
    handle_click(&mut a, 75, 0);
    assert!(a.show_help);
    handle_click(&mut a, 75, 0); // the click only closes the overlay
    assert!(!a.show_help);
    handle_click(&mut a, 1, 23); // shuffle button
    assert!(a.shuffle);
    assert_eq!(a.focus, Focus::Transport);
    assert_eq!(a.transport_sel, 0);
}

#[test]
fn drags_grab_and_release() {
    let mut a = app();
    a.rects = layout();
    handle_mouse(&mut a, mouse(MouseKind::LeftDown, 20, 5));
    assert_eq!(a.dragging, Some(Drag::ColDivider(0)));
    handle_mouse(&mut a, mouse(MouseKind::LeftDrag, 30, 5));
    handle_mouse(&mut a, mouse(MouseKind::LeftUp, 30, 5));
    assert_eq!(a.dragging, None);
    let e = a.take_effects();
    assert!(matches!(
        e.as_slice(),
        [Effect::DragDividerAt(0, 20), Effect::DragDividerAt(0, 30), Effect::SaveConfig]
    ));
    handle_mouse(&mut a, mouse(MouseKind::LeftDown, 30, 23));
    assert_eq!(a.dragging, Some(Drag::Seek));
    assert_eq!(a.focus, Focus::Seekbar);
    handle_drag(&mut a, 35, 0);
    handle_mouse(&mut a, mouse(MouseKind::LeftUp, 35, 23));
    let e = a.take_effects();
    assert!(matches!(
        e.as_slice(),
        [Effect::SeekDragAt(30), Effect::SeekDragAt(35), Effect::SeekRelease]
    ));
    handle_mouse(&mut a, mouse(MouseKind::LeftDown, 79, 12));
    assert_eq!(a.dragging, Some(Drag::Volume));
    assert!(matches!(a.take_effects().as_slice(), [Effect::VolumeAt(12)]));
    handle_mouse(&mut a, mouse(MouseKind::LeftDown, 50, 14));
    assert_eq!(a.dragging, Some(Drag::QueueDivider));
    assert_eq!(a.focus, Focus::Queue);
}

#[test]
fn wheel_scrolls_the_column_under_the_pointer() {
    let mut a = app();
    a.rects = layout();
    handle_mouse(&mut a, mouse(MouseKind::ScrollDown, 25, 5));
    assert_eq!(a.focus, Focus::Albums);
    assert_eq!(a.album_state.selected(), Some(1));
    handle_mouse(&mut a, mouse(MouseKind::ScrollUp, 79, 12));
    assert!(matches!(a.take_effects().as_slice(), [Effect::VolumeStep(true)]));
    handle_mouse(&mut a, mouse(MouseKind::Other, 0, 0));
    assert!(a.is_consistent());
}

#[test]
fn remote_commands_act_like_their_keys() {
    let mut a = app();
    a.play_tracks(vec![track("One", "Air", "Moon Safari", 1998, 1), track("Two", "Air", "Moon Safari", 1998, 2)], 0);
    a.take_effects();
    dispatch_cmd(&mut a, Cmd::Next);
    assert_eq!(a.now, Some(1));
    dispatch_cmd(&mut a, Cmd::Previous);
    assert_eq!(a.now, Some(0));
    dispatch_cmd(&mut a, Cmd::Repeat);
    assert_eq!(a.repeat, RepeatMode::All);
    dispatch_cmd(&mut a, Cmd::Shuffle);
    assert!(a.shuffle);
    a.take_effects();
    dispatch_cmd(&mut a, Cmd::PlayPause);
    dispatch_cmd(&mut a, Cmd::VolumeUp);
    dispatch_cmd(&mut a, Cmd::VolumeDown);
    assert!(matches!(
        a.take_effects().as_slice(),
        [Effect::TogglePause, Effect::VolumeStep(true), Effect::VolumeStep(false)]
    ));
}
