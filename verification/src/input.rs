//! Keyboard and mouse input: which operation a key press or a pointer event
//! asks for in the current state, and performing it. Modal: the help
//! overlay, the art overlay, the path editor, playlist naming and the search
//! field each capture input first.
use vstd::prelude::*;

use crate::app::App;
use crate::app_lists::{
    append_queue_to_playlist_done, begin_new_playlist_done, cancel_new_playlist_done,
    commit_new_playlist_done, delete_playlist_done, pl_activate_done, pl_move_done,
    pl_name_backspace_done, pl_name_input_done, pl_set_pane_done, remove_pl_track_done,
};
use crate::app_nav::{
    activate_done, add_to_queue_done, cycle_focus_done, move_selection_done, on_down_done,
    on_left_done, on_right_done, on_up_done, resize_focused_done, set_focus_done,
};
use crate::app_play::{
    clear_queue_done, cycle_repeat_done, next_track_done, prev_track_done,
    remove_from_queue_done, seek_relative_done, toggle_pause_done, toggle_shuffle_done,
    volume_down_done, volume_up_done,
};
use crate::app_search::{
    clear_search_done, search_backspace_done, search_delete_forward_done, search_end_done,
    search_home_done, search_input_done, search_kill_to_end_done, search_kill_to_start_done,
    search_kill_word_back_done, search_kill_word_forward_done, search_move_done,
    search_move_word_done, search_yank_done,
};
use crate::app_settings::{
    begin_edit_path_done, cancel_edit_path_done, commit_edit_path_done, edit_path_backspace_done,
    edit_path_input_done, open_art_popup_done, start_scan_done, toggle_big_icons_done,
    toggle_cache_all_art_done, toggle_sort_articles_done,
};
use crate::app::views_refreshed;
use crate::ipc::Cmd;
use crate::app_lists::sel_playlist;
use crate::app_nav::{activate_play_done, persist_columns_done, persist_queue_pct_done};
use crate::state::{Drag, Effect, Focus, ListState, PlPane, Rect, Rects, Tab};

verus! {

/// A key, as the terminal reports it.
#[derive(Clone, Copy, Debug, PartialEq, Eq, Structural)]
pub enum KeyCode {
    Char(char),
    Enter,
    Esc,
    Backspace,
    Delete,
    Tab,
    BackTab,
    Left,
    Right,
    Up,
    Down,
    Home,
    End,
    PageUp,
    PageDown,
    /// Any other key.
    Other,
}

/// A key press with the modifiers that matter here.
#[derive(Clone, Copy, Debug, PartialEq, Eq, Structural)]
pub struct Key {
    pub code: KeyCode,
    pub ctrl: bool,
    pub alt: bool,
}

/// The operation a key press asks for.
#[derive(Clone, Copy, Debug, PartialEq, Eq, Structural)]
pub enum KeyAction {
    Nothing,
    Quit,
    DismissHelp,
    CloseArtPopup,
    ShowHelp,
    SetTab(Tab),
    CommitEditPath,
    CancelEditPath,
    EditPathBackspace,
    EditPathInput(char),
    CommitNewPlaylist,
    CancelNewPlaylist,
    PlNameBackspace,
    PlNameInput(char),
    SetFocus(Focus),
    CycleFocus(bool),
    /// Clear the search and move the focus to the artists.
    LeaveSearch,
    ClearSearch,
    SearchHome,
    SearchEnd,
    SearchMove(i32),
    SearchMoveWord(i32),
    SearchDeleteForward,
    SearchKillWordForward,
    SearchKillWordBack,
    SearchKillToStart,
    SearchKillToEnd,
    SearchYank,
    SearchBackspace,
    SearchInput(char),
    OpenArtPopup,
    BeginEditPath,
    StartScan,
    ToggleCacheAllArt,
    ToggleSortArticles,
    ToggleBigIcons,
    /// Lengthen (`true`) or shorten the gapless crossfade.
    AdjustGapless(bool),
    PlMove(i32),
    PlSetPane(PlPane),
    PlActivate,
    BeginNewPlaylist,
    AppendQueueToPlaylist,
    DeletePlaylist,
    RemovePlTrack,
    TogglePause,
    OnUp,
    OnDown,
    MoveSelection(i32),
    OnLeft,
    OnRight,
    Activate,
    RemoveFromQueue,
    AddToQueue,
    ClearQueue,
    NextTrack,
    PrevTrack,
    ToggleShuffle,
    CycleRepeat,
    VolumeUp,
    VolumeDown,
    ResizeFocused(bool),
    SeekRelative(i64),
}

/// Whether the key is the character `c` (whatever the modifiers).
pub open spec fn is_char(k: Key, c: char) -> bool {
    k.code == KeyCode::Char(c)
}

/// Keys while the music directory is being edited.
pub open spec fn path_editor_keymap(k: Key) -> KeyAction {
    match k.code {
        KeyCode::Enter => KeyAction::CommitEditPath,
        KeyCode::Esc => KeyAction::CancelEditPath,
        KeyCode::Backspace => KeyAction::EditPathBackspace,
        KeyCode::Char(c) => KeyAction::EditPathInput(c),
        _ => KeyAction::Nothing,
    }
}

/// Keys while a new playlist is being named.
pub open spec fn naming_keymap(k: Key) -> KeyAction {
    match k.code {
        KeyCode::Enter => KeyAction::CommitNewPlaylist,
        KeyCode::Esc => KeyAction::CancelNewPlaylist,
        KeyCode::Backspace => KeyAction::PlNameBackspace,
        KeyCode::Char(c) => KeyAction::PlNameInput(c),
        _ => KeyAction::Nothing,
    }
}

/// Keys in the search field: leaving it, readline/Emacs motions and kills,
/// and plain characters (a Ctrl or Alt chord is never typed as text).
pub open spec fn search_keymap(k: Key) -> KeyAction {
    let ctrl = k.ctrl;
    let alt = k.alt;
    if k.code == KeyCode::Enter || k.code == KeyCode::Down {
        KeyAction::SetFocus(Focus::Artists)
    } else if k.code == KeyCode::Tab {
        KeyAction::CycleFocus(true)
    } else if k.code == KeyCode::BackTab {
        KeyAction::CycleFocus(false)
    } else if k.code == KeyCode::Esc {
        KeyAction::LeaveSearch
    } else if is_char(k, 'a') && ctrl {
        KeyAction::SearchHome
    } else if is_char(k, 'e') && ctrl {
        KeyAction::SearchEnd
    } else if is_char(k, 'b') && ctrl {
        KeyAction::SearchMove(-1i32)
    } else if is_char(k, 'f') && ctrl {
        KeyAction::SearchMove(1i32)
    } else if is_char(k, 'b') && alt {
        KeyAction::SearchMoveWord(-1i32)
    } else if is_char(k, 'f') && alt {
        KeyAction::SearchMoveWord(1i32)
    } else if k.code == KeyCode::Left && (ctrl || alt) {
        KeyAction::SearchMoveWord(-1i32)
    } else if k.code == KeyCode::Right && (ctrl || alt) {
        KeyAction::SearchMoveWord(1i32)
    } else if k.code == KeyCode::Left {
        KeyAction::SearchMove(-1i32)
    } else if k.code == KeyCode::Right {
        KeyAction::SearchMove(1i32)
    } else if k.code == KeyCode::Home {
        KeyAction::SearchHome
    } else if k.code == KeyCode::End {
        KeyAction::SearchEnd
    } else if is_char(k, 'd') && ctrl {
        KeyAction::SearchDeleteForward
    } else if is_char(k, 'd') && alt {
        KeyAction::SearchKillWordForward
    } else if is_char(k, 'w') && ctrl {
        KeyAction::SearchKillWordBack
    } else if is_char(k, 'u') && ctrl {
        KeyAction::SearchKillToStart
    } else if is_char(k, 'k') && ctrl {
        KeyAction::SearchKillToEnd
    } else if is_char(k, 'y') && ctrl {
        KeyAction::SearchYank
    } else if is_char(k, 'h') && ctrl {
        KeyAction::SearchBackspace
    } else if k.code == KeyCode::Backspace && alt {
        KeyAction::SearchKillWordBack
    } else if k.code == KeyCode::Delete {
        KeyAction::SearchDeleteForward
    } else if k.code == KeyCode::Backspace {
        KeyAction::SearchBackspace
    } else {
        match k.code {
            KeyCode::Char(c) => if !ctrl && !alt {
                KeyAction::SearchInput(c)
            } else {
                KeyAction::Nothing
            },
            _ => KeyAction::Nothing,
        }
    }
}

/// The keys shared by every tab: quit, help and the tab numbers.
pub open spec fn common_keymap(k: Key) -> Option<KeyAction> {
    if is_char(k, 'q') {
        Some(KeyAction::Quit)
    } else if is_char(k, '?') {
        Some(KeyAction::ShowHelp)
    } else if is_char(k, '1') {
        Some(KeyAction::SetTab(Tab::Browser))
    } else if is_char(k, '2') {
        Some(KeyAction::SetTab(Tab::Playlists))
    } else if is_char(k, '3') {
        Some(KeyAction::SetTab(Tab::Settings))
    } else {
        None
    }
}

/// Keys in the Settings tab.
pub open spec fn settings_keymap(k: Key) -> KeyAction {
    if common_keymap(k) is Some {
        common_keymap(k)->0
    } else if is_char(k, 'e') {
        KeyAction::BeginEditPath
    } else if is_char(k, 'r') {
        KeyAction::StartScan
    } else if is_char(k, 'c') {
        KeyAction::ToggleCacheAllArt
    } else if is_char(k, 't') {
        KeyAction::ToggleSortArticles
    } else if is_char(k, 'k') {
        KeyAction::ToggleBigIcons
    } else if is_char(k, '+') || is_char(k, '=') {
        KeyAction::AdjustGapless(true)
    } else if is_char(k, '-') || is_char(k, '_') {
        KeyAction::AdjustGapless(false)
    } else {
        KeyAction::Nothing
    }
}

/// Keys in the Playlists tab.
pub open spec fn playlists_keymap(k: Key) -> KeyAction {
    if common_keymap(k) is Some {
        common_keymap(k)->0
    } else if k.code == KeyCode::Up || is_char(k, 'k') {
        KeyAction::PlMove(-1i32)
    } else if k.code == KeyCode::Down || is_char(k, 'j') {
        KeyAction::PlMove(1i32)
    } else if k.code == KeyCode::Left || is_char(k, 'h') {
        KeyAction::PlSetPane(PlPane::List)
    } else if k.code == KeyCode::Right || is_char(k, 'l') {
        KeyAction::PlSetPane(PlPane::Tracks)
    } else if k.code == KeyCode::Enter {
        KeyAction::PlActivate
    } else if is_char(k, 'n') {
        KeyAction::BeginNewPlaylist
    } else if is_char(k, 'a') {
        KeyAction::AppendQueueToPlaylist
    } else if is_char(k, 'd') {
        KeyAction::DeletePlaylist
    } else if is_char(k, 'x') {
        KeyAction::RemovePlTrack
    } else if is_char(k, ' ') {
        KeyAction::TogglePause
    } else {
        KeyAction::Nothing
    }
}

/// Keys in the browser (arrows and vim keys).
pub open spec fn browser_keymap(focus: Focus, k: Key) -> KeyAction {
    if common_keymap(k) is Some {
        common_keymap(k)->0
    } else if is_char(k, '/') {
        KeyAction::SetFocus(Focus::Search)
    } else if k.code == KeyCode::Esc {
        KeyAction::ClearSearch
    } else if k.code == KeyCode::Tab {
        KeyAction::CycleFocus(true)
    } else if k.code == KeyCode::BackTab {
        KeyAction::CycleFocus(false)
    } else if k.code == KeyCode::Up || is_char(k, 'k') {
        KeyAction::OnUp
    } else if k.code == KeyCode::Down || is_char(k, 'j') {
        KeyAction::OnDown
    } else if k.code == KeyCode::PageUp {
        KeyAction::MoveSelection(-10i32)
    } else if k.code == KeyCode::PageDown {
        KeyAction::MoveSelection(10i32)
    } else if k.code == KeyCode::Left || is_char(k, 'h') {
        KeyAction::OnLeft
    } else if k.code == KeyCode::Right || is_char(k, 'l') {
        KeyAction::OnRight
    } else if k.code == KeyCode::Enter {
        KeyAction::Activate
    } else if is_char(k, 'a') {
        if focus == Focus::Queue {
            KeyAction::RemoveFromQueue
        } else {
            KeyAction::AddToQueue
        }
    } else if is_char(k, 'c') {
        KeyAction::ClearQueue
    } else if is_char(k, ' ') {
        KeyAction::TogglePause
    } else if is_char(k, 'n') {
        KeyAction::NextTrack
    } else if is_char(k, 'p') {
        KeyAction::PrevTrack
    } else if is_char(k, 's') {
        KeyAction::ToggleShuffle
    } else if is_char(k, 'r') {
        KeyAction::CycleRepeat
    } else if is_char(k, '+') || is_char(k, '=') {
        KeyAction::VolumeUp
    } else if is_char(k, '-') || is_char(k, '_') {
        KeyAction::VolumeDown
    } else if is_char(k, ']') && k.alt {
        KeyAction::ResizeFocused(true)
    } else if is_char(k, '[') && k.alt {
        KeyAction::ResizeFocused(false)
    } else if is_char(k, '[') {
        KeyAction::SeekRelative(-5i64)
    } else if is_char(k, ']') {
        KeyAction::SeekRelative(5i64)
    } else {
        KeyAction::Nothing
    }
}

/// The operation a key press asks for in state `a`: Ctrl-C always quits;
/// otherwise the first of the help overlay, the art overlay, the path
/// editor, playlist naming and the search field that is active takes the
/// key; then `i` opens the art overlay; then the tab's keymap decides.
pub open spec fn keymap(a: App, k: Key) -> KeyAction {
    if k.ctrl && is_char(k, 'c') {
        KeyAction::Quit
    } else if a.show_help {
        KeyAction::DismissHelp
    } else if a.show_art_popup {
        KeyAction::CloseArtPopup
    } else if a.editing_path is Some {
        path_editor_keymap(k)
    } else if a.editing_playlist_name is Some {
        naming_keymap(k)
    } else if a.focus == Focus::Search {
        search_keymap(k)
    } else if is_char(k, 'i') {
        KeyAction::OpenArtPopup
    } else if a.tab == Tab::Settings {
        settings_keymap(k)
    } else if a.tab == Tab::Playlists {
        playlists_keymap(k)
    } else {
        browser_keymap(a.focus, k)
    }
}

fn char_is(k: Key, c: char) -> (r: bool)
    ensures
        r == is_char(k, c),
{
    match k.code {
        KeyCode::Char(d) => d == c,
        _ => false,
    }
}

fn path_editor_action(k: Key) -> (r: KeyAction)
    ensures
        r == path_editor_keymap(k),
{
    match k.code {
        KeyCode::Enter => KeyAction::CommitEditPath,
        KeyCode::Esc => KeyAction::CancelEditPath,
        KeyCode::Backspace => KeyAction::EditPathBackspace,
        KeyCode::Char(c) => KeyAction::EditPathInput(c),
        _ => KeyAction::Nothing,
    }
}

fn naming_action(k: Key) -> (r: KeyAction)
    ensures
        r == naming_keymap(k),
{
    match k.code {
        KeyCode::Enter => KeyAction::CommitNewPlaylist,
        KeyCode::Esc => KeyAction::CancelNewPlaylist,
        KeyCode::Backspace => KeyAction::PlNameBackspace,
        KeyCode::Char(c) => KeyAction::PlNameInput(c),
        _ => KeyAction::Nothing,
    }
}

fn search_action(k: Key) -> (r: KeyAction)
    ensures
        r == search_keymap(k),
{
    let ctrl = k.ctrl;
    let alt = k.alt;
    if k.code == KeyCode::Enter || k.code == KeyCode::Down {
        KeyAction::SetFocus(Focus::Artists)
    } else if k.code == KeyCode::Tab {
        KeyAction::CycleFocus(true)
    } else if k.code == KeyCode::BackTab {
        KeyAction::CycleFocus(false)
    } else if k.code == KeyCode::Esc {
        KeyAction::LeaveSearch
    } else if char_is(k, 'a') && ctrl {
        KeyAction::SearchHome
    } else if char_is(k, 'e') && ctrl {
        KeyAction::SearchEnd
    } else if char_is(k, 'b') && ctrl {
        KeyAction::SearchMove(-1i32)
    } else if char_is(k, 'f') && ctrl {
        KeyAction::SearchMove(1i32)
    } else if char_is(k, 'b') && alt {
        KeyAction::SearchMoveWord(-1i32)
    } else if char_is(k, 'f') && alt {
        KeyAction::SearchMoveWord(1i32)
    } else if k.code == KeyCode::Left && (ctrl || alt) {
        KeyAction::SearchMoveWord(-1i32)
    } else if k.code == KeyCode::Right && (ctrl || alt) {
        KeyAction::SearchMoveWord(1i32)
    } else if k.code == KeyCode::Left {
        KeyAction::SearchMove(-1i32)
    } else if k.code == KeyCode::Right {
        KeyAction::SearchMove(1i32)
    } else if k.code == KeyCode::Home {
        KeyAction::SearchHome
    } else if k.code == KeyCode::End {
        KeyAction::SearchEnd
    } else if char_is(k, 'd') && ctrl {
        KeyAction::SearchDeleteForward
    } else if char_is(k, 'd') && alt {
        KeyAction::SearchKillWordForward
    } else if char_is(k, 'w') && ctrl {
        KeyAction::SearchKillWordBack
    } else if char_is(k, 'u') && ctrl {
        KeyAction::SearchKillToStart
    } else if char_is(k, 'k') && ctrl {
        KeyAction::SearchKillToEnd
    } else if char_is(k, 'y') && ctrl {
        KeyAction::SearchYank
    } else if char_is(k, 'h') && ctrl {
        KeyAction::SearchBackspace
    } else if k.code == KeyCode::Backspace && alt {
        KeyAction::SearchKillWordBack
    } else if k.code == KeyCode::Delete {
        KeyAction::SearchDeleteForward
    } else if k.code == KeyCode::Backspace {
        KeyAction::SearchBackspace
    } else {
        match k.code {
            KeyCode::Char(c) => if !ctrl && !alt {
                KeyAction::SearchInput(c)
            } else {
                KeyAction::Nothing
            },
            _ => KeyAction::Nothing,
        }
    }
}

fn common_action(k: Key) -> (r: Option<KeyAction>)
    ensures
        r == common_keymap(k),
{
    if char_is(k, 'q') {
        Some(KeyAction::Quit)
    } else if char_is(k, '?') {
        Some(KeyAction::ShowHelp)
    } else if char_is(k, '1') {
        Some(KeyAction::SetTab(Tab::Browser))
    } else if char_is(k, '2') {
        Some(KeyAction::SetTab(Tab::Playlists))
    } else if char_is(k, '3') {
        Some(KeyAction::SetTab(Tab::Settings))
    } else {
        None
    }
}

fn settings_action(k: Key) -> (r: KeyAction)
    ensures
        r == settings_keymap(k),
{
    if let Some(a) = common_action(k) {
        a
    } else if char_is(k, 'e') {
        KeyAction::BeginEditPath
    } else if char_is(k, 'r') {
        KeyAction::StartScan
    } else if char_is(k, 'c') {
        KeyAction::ToggleCacheAllArt
    } else if char_is(k, 't') {
        KeyAction::ToggleSortArticles
    } else if char_is(k, 'k') {
        KeyAction::ToggleBigIcons
    } else if char_is(k, '+') || char_is(k, '=') {
        KeyAction::AdjustGapless(true)
    } else if char_is(k, '-') || char_is(k, '_') {
        KeyAction::AdjustGapless(false)
    } else {
        KeyAction::Nothing
    }
}

fn playlists_action(k: Key) -> (r: KeyAction)
    ensures
        r == playlists_keymap(k),
{
    if let Some(a) = common_action(k) {
        a
    } else if k.code == KeyCode::Up || char_is(k, 'k') {
        KeyAction::PlMove(-1i32)
    } else if k.code == KeyCode::Down || char_is(k, 'j') {
        KeyAction::PlMove(1i32)
    } else if k.code == KeyCode::Left || char_is(k, 'h') {
        KeyAction::PlSetPane(PlPane::List)
    } else if k.code == KeyCode::Right || char_is(k, 'l') {
        KeyAction::PlSetPane(PlPane::Tracks)
    } else if k.code == KeyCode::Enter {
        KeyAction::PlActivate
    } else if char_is(k, 'n') {
        KeyAction::BeginNewPlaylist
    } else if char_is(k, 'a') {
        KeyAction::AppendQueueToPlaylist
    } else if char_is(k, 'd') {
        KeyAction::DeletePlaylist
    } else if char_is(k, 'x') {
        KeyAction::RemovePlTrack
    } else if char_is(k, ' ') {
        KeyAction::TogglePause
    } else {
        KeyAction::Nothing
    }
}

fn browser_action(focus: Focus, k: Key) -> (r: KeyAction)
    ensures
        r == browser_keymap(focus, k),
{
    if let Some(a) = common_action(k) {
        a
    } else if char_is(k, '/') {
        KeyAction::SetFocus(Focus::Search)
    } else if k.code == KeyCode::Esc {
        KeyAction::ClearSearch
    } else if k.code == KeyCode::Tab {
        KeyAction::CycleFocus(true)
    } else if k.code == KeyCode::BackTab {
        KeyAction::CycleFocus(false)
    } else if k.code == KeyCode::Up || char_is(k, 'k') {
        KeyAction::OnUp
    } else if k.code == KeyCode::Down || char_is(k, 'j') {
        KeyAction::OnDown
    } else if k.code == KeyCode::PageUp {
        KeyAction::MoveSelection(-10i32)
    } else if k.code == KeyCode::PageDown {
        KeyAction::MoveSelection(10i32)
    } else if k.code == KeyCode::Left || char_is(k, 'h') {
        KeyAction::OnLeft
    } else if k.code == KeyCode::Right || char_is(k, 'l') {
        KeyAction::OnRight
    } else if k.code == KeyCode::Enter {
        KeyAction::Activate
    } else if char_is(k, 'a') {
        if focus == Focus::Queue {
            KeyAction::RemoveFromQueue
        } else {
            KeyAction::AddToQueue
        }
    } else if char_is(k, 'c') {
        KeyAction::ClearQueue
    } else if char_is(k, ' ') {
        KeyAction::TogglePause
    } else if char_is(k, 'n') {
        KeyAction::NextTrack
    } else if char_is(k, 'p') {
        KeyAction::PrevTrack
    } else if char_is(k, 's') {
        KeyAction::ToggleShuffle
    } else if char_is(k, 'r') {
        KeyAction::CycleRepeat
    } else if char_is(k, '+') || char_is(k, '=') {
        KeyAction::VolumeUp
    } else if char_is(k, '-') || char_is(k, '_') {
        KeyAction::VolumeDown
    } else if char_is(k, ']') && k.alt {
        KeyAction::ResizeFocused(true)
    } else if char_is(k, '[') && k.alt {
        KeyAction::ResizeFocused(false)
    } else if char_is(k, '[') {
        KeyAction::SeekRelative(-5i64)
    } else if char_is(k, ']') {
        KeyAction::SeekRelative(5i64)
    } else {
        KeyAction::Nothing
    }
}

/// The operation a key press asks for in the current state (see [`keymap`]).
pub fn key_action(app: &App, key: Key) -> (r: KeyAction)
    ensures
        r == keymap(*app, key),
{
    if key.ctrl && char_is(key, 'c') {
        KeyAction::Quit
    } else if app.show_help {
        KeyAction::DismissHelp
    } else if app.show_art_popup {
        KeyAction::CloseArtPopup
    } else if app.editing_path.is_some() {
        path_editor_action(key)
    } else if app.editing_playlist_name.is_some() {
        naming_action(key)
    } else if app.focus == Focus::Search {
        search_action(key)
    } else if char_is(key, 'i') {
        KeyAction::OpenArtPopup
    } else if app.tab == Tab::Settings {
        settings_action(key)
    } else if app.tab == Tab::Playlists {
        playlists_action(key)
    } else {
        browser_action(app.focus, key)
    }
}

/// `post` is `pre` after the operation `a`, as the method that performs it
/// states.
pub open spec fn performed(pre: App, a: KeyAction, post: App) -> bool {
    match a {
        KeyAction::Nothing => post == pre,
        KeyAction::Quit => post == (App { should_quit: true, ..pre }),
        KeyAction::DismissHelp => post == (App { show_help: false, ..pre }),
        KeyAction::CloseArtPopup => post == (App { show_art_popup: false, ..pre }),
        KeyAction::ShowHelp => post == (App { show_help: true, ..pre }),
        KeyAction::SetTab(t) => post == (App { tab: t, ..pre }),
        KeyAction::CommitEditPath => commit_edit_path_done(pre, post),
        KeyAction::CancelEditPath => cancel_edit_path_done(pre, post),
        KeyAction::EditPathBackspace => edit_path_backspace_done(pre, post),
        KeyAction::EditPathInput(c) => edit_path_input_done(pre, post, c),
        KeyAction::CommitNewPlaylist => commit_new_playlist_done(pre, post),
        KeyAction::CancelNewPlaylist => cancel_new_playlist_done(pre, post),
        KeyAction::PlNameBackspace => pl_name_backspace_done(pre, post),
        KeyAction::PlNameInput(c) => pl_name_input_done(pre, post, c),
        KeyAction::SetFocus(f) => set_focus_done(pre, post, f),
        KeyAction::CycleFocus(forward) => cycle_focus_done(pre, post, forward),
        KeyAction::LeaveSearch => exists|mid: App|
            #[trigger] clear_search_done(pre, mid) && set_focus_done(mid, post, Focus::Artists),
        KeyAction::ClearSearch => clear_search_done(pre, post),
        KeyAction::SearchHome => search_home_done(pre, post),
        KeyAction::SearchEnd => search_end_done(pre, post),
        KeyAction::SearchMove(d) => search_move_done(pre, post, d),
        KeyAction::SearchMoveWord(d) => search_move_word_done(pre, post, d),
        KeyAction::SearchDeleteForward => search_delete_forward_done(pre, post),
        KeyAction::SearchKillWordForward => search_kill_word_forward_done(pre, post),
        KeyAction::SearchKillWordBack => search_kill_word_back_done(pre, post),
        KeyAction::SearchKillToStart => search_kill_to_start_done(pre, post),
        KeyAction::SearchKillToEnd => search_kill_to_end_done(pre, post),
        KeyAction::SearchYank => search_yank_done(pre, post),
        KeyAction::SearchBackspace => search_backspace_done(pre, post),
        KeyAction::SearchInput(c) => search_input_done(pre, post, c),
        KeyAction::OpenArtPopup => open_art_popup_done(pre, post),
        KeyAction::BeginEditPath => begin_edit_path_done(pre, post),
        KeyAction::StartScan => start_scan_done(pre, post),
        KeyAction::ToggleCacheAllArt => toggle_cache_all_art_done(pre, post),
        KeyAction::ToggleSortArticles => toggle_sort_articles_done(pre, post),
        KeyAction::ToggleBigIcons => toggle_big_icons_done(pre, post),
        KeyAction::AdjustGapless(longer) => post.effects@ == pre.effects@.push(
            Effect::AdjustGapless(longer),
        ) && post == (App { effects: post.effects, ..pre }),
        KeyAction::PlMove(d) => pl_move_done(pre, post, d),
        KeyAction::PlSetPane(p) => pl_set_pane_done(pre, post, p),
        KeyAction::PlActivate => pl_activate_done(pre, post),
        KeyAction::BeginNewPlaylist => begin_new_playlist_done(pre, post),
        KeyAction::AppendQueueToPlaylist => append_queue_to_playlist_done(pre, post),
        KeyAction::DeletePlaylist => delete_playlist_done(pre, post),
        KeyAction::RemovePlTrack => remove_pl_track_done(pre, post),
        KeyAction::TogglePause => toggle_pause_done(pre, post),
        KeyAction::OnUp => on_up_done(pre, post),
        KeyAction::OnDown => on_down_done(pre, post),
        KeyAction::MoveSelection(d) => move_selection_done(pre, post, d),
        KeyAction::OnLeft => on_left_done(pre, post),
        KeyAction::OnRight => on_right_done(pre, post),
        KeyAction::Activate => activate_done(pre, post),
        KeyAction::RemoveFromQueue => remove_from_queue_done(pre, post),
        KeyAction::AddToQueue => add_to_queue_done(pre, post),
        KeyAction::ClearQueue => clear_queue_done(pre, post),
        KeyAction::NextTrack => next_track_done(pre, post, true),
        KeyAction::PrevTrack => prev_track_done(pre, post),
        KeyAction::ToggleShuffle => toggle_shuffle_done(pre, post),
        KeyAction::CycleRepeat => cycle_repeat_done(pre, post),
        KeyAction::VolumeUp => volume_up_done(pre, post),
        KeyAction::VolumeDown => volume_down_done(pre, post),
        KeyAction::ResizeFocused(wider) => resize_focused_done(pre, post, wider),
        KeyAction::SeekRelative(s) => seek_relative_done(pre, post, s),
    }
}

impl App {
    /// Performs a key operation (see [`performed`]).
    pub fn perform(&mut self, a: KeyAction)
        requires
            old(self).inv(),
        ensures
            performed(*old(self), a, *final(self)),
            final(self).inv(),
    {
        match a {
            KeyAction::Nothing
            | KeyAction::Quit
            | KeyAction::DismissHelp
            | KeyAction::CloseArtPopup
            | KeyAction::ShowHelp
            | KeyAction::SetTab(..)
            | KeyAction::CommitEditPath
            | KeyAction::CancelEditPath
            | KeyAction::EditPathBackspace
            | KeyAction::EditPathInput(..)
            | KeyAction::CommitNewPlaylist
            | KeyAction::CancelNewPlaylist
            | KeyAction::PlNameBackspace
            | KeyAction::PlNameInput(..)
            => self.perform_modal(a),
            KeyAction::SetFocus(..)
            | KeyAction::CycleFocus(..)
            | KeyAction::LeaveSearch
            | KeyAction::ClearSearch
            | KeyAction::SearchHome
            | KeyAction::SearchEnd
            | KeyAction::SearchMove(..)
            | KeyAction::SearchMoveWord(..)
            | KeyAction::SearchDeleteForward
            | KeyAction::SearchKillWordForward
            | KeyAction::SearchKillWordBack
            | KeyAction::SearchKillToStart
            | KeyAction::SearchKillToEnd
            | KeyAction::SearchYank
            | KeyAction::SearchBackspace
            | KeyAction::SearchInput(..)
            => self.perform_search(a),
            KeyAction::OpenArtPopup
            | KeyAction::BeginEditPath
            | KeyAction::StartScan
            | KeyAction::ToggleCacheAllArt
            | KeyAction::ToggleSortArticles
            | KeyAction::ToggleBigIcons
            | KeyAction::AdjustGapless(..)
            | KeyAction::PlMove(..)
            | KeyAction::PlSetPane(..)
            | KeyAction::PlActivate
            | KeyAction::BeginNewPlaylist
            | KeyAction::AppendQueueToPlaylist
            | KeyAction::DeletePlaylist
            | KeyAction::RemovePlTrack
            => self.perform_settings(a),
            KeyAction::TogglePause
            | KeyAction::OnUp
            | KeyAction::OnDown
            | KeyAction::MoveSelection(..)
            | KeyAction::OnLeft
            | KeyAction::OnRight
            | KeyAction::Activate
            | KeyAction::RemoveFromQueue
            | KeyAction::AddToQueue
            | KeyAction::ClearQueue
            | KeyAction::NextTrack
            | KeyAction::PrevTrack
            | KeyAction::ToggleShuffle
            | KeyAction::CycleRepeat
            | KeyAction::VolumeUp
            | KeyAction::VolumeDown
            | KeyAction::ResizeFocused(..)
            | KeyAction::SeekRelative(..)
            => self.perform_browser(a),
        }
    }

    /// Performs an overlay, editor or tab operation.
    fn perform_modal(&mut self, a: KeyAction)
        requires
            old(self).inv(),
            a is Nothing
                || a is Quit
                || a is DismissHelp
                || a is CloseArtPopup
                || a is ShowHelp
                || a is SetTab
                || a is CommitEditPath
                || a is CancelEditPath
                || a is EditPathBackspace
                || a is EditPathInput
                || a is CommitNewPlaylist
                || a is CancelNewPlaylist
                || a is PlNameBackspace
                || a is PlNameInput,
        ensures
            performed(*old(self), a, *final(self)),
            final(self).inv(),
    {
        match a {
                KeyAction::Nothing => {},
                KeyAction::Quit => self.should_quit = true,
                KeyAction::DismissHelp => self.show_help = false,
                KeyAction::CloseArtPopup => self.show_art_popup = false,
                KeyAction::ShowHelp => self.show_help = true,
                KeyAction::SetTab(t) => self.tab = t,
                KeyAction::CommitEditPath => self.commit_edit_path(),
                KeyAction::CancelEditPath => self.cancel_edit_path(),
                KeyAction::EditPathBackspace => self.edit_path_backspace(),
                KeyAction::EditPathInput(c) => self.edit_path_input(c),
                KeyAction::CommitNewPlaylist => self.commit_new_playlist(),
                KeyAction::CancelNewPlaylist => self.cancel_new_playlist(),
                KeyAction::PlNameBackspace => self.pl_name_backspace(),
                KeyAction::PlNameInput(c) => self.pl_name_input(c),
            _ => {},
        }
    }

    /// Performs a focus or search-field operation.
    fn perform_search(&mut self, a: KeyAction)
        requires
            old(self).inv(),
            a is SetFocus
                || a is CycleFocus
                || a is LeaveSearch
                || a is ClearSearch
                || a is SearchHome
                || a is SearchEnd
                || a is SearchMove
                || a is SearchMoveWord
                || a is SearchDeleteForward
                || a is SearchKillWordForward
                || a is SearchKillWordBack
                || a is SearchKillToStart
                || a is SearchKillToEnd
                || a is SearchYank
                || a is SearchBackspace
                || a is SearchInput,
        ensures
            performed(*old(self), a, *final(self)),
            final(self).inv(),
    {
        match a {
                KeyAction::SetFocus(f) => self.set_focus(f),
                KeyAction::CycleFocus(forward) => self.cycle_focus(forward),
                KeyAction::LeaveSearch => {
                    self.clear_search();
                    let ghost mid = *self;
                    self.set_focus(Focus::Artists);
                    assert(clear_search_done(*old(self), mid));
                },
                KeyAction::ClearSearch => self.clear_search(),
                KeyAction::SearchHome => self.search_home(),
                KeyAction::SearchEnd => self.search_end(),
                KeyAction::SearchMove(d) => self.search_move(d),
                KeyAction::SearchMoveWord(d) => self.search_move_word(d),
                KeyAction::SearchDeleteForward => self.search_delete_forward(),
                KeyAction::SearchKillWordForward => self.search_kill_word_forward(),
                KeyAction::SearchKillWordBack => self.search_kill_word_back(),
                KeyAction::SearchKillToStart => self.search_kill_to_start(),
                KeyAction::SearchKillToEnd => self.search_kill_to_end(),
                KeyAction::SearchYank => self.search_yank(),
                KeyAction::SearchBackspace => self.search_backspace(),
                KeyAction::SearchInput(c) => self.search_input(c),
            _ => {},
        }
    }

    /// Performs a Settings or Playlists operation.
    fn perform_settings(&mut self, a: KeyAction)
        requires
            old(self).inv(),
            a is OpenArtPopup
                || a is BeginEditPath
                || a is StartScan
                || a is ToggleCacheAllArt
                || a is ToggleSortArticles
                || a is ToggleBigIcons
                || a is AdjustGapless
                || a is PlMove
                || a is PlSetPane
                || a is PlActivate
                || a is BeginNewPlaylist
                || a is AppendQueueToPlaylist
                || a is DeletePlaylist
                || a is RemovePlTrack,
        ensures
            performed(*old(self), a, *final(self)),
            final(self).inv(),
    {
        match a {
                KeyAction::OpenArtPopup => self.open_art_popup(),
                KeyAction::BeginEditPath => self.begin_edit_path(),
                KeyAction::StartScan => self.start_scan(),
                KeyAction::ToggleCacheAllArt => self.toggle_cache_all_art(),
                KeyAction::ToggleSortArticles => self.toggle_sort_articles(),
                KeyAction::ToggleBigIcons => self.toggle_big_icons(),
                KeyAction::AdjustGapless(longer) => self.effects.push(Effect::AdjustGapless(longer)),
                KeyAction::PlMove(d) => self.pl_move(d),
                KeyAction::PlSetPane(p) => self.pl_set_pane(p),
                KeyAction::PlActivate => self.pl_activate(),
                KeyAction::BeginNewPlaylist => self.begin_new_playlist(),
                KeyAction::AppendQueueToPlaylist => self.append_queue_to_playlist(),
                KeyAction::DeletePlaylist => self.delete_playlist(),
                KeyAction::RemovePlTrack => self.remove_pl_track(),
            _ => {},
        }
    }

    /// Performs a browser or playback operation.
    fn perform_browser(&mut self, a: KeyAction)
        requires
            old(self).inv(),
            a is TogglePause
                || a is OnUp
                || a is OnDown
                || a is MoveSelection
                || a is OnLeft
                || a is OnRight
                || a is Activate
                || a is RemoveFromQueue
                || a is AddToQueue
                || a is ClearQueue
                || a is NextTrack
                || a is PrevTrack
                || a is ToggleShuffle
                || a is CycleRepeat
                || a is VolumeUp
                || a is VolumeDown
                || a is ResizeFocused
                || a is SeekRelative,
        ensures
            performed(*old(self), a, *final(self)),
            final(self).inv(),
    {
        match a {
                KeyAction::TogglePause => self.toggle_pause(),
                KeyAction::OnUp => self.on_up(),
                KeyAction::OnDown => self.on_down(),
                KeyAction::MoveSelection(d) => self.move_selection(d),
                KeyAction::OnLeft => self.on_left(),
                KeyAction::OnRight => self.on_right(),
                KeyAction::Activate => self.activate(),
                KeyAction::RemoveFromQueue => self.remove_from_queue(),
                KeyAction::AddToQueue => self.add_to_queue(),
                KeyAction::ClearQueue => self.clear_queue(),
                KeyAction::NextTrack => self.next_track(true),
                KeyAction::PrevTrack => self.prev_track(),
                KeyAction::ToggleShuffle => self.toggle_shuffle(),
                KeyAction::CycleRepeat => self.cycle_repeat(),
                KeyAction::VolumeUp => self.volume_up(),
                KeyAction::VolumeDown => self.volume_down(),
                KeyAction::ResizeFocused(wider) => self.resize_focused(wider),
                KeyAction::SeekRelative(s) => self.seek_relative(s),
            _ => {},
        }
    }
}

/// Applies a key press: the operation [`keymap`] chooses for the current
/// state is performed.
pub fn handle_key(app: &mut App, key: Key)
    requires
        old(app).inv(),
    ensures
        performed(*old(app), keymap(*old(app), key), *final(app)),
        final(app).inv(),
{
    let a = key_action(app, key);
    app.perform(a);
}

/// A pointer event, as the terminal reports it.
#[derive(Clone, Copy, Debug, PartialEq, Eq, Structural)]
pub enum MouseKind {
    ScrollDown,
    ScrollUp,
    /// The left button went down.
    LeftDown,
    /// The pointer moved with the left button held.
    LeftDrag,
    /// The left button came up.
    LeftUp,
    /// Any other pointer event.
    Other,
}

/// A pointer event at a cell.
#[derive(Clone, Copy, Debug, PartialEq, Eq, Structural)]
pub struct Mouse {
    pub kind: MouseKind,
    pub column: u16,
    pub row: u16,
}

/// Whether the cell `(x, y)` lies in `rect`.
pub fn hit(rect: Rect, x: u16, y: u16) -> (r: bool)
    ensures
        r == rect.spec_contains(x, y),
{
    rect.contains(x, y)
}

/// The list item at row `y` of a list drawn in `rect`, scrolled by `offset`,
/// with rows `row_h` lines high, when that row holds one of the `len` items.
pub open spec fn row_at(rect: Rect, offset: usize, y: u16, len: nat, row_h: u16) -> Option<int> {
    if len == 0 || y < rect.y || row_h == 0 {
        None
    } else {
        let idx = offset + (y - rect.y) / (row_h as int);
        if idx < len {
            Some(idx)
        } else {
            None
        }
    }
}

/// Maps a click at row `y` inside a list to an item index (see [`row_at`]).
pub fn row_index(rect: Rect, state: &ListState, y: u16, len: usize, row_h: u16) -> (r: Option<usize>)
    ensures
        match r {
            Some(i) => row_at(rect, state.offset, y, len as nat, row_h) == Some(i as int),
            None => row_at(rect, state.offset, y, len as nat, row_h) is None,
        },
{
    if len == 0 || y < rect.y || row_h == 0 {
        return None;
    }
    let step: usize = ((y - rect.y) / row_h) as usize;
    let offset = state.offset();
    if step >= len || offset >= len - step {
        return None;
    }
    Some(offset + step)
}

/// Whether the pointer is on the tracks/queue divider (or the row above it)
/// within the third column.
pub open spec fn near_queue_div(r: Rects, x: u16, y: u16) -> bool {
    let c = r.col3;
    &&& c.width > 0
    &&& x >= c.x
    &&& x < c.x + c.width
    &&& (y == r.queue_div || (r.queue_div > 0 && y == r.queue_div - 1))
}

/// True if the pointer is on the tracks/queue divider within the third column.
pub fn near_queue_divider(r: &Rects, x: u16, y: u16) -> (b: bool)
    ensures
        b == near_queue_div(*r, x, y),
{
    let c = r.col3;
    c.width > 0 && x >= c.x && (x as u32) < c.x as u32 + c.width as u32 && (y == r.queue_div || (
    r.queue_div > 0 && y == r.queue_div - 1))
}

/// Whether `x` is on, or one cell left of, the divider at column `dx`.
pub open spec fn on_line(x: u16, dx: u16) -> bool {
    x == dx || (dx > 0 && x == dx - 1)
}

/// The column divider under the pointer, within the body's rows: the first
/// of the two that `x` is on or just left of.
pub open spec fn near_div(r: Rects, x: u16, y: u16) -> Option<usize> {
    if r.body.height == 0 || y < r.body.y || y >= r.body.y + r.body.height {
        None
    } else if on_line(x, r.col_div0) {
        Some(0)
    } else if on_line(x, r.col_div1) {
        Some(1)
    } else {
        None
    }
}

/// The column divider under the pointer (see [`near_div`]).
pub fn near_divider(r: &Rects, x: u16, y: u16) -> (d: Option<usize>)
    ensures
        d == near_div(*r, x, y),
{
    if r.body.height == 0 || y < r.body.y || y as u32 >= r.body.y as u32 + r.body.height as u32 {
        return None;
    }
    let dx = r.col_div0;
    if x == dx || (dx > 0 && x == dx - 1) {
        return Some(0);
    }
    let dx = r.col_div1;
    if x == dx || (dx > 0 && x == dx - 1) {
        return Some(1);
    }
    None
}

/// The browser column under the pointer.
pub open spec fn pointer_focus(r: Rects, x: u16, y: u16) -> Option<Focus> {
    if r.artists.spec_contains(x, y) {
        Some(Focus::Artists)
    } else if r.albums.spec_contains(x, y) {
        Some(Focus::Albums)
    } else if r.tracks.spec_contains(x, y) {
        Some(Focus::Tracks)
    } else if r.queue.spec_contains(x, y) {
        Some(Focus::Queue)
    } else {
        None
    }
}

/// The browser column under the pointer, if any (the focus is not changed).
pub fn focus_at(app: &App, x: u16, y: u16) -> (f: Option<Focus>)
    ensures
        f == pointer_focus(app.rects, x, y),
{
    let r = &app.rects;
    if hit(r.artists, x, y) {
        Some(Focus::Artists)
    } else if hit(r.albums, x, y) {
        Some(Focus::Albums)
    } else if hit(r.tracks, x, y) {
        Some(Focus::Tracks)
    } else if hit(r.queue, x, y) {
        Some(Focus::Queue)
    } else {
        None
    }
}

/// `post` is `pre` with one more outside request, `e`.
pub open spec fn pushed(pre: App, post: App, e: Effect) -> bool {
    &&& post.effects@ == pre.effects@.push(e)
    &&& post == (App { effects: post.effects, ..pre })
}

/// A wheel step: over the volume slider it changes the volume; elsewhere
/// the column under the pointer (if any) takes the focus and its highlight
/// moves one row.
pub open spec fn scrolled(pre: App, post: App, x: u16, y: u16, down: bool) -> bool {
    if pre.rects.volume.spec_contains(x, y) {
        if down {
            volume_down_done(pre, post)
        } else {
            volume_up_done(pre, post)
        }
    } else {
        let mid = match pointer_focus(pre.rects, x, y) {
            Some(f) => App { focus: f, ..pre },
            None => pre,
        };
        move_selection_done(
            mid,
            post,
            if down {
                1i32
            } else {
                -1i32
            },
        )
    }
}

/// Moving with the left button held continues what the press grabbed.
pub open spec fn dragged(pre: App, post: App, x: u16, y: u16) -> bool {
    match pre.dragging {
        Some(Drag::Seek) => pushed(pre, post, Effect::SeekDragAt(x)),
        Some(Drag::Volume) => pushed(pre, post, Effect::VolumeAt(y)),
        Some(Drag::ColDivider(i)) => pushed(pre, post, Effect::DragDividerAt(i, x)),
        Some(Drag::QueueDivider) => pushed(pre, post, Effect::DragQueueDividerAt(y)),
        None => post == pre,
    }
}

/// Releasing the left button ends the grab: a seek drag applies its
/// position, a divider drag saves the layout.
pub open spec fn released(pre: App, post: App) -> bool {
    exists|mid: App|
        #[trigger] release_step(pre, mid) && post == (App { dragging: None, ..mid })
}

/// The work done on release before the grab is forgotten.
pub open spec fn release_step(pre: App, mid: App) -> bool {
    match pre.dragging {
        Some(Drag::Seek) => pushed(pre, mid, Effect::SeekRelease),
        Some(Drag::ColDivider(_)) => persist_columns_done(pre, mid),
        Some(Drag::QueueDivider) => persist_queue_pct_done(pre, mid),
        _ => mid == pre,
    }
}

/// What a left click lands on, in the order the regions are tested.
#[derive(Clone, Copy, Debug, PartialEq, Eq, Structural)]
pub enum ClickTarget {
    TabBrowser,
    TabPlaylists,
    TabSettings,
    HelpHint,
    /// Transport button `i`: shuffle, previous, play/pause, next, repeat.
    Transport(usize),
    Volume,
    Seekbar,
    Art,
    PlList,
    PlTracks,
    QueueDivider,
    ColDivider(usize),
    Search,
    Artists,
    Albums,
    Tracks,
    Queue,
    Nothing,
}

/// The region a left click at `(x, y)` lands on.
pub open spec fn click_target(r: Rects, tab: Tab, x: u16, y: u16) -> ClickTarget {
    if r.tab_browser.spec_contains(x, y) {
        ClickTarget::TabBrowser
    } else if r.tab_playlists.spec_contains(x, y) {
        ClickTarget::TabPlaylists
    } else if r.tab_settings.spec_contains(x, y) {
        ClickTarget::TabSettings
    } else if r.help_hint.spec_contains(x, y) {
        ClickTarget::HelpHint
    } else if r.btn_shuffle.spec_contains(x, y) {
        ClickTarget::Transport(0)
    } else if r.btn_prev.spec_contains(x, y) {
        ClickTarget::Transport(1)
    } else if r.btn_play.spec_contains(x, y) {
        ClickTarget::Transport(2)
    } else if r.btn_next.spec_contains(x, y) {
        ClickTarget::Transport(3)
    } else if r.btn_repeat.spec_contains(x, y) {
        ClickTarget::Transport(4)
    } else if r.volume.spec_contains(x, y) && r.volume.height > 0 {
        ClickTarget::Volume
    } else if r.seekbar.spec_contains(x, y) && r.seekbar.width > 0 {
        ClickTarget::Seekbar
    } else if r.art.spec_contains(x, y) {
        ClickTarget::Art
    } else if tab == Tab::Settings {
        ClickTarget::Nothing
    } else if tab == Tab::Playlists {
        if r.pl_list.spec_contains(x, y) {
            ClickTarget::PlList
        } else if r.pl_tracks.spec_contains(x, y) {
            ClickTarget::PlTracks
        } else {
            ClickTarget::Nothing
        }
    } else if near_queue_div(r, x, y) {
        ClickTarget::QueueDivider
    } else if near_div(r, x, y) is Some {
        ClickTarget::ColDivider(near_div(r, x, y)->0)
    } else if r.search.spec_contains(x, y) {
        ClickTarget::Search
    } else if r.artists.spec_contains(x, y) {
        ClickTarget::Artists
    } else if r.albums.spec_contains(x, y) {
        ClickTarget::Albums
    } else if r.tracks.spec_contains(x, y) {
        ClickTarget::Tracks
    } else if r.queue.spec_contains(x, y) {
        ClickTarget::Queue
    } else {
        ClickTarget::Nothing
    }
}

/// The region a left click lands on (see [`click_target`]).
pub fn click_target_at(r: &Rects, tab: Tab, x: u16, y: u16) -> (t: ClickTarget)
    ensures
        t == click_target(*r, tab, x, y),
{
    if hit(r.tab_browser, x, y) {
        ClickTarget::TabBrowser
    } else if hit(r.tab_playlists, x, y) {
        ClickTarget::TabPlaylists
    } else if hit(r.tab_settings, x, y) {
        ClickTarget::TabSettings
    } else if hit(r.help_hint, x, y) {
        ClickTarget::HelpHint
    } else if hit(r.btn_shuffle, x, y) {
        ClickTarget::Transport(0)
    } else if hit(r.btn_prev, x, y) {
        ClickTarget::Transport(1)
    } else if hit(r.btn_play, x, y) {
        ClickTarget::Transport(2)
    } else if hit(r.btn_next, x, y) {
        ClickTarget::Transport(3)
    } else if hit(r.btn_repeat, x, y) {
        ClickTarget::Transport(4)
    } else if hit(r.volume, x, y) && r.volume.height > 0 {
        ClickTarget::Volume
    } else if hit(r.seekbar, x, y) && r.seekbar.width > 0 {
        ClickTarget::Seekbar
    } else if hit(r.art, x, y) {
        ClickTarget::Art
    } else if tab == Tab::Settings {
        ClickTarget::Nothing
    } else if tab == Tab::Playlists {
        if hit(r.pl_list, x, y) {
            ClickTarget::PlList
        } else if hit(r.pl_tracks, x, y) {
            ClickTarget::PlTracks
        } else {
            ClickTarget::Nothing
        }
    } else if near_queue_divider(r, x, y) {
        ClickTarget::QueueDivider
    } else if let Some(i) = near_divider(r, x, y) {
        ClickTarget::ColDivider(i)
    } else if hit(r.search, x, y) {
        ClickTarget::Search
    } else if hit(r.artists, x, y) {
        ClickTarget::Artists
    } else if hit(r.albums, x, y) {
        ClickTarget::Albums
    } else if hit(r.tracks, x, y) {
        ClickTarget::Tracks
    } else if hit(r.queue, x, y) {
        ClickTarget::Queue
    } else {
        ClickTarget::Nothing
    }
}

/// A double click then plays what is under the focus.
pub open spec fn then_double(pre: App, double: bool, post: App) -> bool {
    if double {
        activate_play_done(pre, post)
    } else {
        post == pre
    }
}

/// The column under a click takes the focus and the clicked row, when it
/// holds an item, is selected (re-deriving the columns to the right of the
/// artist and album columns).
pub open spec fn column_picked(m: App, t: ClickTarget, y: u16, m2: App) -> bool {
    match t {
        ClickTarget::Artists => {
            let m1 = App { focus: Focus::Artists, ..m };
            match row_at(m.rects.artists, m.artist_state.offset, y, m.view_artists.len() as nat, 1) {
                Some(i) => views_refreshed(
                    App { artist_state: m1.artist_state.spec_select(Some(i as usize)), ..m1 },
                    m2,
                ),
                None => m2 == m1,
            }
        },
        ClickTarget::Albums => {
            let m1 = App { focus: Focus::Albums, ..m };
            match row_at(m.rects.albums, m.album_state.offset, y, m.view_albums.len() as nat, 1) {
                Some(i) => views_refreshed(
                    App { album_state: m1.album_state.spec_select(Some(i as usize)), ..m1 },
                    m2,
                ),
                None => m2 == m1,
            }
        },
        ClickTarget::Tracks => {
            let m1 = App { focus: Focus::Tracks, ..m };
            match row_at(m.rects.tracks, m.track_state.offset, y, m.view_tracks.len() as nat, 1) {
                Some(i) => m2 == (App {
                    track_state: m1.track_state.spec_select(Some(i as usize)),
                    ..m1
                }),
                None => m2 == m1,
            }
        },
        ClickTarget::Queue => {
            let m1 = App { focus: Focus::Queue, ..m };
            match row_at(m.rects.queue, m.queue_state.offset, y, m.queue.len() as nat, 1) {
                Some(i) => m2 == (App {
                    queue_state: m1.queue_state.spec_select(Some(i as usize)),
                    ..m1
                }),
                None => m2 == m1,
            }
        },
        _ => m2 == m,
    }
}

/// A click on a browser column: it is picked (see [`column_picked`]) and a
/// double click then plays.
pub open spec fn column_clicked(m: App, t: ClickTarget, double: bool, y: u16, post: App) -> bool {
    exists|m2: App| #[trigger] column_picked(m, t, y, m2) && then_double(m2, double, post)
}

/// What a left click on target `t` does, from state `m` (after the grab was
/// dropped and the click recorded).
pub open spec fn clicked(m: App, t: ClickTarget, double: bool, x: u16, y: u16, post: App) -> bool {
    match t {
        ClickTarget::TabBrowser => post == (App { tab: Tab::Browser, ..m }),
        ClickTarget::TabPlaylists => post == (App { tab: Tab::Playlists, ..m }),
        ClickTarget::TabSettings => post == (App { tab: Tab::Settings, ..m }),
        ClickTarget::HelpHint => post == (App { show_help: true, ..m }),
        ClickTarget::Transport(i) => activate_done(
            App { focus: Focus::Transport, transport_sel: i, ..m },
            post,
        ),
        ClickTarget::Volume => pushed(
            App { focus: Focus::Volume, dragging: Some(Drag::Volume), ..m },
            post,
            Effect::VolumeAt(y),
        ),
        ClickTarget::Seekbar => pushed(
            App { focus: Focus::Seekbar, dragging: Some(Drag::Seek), ..m },
            post,
            Effect::SeekDragAt(x),
        ),
        ClickTarget::Art => open_art_popup_done(m, post),
        ClickTarget::PlList => {
            let m1 = App { pl_focus: PlPane::List, ..m };
            match row_at(m.rects.pl_list, m.playlist_state.offset, y, m.playlists.len() as nat, 1) {
                Some(i) => pl_move_done(
                    App { playlist_state: m1.playlist_state.spec_select(Some(i as usize)), ..m1 },
                    post,
                    0i32,
                ),
                None => post == m1,
            }
        },
        ClickTarget::PlTracks => {
            let m1 = App { pl_focus: PlPane::Tracks, ..m };
            let n = match sel_playlist(m) {
                Some(k) => m.playlists@[k].tracks.len() as nat,
                None => 0,
            };
            match row_at(m.rects.pl_tracks, m.pl_track_state.offset, y, n, 1) {
                Some(i) => post == (App {
                    pl_track_state: m1.pl_track_state.spec_select(Some(i as usize)),
                    ..m1
                }),
                None => post == m1,
            }
        },
        ClickTarget::QueueDivider => pushed(
            App { focus: Focus::Queue, dragging: Some(Drag::QueueDivider), ..m },
            post,
            Effect::DragQueueDividerAt(y),
        ),
        ClickTarget::ColDivider(i) => pushed(
            App { dragging: Some(Drag::ColDivider(i)), ..m },
            post,
            Effect::DragDividerAt(i, x),
        ),
        ClickTarget::Search => set_focus_done(m, post, Focus::Search),
        ClickTarget::Nothing => post == m,
        _ => column_clicked(m, t, double, y, post),
    }
}

/// Whether a click at `(x, y)` completes a double click (same cell within
/// 400 ms of the previous click).
pub open spec fn is_double(a: App, x: u16, y: u16) -> bool {
    a.last_click matches Some((t, lx, ly)) && lx == x && ly == y && (if a.clock_ms >= t {
        a.clock_ms - t
    } else {
        0
    }) < 400
}

/// A left click: it first closes an open overlay; otherwise it drops any
/// grab, records the click for double-click detection, and acts on what it
/// lands on.
pub open spec fn click_done(pre: App, x: u16, y: u16, post: App) -> bool {
    if pre.show_help {
        post == (App { show_help: false, ..pre })
    } else if pre.show_art_popup {
        post == (App { show_art_popup: false, ..pre })
    } else {
        let double = is_double(pre, x, y);
        let m = App {
            dragging: None,
            last_click: if double {
                None
            } else {
                Some((pre.clock_ms, x, y))
            },
            ..pre
        };
        clicked(m, click_target(pre.rects, pre.tab, x, y), double, x, y, post)
    }
}

/// What a pointer event does.
pub open spec fn mouse_done(pre: App, ev: Mouse, post: App) -> bool {
    match ev.kind {
        MouseKind::ScrollDown => scrolled(pre, post, ev.column, ev.row, true),
        MouseKind::ScrollUp => scrolled(pre, post, ev.column, ev.row, false),
        MouseKind::LeftDown => click_done(pre, ev.column, ev.row, post),
        MouseKind::LeftDrag => dragged(pre, post, ev.column, ev.row),
        MouseKind::LeftUp => released(pre, post),
        MouseKind::Other => post == pre,
    }
}

/// One wheel step (see [`scrolled`]).
fn handle_scroll(app: &mut App, x: u16, y: u16, down: bool)
    requires
        old(app).inv(),
    ensures
        scrolled(*old(app), *final(app), x, y, down),
        final(app).inv(),
{
    if hit(app.rects.volume, x, y) {
        if down {
            app.volume_down();
        } else {
            app.volume_up();
        }
    } else {
        if let Some(p) = focus_at(app, x, y) {
            app.set_focus(p);
        }
        app.move_selection(
            if down {
                1
            } else {
                -1
            },
        );
    }
}

/// Continues a drag (see [`dragged`]).
pub fn handle_drag(app: &mut App, x: u16, y: u16)
    ensures
        dragged(*old(app), *final(app), x, y),
{
    match app.dragging {
        Some(Drag::Seek) => app.effects.push(Effect::SeekDragAt(x)),
        Some(Drag::Volume) => app.effects.push(Effect::VolumeAt(y)),
        Some(Drag::ColDivider(i)) => app.effects.push(Effect::DragDividerAt(i, x)),
        Some(Drag::QueueDivider) => app.effects.push(Effect::DragQueueDividerAt(y)),
        None => {},
    }
}

/// The work of a release before the grab is dropped (see [`release_step`]).
fn release_work(app: &mut App)
    ensures
        release_step(*old(app), *final(app)),
{
    match app.dragging {
        Some(Drag::Seek) => app.effects.push(Effect::SeekRelease),
        Some(Drag::ColDivider(_)) => app.persist_columns(),
        Some(Drag::QueueDivider) => app.persist_queue_pct(),
        _ => {},
    }
}

/// Ends a drag (see [`released`]).
fn handle_release(app: &mut App)
    ensures
        released(*old(app), *final(app)),
{
    release_work(app);
    let ghost mid = *app;
    app.dragging = None;
    assert(release_step(*old(app), mid));
}

/// Picks the clicked artist or album row (see [`column_picked`]).
fn pick_grouping(app: &mut App, t: ClickTarget, y: u16)
    requires
        old(app).inv(),
        t == ClickTarget::Artists || t == ClickTarget::Albums,
    ensures
        column_picked(*old(app), t, y, *final(app)),
        final(app).inv(),
{
    let r = app.rects;
    if t == ClickTarget::Artists {
        app.set_focus(Focus::Artists);
        if let Some(i) = row_index(r.artists, &app.artist_state, y, app.view_artists.len(), 1) {
            app.artist_state.select(Some(i));
            app.refresh_views();
        }
    } else {
        app.set_focus(Focus::Albums);
        if let Some(i) = row_index(r.albums, &app.album_state, y, app.view_albums.len(), 1) {
            app.album_state.select(Some(i));
            app.refresh_views();
        }
    }
}

/// Picks the clicked track or queue row (see [`column_picked`]).
fn pick_entry(app: &mut App, t: ClickTarget, y: u16)
    requires
        old(app).inv(),
        t == ClickTarget::Tracks || t == ClickTarget::Queue,
    ensures
        column_picked(*old(app), t, y, *final(app)),
        final(app).inv(),
{
    let r = app.rects;
    if t == ClickTarget::Tracks {
        app.set_focus(Focus::Tracks);
        if let Some(i) = row_index(r.tracks, &app.track_state, y, app.view_tracks.len(), 1) {
            app.track_state.select(Some(i));
        }
    } else {
        app.set_focus(Focus::Queue);
        if let Some(i) = row_index(r.queue, &app.queue_state, y, app.queue.len(), 1) {
            app.queue_state.select(Some(i));
        }
    }
}

/// Picks the clicked column and row (see [`column_picked`]).
fn pick_column(app: &mut App, t: ClickTarget, y: u16)
    requires
        old(app).inv(),
    ensures
        column_picked(*old(app), t, y, *final(app)),
        final(app).inv(),
{
    match t {
        ClickTarget::Artists | ClickTarget::Albums => pick_grouping(app, t, y),
        ClickTarget::Tracks | ClickTarget::Queue => pick_entry(app, t, y),
        _ => {},
    }
}

/// Plays what is under the focus when the click was a double click.
fn play_if_double(app: &mut App, double: bool)
    requires
        old(app).inv(),
    ensures
        then_double(*old(app), double, *final(app)),
        final(app).inv(),
{
    if double {
        app.activate_play();
    }
}

/// A click on a browser column (see [`column_clicked`]).
fn click_column(app: &mut App, t: ClickTarget, double: bool, y: u16)
    requires
        old(app).inv(),
    ensures
        column_clicked(*old(app), t, double, y, *final(app)),
        final(app).inv(),
{
    pick_column(app, t, y);
    let ghost m2 = *app;
    play_if_double(app, double);
    assert(column_picked(*old(app), t, y, m2));
}

/// A click in the Playlists tab (see [`clicked`]).
fn click_playlists(app: &mut App, t: ClickTarget, y: u16)
    requires
        old(app).inv(),
        t == ClickTarget::PlList || t == ClickTarget::PlTracks,
    ensures
        clicked(*old(app), t, false, 0, y, *final(app)),
        final(app).inv(),
{
    let r = app.rects;
    if t == ClickTarget::PlList {
        app.pl_set_pane(PlPane::List);
        if let Some(i) = row_index(r.pl_list, &app.playlist_state, y, app.playlists.len(), 1) {
            app.playlist_state.select(Some(i));
            app.pl_move(0);
        }
    } else {
        let n = match app.selected_playlist() {
            Some(p) => p.tracks.len(),
            None => 0,
        };
        app.pl_set_pane(PlPane::Tracks);
        if let Some(i) = row_index(r.pl_tracks, &app.pl_track_state, y, n, 1) {
            app.pl_track_state.select(Some(i));
        }
    }
}

/// A click on a tab or the help hint (see [`clicked`]).
fn click_tab(app: &mut App, t: ClickTarget)
    requires
        old(app).inv(),
        t == ClickTarget::TabBrowser || t == ClickTarget::TabPlaylists || t
            == ClickTarget::TabSettings || t == ClickTarget::HelpHint,
    ensures
        clicked(*old(app), t, false, 0, 0, *final(app)),
        final(app).inv(),
{
    if t == ClickTarget::TabBrowser {
        app.tab = Tab::Browser;
    } else if t == ClickTarget::TabPlaylists {
        app.tab = Tab::Playlists;
    } else if t == ClickTarget::TabSettings {
        app.tab = Tab::Settings;
    } else {
        app.show_help = true;
    }
}

/// A click on a slider or a divider: it is grabbed for dragging and set from
/// the click (see [`clicked`]).
fn click_grab(app: &mut App, t: ClickTarget, x: u16, y: u16)
    requires
        old(app).inv(),
        t == ClickTarget::Volume || t == ClickTarget::Seekbar || t == ClickTarget::QueueDivider
            || t is ColDivider,
    ensures
        clicked(*old(app), t, false, x, y, *final(app)),
        final(app).inv(),
{
    match t {
        ClickTarget::Volume => {
            app.set_focus(Focus::Volume);
            app.dragging = Some(Drag::Volume);
            app.effects.push(Effect::VolumeAt(y));
        },
        ClickTarget::Seekbar => {
            app.set_focus(Focus::Seekbar);
            app.dragging = Some(Drag::Seek);
            app.effects.push(Effect::SeekDragAt(x));
        },
        ClickTarget::QueueDivider => {
            app.set_focus(Focus::Queue);
            app.dragging = Some(Drag::QueueDivider);
            app.effects.push(Effect::DragQueueDividerAt(y));
        },
        ClickTarget::ColDivider(i) => {
            app.dragging = Some(Drag::ColDivider(i));
            app.effects.push(Effect::DragDividerAt(i, x));
        },
        _ => {},
    }
}

/// A click on a transport button, the art or the search box, or on nothing
/// (see [`clicked`]).
fn click_button(app: &mut App, t: ClickTarget)
    requires
        old(app).inv(),
        t is Transport || t == ClickTarget::Art || t == ClickTarget::Search || t
            == ClickTarget::Nothing,
        t matches ClickTarget::Transport(i) ==> i < 5,
    ensures
        clicked(*old(app), t, false, 0, 0, *final(app)),
        final(app).inv(),
{
    match t {
        ClickTarget::Transport(i) => {
            app.set_focus(Focus::Transport);
            app.transport_sel = i;
            app.activate();
        },
        ClickTarget::Art => app.open_art_popup(),
        ClickTarget::Search => app.set_focus(Focus::Search),
        _ => {},
    }
}

/// A left click (see [`click_done`]).
pub fn handle_click(app: &mut App, x: u16, y: u16)
    requires
        old(app).inv(),
    ensures
        click_done(*old(app), x, y, *final(app)),
        final(app).inv(),
{
    if app.show_help {
        app.show_help = false;
        return;
    }
    if app.show_art_popup {
        app.show_art_popup = false;
        return;
    }
    app.dragging = None;
    let r = app.rects;
    let double = app.is_double_click(x, y);
    let t = click_target_at(&r, app.tab, x, y);
    match t {
        ClickTarget::PlList | ClickTarget::PlTracks => click_playlists(app, t, y),
        ClickTarget::Artists | ClickTarget::Albums | ClickTarget::Tracks | ClickTarget::Queue => {
            click_column(app, t, double, y)
        },
        ClickTarget::TabBrowser
        | ClickTarget::TabPlaylists
        | ClickTarget::TabSettings
        | ClickTarget::HelpHint => click_tab(app, t),
        ClickTarget::Volume
        | ClickTarget::Seekbar
        | ClickTarget::QueueDivider
        | ClickTarget::ColDivider(..) => click_grab(app, t, x, y),
        ClickTarget::Transport(..)
        | ClickTarget::Art
        | ClickTarget::Search
        | ClickTarget::Nothing => click_button(app, t),
    }
}

/// Applies a pointer event (see [`mouse_done`]).
pub fn handle_mouse(app: &mut App, ev: Mouse)
    requires
        old(app).inv(),
    ensures
        mouse_done(*old(app), ev, *final(app)),
        final(app).inv(),
{
    let (x, y) = (ev.column, ev.row);
    match ev.kind {
        MouseKind::ScrollDown => handle_scroll(app, x, y, true),
        MouseKind::ScrollUp => handle_scroll(app, x, y, false),
        MouseKind::LeftDown => handle_click(app, x, y),
        MouseKind::LeftDrag => handle_drag(app, x, y),
        MouseKind::LeftUp => handle_release(app),
        MouseKind::Other => {},
    }
}

/// What a remote-control command does: the same as its key.
pub open spec fn cmd_done(pre: App, cmd: Cmd, post: App) -> bool {
    match cmd {
        Cmd::PlayPause => toggle_pause_done(pre, post),
        Cmd::Next => next_track_done(pre, post, true),
        Cmd::Previous => prev_track_done(pre, post),
        Cmd::VolumeUp => volume_up_done(pre, post),
        Cmd::VolumeDown => volume_down_done(pre, post),
        Cmd::Repeat => cycle_repeat_done(pre, post),
        Cmd::Shuffle => toggle_shuffle_done(pre, post),
    }
}

/// Applies a command received from another process (see [`cmd_done`]).
pub fn dispatch_cmd(app: &mut App, cmd: Cmd)
    requires
        old(app).inv(),
    ensures
        cmd_done(*old(app), cmd, *final(app)),
        final(app).inv(),
{
    match cmd {
        Cmd::PlayPause => app.toggle_pause(),
        Cmd::Next => app.next_track(true),
        Cmd::Previous => app.prev_track(),
        Cmd::VolumeUp => app.volume_up(),
        Cmd::VolumeDown => app.volume_down(),
        Cmd::Repeat => app.cycle_repeat(),
        Cmd::Shuffle => app.toggle_shuffle(),
    }
}

/// In the browser (no overlay or editor open, focus outside the search
/// field), Page Down asks to move the highlight ten rows forward and Page Up
/// ten rows back, whatever modifiers are held: the two pages are opposite.
pub proof fn law_page_keys_move_ten_rows(a: App, ctrl: bool, alt: bool)
    requires
        !a.show_help,
        !a.show_art_popup,
        a.editing_path is None,
        a.editing_playlist_name is None,
        a.focus != Focus::Search,
        a.tab == Tab::Browser,
    ensures
        keymap(a, (Key { code: KeyCode::PageDown, ctrl, alt })) == KeyAction::MoveSelection(10i32),
        keymap(a, (Key { code: KeyCode::PageUp, ctrl, alt })) == KeyAction::MoveSelection(-10i32),
{
}

/// On the track column, a key press of Page Down moves the highlight ten
/// rows down (stopping at the last row) and Page Up ten rows up (stopping at
/// the first row).
pub proof fn law_page_keys_on_tracks(a: App, post_down: App, post_up: App, c: usize)
    requires
        !a.show_help,
        !a.show_art_popup,
        a.editing_path is None,
        a.editing_playlist_name is None,
        a.focus == Focus::Tracks,
        a.tab == Tab::Browser,
        a.track_state.selected == Some(c),
        c < a.view_tracks.len(),
        performed(a, keymap(a, (Key { code: KeyCode::PageDown, ctrl: false, alt: false })), post_down),
        performed(a, keymap(a, (Key { code: KeyCode::PageUp, ctrl: false, alt: false })), post_up),
    ensures
        post_down.track_state.selected == Some(
            (if c + 10 < a.view_tracks.len() {
                c + 10
            } else {
                a.view_tracks.len() - 1
            }) as usize,
        ),
        post_down.track_state.selected->0 >= c,
        post_up.track_state.selected == Some((if c >= 10 { c - 10 } else { 0 }) as usize),
        post_up.track_state.selected->0 <= c,
{
    law_page_keys_move_ten_rows(a, false, false);
}

/// Ctrl-C quits, whatever state the interface is in.
pub proof fn law_ctrl_c_quits(a: App, alt: bool)
    ensures
        keymap(a, Key { code: KeyCode::Char('c'), ctrl: true, alt }) == KeyAction::Quit,
{
}

/// While the help overlay is shown, any key but Ctrl-C only dismisses it.
pub proof fn law_help_takes_any_key(a: App, k: Key)
    requires
        a.show_help,
        !(k.ctrl && k.code == KeyCode::Char('c')),
    ensures
        keymap(a, k) == KeyAction::DismissHelp,
{
}

/// In the search field, with no overlay or editor open, a character typed
/// without Ctrl or Alt is inserted as text.
pub proof fn law_search_types_plain_chars(a: App, c: char)
    requires
        !a.show_help,
        !a.show_art_popup,
        a.editing_path is None,
        a.editing_playlist_name is None,
        a.focus == Focus::Search,
    ensures
        keymap(a, Key { code: KeyCode::Char(c), ctrl: false, alt: false }) == KeyAction::SearchInput(c),
{
}

/// In the search field a Ctrl or Alt chord is never typed as text.
pub proof fn law_chords_are_not_typed(a: App, k: Key)
    requires
        a.focus == Focus::Search,
        k.ctrl || k.alt,
    ensures
        !(keymap(a, k) is SearchInput),
{
}

/// The browser key that does what a remote command does.
pub open spec fn cmd_key(c: Cmd) -> char {
    match c {
        Cmd::PlayPause => ' ',
        Cmd::Next => 'n',
        Cmd::Previous => 'p',
        Cmd::VolumeUp => '+',
        Cmd::VolumeDown => '-',
        Cmd::Repeat => 'r',
        Cmd::Shuffle => 's',
    }
}

/// A remote command does what its key does in the browser (with no overlay
/// or editor open and the search field not focused).
pub proof fn law_commands_match_keys(a: App, c: Cmd, post: App)
    requires
        !a.show_help,
        !a.show_art_popup,
        a.editing_path is None,
        a.editing_playlist_name is None,
        a.focus != Focus::Search,
        a.tab == Tab::Browser,
    ensures
        performed(a, keymap(a, Key { code: KeyCode::Char(cmd_key(c)), ctrl: false, alt: false }), post)
            == cmd_done(a, c, post),
{
}

/// A double click forgets the click it completed, so a third click at once
/// is not another double click.
pub proof fn law_triple_click_is_not_double(a: App, x: u16, y: u16, later: u64)
    requires
        is_double(a, x, y),
    ensures
        !is_double(App { last_click: None, clock_ms: later, ..a }, x, y),
{
}

} // verus!
