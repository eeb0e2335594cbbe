//! Small value types of the interface state: focus targets, tabs, panes,
//! drag targets, list selections, screen rectangles, and the outside work the
//! state machine asks the program to perform.
use vstd::prelude::*;

use crate::model::Track;

verus! {

/// Everything Tab can land on. `Search` is the text field; the rest are the
/// browseable lists and the playback controls.
#[derive(Clone, Copy, Debug, PartialEq, Eq, Structural)]
pub enum Focus {
    Search,
    Artists,
    Albums,
    Tracks,
    Queue,
    Seekbar,
    Transport,
    Volume,
}

/// Position of a focus target in the Tab cycle (top to bottom).
pub open spec fn focus_index(f: Focus) -> int {
    match f {
        Focus::Search => 0,
        Focus::Artists => 1,
        Focus::Albums => 2,
        Focus::Tracks => 3,
        Focus::Queue => 4,
        Focus::Seekbar => 5,
        Focus::Transport => 6,
        Focus::Volume => 7,
    }
}

/// The focus target at a position of the Tab cycle.
pub open spec fn focus_at_index(i: int) -> Focus {
    if i == 0 {
        Focus::Search
    } else if i == 1 {
        Focus::Artists
    } else if i == 2 {
        Focus::Albums
    } else if i == 3 {
        Focus::Tracks
    } else if i == 4 {
        Focus::Queue
    } else if i == 5 {
        Focus::Seekbar
    } else if i == 6 {
        Focus::Transport
    } else {
        Focus::Volume
    }
}

impl Focus {
    /// The four browseable lists.
    pub open spec fn spec_is_list(self) -> bool {
        self == Focus::Artists || self == Focus::Albums || self == Focus::Tracks || self
            == Focus::Queue
    }

    /// True for the four browseable lists.
    pub fn is_list(self) -> (r: bool)
        ensures
            r == self.spec_is_list(),
    {
        match self {
            Focus::Artists | Focus::Albums | Focus::Tracks | Focus::Queue => true,
            _ => false,
        }
    }

    /// The browser column to the left (the same target elsewhere).
    pub open spec fn spec_left(self) -> Focus {
        match self {
            Focus::Albums => Focus::Artists,
            Focus::Tracks => Focus::Albums,
            Focus::Queue => Focus::Tracks,
            other => other,
        }
    }

    /// The browser column to the right (the same target elsewhere).
    pub open spec fn spec_right(self) -> Focus {
        match self {
            Focus::Artists => Focus::Albums,
            Focus::Albums => Focus::Tracks,
            Focus::Tracks => Focus::Queue,
            other => other,
        }
    }

    /// Horizontal column movement among the browser columns only.
    pub fn left(self) -> (r: Focus)
        ensures
            r == self.spec_left(),
    {
        match self {
            Focus::Albums => Focus::Artists,
            Focus::Tracks => Focus::Albums,
            Focus::Queue => Focus::Tracks,
            other => other,
        }
    }

    /// Horizontal column movement among the browser columns only.
    pub fn right(self) -> (r: Focus)
        ensures
            r == self.spec_right(),
    {
        match self {
            Focus::Artists => Focus::Albums,
            Focus::Albums => Focus::Tracks,
            Focus::Tracks => Focus::Queue,
            other => other,
        }
    }

    /// The next target in the Tab cycle (wrapping from Volume to Search).
    pub fn next(self) -> (r: Focus)
        ensures
            r == focus_at_index((focus_index(self) + 1) % 8),
    {
        match self {
            Focus::Search => Focus::Artists,
            Focus::Artists => Focus::Albums,
            Focus::Albums => Focus::Tracks,
            Focus::Tracks => Focus::Queue,
            Focus::Queue => Focus::Seekbar,
            Focus::Seekbar => Focus::Transport,
            Focus::Transport => Focus::Volume,
            Focus::Volume => Focus::Search,
        }
    }

    /// The previous target in the Tab cycle (wrapping from Search to Volume).
    pub fn prev(self) -> (r: Focus)
        ensures
            r == focus_at_index((focus_index(self) + 7) % 8),
    {
        match self {
            Focus::Search => Focus::Volume,
            Focus::Artists => Focus::Search,
            Focus::Albums => Focus::Artists,
            Focus::Tracks => Focus::Albums,
            Focus::Queue => Focus::Tracks,
            Focus::Seekbar => Focus::Queue,
            Focus::Transport => Focus::Seekbar,
            Focus::Volume => Focus::Transport,
        }
    }
}

/// Tab forward then back (or back then forward) returns to the same target,
/// and eight Tabs go all the way round.
pub proof fn law_focus_cycle(f: Focus)
    ensures
        focus_at_index((focus_index(focus_at_index((focus_index(f) + 1) % 8)) + 7) % 8) == f,
        focus_at_index((focus_index(focus_at_index((focus_index(f) + 7) % 8)) + 1) % 8) == f,
        0 <= focus_index(f) < 8,
        focus_at_index(focus_index(f)) == f,
{
}

/// Left and right column moves undo each other on the inner columns.
pub proof fn law_columns_left_right(f: Focus)
    ensures
        (f == Focus::Albums || f == Focus::Tracks) ==> f.spec_left().spec_right() == f
            && f.spec_right().spec_left() == f,
        f.spec_is_list() ==> f.spec_left().spec_is_list() && f.spec_right().spec_is_list(),
        !f.spec_is_list() ==> f.spec_left() == f && f.spec_right() == f,
{
}

#[derive(Clone, Copy, Debug, PartialEq, Eq, Structural)]
pub enum Tab {
    Browser,
    Playlists,
    Settings,
}

/// Which pane is active within the Playlists tab.
#[derive(Clone, Copy, Debug, PartialEq, Eq, Structural)]
pub enum PlPane {
    List,
    Tracks,
}

/// What a left-button drag is currently manipulating, set on mouse-down.
#[derive(Clone, Copy, Debug, PartialEq, Eq, Structural)]
pub enum Drag {
    Seek,
    Volume,
    /// Resizing the boundary between browser column `i` and `i + 1`.
    ColDivider(usize),
    /// Resizing the tracks/queue split in the third column.
    QueueDivider,
}

/// Selection and scroll offset of a list.
#[derive(Clone, Copy, Debug, PartialEq, Eq, Structural)]
pub struct ListState {
    pub selected: Option<usize>,
    pub offset: usize,
}

impl ListState {
    /// Nothing selected, scrolled to the top.
    pub fn new() -> (r: ListState)
        ensures
            r == (ListState { selected: None, offset: 0 }),
    {
        ListState { selected: None, offset: 0 }
    }

    /// The selected row, if any.
    pub fn selected(&self) -> (r: Option<usize>)
        ensures
            r == self.selected,
    {
        self.selected
    }

    /// The first row in view.
    pub fn offset(&self) -> (r: usize)
        ensures
            r == self.offset,
    {
        self.offset
    }

    /// The state after selecting `index` (selecting nothing scrolls to the top).
    pub open spec fn spec_select(self, index: Option<usize>) -> ListState {
        ListState {
            selected: index,
            offset: if index is None {
                0
            } else {
                self.offset
            },
        }
    }

    /// Selects `index`; selecting nothing also scrolls back to the top.
    pub fn select(&mut self, index: Option<usize>)
        ensures
            *final(self) == old(self).spec_select(index),
    {
        self.selected = index;
        if index.is_none() {
            self.offset = 0;
        }
    }
}

/// The selection kept inside a list of `len` items: none when empty, else the
/// current one (or the first) capped at the last item.
pub open spec fn clamped(s: ListState, len: nat) -> ListState {
    if len == 0 {
        s.spec_select(None)
    } else {
        s.spec_select(
            Some(
                (if s.selected is Some && (s.selected->0 as int) < len - 1 {
                    s.selected->0
                } else if s.selected is Some {
                    (len - 1) as usize
                } else {
                    0usize
                }),
            ),
        )
    }
}

/// Keeps a selection inside a list of `len` items.
pub fn clamp(state: &mut ListState, len: usize)
    ensures
        *final(state) == clamped(*old(state), len as nat),
{
    if len == 0 {
        state.select(None);
    } else {
        let cur = match state.selected() {
            Some(v) => v,
            None => 0,
        };
        let sel = if cur < len - 1 {
            cur
        } else {
            len - 1
        };
        state.select(Some(sel));
    }
}

/// The selection moved by `delta` rows, kept inside `0..len` (none when empty).
pub open spec fn moved(s: ListState, len: nat, delta: int) -> ListState {
    if len == 0 {
        s.spec_select(None)
    } else {
        let cur = match s.selected {
            Some(v) => v as int,
            None => 0,
        };
        let t = cur + delta;
        s.spec_select(
            Some(
                (if t < 0 {
                    0
                } else if t > len - 1 {
                    len - 1
                } else {
                    t
                }) as usize,
            ),
        )
    }
}

/// Moves a selection by `delta` rows within a list of `len` items.
pub fn move_state(state: &mut ListState, len: usize, delta: i32)
    ensures
        *final(state) == moved(*old(state), len as nat, delta as int),
{
    if len == 0 {
        state.select(None);
        return;
    }
    let t: i128 = selected_or_zero(state.selected()) + delta as i128;
    let last: i128 = (len - 1) as i128;
    let new: usize = if t < 0 {
        0
    } else if t > last {
        len - 1
    } else {
        t as usize
    };
    state.select(Some(new));
}

fn selected_or_zero(s: Option<usize>) -> (r: i128)
    ensures
        r == match s {
            Some(v) => v as int,
            None => 0,
        },
{
    match s {
        Some(v) => v as i128,
        None => 0,
    }
}

/// A moved or clamped selection always points inside the list (or is empty
/// exactly when the list is).
pub proof fn law_selection_in_bounds(s: ListState, len: nat, delta: int)
    ensures
        (clamped(s, len).selected is Some) == (len > 0),
        clamped(s, len).selected matches Some(i) ==> i < len,
        (moved(s, len, delta).selected is Some) == (len > 0),
        moved(s, len, delta).selected matches Some(i) ==> i < len,
{
}

/// A screen rectangle (column, row, width, height), as the renderer lays it out.
#[derive(Clone, Copy, Debug, PartialEq, Eq, Structural)]
pub struct Rect {
    pub x: u16,
    pub y: u16,
    pub width: u16,
    pub height: u16,
}

/// `a + b`, saturating at `u16::MAX`.
pub open spec fn sat_add(a: u16, b: u16) -> int {
    if a + b > u16::MAX {
        u16::MAX as int
    } else {
        a + b
    }
}

impl Rect {
    /// The empty rectangle at the origin.
    pub fn zero() -> (r: Rect)
        ensures
            r == (Rect { x: 0, y: 0, width: 0, height: 0 }),
    {
        Rect { x: 0, y: 0, width: 0, height: 0 }
    }

    /// Whether the cell `(x, y)` lies inside.
    pub open spec fn spec_contains(self, x: u16, y: u16) -> bool {
        x >= self.x && x < sat_add(self.x, self.width) && y >= self.y && y < sat_add(
            self.y,
            self.height,
        )
    }

    /// Whether the cell `(x, y)` lies inside (right and bottom edges saturate).
    pub fn contains(&self, x: u16, y: u16) -> (r: bool)
        ensures
            r == self.spec_contains(x, y),
    {
        let right: u16 = if self.width > u16::MAX - self.x {
            u16::MAX
        } else {
            self.x + self.width
        };
        let bottom: u16 = if self.height > u16::MAX - self.y {
            u16::MAX
        } else {
            self.y + self.height
        };
        x >= self.x && x < right && y >= self.y && y < bottom
    }
}

/// Layout rectangles recorded each frame so mouse input can be hit-tested.
/// The list rectangles are the inner content areas (inside borders).
#[derive(Clone, Copy, Debug, PartialEq, Eq, Structural)]
pub struct Rects {
    pub search: Rect,
    pub artists: Rect,
    pub albums: Rect,
    pub tracks: Rect,
    pub queue: Rect,
    /// The body region containing the three columns.
    pub body: Rect,
    /// X positions of the two draggable column dividers.
    pub col_div0: u16,
    pub col_div1: u16,
    /// The third column's area and the row of the tracks/queue divider.
    pub col3: Rect,
    pub queue_div: u16,
    pub seekbar: Rect,
    pub volume: Rect,
    /// The bottom-left album-art region.
    pub art: Rect,
    /// The "? help" hint in the top-right.
    pub help_hint: Rect,
    pub tab_browser: Rect,
    pub tab_playlists: Rect,
    pub tab_settings: Rect,
    pub pl_list: Rect,
    pub pl_tracks: Rect,
    pub btn_shuffle: Rect,
    pub btn_prev: Rect,
    pub btn_play: Rect,
    pub btn_next: Rect,
    pub btn_repeat: Rect,
}

impl Rects {
    /// Every rectangle empty at the origin, the dividers at column and row 0.
    pub open spec fn spec_zero() -> Rects {
        let z = Rect { x: 0, y: 0, width: 0, height: 0 };
        Rects {
            search: z,
            artists: z,
            albums: z,
            tracks: z,
            queue: z,
            body: z,
            col_div0: 0,
            col_div1: 0,
            col3: z,
            queue_div: 0,
            seekbar: z,
            volume: z,
            art: z,
            help_hint: z,
            tab_browser: z,
            tab_playlists: z,
            tab_settings: z,
            pl_list: z,
            pl_tracks: z,
            btn_shuffle: z,
            btn_prev: z,
            btn_play: z,
            btn_next: z,
            btn_repeat: z,
        }
    }

    /// All rectangles empty.
    pub fn zero() -> (r: Rects)
        ensures
            r == Rects::spec_zero(),
    {
        let z = Rect::zero();
        Rects {
            search: z,
            artists: z,
            albums: z,
            tracks: z,
            queue: z,
            body: z,
            col_div0: 0,
            col_div1: 0,
            col3: z,
            queue_div: 0,
            seekbar: z,
            volume: z,
            art: z,
            help_hint: z,
            tab_browser: z,
            tab_playlists: z,
            tab_settings: z,
            pl_list: z,
            pl_tracks: z,
            btn_shuffle: z,
            btn_prev: z,
            btn_play: z,
            btn_next: z,
            btn_repeat: z,
        }
    }
}

/// Outside work the state machine asks for; the program performs each one,
/// in order, and reports back where the outcome matters.
pub enum Effect {
    /// Start the given track (report back with `play_started` / `play_failed`).
    Play(Track),
    /// Stop all playback.
    Stop,
    TogglePause,
    /// Raise (`true`) or lower the volume by one step.
    VolumeStep(bool),
    /// Set the volume from a pointer row over the volume slider.
    VolumeAt(u16),
    /// Seek by this many seconds (report a refusal with `seek_refused`).
    SeekRelative(i64),
    /// Scrub the seek bar to a pointer column.
    SeekDragAt(u16),
    /// Apply the scrub position held since the drag began.
    SeekRelease,
    /// Move column divider `i` to a pointer column (answer with `drag_divider`).
    DragDividerAt(usize, u16),
    /// Move the tracks/queue divider to a pointer row (answer with `drag_queue_divider`).
    DragQueueDividerAt(u16),
    SaveConfig,
    SavePlaylists,
    /// Scan this music directory in the background.
    StartScan(String),
    StartArtPrecache,
    /// Build and show the large cover-art overlay.
    OpenArtPopup,
    /// Lengthen (`true`) or shorten the gapless crossfade by half a second.
    AdjustGapless(bool),
}

} // verus!
