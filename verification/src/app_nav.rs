//! Focus movement, list navigation, column resizing and activation.
use vstd::prelude::*;

use crate::app::{number_message, sel_album, sel_artist, views_refreshed, App};
use crate::app_play::{notified, played};
use crate::model::{
    album_of, duplicate_tracks, is_tracks_view, law_tracks_view_selected, tracks_view_of, Track,
    TrackView,
};
use crate::state::{focus_at_index, focus_index, move_state, moved, Effect, Focus, ListState};
use crate::text::{decimal, lowercase, to_lower};

verus! {

/// The narrowest a browser column may become, in percent.
pub open spec fn min_col() -> int {
    10
}

/// Whether the focused column `idx` may grow (`wider`) or shrink by four
/// points at the expense of its neighbour (the right one, or the middle one
/// for the rightmost column): both must stay at least ten wide.
pub open spec fn resize_allowed(c: Seq<u16>, idx: int, wider: bool) -> bool {
    let donor = if idx == 2 {
        1
    } else {
        idx + 1
    };
    let d = if wider {
        4int
    } else {
        -4int
    };
    c[idx] + d >= 10 && c[donor] - d >= 10
}

/// The widths after an allowed resize of column `idx`.
pub open spec fn resized_cols(c: Seq<u16>, idx: int, wider: bool) -> Seq<u16> {
    let donor = if idx == 2 {
        1
    } else {
        idx + 1
    };
    let d = if wider {
        4int
    } else {
        -4int
    };
    c.update(idx, (c[idx] + d) as u16).update(donor, (c[donor] - d) as u16)
}

/// `post` is `pre` with column widths `c`, saved into the configuration.
pub open spec fn resized(pre: App, post: App, c: Seq<u16>) -> bool {
    &&& post.col_widths@ == c
    &&& post.config.layout.columns@ == c
    &&& post.effects@ == pre.effects@.push(Effect::SaveConfig)
    &&& post == (App { col_widths: post.col_widths, config: post.config, effects: post.effects, ..pre })
    &&& post.config == (crate::config::Config {
        layout: crate::config::LayoutConfig { columns: post.config.layout.columns, ..pre.config.layout },
        ..pre.config
    })
}

/// The column of a focus target, for the three browser columns.
pub open spec fn column_of(f: Focus) -> Option<int> {
    match f {
        Focus::Artists => Some(0),
        Focus::Albums => Some(1),
        Focus::Tracks => Some(2),
        _ => None,
    }
}

/// `v` held within `lo..=hi`.
pub open spec fn clamp_i(v: int, lo: int, hi: int) -> int {
    if v < lo {
        lo
    } else if v > hi {
        hi
    } else {
        v
    }
}

/// Widths after dragging divider `divider` to `pct` percent of the body:
/// divider 0 splits the first two columns' total; divider 1 sets where the
/// third column starts, keeping the first column.
pub open spec fn dragged_cols(c: Seq<u16>, divider: usize, pct: int) -> Seq<u16> {
    if divider == 0 {
        let pair = c[0] + c[1];
        let c0 = clamp_i(pct, 10, pair - 10);
        seq![c0 as u16, (pair - c0) as u16, c[2]]
    } else {
        let cum = clamp_i(pct, c[0] + 10, 90);
        seq![c[0], (cum - c[0]) as u16, (100 - cum) as u16]
    }
}

/// The tracks [`App::add_to_queue`] would add: the whole selected album or
/// artist in those columns, otherwise the highlighted track.
pub open spec fn queue_candidates(a: App, r: Seq<TrackView>) -> bool {
    let q = lowercase(a.search@);
    match a.focus {
        Focus::Albums => is_tracks_view(a.library@, q, sel_artist(a), sel_album(a), r),
        Focus::Artists => is_tracks_view(a.library@, q, sel_artist(a), None, r),
        _ => r == match a.track_state.selected {
            Some(i) => if (i as int) < a.view_tracks.len() {
                seq![a.view_tracks@[i as int]@]
            } else {
                Seq::<TrackView>::empty()
            },
            None => Seq::<TrackView>::empty(),
        },
    }
}

/// `post` is `pre` after replacing the queue with tracks of values `r` and
/// playing entry `start` (capped at the last); nothing happens when `r` is empty.
pub open spec fn played_list(pre: App, post: App, r: Seq<TrackView>, start: int) -> bool {
    if r.len() == 0 {
        post == pre
    } else {
        &&& tracks_view_of(post.queue@) == r
        &&& played(
            App { queue: post.queue, ..pre },
            post,
            if start < r.len() {
                start
            } else {
                r.len() - 1
            },
        )
    }
}

impl App {
    /// Moves the highlight of the focused list by `delta` rows; moving in the
    /// artist or album column re-derives the columns to its right.
    pub fn move_selection(&mut self, delta: i32)
        ensures
            move_selection_done(*old(self), *final(self), delta),
    {
        match self.focus {
            Focus::Artists => {
                move_state(&mut self.artist_state, self.view_artists.len(), delta);
                self.refresh_views();
            },
            Focus::Albums => {
                move_state(&mut self.album_state, self.view_albums.len(), delta);
                self.refresh_views();
            },
            Focus::Tracks => {
                move_state(&mut self.track_state, self.view_tracks.len(), delta);
            },
            Focus::Queue => {
                move_state(&mut self.queue_state, self.queue.len(), delta);
            },
            _ => {},
        }
    }

    /// Moves the focus one browser column right or left.
    pub fn move_column(&mut self, right: bool)
        ensures
            move_column_done(*old(self), *final(self), right),
    {
        self.focus = if right {
            self.focus.right()
        } else {
            self.focus.left()
        };
    }

    /// Steps the selected transport button, wrapping among the five.
    pub fn transport_step(&mut self, delta: i32)
        requires
            old(self).transport_sel < 5,
        ensures
            transport_step_done(*old(self), *final(self), delta),
    {
        // Shift by a multiple of five so the remainder is taken of a non-negative value.
        let y: i64 = self.transport_sel as i64 + delta as i64 + 5_000_000_000i64;
        let v: i64 = y % 5;
        assert(v == (self.transport_sel + delta) % 5) by (nonlinear_arith)
            requires
                y == self.transport_sel + delta + 5 * 1_000_000_000,
                y >= 0,
                v == y % 5,
        ;
        self.transport_sel = v as usize;
    }

    /// Left arrow: column move on lists, seek back on the seek bar, button
    /// select on the transport, volume down on the slider.
    pub fn on_left(&mut self)
        requires
            old(self).transport_sel < 5,
        ensures
            on_left_done(*old(self), *final(self)),
    {
        if self.focus.is_list() {
            self.move_column(false);
        } else if self.focus == Focus::Seekbar {
            self.seek_relative(-5);
        } else if self.focus == Focus::Transport {
            self.transport_step(-1);
        } else if self.focus == Focus::Volume {
            self.volume_down();
        }
    }

    /// Right arrow: column move on lists, seek forward on the seek bar, button
    /// select on the transport, volume up on the slider.
    pub fn on_right(&mut self)
        requires
            old(self).transport_sel < 5,
        ensures
            on_right_done(*old(self), *final(self)),
    {
        if self.focus.is_list() {
            self.move_column(true);
        } else if self.focus == Focus::Seekbar {
            self.seek_relative(5);
        } else if self.focus == Focus::Transport {
            self.transport_step(1);
        } else if self.focus == Focus::Volume {
            self.volume_up();
        }
    }

    /// Up arrow: volume up on the slider, otherwise one row up.
    pub fn on_up(&mut self)
        ensures
            on_up_done(*old(self), *final(self)),
    {
        if self.focus == Focus::Volume {
            self.volume_up();
        } else {
            self.move_selection(-1);
        }
    }

    /// Down arrow: volume down on the slider, otherwise one row down.
    pub fn on_down(&mut self)
        ensures
            on_down_done(*old(self), *final(self)),
    {
        if self.focus == Focus::Volume {
            self.volume_down();
        } else {
            self.move_selection(1);
        }
    }

    /// Keyboard resize of the focused column (the queue resizes vertically,
    /// by four points within 10..=60). A change is saved.
    pub fn resize_focused(&mut self, wider: bool)
        ensures
            resize_focused_done(*old(self), *final(self), wider),
    {
        if self.focus == Focus::Queue {
            self.resize_queue(wider);
            return;
        }
        let idx: usize = match self.focus {
            Focus::Artists => 0,
            Focus::Albums => 1,
            Focus::Tracks => 2,
            _ => {
                return;
            },
        };
        self.resize_column(idx, wider);
    }

    fn resize_queue(&mut self, wider: bool)
        ensures
            ({
                let pre = *old(self);
                let v = clamp_i(
                    pre.queue_pct + if wider {
                        4int
                    } else {
                        -4int
                    },
                    10,
                    60,
                );
                if v != pre.queue_pct {
                    &&& final(self).queue_pct == v
                    &&& final(self).effects@ == pre.effects@.push(Effect::SaveConfig)
                    &&& *final(self) == (App {
                        queue_pct: final(self).queue_pct,
                        config: final(self).config,
                        effects: final(self).effects,
                        ..pre
                    })
                    &&& final(self).config == (crate::config::Config {
                        layout: crate::config::LayoutConfig {
                            queue_pct: v as u16,
                            ..pre.config.layout
                        },
                        ..pre.config
                    })
                } else {
                    *final(self) == pre
                }
            }),
    {
        let d: i32 = if wider {
            4
        } else {
            -4
        };
        let t: i32 = self.queue_pct as i32 + d;
        let v: u16 = if t < 10 {
            10
        } else if t > 60 {
            60
        } else {
            t as u16
        };
        if v != self.queue_pct {
            self.queue_pct = v;
            self.config.layout.queue_pct = v;
            self.effects.push(Effect::SaveConfig);
        }
    }

    #[verifier::rlimit(50)]
    fn resize_column(&mut self, idx: usize, wider: bool)
        requires
            idx < 3,
        ensures
            resize_allowed(old(self).col_widths@, idx as int, wider) ==> resized(
                *old(self),
                *final(self),
                resized_cols(old(self).col_widths@, idx as int, wider),
            ),
            !resize_allowed(old(self).col_widths@, idx as int, wider) ==> *final(self) == *old(
                self,
            ),
    {
        let donor: usize = if idx == 2 {
            1
        } else {
            idx + 1
        };
        let d: i32 = if wider {
            4
        } else {
            -4
        };
        let a: i32 = self.col_widths[idx] as i32 + d;
        let b: i32 = self.col_widths[donor] as i32 - d;
        if a >= 10 && b >= 10 {
            let ghost pre_cols = self.col_widths@;
            let mut cols = self.col_widths;
            cols[idx] = a as u16;
            cols[donor] = b as u16;
            assert(cols@ =~= resized_cols(pre_cols, idx as int, wider));
            self.col_widths = cols;
            self.persist_columns();
        }
    }

    /// Moves divider `divider` (0: between the first two columns; otherwise
    /// between the last two) to `pct` percent of the body width, keeping every
    /// column at least ten wide. Nothing is saved until the drag ends.
    pub fn drag_divider(&mut self, divider: usize, pct: i32)
        requires
            divider == 0 ==> old(self).col_widths@[0] + old(self).col_widths@[1] >= 20,
            divider != 0 ==> old(self).col_widths@[0] <= 80,
        ensures
            drag_divider_done(*old(self), *final(self), divider, pct),
    {
        let c0: i32 = self.col_widths[0] as i32;
        let c1: i32 = self.col_widths[1] as i32;
        let c2: i32 = self.col_widths[2] as i32;
        if divider == 0 {
            let pair = c0 + c1;
            let hi = pair - 10;
            let n0 = if pct < 10 {
                10
            } else if pct > hi {
                hi
            } else {
                pct
            };
            self.col_widths = [n0 as u16, (pair - n0) as u16, c2 as u16];
        } else {
            let lo = c0 + 10;
            let cum = if pct < lo {
                lo
            } else if pct > 90 {
                90
            } else {
                pct
            };
            self.col_widths = [c0 as u16, (cum - c0) as u16, (100 - cum) as u16];
        }
        assert(self.col_widths@ =~= dragged_cols(old(self).col_widths@, divider, pct as int));
    }

    /// Saves the current column widths into the configuration.
    pub fn persist_columns(&mut self)
        ensures
            persist_columns_done(*old(self), *final(self)),
    {
        let mut v: Vec<u16> = Vec::new();
        v.push(self.col_widths[0]);
        v.push(self.col_widths[1]);
        v.push(self.col_widths[2]);
        assert(v@ =~= self.col_widths@);
        self.config.layout.columns = v;
        self.effects.push(Effect::SaveConfig);
    }

    /// Sets the queue height from a percentage of the third column, within 10..=60.
    pub fn drag_queue_divider(&mut self, pct: i32)
        ensures
            drag_queue_divider_done(*old(self), *final(self), pct),
    {
        self.queue_pct = if pct < 10 {
            10
        } else if pct > 60 {
            60
        } else {
            pct as u16
        };
    }

    /// Saves the queue height into the configuration.
    pub fn persist_queue_pct(&mut self)
        ensures
            persist_queue_pct_done(*old(self), *final(self)),
    {
        self.config.layout.queue_pct = self.queue_pct;
        self.effects.push(Effect::SaveConfig);
    }

    /// Triggers the selected transport button: shuffle, previous, play/pause,
    /// next, repeat.
    pub fn activate_transport(&mut self)
        ensures
            activate_transport_done(*old(self), *final(self)),
    {
        match self.transport_sel {
            0 => self.toggle_shuffle(),
            1 => self.prev_track(),
            2 => self.toggle_pause(),
            3 => self.next_track(true),
            _ => self.cycle_repeat(),
        }
    }

    /// Tab / Shift-Tab through the focus cycle.
    pub fn cycle_focus(&mut self, forward: bool)
        ensures
            cycle_focus_done(*old(self), *final(self), forward),
    {
        self.focus = if forward {
            self.focus.next()
        } else {
            self.focus.prev()
        };
    }

    /// Moves the focus; entering the search field puts the cursor at the end.
    pub fn set_focus(&mut self, focus: Focus)
        ensures
            set_focus_done(*old(self), *final(self), focus),
    {
        if focus == Focus::Search {
            self.search_cursor = self.search.as_str().unicode_len();
        }
        self.focus = focus;
    }

    /// Enter: steps right (Search → Artists → Albums → Tracks), plays the
    /// highlighted track (making the track column the queue) or queue entry,
    /// toggles pause on the seek bar, or triggers the transport button.
    pub fn activate(&mut self)
        requires
            old(self).transport_sel < 5,
        ensures
            activate_done(*old(self), *final(self)),
    {
        match self.focus {
            Focus::Search => self.focus = Focus::Artists,
            Focus::Artists => self.focus = Focus::Albums,
            Focus::Albums => self.focus = Focus::Tracks,
            Focus::Tracks => {
                if let Some(i) = self.track_state.selected() {
                    self.queue = duplicate_tracks(&self.view_tracks);
                    self.play_index(i);
                }
            },
            Focus::Queue => {
                if let Some(i) = self.queue_state.selected() {
                    self.play_index(i);
                }
            },
            Focus::Seekbar => self.toggle_pause(),
            Focus::Transport => self.activate_transport(),
            Focus::Volume => {},
        }
    }

    /// Plays whatever is under the focus (used for double-click): an artist
    /// plays all their tracks, an album its tracks, a track or queue entry
    /// that item.
    pub fn activate_play(&mut self)
        ensures
            activate_play_done(*old(self), *final(self)),
    {
        let q = to_lower(self.search.as_str());
        match self.focus {
            Focus::Artists => {
                let artist = self.selected_artist();
                let tracks = match &artist {
                    Some(a) => self.library.tracks_view(q.as_str(), Some(a.as_str()), None),
                    None => self.library.tracks_view(q.as_str(), None, None),
                };
                self.play_tracks(tracks, 0);
            },
            Focus::Albums => {
                let artist = self.selected_artist();
                let album = self.selected_album();
                let tracks = match &artist {
                    Some(a) => self.library.tracks_view(q.as_str(), Some(a.as_str()), album.as_ref()),
                    None => self.library.tracks_view(q.as_str(), None, album.as_ref()),
                };
                self.play_tracks(tracks, 0);
            },
            Focus::Tracks => {
                if let Some(i) = self.track_state.selected() {
                    let tracks = duplicate_tracks(&self.view_tracks);
                    self.play_tracks(tracks, i);
                }
            },
            Focus::Queue => {
                if let Some(i) = self.queue_state.selected() {
                    self.play_index(i);
                }
            },
            _ => {},
        }
    }

    /// True if this left click is a double-click (same cell within 400 ms of
    /// the previous one). A double resets, so a triple click does not repeat it.
    pub fn is_double_click(&mut self, x: u16, y: u16) -> (r: bool)
        ensures
            r == (old(self).last_click matches Some((t, lx, ly)) && lx == x && ly == y && (if old(
                self,
            ).clock_ms >= t {
                old(self).clock_ms - t
            } else {
                0
            }) < 400),
            *final(self) == (App {
                last_click: if r {
                    None
                } else {
                    Some((old(self).clock_ms, x, y))
                },
                ..*old(self)
            }),
    {
        let now = self.clock_ms;
        let double = match self.last_click {
            Some((t, lx, ly)) => lx == x && ly == y && (if now >= t {
                now - t
            } else {
                0
            }) < 400,
            None => false,
        };
        self.last_click = if double {
            None
        } else {
            Some((now, x, y))
        };
        double
    }

    /// Appends the current selection (whole album, whole artist, or the
    /// highlighted track) to the queue and says how many were added.
    pub fn add_to_queue(&mut self)
        ensures
            add_to_queue_done(*old(self), *final(self)),
    {
        let q = to_lower(self.search.as_str());
        let to_add: Vec<Track> = match self.focus {
            Focus::Albums => {
                let artist = self.selected_artist();
                let album = self.selected_album();
                match &artist {
                    Some(a) => self.library.tracks_view(q.as_str(), Some(a.as_str()), album.as_ref()),
                    None => self.library.tracks_view(q.as_str(), None, album.as_ref()),
                }
            },
            Focus::Artists => {
                let artist = self.selected_artist();
                match &artist {
                    Some(a) => self.library.tracks_view(q.as_str(), Some(a.as_str()), None),
                    None => self.library.tracks_view(q.as_str(), None, None),
                }
            },
            _ => {
                let mut v: Vec<Track> = Vec::new();
                if let Some(i) = self.track_state.selected() {
                    if i < self.view_tracks.len() {
                        v.push(self.view_tracks[i].duplicate());
                    }
                }
                assert(tracks_view_of(v@) =~= match self.track_state.selected {
                    Some(i) => if (i as int) < self.view_tracks.len() {
                        seq![self.view_tracks@[i as int]@]
                    } else {
                        Seq::<TrackView>::empty()
                    },
                    None => Seq::<TrackView>::empty(),
                });
                v
            },
        };
        assert(queue_candidates(*old(self), tracks_view_of(to_add@)));
        if to_add.len() == 0 {
            return;
        }
        let n = to_add.len();
        let ghost before = self.queue@;
        let mut k: usize = 0;
        while k < to_add.len()
            invariant
                k <= to_add.len(),
                tracks_view_of(self.queue@) == tracks_view_of(before) + tracks_view_of(
                    to_add@.take(k as int),
                ),
                *self == (App { queue: self.queue, ..*old(self) }),
            decreases to_add.len() - k,
        {
            let ghost prev = self.queue@;
            self.queue.push(to_add[k].duplicate());
            assert(tracks_view_of(to_add@.take(k + 1)) =~= tracks_view_of(to_add@.take(k as int)).push(
                to_add@[k as int]@,
            ));
            assert(tracks_view_of(self.queue@) =~= tracks_view_of(prev).push(to_add@[k as int]@));
            k = k + 1;
        }
        assert(to_add@.take(to_add.len() as int) =~= to_add@);
        if self.queue_state.selected().is_none() {
            self.queue_state.select(Some(0));
        }
        let msg = number_message("Added ", n as u64, " track(s) to queue.");
        self.notify(msg);
    }
}

/// What [`App::move_selection`] does.
pub open spec fn move_selection_done(pre: App, post: App, delta: i32) -> bool {
    match pre.focus {
        Focus::Artists => views_refreshed(
            App {
                artist_state: moved(pre.artist_state, pre.view_artists.len() as nat, delta as int),
                ..pre
            },
            post,
        ),
        Focus::Albums => views_refreshed(
            App {
                album_state: moved(pre.album_state, pre.view_albums.len() as nat, delta as int),
                ..pre
            },
            post,
        ),
        Focus::Tracks => post == (App {
            track_state: moved(pre.track_state, pre.view_tracks.len() as nat, delta as int),
            ..pre
        }),
        Focus::Queue => post == (App {
            queue_state: moved(pre.queue_state, pre.queue.len() as nat, delta as int),
            ..pre
        }),
        _ => post == pre,
    }
}

/// What [`App::move_column`] does.
pub open spec fn move_column_done(pre: App, post: App, right: bool) -> bool {
    &&& post == (App {
        focus: if right {
            pre.focus.spec_right()
        } else {
            pre.focus.spec_left()
        },
        ..pre
    })
}

/// What [`App::transport_step`] does.
pub open spec fn transport_step_done(pre: App, post: App, delta: i32) -> bool {
    &&& post.transport_sel as int == (pre.transport_sel + delta) % 5
    &&& post.transport_sel < 5
    &&& post == (App { transport_sel: post.transport_sel, ..pre })
}

/// What [`App::on_left`] does.
pub open spec fn on_left_done(pre: App, post: App) -> bool {
    if pre.focus.spec_is_list() {
        post == (App { focus: pre.focus.spec_left(), ..pre })
    } else if pre.focus == Focus::Seekbar {
        post.effects@ == pre.effects@.push(Effect::SeekRelative(-5i64))
            && post == (App { effects: post.effects, ..pre })
    } else if pre.focus == Focus::Transport {
        post.transport_sel as int == (pre.transport_sel - 1) % 5
            && post == (App { transport_sel: post.transport_sel, ..pre })
    } else if pre.focus == Focus::Volume {
        post.effects@ == pre.effects@.push(Effect::VolumeStep(false))
            && post == (App { effects: post.effects, ..pre })
    } else {
        post == pre
    }
}

/// What [`App::on_right`] does.
pub open spec fn on_right_done(pre: App, post: App) -> bool {
    if pre.focus.spec_is_list() {
        post == (App { focus: pre.focus.spec_right(), ..pre })
    } else if pre.focus == Focus::Seekbar {
        post.effects@ == pre.effects@.push(Effect::SeekRelative(5i64))
            && post == (App { effects: post.effects, ..pre })
    } else if pre.focus == Focus::Transport {
        post.transport_sel as int == (pre.transport_sel + 1) % 5
            && post == (App { transport_sel: post.transport_sel, ..pre })
    } else if pre.focus == Focus::Volume {
        post.effects@ == pre.effects@.push(Effect::VolumeStep(true))
            && post == (App { effects: post.effects, ..pre })
    } else {
        post == pre
    }
}

/// What [`App::on_up`] does.
pub open spec fn on_up_done(pre: App, post: App) -> bool {
    if pre.focus == Focus::Volume {
        crate::app_play::volume_up_done(pre, post)
    } else {
        move_selection_done(pre, post, -1i32)
    }
}

/// What [`App::on_down`] does.
pub open spec fn on_down_done(pre: App, post: App) -> bool {
    if pre.focus == Focus::Volume {
        crate::app_play::volume_down_done(pre, post)
    } else {
        move_selection_done(pre, post, 1i32)
    }
}

/// What [`App::resize_focused`] does.
pub open spec fn resize_focused_done(pre: App, post: App, wider: bool) -> bool {
    if pre.focus == Focus::Queue {
        let v = clamp_i(
            pre.queue_pct + if wider {
                4int
            } else {
                -4int
            },
            10,
            60,
        );
        if v != pre.queue_pct {
            &&& post.queue_pct == v
            &&& post.config.layout.queue_pct == v
            &&& post.effects@ == pre.effects@.push(Effect::SaveConfig)
            &&& post == (App {
                queue_pct: post.queue_pct,
                config: post.config,
                effects: post.effects,
                ..pre
            })
            &&& post.config == (crate::config::Config {
                layout: crate::config::LayoutConfig {
                    queue_pct: v as u16,
                    ..pre.config.layout
                },
                ..pre.config
            })
        } else {
            post == pre
        }
    } else if column_of(pre.focus) is Some {
        let idx = column_of(pre.focus)->0;
        if resize_allowed(pre.col_widths@, idx, wider) {
            resized(pre, post, resized_cols(pre.col_widths@, idx, wider))
        } else {
            post == pre
        }
    } else {
        post == pre
    }
}

/// What [`App::drag_divider`] does.
pub open spec fn drag_divider_done(pre: App, post: App, divider: usize, pct: i32) -> bool {
    &&& post.col_widths@ == dragged_cols(pre.col_widths@, divider, pct as int)
    &&& post == (App { col_widths: post.col_widths, ..pre })
}

/// What [`App::persist_columns`] does.
pub open spec fn persist_columns_done(pre: App, post: App) -> bool {
    &&& post.config.layout.columns@ == pre.col_widths@
    &&& post.effects@ == pre.effects@.push(Effect::SaveConfig)
    &&& post.config == (crate::config::Config {
        layout: crate::config::LayoutConfig {
            columns: post.config.layout.columns,
            ..pre.config.layout
        },
        ..pre.config
    })
    &&& post == (App {
        config: post.config,
        effects: post.effects,
        ..pre
    })
}

/// What [`App::drag_queue_divider`] does.
pub open spec fn drag_queue_divider_done(pre: App, post: App, pct: i32) -> bool {
    &&& post.queue_pct == clamp_i(pct as int, 10, 60)
    &&& post == (App { queue_pct: post.queue_pct, ..pre })
}

/// What [`App::persist_queue_pct`] does.
pub open spec fn persist_queue_pct_done(pre: App, post: App) -> bool {
    &&& post.effects@ == pre.effects@.push(Effect::SaveConfig)
    &&& post.config == (crate::config::Config {
        layout: crate::config::LayoutConfig {
            queue_pct: pre.queue_pct,
            ..pre.config.layout
        },
        ..pre.config
    })
    &&& post == (App {
        config: post.config,
        effects: post.effects,
        ..pre
    })
}

/// What [`App::activate_transport`] does.
pub open spec fn activate_transport_done(pre: App, post: App) -> bool {
    if pre.transport_sel == 0 {
        crate::app_play::toggle_shuffle_done(pre, post)
    } else if pre.transport_sel == 1 {
        crate::app_play::prev_track_done(pre, post)
    } else if pre.transport_sel == 2 {
        crate::app_play::toggle_pause_done(pre, post)
    } else if pre.transport_sel == 3 {
        crate::app_play::next_track_done(pre, post, true)
    } else {
        crate::app_play::cycle_repeat_done(pre, post)
    }
}

/// What [`App::cycle_focus`] does.
pub open spec fn cycle_focus_done(pre: App, post: App, forward: bool) -> bool {
    &&& post == (App {
        focus: focus_at_index(
            (focus_index(pre.focus) + if forward {
                1int
            } else {
                7int
            }) % 8,
        ),
        ..pre
    })
}

/// What [`App::set_focus`] does.
pub open spec fn set_focus_done(pre: App, post: App, focus: Focus) -> bool {
    &&& focus == Focus::Search ==> post == (App {
        focus,
        search_cursor: pre.search@.len() as usize,
        ..pre
    })
    &&& focus != Focus::Search ==> post == (App { focus, ..pre })
}

/// What [`App::activate`] does.
pub open spec fn activate_done(pre: App, post: App) -> bool {
    match pre.focus {
        Focus::Search => post == (App { focus: Focus::Artists, ..pre }),
        Focus::Artists => post == (App { focus: Focus::Albums, ..pre }),
        Focus::Albums => post == (App { focus: Focus::Tracks, ..pre }),
        Focus::Tracks => match pre.track_state.selected {
            Some(i) => {
                &&& tracks_view_of(post.queue@) == tracks_view_of(pre.view_tracks@)
                &&& played(App { queue: post.queue, ..pre }, post, i as int)
            },
            None => post == pre,
        },
        Focus::Queue => match pre.queue_state.selected {
            Some(i) => played(pre, post, i as int),
            None => post == pre,
        },
        Focus::Seekbar => post.effects@ == pre.effects@.push(Effect::TogglePause)
            && post == (App { effects: post.effects, ..pre }),
        Focus::Transport => activate_transport_done(pre, post),
        Focus::Volume => post == pre,
    }
}

/// What [`App::activate_play`] does.
pub open spec fn activate_play_done(pre: App, post: App) -> bool {
    let q = lowercase(pre.search@);
    match pre.focus {
        Focus::Artists => exists|r: Seq<TrackView>|
            #[trigger] is_tracks_view(pre.library@, q, sel_artist(pre), None, r)
                && played_list(pre, post, r, 0),
        Focus::Albums => exists|r: Seq<TrackView>|
            #[trigger] is_tracks_view(
                pre.library@,
                q,
                sel_artist(pre),
                sel_album(pre),
                r,
            ) && played_list(pre, post, r, 0),
        Focus::Tracks => match pre.track_state.selected {
            Some(i) => played_list(
                pre,
                post,
                tracks_view_of(pre.view_tracks@),
                i as int,
            ),
            None => post == pre,
        },
        Focus::Queue => match pre.queue_state.selected {
            Some(i) => played(pre, post, i as int),
            None => post == pre,
        },
        _ => post == pre,
    }
}

/// What [`App::add_to_queue`] does.
pub open spec fn add_to_queue_done(pre: App, post: App) -> bool {
    &&& exists|r: Seq<TrackView>|
        #[trigger] queue_candidates(pre, r) && (r.len() == 0 ==> post == pre) && (r.len() > 0 ==> {
            &&& tracks_view_of(post.queue@) == tracks_view_of(pre.queue@) + r
            &&& notified(
                App {
                    queue: post.queue,
                    queue_state: if pre.queue_state.selected is None {
                        pre.queue_state.spec_select(Some(0))
                    } else {
                        pre.queue_state
                    },
                    ..pre
                },
                post,
                "Added "@ + decimal(r.len()) + " track(s) to queue."@,
            )
        })
}

/// Resizing a column from the keyboard moves width between two neighbours:
/// the total is unchanged and both stay at least 10 wide.
pub proof fn law_resize_keeps_total(c: Seq<u16>, idx: int, wider: bool)
    requires
        c.len() == 3,
        c[0] + c[1] + c[2] == 100,
        0 <= idx < 3,
        resize_allowed(c, idx, wider),
    ensures
        ({
            let r = resized_cols(c, idx, wider);
            let donor = if idx == 2 {
                1
            } else {
                idx + 1
            };
            &&& r.len() == 3
            &&& r[0] + r[1] + r[2] == 100
            &&& r[idx] >= 10 && r[donor] >= 10
        }),
{
}

/// Dragging a column divider keeps the widths summing to 100, and the two
/// columns beside the dragged boundary at least 10 wide.
pub proof fn law_drag_keeps_total(c: Seq<u16>, divider: usize, pct: int)
    requires
        c.len() == 3,
        c[0] + c[1] + c[2] == 100,
        divider == 0 ==> c[0] + c[1] >= 20,
        divider != 0 ==> c[0] <= 80,
    ensures
        ({
            let r = dragged_cols(c, divider, pct);
            &&& r.len() == 3
            &&& r[0] + r[1] + r[2] == 100
            &&& divider == 0 ==> r[0] >= 10 && r[1] >= 10
            &&& divider != 0 ==> r[1] >= 10 && r[2] >= 10
        }),
{
}

/// Enter on the track column plays the highlighted row: the listed tracks
/// become the queue, the highlighted entry is the one marked as playing, and
/// the one track asked to play is the highlighted track.
pub proof fn law_enter_plays_highlighted_track(pre: App, post: App, i: usize)
    requires
        pre.focus == Focus::Tracks,
        pre.track_state.selected == Some(i),
        i < pre.view_tracks.len(),
        activate_done(pre, post),
    ensures
        tracks_view_of(post.queue@) == tracks_view_of(pre.view_tracks@),
        post.now == Some(i),
        post.effects@.len() == pre.effects@.len() + 1,
        post.effects@.last() matches Effect::Play(t) && t@ == pre.view_tracks@[i as int]@,
{
    assert(tracks_view_of(post.queue@).len() == post.queue@.len());
    assert(tracks_view_of(pre.view_tracks@).len() == pre.view_tracks@.len());
    assert(tracks_view_of(post.queue@)[i as int] == post.queue@[i as int]@);
    assert(tracks_view_of(pre.view_tracks@)[i as int] == pre.view_tracks@[i as int]@);
}

/// Playing from the track column (a double-click) plays the highlighted row
/// in the same way: it becomes the entry marked as playing and the track
/// asked to play.
pub proof fn law_play_action_plays_highlighted_track(pre: App, post: App, i: usize)
    requires
        pre.focus == Focus::Tracks,
        pre.track_state.selected == Some(i),
        i < pre.view_tracks.len(),
        activate_play_done(pre, post),
    ensures
        tracks_view_of(post.queue@) == tracks_view_of(pre.view_tracks@),
        post.now == Some(i),
        post.effects@.len() == pre.effects@.len() + 1,
        post.effects@.last() matches Effect::Play(t) && t@ == pre.view_tracks@[i as int]@,
{
    assert(tracks_view_of(post.queue@).len() == post.queue@.len());
    assert(tracks_view_of(pre.view_tracks@).len() == pre.view_tracks@.len());
    assert(tracks_view_of(post.queue@)[i as int] == post.queue@[i as int]@);
    assert(tracks_view_of(pre.view_tracks@)[i as int] == pre.view_tracks@[i as int]@);
}

/// Adding from the album column with an album chosen queues that album's
/// tracks only: every added track belongs to the chosen album (and to the
/// chosen album artist, when one is chosen), the queue keeps its earlier
/// entries in front, and the added tracks are the track column's listing for
/// that artist and album.
pub proof fn law_add_album_queues_that_album(pre: App, post: App, j: usize)
    requires
        pre.focus == Focus::Albums,
        pre.album_state.selected == Some(j),
        0 < j < pre.view_albums.len(),
        add_to_queue_done(pre, post),
    ensures
        post.queue.len() >= pre.queue.len(),
        tracks_view_of(post.queue@).take(pre.queue.len() as int) == tracks_view_of(pre.queue@),
        forall|k: int|
            pre.queue.len() <= k < post.queue.len() ==> album_of(#[trigger] tracks_view_of(post.queue@)[k])
                == pre.view_albums@[j as int]@,
        forall|k: int|
            pre.queue.len() <= k < post.queue.len() ==> (sel_artist(pre) matches Some(a) ==> (
            #[trigger] tracks_view_of(post.queue@)[k]).album_artist == a),
        is_tracks_view(
            pre.library@,
            lowercase(pre.search@),
            sel_artist(pre),
            Some(pre.view_albums@[j as int]@),
            tracks_view_of(post.queue@).skip(pre.queue.len() as int),
        ),
{
    let r = choose|r: Seq<TrackView>|
        #[trigger] queue_candidates(pre, r) && (r.len() == 0 ==> post == pre) && (r.len() > 0 ==> {
            &&& tracks_view_of(post.queue@) == tracks_view_of(pre.queue@) + r
            &&& notified(
                App {
                    queue: post.queue,
                    queue_state: if pre.queue_state.selected is None {
                        pre.queue_state.spec_select(Some(0))
                    } else {
                        pre.queue_state
                    },
                    ..pre
                },
                post,
                "Added "@ + decimal(r.len()) + " track(s) to queue."@,
            )
        });
    assert(sel_album(pre) == Some(pre.view_albums@[j as int]@));
    let q = lowercase(pre.search@);
    law_tracks_view_selected(pre.library@, q, sel_artist(pre), sel_album(pre), r);
    let pv = tracks_view_of(pre.queue@);
    let qv = tracks_view_of(post.queue@);
    assert(pv.len() == pre.queue.len());
    assert(qv.len() == post.queue.len());
    if r.len() == 0 {
        assert(qv.skip(pre.queue.len() as int) =~= r);
        assert(qv.take(pre.queue.len() as int) =~= pv);
    } else {
        assert(qv.skip(pre.queue.len() as int) =~= r);
        assert(qv.take(pre.queue.len() as int) =~= pv);
        assert forall|k: int| pre.queue.len() <= k < post.queue.len() implies album_of(
            #[trigger] qv[k],
        ) == pre.view_albums@[j as int]@ && (sel_artist(pre) matches Some(a) ==> qv[k].album_artist
            == a) by {
            assert(qv[k] == r[k - pre.queue.len()]);
        }
    }
}

/// Enter on the queue plays the highlighted queue entry: the queue is kept,
/// the highlighted entry is the one marked as playing, and the one track
/// asked to play is that entry.
pub proof fn law_enter_on_queue_plays_highlighted_entry(pre: App, post: App, i: usize)
    requires
        pre.focus == Focus::Queue,
        pre.queue_state.selected == Some(i),
        i < pre.queue.len(),
        activate_done(pre, post),
    ensures
        post.queue == pre.queue,
        post.now == Some(i),
        post.effects@.len() == pre.effects@.len() + 1,
        post.effects@.last() matches Effect::Play(t) && t@ == pre.queue@[i as int]@,
{
}

/// Adding from the artist column queues only tracks of the chosen album
/// artist (every matching track when "All" is chosen), after the entries
/// already queued.
pub proof fn law_add_artist_queues_that_artist(pre: App, post: App, j: usize)
    requires
        pre.focus == Focus::Artists,
        pre.artist_state.selected == Some(j),
        0 < j < pre.view_artists.len(),
        add_to_queue_done(pre, post),
    ensures
        post.queue.len() >= pre.queue.len(),
        tracks_view_of(post.queue@).take(pre.queue.len() as int) == tracks_view_of(pre.queue@),
        forall|k: int|
            pre.queue.len() <= k < post.queue.len() ==> (#[trigger] tracks_view_of(post.queue@)[k]).album_artist
                == pre.view_artists@[j as int]@,
{
    let r = choose|r: Seq<TrackView>|
        #[trigger] queue_candidates(pre, r) && (r.len() == 0 ==> post == pre) && (r.len() > 0 ==> {
            &&& tracks_view_of(post.queue@) == tracks_view_of(pre.queue@) + r
            &&& notified(
                App {
                    queue: post.queue,
                    queue_state: if pre.queue_state.selected is None {
                        pre.queue_state.spec_select(Some(0))
                    } else {
                        pre.queue_state
                    },
                    ..pre
                },
                post,
                "Added "@ + decimal(r.len()) + " track(s) to queue."@,
            )
        });
    assert(sel_artist(pre) == Some(pre.view_artists@[j as int]@));
    law_tracks_view_selected(pre.library@, lowercase(pre.search@), sel_artist(pre), None, r);
    let pv = tracks_view_of(pre.queue@);
    let qv = tracks_view_of(post.queue@);
    assert(pv.len() == pre.queue.len());
    assert(qv.len() == post.queue.len());
    assert(qv.take(pre.queue.len() as int) =~= pv);
    if r.len() > 0 {
        assert forall|k: int| pre.queue.len() <= k < post.queue.len() implies (#[trigger] qv[k]).album_artist
            == pre.view_artists@[j as int]@ by {
            assert(qv[k] == r[k - pre.queue.len()]);
        }
    }
}

/// Adding from the track column queues exactly the highlighted track, after
/// the entries already queued.
pub proof fn law_add_track_queues_highlighted_track(pre: App, post: App, i: usize)
    requires
        pre.focus == Focus::Tracks,
        pre.track_state.selected == Some(i),
        i < pre.view_tracks.len(),
        add_to_queue_done(pre, post),
    ensures
        post.queue.len() == pre.queue.len() + 1,
        tracks_view_of(post.queue@) == tracks_view_of(pre.queue@).push(pre.view_tracks@[i as int]@),
{
    let pv = tracks_view_of(pre.queue@);
    assert(pv.len() == pre.queue.len());
    assert(tracks_view_of(post.queue@).len() == post.queue.len());
    assert(pv + seq![pre.view_tracks@[i as int]@] =~= pv.push(pre.view_tracks@[i as int]@));
}

} // verus!
