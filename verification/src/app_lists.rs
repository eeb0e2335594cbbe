//! Playlists, settings toggles, library scans and music-directory editing.
use vstd::prelude::*;

use crate::app::{number_message, owned, pl_len_at, text_message, views_refreshed, App};
use crate::app_play::{notified, played};
use crate::config::joined_path;
use crate::model::{duplicate_tracks, tracks_view_of, Library, Track, TrackView};
use crate::playlist::Playlist;
use crate::scan::ScanMsg;
use crate::state::{clamped, move_state, moved, Effect, PlPane};
use crate::text::{chars_of, has_prefix, skip_chars, starts_with_chars, string_of, trim, trim_chars};

verus! {

/// A leading `~/` expanded against some home directory, or the text unchanged.
pub open spec fn home_expanded(p: Seq<char>, r: Seq<char>) -> bool {
    r == p || (has_prefix(p, seq!['~', '/']) && exists|home: Seq<char>|
        r == #[trigger] joined_path(home, p.skip(2)))
}

/// Expands a leading `~/` to the user's home directory (when there is one).
pub fn shellexpand_home(p: &str) -> (r: String)
    ensures
        home_expanded(p@, r@),
        !has_prefix(p@, seq!['~', '/']) ==> r@ == p@,
{
    let v = chars_of(p);
    let prefix = vec!['~', '/'];
    assert(prefix@ =~= seq!['~', '/']);
    if starts_with_chars(&v, &prefix) {
        if let Some(home) = crate::config::home_dir() {
            let rest = string_of(&skip_chars(&v, 2));
            return crate::config::path_join(home.as_str(), rest.as_str());
        }
    }
    String::from_str(p)
}

/// The track count of the playlist a selection points at, if it points at one.
pub open spec fn sel_playlist(a: App) -> Option<int> {
    match a.playlist_state.selected {
        Some(i) => if (i as int) < a.playlists.len() {
            Some(i as int)
        } else {
            None
        },
        None => None,
    }
}

impl App {
    /// The playlist selected in the Playlists tab.
    pub fn selected_playlist(&self) -> (r: Option<&Playlist>)
        ensures
            match sel_playlist(*self) {
                Some(i) => r == Some(&self.playlists@[i]),
                None => r is None,
            },
    {
        match self.playlist_state.selected() {
            Some(i) => if i < self.playlists.len() {
                Some(&self.playlists[i])
            } else {
                None
            },
            None => None,
        }
    }

    /// Up/down in the Playlists tab: in the list pane moves between playlists
    /// (highlighting the first track of a non-empty one); in the track pane
    /// moves between the selected playlist's tracks.
    pub fn pl_move(&mut self, delta: i32)
        ensures
            pl_move_done(*old(self), *final(self), delta),
    {
        match self.pl_focus {
            PlPane::List => {
                move_state(&mut self.playlist_state, self.playlists.len(), delta);
                let sel = match self.playlist_state.selected() {
                    Some(i) => i,
                    None => 0,
                };
                let has = sel < self.playlists.len() && self.playlists[sel].tracks.len() > 0;
                self.pl_track_state.select(
                    if has {
                        Some(0)
                    } else {
                        None
                    },
                );
            },
            PlPane::Tracks => {
                let n = match self.playlist_state.selected() {
                    Some(i) => if i < self.playlists.len() {
                        self.playlists[i].tracks.len()
                    } else {
                        0
                    },
                    None => 0,
                };
                move_state(&mut self.pl_track_state, n, delta);
            },
        }
    }

    /// Chooses the active pane of the Playlists tab.
    pub fn pl_set_pane(&mut self, pane: PlPane)
        ensures
            pl_set_pane_done(*old(self), *final(self), pane),
    {
        self.pl_focus = pane;
    }

    /// Enter in the Playlists tab: plays the selected playlist (from the
    /// chosen track when the track pane is active).
    pub fn pl_activate(&mut self)
        ensures
            pl_activate_done(*old(self), *final(self)),
    {
        let start = match self.pl_focus {
            PlPane::Tracks => match self.pl_track_state.selected() {
                Some(t) => t,
                None => 0,
            },
            PlPane::List => 0,
        };
        let i = match self.playlist_state.selected() {
            Some(i) => i,
            None => {
                return;
            },
        };
        if i >= self.playlists.len() {
            return;
        }
        if self.playlists[i].tracks.len() == 0 {
            self.status = owned("Playlist is empty.");
            return;
        }
        let tracks = duplicate_tracks(&self.playlists[i].tracks);
        self.play_tracks(tracks, start);
    }

    /// Starts naming a new playlist made of the queue (refused when the queue is empty).
    pub fn begin_new_playlist(&mut self)
        ensures
            begin_new_playlist_done(*old(self), *final(self)),
    {
        if self.queue.len() == 0 {
            self.status = owned("Queue is empty — nothing to save as a playlist.");
            return;
        }
        self.editing_playlist_name = Some(String::new());
    }

    /// Types a character into the new playlist's name.
    pub fn pl_name_input(&mut self, c: char)
        ensures
            pl_name_input_done(*old(self), *final(self), c),
    {
        if let Some(b) = &self.editing_playlist_name {
            let mut v = chars_of(b.as_str());
            v.push(c);
            self.editing_playlist_name = Some(string_of(&v));
        }
    }

    /// Deletes the last character of the new playlist's name.
    pub fn pl_name_backspace(&mut self)
        ensures
            pl_name_backspace_done(*old(self), *final(self)),
    {
        if let Some(b) = &self.editing_playlist_name {
            let mut v = chars_of(b.as_str());
            if v.len() > 0 {
                v.pop();
            }
            self.editing_playlist_name = Some(string_of(&v));
        }
    }

    /// Abandons naming a new playlist.
    pub fn cancel_new_playlist(&mut self)
        ensures
            cancel_new_playlist_done(*old(self), *final(self)),
    {
        self.editing_playlist_name = None;
    }

    /// Saves the queue as a playlist under the typed name (trimmed; a blank
    /// name saves nothing) and selects it.
    pub fn commit_new_playlist(&mut self)
        ensures
            commit_new_playlist_done(*old(self), *final(self)),
    {
        let name = match self.editing_playlist_name.take() {
            Some(n) => n,
            None => {
                return;
            },
        };
        let trimmed = trim_chars(&chars_of(name.as_str()));
        if trimmed.len() == 0 {
            return;
        }
        let n = self.queue.len();
        let name = string_of(&trimmed);
        let tracks = duplicate_tracks(&self.queue);
        let ghost before = self.playlists@;
        self.playlists.push(Playlist { name: name.clone(), tracks });
        assert(self.playlists@.take(before.len() as int) =~= before);
        self.effects.push(Effect::SavePlaylists);
        self.playlist_state.select(Some(self.playlists.len() - 1));
        self.clamp_pl_states();
        let head = text_message("Saved playlist '", name.as_str(), "' (");
        let tail = number_message("", n as u64, " tracks).");
        let mut v = chars_of(head.as_str());
        crate::text::append_chars(&mut v, &chars_of(tail.as_str()));
        proof {
            reveal_strlit("");
        }
        self.status = string_of(&v);
        assert(self.status@ =~= "Saved playlist '"@ + trimmed@ + "' ("@ + crate::text::decimal(
            n as nat,
        ) + " tracks)."@);
    }

    /// Appends the queue to the selected playlist.
    pub fn append_queue_to_playlist(&mut self)
        ensures
            append_queue_to_playlist_done(*old(self), *final(self)),
    {
        if self.queue.len() == 0 {
            return;
        }
        let i = match self.playlist_state.selected() {
            Some(i) => i,
            None => {
                return;
            },
        };
        if i >= self.playlists.len() {
            return;
        }
        let n = self.queue.len();
        let extra = duplicate_tracks(&self.queue);
        let mut pl = self.playlists[i].clone_playlist();
        let ghost old_tracks = tracks_view_of(pl.tracks@);
        let mut k: usize = 0;
        while k < extra.len()
            invariant
                k <= extra.len(),
                tracks_view_of(pl.tracks@) == old_tracks + tracks_view_of(extra@.take(k as int)),
                pl.name@ == old(self).playlists@[i as int].name@,
            decreases extra.len() - k,
        {
            let ghost prev = pl.tracks@;
            pl.tracks.push(extra[k].duplicate());
            assert(tracks_view_of(extra@.take(k + 1)) =~= tracks_view_of(extra@.take(k as int)).push(
                extra@[k as int]@,
            ));
            assert(tracks_view_of(pl.tracks@) =~= tracks_view_of(prev).push(extra@[k as int]@));
            k = k + 1;
        }
        assert(extra@.take(extra.len() as int) =~= extra@);
        let name = pl.name.clone();
        self.playlists.set(i, pl);
        self.effects.push(Effect::SavePlaylists);
        self.clamp_pl_states();
        let head = number_message("Added ", n as u64, " track(s) to '");
        self.status = text_message(head.as_str(), name.as_str(), "'.");
    }

    /// Deletes the selected playlist.
    pub fn delete_playlist(&mut self)
        ensures
            delete_playlist_done(*old(self), *final(self)),
    {
        let i = match self.playlist_state.selected() {
            Some(i) => i,
            None => {
                return;
            },
        };
        if i >= self.playlists.len() {
            return;
        }
        let removed = self.playlists.remove(i);
        self.effects.push(Effect::SavePlaylists);
        self.clamp_pl_states();
        self.status = text_message("Deleted playlist '", removed.name.as_str(), "'.");
    }

    /// Removes the selected track from the selected playlist.
    pub fn remove_pl_track(&mut self)
        ensures
            remove_pl_track_done(*old(self), *final(self)),
    {
        let i = match self.playlist_state.selected() {
            Some(i) => i,
            None => {
                return;
            },
        };
        let t = match self.pl_track_state.selected() {
            Some(t) => t,
            None => {
                return;
            },
        };
        if i >= self.playlists.len() || t >= self.playlists[i].tracks.len() {
            return;
        }
        let mut pl = self.playlists[i].clone_playlist();
        let ghost before = pl.tracks@;
        assert(pl.tracks@.len() == tracks_view_of(pl.tracks@).len());
        assert(self.playlists@[i as int].tracks@.len() == tracks_view_of(
            self.playlists@[i as int].tracks@,
        ).len());
        pl.tracks.remove(t);
        assert(tracks_view_of(pl.tracks@) =~= tracks_view_of(before).remove(t as int));
        self.playlists.set(i, pl);
        self.effects.push(Effect::SavePlaylists);
        self.clamp_pl_states();
    }
}

impl Playlist {
    /// A copy with the same name and track values.
    pub fn clone_playlist(&self) -> (r: Playlist)
        ensures
            r@ == self@,
    {
        Playlist { name: self.name.clone(), tracks: duplicate_tracks(&self.tracks) }
    }
}

/// What [`App::pl_move`] does.
pub open spec fn pl_move_done(pre: App, post: App, delta: i32) -> bool {
    match pre.pl_focus {
        PlPane::List => {
            let ps = moved(pre.playlist_state, pre.playlists.len() as nat, delta as int);
            let has = pl_len_at(pre.playlists@, ps) > 0;
            post == (App {
                playlist_state: ps,
                pl_track_state: pre.pl_track_state.spec_select(
                    if has {
                        Some(0)
                    } else {
                        None
                    },
                ),
                ..pre
            })
        },
        PlPane::Tracks => post == (App {
            pl_track_state: moved(
                pre.pl_track_state,
                match sel_playlist(pre) {
                    Some(i) => pre.playlists@[i].tracks.len() as nat,
                    None => 0,
                },
                delta as int,
            ),
            ..pre
        }),
    }
}

/// What [`App::pl_set_pane`] does.
pub open spec fn pl_set_pane_done(pre: App, post: App, pane: PlPane) -> bool {
    &&& post == (App { pl_focus: pane, ..pre })
}

/// What [`App::pl_activate`] does.
pub open spec fn pl_activate_done(pre: App, post: App) -> bool {
    let start = match pre.pl_focus {
        PlPane::Tracks => match pre.pl_track_state.selected {
            Some(t) => t as int,
            None => 0,
        },
        PlPane::List => 0,
    };
    match sel_playlist(pre) {
        None => post == pre,
        Some(i) => if pre.playlists@[i].tracks.len() == 0 {
            post == (App { status: post.status, ..pre })
                && post.status@ == "Playlist is empty."@
        } else {
            crate::app_nav::played_list(
                pre,
                post,
                tracks_view_of(pre.playlists@[i].tracks@),
                start,
            )
        },
    }
}

/// What [`App::begin_new_playlist`] does.
pub open spec fn begin_new_playlist_done(pre: App, post: App) -> bool {
    &&& pre.queue.len() == 0 ==> post == (App {
        status: post.status,
        ..pre
    }) && post.status@ == "Queue is empty — nothing to save as a playlist."@
    &&& pre.queue.len() > 0 ==> post == (App {
        editing_playlist_name: Some(post.editing_playlist_name->0),
        ..pre
    }) && (post.editing_playlist_name matches Some(n) && n@.len() == 0)
}

/// What [`App::pl_name_input`] does.
pub open spec fn pl_name_input_done(pre: App, post: App, c: char) -> bool {
    &&& match pre.editing_playlist_name {
        Some(b) => (post.editing_playlist_name matches Some(n) && n@ == b@.push(c))
            && post == (App {
            editing_playlist_name: post.editing_playlist_name,
            ..pre
        }),
        None => post == pre,
    }
}

/// What [`App::pl_name_backspace`] does.
pub open spec fn pl_name_backspace_done(pre: App, post: App) -> bool {
    &&& match pre.editing_playlist_name {
        Some(b) => (post.editing_playlist_name matches Some(n) && n@ == (if b@.len()
            > 0 {
            b@.drop_last()
        } else {
            b@
        })) && post == (App {
            editing_playlist_name: post.editing_playlist_name,
            ..pre
        }),
        None => post == pre,
    }
}

/// What [`App::cancel_new_playlist`] does.
pub open spec fn cancel_new_playlist_done(pre: App, post: App) -> bool {
    &&& post == (App { editing_playlist_name: None, ..pre })
}

/// What [`App::commit_new_playlist`] does.
pub open spec fn commit_new_playlist_done(pre: App, post: App) -> bool {
    match pre.editing_playlist_name {
        None => post == pre,
        Some(n) => if trim(n@).len() == 0 {
            post == (App { editing_playlist_name: None, ..pre })
        } else {
            let k = pre.playlists.len();
            &&& post.playlists@.len() == k + 1
            &&& post.playlists@.take(k as int) == pre.playlists@
            &&& post.playlists@[k as int]@.name == trim(n@)
            &&& post.playlists@[k as int]@.tracks == tracks_view_of(pre.queue@)
            &&& post.effects@ == pre.effects@.push(Effect::SavePlaylists)
            &&& post.playlist_state == clamped(
                pre.playlist_state.spec_select(Some(k as usize)),
                (k + 1) as nat,
            )
            &&& post.pl_track_state == clamped(
                pre.pl_track_state,
                pl_len_at(post.playlists@, post.playlist_state),
            )
            &&& post.status@ == "Saved playlist '"@ + trim(n@) + "' ("@
                + crate::text::decimal(pre.queue.len() as nat) + " tracks)."@
            &&& post == (App {
                editing_playlist_name: None,
                playlists: post.playlists,
                effects: post.effects,
                playlist_state: post.playlist_state,
                pl_track_state: post.pl_track_state,
                status: post.status,
                ..pre
            })
        },
    }
}

/// What [`App::append_queue_to_playlist`] does.
pub open spec fn append_queue_to_playlist_done(pre: App, post: App) -> bool {
    if pre.queue.len() == 0 || sel_playlist(pre) is None {
        post == pre
    } else {
        let i = sel_playlist(pre)->0;
        &&& post.playlists@.len() == pre.playlists@.len()
        &&& forall|j: int|
            0 <= j < pre.playlists@.len() && j != i ==> #[trigger] post.playlists@[j] == pre.playlists@[j]
        &&& post.playlists@[i]@.name == pre.playlists@[i]@.name
        &&& post.playlists@[i]@.tracks == pre.playlists@[i]@.tracks
            + tracks_view_of(pre.queue@)
        &&& post.effects@ == pre.effects@.push(Effect::SavePlaylists)
        &&& post.playlist_state == clamped(
            pre.playlist_state,
            pre.playlists.len() as nat,
        )
        &&& post.pl_track_state == clamped(
            pre.pl_track_state,
            pl_len_at(post.playlists@, post.playlist_state),
        )
        &&& post.status@ == "Added "@ + crate::text::decimal(
            pre.queue.len() as nat,
        ) + " track(s) to '"@ + pre.playlists@[i]@.name + "'."@
        &&& post == (App {
            playlists: post.playlists,
            effects: post.effects,
            playlist_state: post.playlist_state,
            pl_track_state: post.pl_track_state,
            status: post.status,
            ..pre
        })
    }
}

/// What [`App::delete_playlist`] does.
pub open spec fn delete_playlist_done(pre: App, post: App) -> bool {
    match sel_playlist(pre) {
        None => post == pre,
        Some(i) => {
            &&& post.playlists@ == pre.playlists@.remove(i)
            &&& post.effects@ == pre.effects@.push(Effect::SavePlaylists)
            &&& post.playlist_state == clamped(
                pre.playlist_state,
                (pre.playlists.len() - 1) as nat,
            )
            &&& post.pl_track_state == clamped(
                pre.pl_track_state,
                pl_len_at(post.playlists@, post.playlist_state),
            )
            &&& post.status@ == "Deleted playlist '"@ + pre.playlists@[i]@.name
                + "'."@
            &&& post == (App {
                playlists: post.playlists,
                effects: post.effects,
                playlist_state: post.playlist_state,
                pl_track_state: post.pl_track_state,
                status: post.status,
                ..pre
            })
        },
    }
}

/// What [`App::remove_pl_track`] does.
pub open spec fn remove_pl_track_done(pre: App, post: App) -> bool {
    match (sel_playlist(pre), pre.pl_track_state.selected) {
        (Some(i), Some(t)) if (t as int) < pre.playlists@[i].tracks.len() => {
            &&& post.playlists@.len() == pre.playlists@.len()
            &&& forall|j: int|
                0 <= j < pre.playlists@.len() && j != i ==> #[trigger] post.playlists@[j] == pre.playlists@[j]
            &&& post.playlists@[i]@.name == pre.playlists@[i]@.name
            &&& post.playlists@[i]@.tracks == pre.playlists@[i]@.tracks.remove(
                t as int,
            )
            &&& post.effects@ == pre.effects@.push(Effect::SavePlaylists)
            &&& post.playlist_state == clamped(
                pre.playlist_state,
                pre.playlists.len() as nat,
            )
            &&& post.pl_track_state == clamped(
                pre.pl_track_state,
                pl_len_at(post.playlists@, post.playlist_state),
            )
            &&& post == (App {
                playlists: post.playlists,
                effects: post.effects,
                playlist_state: post.playlist_state,
                pl_track_state: post.pl_track_state,
                ..pre
            })
        },
        _ => post == pre,
    }
}

} // verus!
