//! Queue and playback decisions of the interface state machine.
use vstd::prelude::*;

use crate::app::{number_message, owned, text_message, xorshift_step, App};
use crate::model::{tracks_view_of, duplicate_tracks, is_tracks_view, RepeatMode, Track, TrackView};
use crate::state::{Effect, Focus, ListState};
use crate::text::{append_chars, chars_of, lowercase, string_of, to_lower};

verus! {

/// `post` is `pre` with one more effect: playing a track with value `t`.
pub open spec fn play_pushed(pre: Seq<Effect>, post: Seq<Effect>, t: TrackView) -> bool {
    &&& post.len() == pre.len() + 1
    &&& post.take(pre.len() as int) == pre
    &&& post.last() matches Effect::Play(x) && x@ == t
}

/// `post` is `pre` after asking to play queue entry `i` (nothing happens when
/// `i` is outside the queue).
pub open spec fn played(pre: App, post: App, i: int) -> bool {
    if 0 <= i < pre.queue.len() {
        &&& post == (App {
            now: Some(i as usize),
            queue_state: pre.queue_state.spec_select(Some(i as usize)),
            effects: post.effects,
            ..pre
        })
        &&& play_pushed(pre.effects@, post.effects@, pre.queue@[i]@)
    } else {
        post == pre
    }
}

/// When a transient message set at `clock` expires.
pub open spec fn expiry(clock: u64) -> u64 {
    if clock + 4000 > u64::MAX {
        u64::MAX
    } else {
        (clock + 4000) as u64
    }
}

/// `post` is `pre` showing the transient message `msg`.
pub open spec fn notified(pre: App, post: App, msg: Seq<char>) -> bool {
    &&& post == (App { status: post.status, notify_until: Some(expiry(pre.clock_ms)), ..pre })
    &&& post.status@ == msg
}

/// The shuffle pick for a queue of `len` entries: the next random number
/// modulo `len`, moved one place on when it hits the current entry.
pub open spec fn shuffle_pick(rng: u64, len: int, cur: int) -> int {
    let r = (vstd::wrapping::u64_specs::wrapping_mul(xorshift_step(rng), 0x2545F4914F6CDD1Du64)
        as int) % len;
    if r == cur {
        (r + 1) % len
    } else {
        r
    }
}

/// The queue entry playback advances to, without playing it: `None` when
/// the queue is empty, in repeat-one mode, when nothing is playing, or at
/// the end without repeat-all. Shuffle draws a random entry.
pub open spec fn peeked(a: App) -> Option<int> {
    let len = a.queue.len() as int;
    if len == 0 || a.repeat == RepeatMode::One || a.now is None {
        None
    } else {
        let cur = a.now->0 as int;
        if a.shuffle && len > 1 {
            Some(shuffle_pick(a.rng, len, cur))
        } else if cur + 1 < len {
            Some(cur + 1)
        } else if a.repeat == RepeatMode::All {
            Some(0)
        } else {
            None
        }
    }
}

impl App {
    /// Shows a transient message that reverts to the now-playing line after
    /// four seconds (see [`App::on_tick`]).
    pub fn notify(&mut self, msg: String)
        ensures
            notify_done(*old(self), *final(self), msg),
    {
        self.status = msg;
        self.notify_until = Some(self.clock_ms.saturating_add(4000));
    }

    /// Records the playing track as the persistent status line, clearing any
    /// transient message.
    pub fn set_now_playing(&mut self, track: &Track)
        ensures
            set_now_playing_done(*old(self), *final(self), track),
    {
        let line = text_message("▶ ", track.track_artist.as_str(), " — ");
        let mut v = chars_of(line.as_str());
        append_chars(&mut v, &chars_of(track.title.as_str()));
        self.now_playing = string_of(&v);
        self.status = string_of(&v);
        self.notify_until = None;
    }

    /// Asks to play queue entry `i` (ignored when `i` is outside the queue).
    pub fn play_index(&mut self, i: usize)
        ensures
            play_index_done(*old(self), *final(self), i),
    {
        if i >= self.queue.len() {
            return;
        }
        let track = self.queue[i].duplicate();
        self.now = Some(i);
        self.queue_state.select(Some(i));
        let ghost before = self.effects@;
        self.effects.push(Effect::Play(track));
        assert(self.effects@.take(before.len() as int) =~= before);
    }

    /// The program started the requested track.
    pub fn play_started(&mut self, track: &Track)
        ensures
            play_started_done(*old(self), *final(self), track),
    {
        self.set_now_playing(track);
    }

    /// The program could not start the requested track.
    pub fn play_failed(&mut self, err: &str)
        ensures
            play_failed_done(*old(self), *final(self), err),
    {
        self.status = text_message("Error: ", err, "");
        proof {
            reveal_strlit("");
        }
        assert(self.status@ =~= "Error: "@ + err@);
    }

    /// Replaces the queue with `tracks` and plays entry `start` (capped at the
    /// last entry). An empty list changes nothing.
    pub fn play_tracks(&mut self, tracks: Vec<Track>, start: usize)
        ensures
            play_tracks_done(*old(self), *final(self), tracks, start),
    {
        if tracks.len() == 0 {
            return;
        }
        let s = if start < tracks.len() {
            start
        } else {
            tracks.len() - 1
        };
        self.queue = tracks;
        self.play_index(s);
    }

    /// Asks to pause or resume.
    pub fn toggle_pause(&mut self)
        ensures
            toggle_pause_done(*old(self), *final(self)),
    {
        self.effects.push(Effect::TogglePause);
    }

    /// Advances playback: repeat-one replays the current entry (unless the
    /// user asked), shuffle draws a random other entry, otherwise the next
    /// entry, wrapping to the first with repeat-all; at the end playback stops.
    /// An automatic advance with no queue entry playing (after the queue was
    /// cleared or the playing entry removed) does nothing.
    #[verifier::rlimit(40)]
    pub fn next_track(&mut self, user: bool)
        ensures
            next_track_done(*old(self), *final(self), user),
    {
        let len = self.queue.len();
        if len == 0 {
            return;
        }
        if !user && self.now.is_none() {
            return;
        }
        if self.repeat == RepeatMode::One && !user {
            if let Some(i) = self.now {
                self.play_index(i);
            }
            return;
        }
        let cur = match self.now {
            Some(n) => n,
            None => 0,
        };
        if self.shuffle && len > 1 {
            let x = self.next_rand();
            let mut r = (x % (len as u64)) as usize;
            if r == cur {
                r = (r + 1) % len;
            }
            self.play_index(r);
        } else if cur < len - 1 {
            self.play_index(cur + 1);
        } else if self.repeat == RepeatMode::All {
            self.play_index(0);
        } else {
            self.effects.push(Effect::Stop);
            self.now = None;
        }
    }

    /// Goes back: more than three seconds into a track restarts it; otherwise
    /// the previous entry, wrapping to the last with repeat-all.
    pub fn prev_track(&mut self)
        ensures
            prev_track_done(*old(self), *final(self)),
    {
        if self.queue.len() == 0 {
            return;
        }
        if self.position_secs > 3 {
            if let Some(i) = self.now {
                self.play_index(i);
                return;
            }
        }
        let cur = match self.now {
            Some(n) => n,
            None => 0,
        };
        let prev = if cur == 0 {
            if self.repeat == RepeatMode::All {
                self.queue.len() - 1
            } else {
                0
            }
        } else {
            cur - 1
        };
        self.play_index(prev);
    }

    /// The entry playback would advance to next (see [`peeked`]); drawing a
    /// shuffle number steps the generator.
    pub fn peek_next_index(&mut self) -> (r: Option<usize>)
        ensures
            match peeked(*old(self)) {
                Some(i) => r == Some(i as usize) && 0 <= i < old(self).queue.len(),
                None => r is None,
            },
            ({
                let pre = *old(self);
                if peeked(pre) is Some && pre.shuffle && pre.queue.len() > 1 {
                    *final(self) == (App { rng: xorshift_step(pre.rng), ..pre })
                } else {
                    *final(self) == pre
                }
            }),
    {
        let len = self.queue.len();
        if len == 0 || self.repeat == RepeatMode::One {
            return None;
        }
        let cur = match self.now {
            Some(n) => n,
            None => {
                return None;
            },
        };
        if self.shuffle && len > 1 {
            let x = self.next_rand();
            let mut r = (x % (len as u64)) as usize;
            if r == cur {
                r = (r + 1) % len;
            }
            Some(r)
        } else if cur < len - 1 {
            Some(cur + 1)
        } else if self.repeat == RepeatMode::All {
            Some(0)
        } else {
            None
        }
    }

    /// The program began crossfading into queue entry `i` (as returned by
    /// [`App::peek_next_index`]): it becomes the current entry.
    pub fn crossfade_started(&mut self, i: usize)
        ensures
            crossfade_started_done(*old(self), *final(self), i),
    {
        if i >= self.queue.len() {
            return;
        }
        self.now = Some(i);
        self.queue_state.select(Some(i));
        let track = self.queue[i].duplicate();
        self.set_now_playing(&track);
    }

    /// Turns shuffle on or off and says so.
    pub fn toggle_shuffle(&mut self)
        ensures
            toggle_shuffle_done(*old(self), *final(self)),
    {
        self.shuffle = !self.shuffle;
        let msg = if self.shuffle {
            owned("Shuffle on")
        } else {
            owned("Shuffle off")
        };
        self.notify(msg);
    }

    /// Steps the repeat mode (Off → All → One → Off) and says so.
    pub fn cycle_repeat(&mut self)
        ensures
            cycle_repeat_done(*old(self), *final(self)),
    {
        self.repeat = self.repeat.next();
        let g = self.repeat.glyph();
        let msg = text_message("Repeat: ", g, "");
        proof {
            reveal_strlit("");
        }
        assert(msg@ =~= "Repeat: "@ + g@);
        self.notify(msg);
    }

    /// Asks for one volume step up.
    pub fn volume_up(&mut self)
        ensures
            volume_up_done(*old(self), *final(self)),
    {
        self.effects.push(Effect::VolumeStep(true));
    }

    /// Asks for one volume step down.
    pub fn volume_down(&mut self)
        ensures
            volume_down_done(*old(self), *final(self)),
    {
        self.effects.push(Effect::VolumeStep(false));
    }

    /// Empties the play queue. The current track plays on to its end but
    /// will not advance afterwards.
    pub fn clear_queue(&mut self)
        ensures
            clear_queue_done(*old(self), *final(self)),
    {
        self.queue.clear();
        self.now = None;
        self.queue_state.select(None);
        self.notify(owned("Queue cleared."));
    }

    /// Asks to seek by `secs` seconds.
    pub fn seek_relative(&mut self, secs: i64)
        ensures
            seek_relative_done(*old(self), *final(self), secs),
    {
        self.effects.push(Effect::SeekRelative(secs));
    }

    /// The program reports that the current track cannot seek.
    pub fn seek_refused(&mut self)
        ensures
            seek_refused_done(*old(self), *final(self)),
    {
        self.notify(owned("Seeking not supported for this track."));
    }

    /// Removes the selected queue entry. Removing the playing entry leaves the
    /// track playing out but forgets its position, so the automatic advance
    /// at its end does nothing (see [`law_removed_playing_entry_does_not_advance`]).
    pub fn remove_from_queue(&mut self)
        ensures
            remove_from_queue_done(*old(self), *final(self)),
    {
        let i = match self.queue_state.selected() {
            Some(i) => i,
            None => {
                return;
            },
        };
        if i >= self.queue.len() {
            return;
        }
        let ghost before = self.queue@;
        self.queue.remove(i);
        assert(tracks_view_of(self.queue@) =~= tracks_view_of(before.remove(i as int)));
        self.now = match self.now {
            Some(n) => if i < n {
                Some(n - 1)
            } else if i == n {
                None
            } else {
                Some(n)
            },
            None => None,
        };
        if self.queue.len() == 0 {
            self.queue_state.select(None);
        } else {
            let last = self.queue.len() - 1;
            self.queue_state.select(Some(if i < last { i } else { last }));
        }
        self.notify(owned("Removed from queue."));
    }

    /// Reverts an expired transient message to the now-playing line and says
    /// whether the screen needs redrawing (while playing or scanning, unless
    /// the art overlay is up, or when the status changed).
    pub fn on_tick(&mut self, playing: bool) -> (dirty: bool)
        ensures
            ({
                let pre = *old(self);
                let expired = pre.notify_until matches Some(u) && pre.clock_ms >= u;
                &&& dirty == ((!pre.show_art_popup && (playing || pre.scanning is Some)) || expired)
                &&& expired ==> *final(self) == (App {
                    status: final(self).status,
                    notify_until: None,
                    ..pre
                }) && final(self).status@ == pre.now_playing@
                &&& !expired ==> *final(self) == pre
            }),
    {
        let mut dirty = !self.show_art_popup && (playing || self.scanning.is_some());
        if let Some(until) = self.notify_until {
            if self.clock_ms >= until {
                self.status = self.now_playing.clone();
                self.notify_until = None;
                dirty = true;
            }
        }
        dirty
    }
}

/// What [`App::notify`] does.
pub open spec fn notify_done(pre: App, post: App, msg: String) -> bool {
    &&& notified(pre, post, msg@)
}

/// What [`App::set_now_playing`] does.
pub open spec fn set_now_playing_done(pre: App, post: App, track: &Track) -> bool {
    &&& post.now_playing@ == "▶ "@ + track.track_artist@ + " — "@ + track.title@
    &&& post.status@ == post.now_playing@
    &&& post == (App {
        now_playing: post.now_playing,
        status: post.status,
        notify_until: None,
        ..pre
    })
}

/// What [`App::play_index`] does.
pub open spec fn play_index_done(pre: App, post: App, i: usize) -> bool {
    &&& played(pre, post, i as int)
}

/// What [`App::play_started`] does.
pub open spec fn play_started_done(pre: App, post: App, track: &Track) -> bool {
    &&& post.now_playing@ == "▶ "@ + track.track_artist@ + " — "@ + track.title@
    &&& post.status@ == post.now_playing@
    &&& post == (App {
        now_playing: post.now_playing,
        status: post.status,
        notify_until: None,
        ..pre
    })
}

/// What [`App::play_failed`] does.
pub open spec fn play_failed_done(pre: App, post: App, err: &str) -> bool {
    &&& post.status@ == "Error: "@ + err@
    &&& post == (App { status: post.status, ..pre })
}

/// What [`App::play_tracks`] does.
pub open spec fn play_tracks_done(pre: App, post: App, tracks: Vec<Track>, start: usize) -> bool {
    &&& tracks@.len() == 0 ==> post == pre
    &&& tracks@.len() > 0 ==> played(
        App { queue: tracks, ..pre },
        post,
        if start < tracks@.len() {
            start as int
        } else {
            tracks@.len() - 1
        },
    )
}

/// What [`App::toggle_pause`] does.
pub open spec fn toggle_pause_done(pre: App, post: App) -> bool {
    &&& post.effects@ == pre.effects@.push(Effect::TogglePause)
    &&& post == (App { effects: post.effects, ..pre })
}

/// What [`App::next_track`] does.
pub open spec fn next_track_done(pre: App, post: App, user: bool) -> bool {
    let len = pre.queue.len() as int;
    let cur = match pre.now {
        Some(n) => n as int,
        None => 0,
    };
    if len == 0 || (!user && pre.now is None) {
        post == pre
    } else if pre.repeat == RepeatMode::One && !user {
        match pre.now {
            Some(i) => played(pre, post, i as int),
            None => post == pre,
        }
    } else if pre.shuffle && len > 1 {
        played(
            App { rng: xorshift_step(pre.rng), ..pre },
            post,
            shuffle_pick(pre.rng, len, cur),
        )
    } else if cur + 1 < len {
        played(pre, post, cur + 1)
    } else if pre.repeat == RepeatMode::All {
        played(pre, post, 0)
    } else {
        &&& post == (App { now: None, effects: post.effects, ..pre })
        &&& post.effects@ == pre.effects@.push(Effect::Stop)
    }
}

/// What [`App::prev_track`] does.
pub open spec fn prev_track_done(pre: App, post: App) -> bool {
    let len = pre.queue.len() as int;
    let cur = match pre.now {
        Some(n) => n as int,
        None => 0,
    };
    if len == 0 {
        post == pre
    } else if pre.position_secs > 3 && pre.now is Some {
        played(pre, post, pre.now->0 as int)
    } else if cur == 0 {
        played(
            pre,
            post,
            if pre.repeat == RepeatMode::All {
                len - 1
            } else {
                0
            },
        )
    } else {
        played(pre, post, cur - 1)
    }
}

/// What [`App::crossfade_started`] does.
pub open spec fn crossfade_started_done(pre: App, post: App, i: usize) -> bool {
    &&& i < pre.queue.len() ==> {
        &&& post.now == Some(i)
        &&& post.queue_state == pre.queue_state.spec_select(Some(i))
        &&& post.now_playing@ == "▶ "@ + pre.queue@[i as int].track_artist@
            + " — "@ + pre.queue@[i as int].title@
        &&& post.status@ == post.now_playing@
        &&& post == (App {
            now: post.now,
            queue_state: post.queue_state,
            now_playing: post.now_playing,
            status: post.status,
            notify_until: None,
            ..pre
        })
    }
    &&& i >= pre.queue.len() ==> post == pre
}

/// What [`App::toggle_shuffle`] does.
pub open spec fn toggle_shuffle_done(pre: App, post: App) -> bool {
    &&& notified(
        App { shuffle: !pre.shuffle, ..pre },
        post,
        if !pre.shuffle {
            "Shuffle on"@
        } else {
            "Shuffle off"@
        },
    )
}

/// What [`App::cycle_repeat`] does.
pub open spec fn cycle_repeat_done(pre: App, post: App) -> bool {
    &&& notified(
        App { repeat: pre.repeat.spec_next(), ..pre },
        post,
        "Repeat: "@ + match pre.repeat.spec_next() {
            RepeatMode::Off => seq!['o', 'f', 'f'],
            RepeatMode::All => seq!['a', 'l', 'l'],
            RepeatMode::One => seq!['o', 'n', 'e'],
        },
    )
}

/// What [`App::volume_up`] does.
pub open spec fn volume_up_done(pre: App, post: App) -> bool {
    &&& post.effects@ == pre.effects@.push(Effect::VolumeStep(true))
    &&& post == (App { effects: post.effects, ..pre })
}

/// What [`App::volume_down`] does.
pub open spec fn volume_down_done(pre: App, post: App) -> bool {
    &&& post.effects@ == pre.effects@.push(Effect::VolumeStep(false))
    &&& post == (App { effects: post.effects, ..pre })
}

/// What [`App::clear_queue`] does.
pub open spec fn clear_queue_done(pre: App, post: App) -> bool {
    &&& notified(
        App {
            queue: post.queue,
            now: None,
            queue_state: pre.queue_state.spec_select(None),
            ..pre
        },
        post,
        "Queue cleared."@,
    )
    &&& post.queue@.len() == 0
}

/// What [`App::seek_relative`] does.
pub open spec fn seek_relative_done(pre: App, post: App, secs: i64) -> bool {
    &&& post.effects@ == pre.effects@.push(Effect::SeekRelative(secs))
    &&& post == (App { effects: post.effects, ..pre })
}

/// What [`App::seek_refused`] does.
pub open spec fn seek_refused_done(pre: App, post: App) -> bool {
    &&& notified(pre, post, "Seeking not supported for this track."@)
}

/// What [`App::remove_from_queue`] does.
pub open spec fn remove_from_queue_done(pre: App, post: App) -> bool {
    match pre.queue_state.selected {
        Some(i) if (i as int) < pre.queue.len() => {
            let nq = pre.queue@.remove(i as int);
            &&& tracks_view_of(post.queue@) == tracks_view_of(nq)
            &&& notified(
                App {
                    queue: post.queue,
                    now: match pre.now {
                        Some(n) => if i < n {
                            Some((n - 1) as usize)
                        } else if i == n {
                            None
                        } else {
                            Some(n)
                        },
                        None => None,
                    },
                    queue_state: pre.queue_state.spec_select(
                        if nq.len() == 0 {
                            None
                        } else if (i as int) < nq.len() - 1 {
                            Some(i)
                        } else {
                            Some((nq.len() - 1) as usize)
                        },
                    ),
                    ..pre
                },
                post,
                "Removed from queue."@,
            )
        },
        _ => post == pre,
    }
}

/// Clearing the queue leaves the playing track to play out: nothing is
/// marked as playing, so advancing does nothing afterwards.
pub proof fn law_cleared_queue_does_not_advance(pre: App, mid: App, post: App, user: bool)
    requires
        clear_queue_done(pre, mid),
        next_track_done(mid, post, user),
    ensures
        mid.now is None,
        post == mid,
{
}

/// Removing the entry that is playing lets the track play out: nothing is
/// marked as playing, so the automatic advance at its end does nothing.
pub proof fn law_removed_playing_entry_does_not_advance(pre: App, mid: App, post: App)
    requires
        pre.now matches Some(n) && n < pre.queue.len(),
        pre.queue_state.selected == pre.now,
        remove_from_queue_done(pre, mid),
        next_track_done(mid, post, false),
    ensures
        mid.now is None,
        post == mid,
{
}

/// With shuffle on and more than one entry, advancing lands inside the
/// queue and never replays the current entry.
pub proof fn law_shuffle_moves_on(rng: u64, len: int, cur: int)
    requires
        len > 1,
        0 <= cur < len,
    ensures
        0 <= shuffle_pick(rng, len, cur) < len,
        shuffle_pick(rng, len, cur) != cur,
{
    let x = vstd::wrapping::u64_specs::wrapping_mul(xorshift_step(rng), 0x2545F4914F6CDD1Du64) as int;
    let r = x % len;
    assert(0 <= r < len) by (nonlinear_arith)
        requires
            len > 0,
            r == x % len,
    ;
    if r == cur {
        if r + 1 < len {
            assert((r + 1) % len == r + 1) by (nonlinear_arith)
                requires
                    0 <= r + 1 < len,
            ;
        } else {
            assert((r + 1) % len == 0) by (nonlinear_arith)
                requires
                    r + 1 == len,
                    len > 0,
            ;
        }
    }
}

/// Removing a queue entry other than the playing one keeps the same track
/// marked as playing; removing the playing entry leaves none marked.
pub proof fn law_remove_keeps_now_playing(pre: App, post: App)
    requires
        remove_from_queue_done(pre, post),
        pre.now matches Some(n) && n < pre.queue.len(),
        pre.queue_state.selected matches Some(i) && i < pre.queue.len(),
    ensures
        ({
            let n = pre.now->0 as int;
            let i = pre.queue_state.selected->0 as int;
            if i == n {
                post.now is None
            } else {
                post.now matches Some(m) && m < post.queue.len() && tracks_view_of(post.queue@)[m as int]
                    == tracks_view_of(pre.queue@)[n]
            }
        }),
{
    let n = pre.now->0 as int;
    let i = pre.queue_state.selected->0 as int;
    let nq = pre.queue@.remove(i);
    assert(tracks_view_of(post.queue@).len() == post.queue@.len());
    assert(tracks_view_of(nq).len() == nq.len());
    if i < n {
        assert(tracks_view_of(nq)[n - 1] == nq[n - 1]@);
        assert(nq[n - 1] == pre.queue@[n]);
    } else if i > n {
        assert(nq[n] == pre.queue@[n]);
        assert(tracks_view_of(nq)[n] == nq[n]@);
    }
}

proof fn lemma_shuffle_pick_in_range(rng: u64, len: int, cur: int)
    requires
        len > 1,
        cur >= 0,
    ensures
        0 <= shuffle_pick(rng, len, cur) < len,
{
    let x = vstd::wrapping::u64_specs::wrapping_mul(xorshift_step(rng), 0x2545F4914F6CDD1Du64) as int;
    let r = x % len;
    assert(0 <= r < len) by (nonlinear_arith)
        requires
            len > 0,
            r == x % len,
    ;
    if r == cur {
        if r + 1 < len {
            assert((r + 1) % len == r + 1) by (nonlinear_arith)
                requires
                    0 <= r + 1 < len,
            ;
        } else {
            assert((r + 1) % len == 0) by (nonlinear_arith)
                requires
                    r + 1 == len,
                    len > 0,
            ;
        }
    }
}

/// The entry the crossfade advances into is the entry the automatic advance
/// at the end of the track would play from the same state: whenever
/// [`peeked`] names an entry, `next_track(false)` plays exactly that entry,
/// and with shuffle on both draw the same number from the generator (and
/// never name the playing entry).
pub proof fn law_peek_matches_automatic_advance(pre: App, post: App)
    requires
        peeked(pre) is Some,
        next_track_done(pre, post, false),
    ensures
        0 <= peeked(pre)->0 < pre.queue.len(),
        post.now == Some(peeked(pre)->0 as usize),
        post.effects@.len() == pre.effects@.len() + 1,
        post.effects@.last() matches Effect::Play(t) && t@ == pre.queue@[peeked(pre)->0]@,
        post.rng == if pre.shuffle && pre.queue.len() > 1 {
            xorshift_step(pre.rng)
        } else {
            pre.rng
        },
        pre.shuffle && pre.queue.len() > 1 ==> peeked(pre) != Some(pre.now->0 as int),
{
    let len = pre.queue.len() as int;
    let cur = pre.now->0 as int;
    if pre.shuffle && len > 1 {
        lemma_shuffle_pick_in_range(pre.rng, len, cur);
        if cur < len {
            law_shuffle_moves_on(pre.rng, len, cur);
        }
    }
}

} // verus!
