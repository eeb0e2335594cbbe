//! The interface state machine: browsing columns, search field, queue and
//! playback decisions, playlists and settings. Outside work (audio, files,
//! images, background scans) is requested through [`Effect`]s that the
//! program performs, reporting outcomes back through the methods named on
//! each effect.
use vstd::prelude::*;

use crate::config::Config;
use crate::model::{
    albums_view, is_album_artists, is_albums, is_tracks_view, strings_view, tracks_view_of,
    AlbumRef, AlbumRefView, Library, RepeatMode, Track,
};
use crate::playlist::Playlist;
use crate::state::{clamp, clamped, Drag, Effect, Focus, ListState, PlPane, Rects, Tab};
use crate::text::{append_chars, chars_of, lowercase, push_decimal, string_of, to_lower};

verus! {

pub struct App {
    pub config: Config,
    pub library: Library,
    pub tab: Tab,
    pub dragging: Option<Drag>,
    pub focus: Focus,
    /// Which transport button is selected when the Transport row is focused.
    pub transport_sel: usize,
    /// Browser column width percentages [left, middle, right], summing to 100.
    pub col_widths: [u16; 3],
    /// Render transport icons at 2x.
    pub big_icons: bool,
    /// Queue panel height percentage within the third column.
    pub queue_pct: u16,
    /// Whether all-library art pre-caching is enabled.
    pub cache_all_art: bool,
    pub search: String,
    /// Cursor position within `search`, as a character index.
    pub search_cursor: usize,
    /// Last text removed by a kill command, for yank.
    pub kill_buffer: String,
    pub playlists: Vec<Playlist>,
    pub playlist_state: ListState,
    pub pl_track_state: ListState,
    pub pl_focus: PlPane,
    /// Some(buffer) while naming a new playlist.
    pub editing_playlist_name: Option<String>,
    pub artist_state: ListState,
    pub album_state: ListState,
    pub track_state: ListState,
    pub queue_state: ListState,
    pub view_artists: Vec<String>,
    pub view_albums: Vec<AlbumRef>,
    pub view_tracks: Vec<Track>,
    /// The active play order; the Queue panel renders this list.
    pub queue: Vec<Track>,
    pub now: Option<usize>,
    pub shuffle: bool,
    pub repeat: RepeatMode,
    pub show_help: bool,
    pub status: String,
    /// The persistent now-playing line shown when no transient message is active.
    pub now_playing: String,
    /// While set and not yet reached, `status` holds a transient message.
    pub notify_until: Option<u64>,
    pub scanning: Option<(usize, usize)>,
    /// Time and cell of the last left click, for double-click detection.
    pub last_click: Option<(u64, u16, u16)>,
    /// Some(buffer) while editing the music directory path.
    pub editing_path: Option<String>,
    pub should_quit: bool,
    pub rects: Rects,
    /// Large centered album-art overlay.
    pub show_art_popup: bool,
    /// xorshift64* state for shuffle.
    pub rng: u64,
    /// The program's clock in milliseconds, set before each event.
    pub clock_ms: u64,
    /// Playback position in whole seconds, set before each event.
    pub position_secs: u64,
    /// Outside work requested and not yet taken by the program.
    pub effects: Vec<Effect>,
}

/// The "All" entry heading the artist and album columns.
pub open spec fn all_label() -> Seq<char> {
    seq!['A', 'l', 'l']
}

/// The "All" album entry.
pub open spec fn all_album() -> AlbumRefView {
    AlbumRefView { album_artist: Seq::empty(), title: all_label(), year: None }
}

/// The artist chosen in the first column (`None` for "All" or no selection).
pub open spec fn sel_artist(a: App) -> Option<Seq<char>> {
    let idx = match a.artist_state.selected {
        Some(i) => i as int,
        None => 0,
    };
    if idx == 0 || idx >= a.view_artists.len() {
        None
    } else {
        Some(a.view_artists@[idx]@)
    }
}

/// The album chosen in the second column (`None` for "All" or no selection).
pub open spec fn sel_album(a: App) -> Option<AlbumRefView> {
    let idx = match a.album_state.selected {
        Some(i) => i as int,
        None => 0,
    };
    if idx == 0 || idx >= a.view_albums.len() {
        None
    } else {
        Some(a.view_albums@[idx]@)
    }
}

/// `post` is `pre` with its three columns recomputed from `pre`'s search text,
/// library, sort option and selections (each selection kept inside its list).
pub open spec fn views_refreshed(pre: App, post: App) -> bool {
    let q = lowercase(pre.search@);
    &&& post == (App {
        view_artists: post.view_artists,
        view_albums: post.view_albums,
        view_tracks: post.view_tracks,
        artist_state: post.artist_state,
        album_state: post.album_state,
        track_state: post.track_state,
        ..pre
    })
    &&& post.view_artists.len() >= 1
    &&& post.view_artists@[0]@ == all_label()
    &&& is_album_artists(
        pre.library@,
        q,
        pre.config.ui.sort_articles,
        strings_view(post.view_artists@).drop_first(),
    )
    &&& post.artist_state == clamped(pre.artist_state, post.view_artists.len() as nat)
    &&& post.view_albums.len() >= 1
    &&& post.view_albums@[0]@ == all_album()
    &&& is_albums(pre.library@, q, sel_artist(post), albums_view(post.view_albums@).drop_first())
    &&& post.album_state == clamped(pre.album_state, post.view_albums.len() as nat)
    &&& is_tracks_view(
        pre.library@,
        q,
        sel_artist(post),
        sel_album(post),
        tracks_view_of(post.view_tracks@),
    )
    &&& post.track_state == clamped(pre.track_state, post.view_tracks.len() as nat)
}

/// The text `a` followed by the decimal number `n` and the text `b`.
pub fn number_message(a: &str, n: u64, b: &str) -> (r: String)
    ensures
        r@ == a@ + crate::text::decimal(n as nat) + b@,
{
    let mut v = chars_of(a);
    push_decimal(&mut v, n);
    append_chars(&mut v, &chars_of(b));
    string_of(&v)
}

/// The text `a` followed by `mid` and the text `b`.
pub fn text_message(a: &str, mid: &str, b: &str) -> (r: String)
    ensures
        r@ == a@ + mid@ + b@,
{
    let mut v = chars_of(a);
    append_chars(&mut v, &chars_of(mid));
    append_chars(&mut v, &chars_of(b));
    string_of(&v)
}

/// A copy of a string literal as an owned string.
pub fn owned(s: &str) -> (r: String)
    ensures
        r@ == s@,
{
    String::from_str(s)
}

impl App {
    /// The state's invariant: the search cursor is a character position
    /// within the search text, and one of the five transport buttons is selected.
    pub open spec fn inv(&self) -> bool {
        &&& self.search_cursor <= self.search@.len()
        &&& self.transport_sel < 5
    }

    /// Checks [`App::inv`] (for callers that mutate fields directly).
    pub fn is_consistent(&self) -> (r: bool)
        ensures
            r == self.inv(),
    {
        self.search_cursor <= self.search.as_str().unicode_len() && self.transport_sel < 5
    }

    /// Builds the interface state for a configuration, library and saved
    /// playlists. `seed` starts the shuffle generator (made odd, so never zero).
    pub fn new(config: Config, library: Library, playlists: Vec<Playlist>, seed: u64, clock_ms: u64) -> (r: App)
        ensures
            r.inv(),
            r.tab == Tab::Browser,
            r.focus == Focus::Artists,
            r.transport_sel == 2,
            r.col_widths@.map_values(|v: u16| v as int)
                == crate::config::validated_columns_spec(config.layout.columns@),
            r.queue_pct == crate::config::clamp_spec(config.layout.queue_pct as int, 10, 60),
            r.big_icons == config.ui.big_transport_icons,
            r.cache_all_art == config.ui.cache_all_art,
            r.search@.len() == 0,
            r.library@ == library@,
            r.queue@.len() == 0,
            r.now is None,
            !r.shuffle,
            r.repeat == RepeatMode::Off,
            r.rng == seed | 1,
            r.status@ == if library@.len() == 0 {
                "Library empty — press 3 for settings, then r to scan."@
            } else {
                crate::text::decimal(library@.len()) + " tracks loaded."@
            },
            r.effects@ == if config.ui.cache_all_art {
                seq![Effect::StartArtPrecache]
            } else {
                Seq::<Effect>::empty()
            },
            r.config == config,
            r.playlists@ == playlists@,
            r.playlist_state == clamped(ListState { selected: None, offset: 0 }, playlists@.len()),
            r.pl_track_state == clamped(
                ListState { selected: None, offset: 0 },
                pl_len_at(r.playlists@, r.playlist_state),
            ),
            r.pl_focus == PlPane::List,
            r.queue_state == (ListState { selected: None, offset: 0 }),
            r.search_cursor == 0,
            r.kill_buffer@.len() == 0,
            r.now_playing@.len() == 0,
            r.editing_playlist_name is None,
            r.editing_path is None,
            r.dragging is None,
            r.notify_until is None,
            r.scanning is None,
            r.last_click is None,
            !r.show_help && !r.show_art_popup && !r.should_quit,
            r.clock_ms == clock_ms,
            r.position_secs == 0,
            r.rects == Rects::spec_zero(),
            views_refreshed(
                App {
                    artist_state: ListState { selected: None, offset: 0 },
                    album_state: ListState { selected: None, offset: 0 },
                    track_state: ListState { selected: None, offset: 0 },
                    ..r
                },
                r,
            ),
    {
        let col_widths = config.validated_columns();
        let queue_pct = config.validated_queue_pct();
        let big_icons = config.ui.big_transport_icons;
        let cache_all_art = config.ui.cache_all_art;
        let mut app = App {
            config,
            library,
            tab: Tab::Browser,
            dragging: None,
            focus: Focus::Artists,
            transport_sel: 2,
            col_widths,
            big_icons,
            queue_pct,
            cache_all_art,
            search: String::new(),
            search_cursor: 0,
            kill_buffer: String::new(),
            playlists,
            playlist_state: ListState::new(),
            pl_track_state: ListState::new(),
            pl_focus: PlPane::List,
            editing_playlist_name: None,
            artist_state: ListState::new(),
            album_state: ListState::new(),
            track_state: ListState::new(),
            queue_state: ListState::new(),
            view_artists: Vec::new(),
            view_albums: Vec::new(),
            view_tracks: Vec::new(),
            queue: Vec::new(),
            now: None,
            shuffle: false,
            repeat: RepeatMode::Off,
            show_help: false,
            status: String::new(),
            now_playing: String::new(),
            notify_until: None,
            scanning: None,
            last_click: None,
            editing_path: None,
            should_quit: false,
            rects: Rects::zero(),
            show_art_popup: false,
            rng: seed | 1,
            clock_ms,
            position_secs: 0,
            effects: Vec::new(),
        };
        app.refresh_views();
        app.clamp_pl_states();
        if app.library.is_empty() {
            app.status = owned("Library empty — press 3 for settings, then r to scan.");
        } else {
            let n = app.library.len();
            app.status = number_message("", n as u64, " tracks loaded.");
            proof {
                reveal_strlit("");
            }
            assert(app.status@ =~= crate::text::decimal(library@.len()) + " tracks loaded."@);
        }
        if app.cache_all_art {
            app.effects.push(Effect::StartArtPrecache);
            assert(app.effects@ =~= seq![Effect::StartArtPrecache]);
        }
        app
    }

    /// Hands over the requested outside work, oldest first, and forgets it.
    pub fn take_effects(&mut self) -> (r: Vec<Effect>)
        ensures
            r@ == old(self).effects@,
            *final(self) == (App { effects: final(self).effects, ..*old(self) }),
            final(self).effects@.len() == 0,
    {
        let mut out: Vec<Effect> = Vec::new();
        std::mem::swap(&mut out, &mut self.effects);
        out
    }

    /// Sets the clock and the playback position seen by the next decisions.
    pub fn set_clock(&mut self, clock_ms: u64, position_secs: u64)
        ensures
            set_clock_done(*old(self), *final(self), clock_ms, position_secs),
    {
        self.clock_ms = clock_ms;
        self.position_secs = position_secs;
    }

    /// The next shuffle number (xorshift64*): the state is stepped by
    /// `x ^= x >> 12; x ^= x << 25; x ^= x >> 27` and the result is the new
    /// state times 0x2545F4914F6CDD1D, wrapping.
    pub fn next_rand(&mut self) -> (r: u64)
        ensures
            final(self).rng == xorshift_step(old(self).rng),
            r == vstd::wrapping::u64_specs::wrapping_mul(xorshift_step(old(self).rng), 0x2545F4914F6CDD1Du64),
            *final(self) == (App { rng: final(self).rng, ..*old(self) }),
    {
        let mut x = self.rng;
        x = x ^ (x >> 12u64);
        x = x ^ (x << 25u64);
        x = x ^ (x >> 27u64);
        self.rng = x;
        x.wrapping_mul(0x2545F4914F6CDD1Du64)
    }

    // --- view derivation -------------------------------------------------

    /// The artist selected in the first column (`None` for "All").
    pub fn selected_artist(&self) -> (r: Option<String>)
        ensures
            match r {
                Some(s) => sel_artist(*self) == Some(s@),
                None => sel_artist(*self) is None,
            },
    {
        let idx = match self.artist_state.selected() {
            Some(i) => i,
            None => 0,
        };
        if idx == 0 || idx >= self.view_artists.len() {
            None
        } else {
            Some(self.view_artists[idx].clone())
        }
    }

    /// The album selected in the second column (`None` for "All").
    pub fn selected_album(&self) -> (r: Option<AlbumRef>)
        ensures
            match r {
                Some(a) => sel_album(*self) == Some(a@),
                None => sel_album(*self) is None,
            },
    {
        let idx = match self.album_state.selected() {
            Some(i) => i,
            None => 0,
        };
        if idx == 0 || idx >= self.view_albums.len() {
            None
        } else {
            Some(self.view_albums[idx].duplicate())
        }
    }

    /// Recomputes the three column views from the current search and
    /// selections, keeping each selection inside its list.
    pub fn refresh_views(&mut self)
        ensures
            refresh_views_done(*old(self), *final(self)),
    {
        proof {
            reveal_strlit("All");
        }
        let q = to_lower(self.search.as_str());
        let mut artists: Vec<String> = Vec::new();
        artists.push(owned("All"));
        assert(artists@[0]@ =~= all_label());
        let found = self.library.album_artists(q.as_str(), self.config.ui.sort_articles);
        let mut i: usize = 0;
        while i < found.len()
            invariant
                i <= found.len(),
                artists.len() == i + 1,
                artists@[0]@ == all_label(),
                forall|j: int| 0 <= j < i ==> #[trigger] artists@[j + 1]@ == found@[j]@,
            decreases found.len() - i,
        {
            proof {
                reveal_strlit("All");
            }
            artists.push(found[i].clone());
            i = i + 1;
        }
        proof {
            reveal_strlit("All");
            assert(strings_view(artists@).drop_first() =~= strings_view(found@));
        }
        self.view_artists = artists;
        clamp(&mut self.artist_state, self.view_artists.len());
        let artist = self.selected_artist();
        let found_albums = match &artist {
            Some(a) => self.library.albums(q.as_str(), Some(a.as_str())),
            None => self.library.albums(q.as_str(), None),
        };
        let mut albums: Vec<AlbumRef> = Vec::new();
        albums.push(AlbumRef { album_artist: String::new(), title: owned("All"), year: None });
        assert(albums@[0]@.title =~= all_label());
        assert(albums@[0]@.album_artist =~= Seq::<char>::empty());
        let mut k: usize = 0;
        while k < found_albums.len()
            invariant
                k <= found_albums.len(),
                albums.len() == k + 1,
                albums@[0]@ == all_album(),
                forall|j: int| 0 <= j < k ==> #[trigger] albums@[j + 1]@ == found_albums@[j]@,
            decreases found_albums.len() - k,
        {
            albums.push(found_albums[k].duplicate());
            k = k + 1;
        }
        proof {
            assert(albums_view(albums@).drop_first() =~= albums_view(found_albums@));
        }
        self.view_albums = albums;
        clamp(&mut self.album_state, self.view_albums.len());
        let album = self.selected_album();
        let tracks = match &artist {
            Some(a) => self.library.tracks_view(q.as_str(), Some(a.as_str()), album.as_ref()),
            None => self.library.tracks_view(q.as_str(), None, album.as_ref()),
        };
        self.view_tracks = tracks;
        clamp(&mut self.track_state, self.view_tracks.len());
        proof {
            let post = *self;
            assert(sel_artist(post) == match &artist {
                Some(a) => Some(a@),
                None => None::<Seq<char>>,
            });
            assert(sel_album(post) == match album {
                Some(al) => Some(al@),
                None => None::<AlbumRefView>,
            });
        }
    }

    /// Keeps the playlist selection inside the playlist list and the track
    /// selection inside the selected playlist.
    pub fn clamp_pl_states(&mut self)
        ensures
            clamp_pl_states_done(*old(self), *final(self)),
    {
        clamp(&mut self.playlist_state, self.playlists.len());
        let sel = match self.playlist_state.selected() {
            Some(i) => i,
            None => 0,
        };
        let n = if sel < self.playlists.len() {
            self.playlists[sel].tracks.len()
        } else {
            0
        };
        clamp(&mut self.pl_track_state, n);
    }

    // --- navigation ------------------------------------------------------

    /// True while the search field has the focus.
    pub fn is_searching(&self) -> (r: bool)
        ensures
            r == (self.focus == Focus::Search),
    {
        self.focus == Focus::Search
    }
}

/// The number of tracks in the playlist a selection points at (0 when none).
pub open spec fn pl_len_at(pls: Seq<Playlist>, st: ListState) -> nat {
    let sel = match st.selected {
        Some(i) => i as int,
        None => 0,
    };
    if sel < pls.len() {
        pls[sel].tracks.len() as nat
    } else {
        0
    }
}

/// One xorshift step of the shuffle state.
pub open spec fn xorshift_step(x0: u64) -> u64 {
    let x1 = x0 ^ (x0 >> 12u64);
    let x2 = x1 ^ ((x1 << 25u64) as u64);
    x2 ^ (x2 >> 27u64)
}

/// What [`App::set_clock`] does.
pub open spec fn set_clock_done(pre: App, post: App, clock_ms: u64, position_secs: u64) -> bool {
    &&& post == (App { clock_ms, position_secs, ..pre })
}

/// What [`App::refresh_views`] does.
pub open spec fn refresh_views_done(pre: App, post: App) -> bool {
    &&& views_refreshed(pre, post)
}

/// What [`App::clamp_pl_states`] does.
pub open spec fn clamp_pl_states_done(pre: App, post: App) -> bool {
    &&& post.playlist_state == clamped(pre.playlist_state, pre.playlists.len() as nat)
    &&& post.pl_track_state == clamped(
        pre.pl_track_state,
        pl_len_at(pre.playlists@, post.playlist_state),
    )
    &&& post == (App {
        playlist_state: post.playlist_state,
        pl_track_state: post.pl_track_state,
        ..pre
    })
}

} // verus!
