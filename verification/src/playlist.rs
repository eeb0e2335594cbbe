//! Named, ordered track lists.
use vstd::prelude::*;

use crate::model::{Track, TrackView, tracks_view_of};

verus! {

/// A named, ordered list of tracks. Tracks are stored in full so playlists
/// survive library rescans and edits.
#[derive(Clone, Debug)]
pub struct Playlist {
    pub name: String,
    pub tracks: Vec<Track>,
}

/// The value of a playlist: its name and its tracks' values.
pub struct PlaylistView {
    pub name: Seq<char>,
    pub tracks: Seq<TrackView>,
}

impl View for Playlist {
    type V = PlaylistView;

    open spec fn view(&self) -> PlaylistView {
        PlaylistView { name: self.name@, tracks: tracks_view_of(self.tracks@) }
    }
}

impl Default for Playlist {
    fn default() -> (r: Playlist)
        ensures
            r@.name.len() == 0,
            r@.tracks.len() == 0,
    {
        Playlist { name: String::new(), tracks: Vec::new() }
    }
}

} // verus!
