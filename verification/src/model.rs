//! The in-memory music library: tracks, the derived artist / album / track
//! views with search filtering and ordering, repeat modes, and display helpers.
use vstd::prelude::*;

use crate::order::{
    is_stable_order, lex_le, push_text_key, stable_order, text_key,
};
use crate::text::{
    append_chars, chars_of, contains_chars, decimal, digit_char, has_prefix, lowercase,
    occurs_in, push_decimal, skip_chars, starts_with_chars, string_of, to_lower,
};

verus! {

/// A single playable track, denormalized so the library can derive the artist
/// and album views without joins. `album_artist` is kept distinct from
/// `track_artist` so compilations group correctly under one album.
#[derive(Clone, Debug)]
pub struct Track {
    /// Database row id (0 before persistence).
    pub id: i64,
    /// The audio file's path, as text.
    pub path: String,
    pub title: String,
    pub track_artist: String,
    pub album_artist: String,
    pub album: String,
    pub year: Option<i32>,
    pub track_no: Option<u32>,
    pub disc_no: Option<u32>,
    pub length_secs: u64,
}

/// The mathematical value of a [`Track`]: its texts as character sequences.
pub struct TrackView {
    pub id: i64,
    pub path: Seq<char>,
    pub title: Seq<char>,
    pub track_artist: Seq<char>,
    pub album_artist: Seq<char>,
    pub album: Seq<char>,
    pub year: Option<i32>,
    pub track_no: Option<u32>,
    pub disc_no: Option<u32>,
    pub length_secs: u64,
}

impl View for Track {
    type V = TrackView;

    open spec fn view(&self) -> TrackView {
        TrackView {
            id: self.id,
            path: self.path@,
            title: self.title@,
            track_artist: self.track_artist@,
            album_artist: self.album_artist@,
            album: self.album@,
            year: self.year,
            track_no: self.track_no,
            disc_no: self.disc_no,
            length_secs: self.length_secs,
        }
    }
}

impl Track {
    /// A field-by-field copy.
    pub fn duplicate(&self) -> (r: Track)
        ensures
            r@ == self@,
    {
        Track {
            id: self.id,
            path: self.path.clone(),
            title: self.title.clone(),
            track_artist: self.track_artist.clone(),
            album_artist: self.album_artist.clone(),
            album: self.album.clone(),
            year: self.year,
            track_no: self.track_no,
            disc_no: self.disc_no,
            length_secs: self.length_secs,
        }
    }
}

/// Copies every track of `v`, in order.
pub fn duplicate_tracks(v: &Vec<Track>) -> (r: Vec<Track>)
    ensures
        tracks_view_of(r@) == tracks_view_of(v@),
{
    let mut out: Vec<Track> = Vec::new();
    let mut i: usize = 0;
    while i < v.len()
        invariant
            i <= v.len(),
            tracks_view_of(out@) == tracks_view_of(v@.take(i as int)),
        decreases v.len() - i,
    {
        let ghost before = out@;
        out.push(v[i].duplicate());
        assert(tracks_view_of(v@.take(i + 1)) =~= tracks_view_of(v@.take(i as int)).push(
            v@[i as int]@,
        ));
        assert(tracks_view_of(out@) =~= tracks_view_of(before).push(v@[i as int]@));
        i = i + 1;
    }
    assert(v@.take(v.len() as int) =~= v@);
    out
}

/// An album as shown in the second column, identified by (album artist, title, year).
#[derive(Clone, Debug, PartialEq, Eq, Hash)]
pub struct AlbumRef {
    pub album_artist: String,
    pub title: String,
    pub year: Option<i32>,
}

/// The mathematical value of an [`AlbumRef`].
pub struct AlbumRefView {
    pub album_artist: Seq<char>,
    pub title: Seq<char>,
    pub year: Option<i32>,
}

impl View for AlbumRef {
    type V = AlbumRefView;

    open spec fn view(&self) -> AlbumRefView {
        AlbumRefView { album_artist: self.album_artist@, title: self.title@, year: self.year }
    }
}

impl AlbumRef {
    /// A field-by-field copy.
    pub fn duplicate(&self) -> (r: AlbumRef)
        ensures
            r@ == self@,
    {
        AlbumRef {
            album_artist: self.album_artist.clone(),
            title: self.title.clone(),
            year: self.year,
        }
    }

    /// Field-wise equality (what `==` on albums means).
    pub fn same_as(&self, other: &AlbumRef) -> (r: bool)
        ensures
            r == (self@ == other@),
    {
        self.album_artist == other.album_artist && self.title == other.title && self.year
            == other.year
    }
}

/// The values of a list of strings.
pub open spec fn strings_view(v: Seq<String>) -> Seq<Seq<char>> {
    v.map_values(|s: String| s@)
}

/// The values of a list of albums.
pub open spec fn albums_view(v: Seq<AlbumRef>) -> Seq<AlbumRefView> {
    v.map_values(|a: AlbumRef| a@)
}

/// The values of a list of tracks.
pub open spec fn tracks_view_of(v: Seq<Track>) -> Seq<TrackView> {
    v.map_values(|t: Track| t@)
}

/// The album a track belongs to.
pub open spec fn album_of(t: TrackView) -> AlbumRefView {
    AlbumRefView { album_artist: t.album_artist, title: t.album, year: t.year }
}

/// The field separator in search blobs (U+001F, which no typed query contains).
pub open spec fn unit_separator() -> char {
    '\u{1f}'
}

/// The lowercased search text of a track: title, track artist, album and album
/// artist joined by U+001F, so a query never matches across two fields.
pub open spec fn blob_of(t: TrackView) -> Seq<char> {
    lowercase(
        t.title + seq![unit_separator()] + t.track_artist + seq![unit_separator()] + t.album
            + seq![unit_separator()] + t.album_artist,
    )
}

/// Whether a track passes the search filter `q` (already lowercased by the caller).
pub open spec fn track_matches(t: TrackView, q: Seq<char>) -> bool {
    q.len() == 0 || occurs_in(blob_of(t), q)
}

/// Whether a track passes the search filter and the optional artist and album selections.
pub open spec fn selected(
    t: TrackView,
    q: Seq<char>,
    artist: Option<Seq<char>>,
    album: Option<AlbumRefView>,
) -> bool {
    &&& track_matches(t, q)
    &&& (artist matches Some(a) ==> t.album_artist == a)
    &&& (album matches Some(al) ==> album_of(t) == al)
}

/// The filter of the track column: search match, album artist, album.
pub open spec fn selector(
    q: Seq<char>,
    artist: Option<Seq<char>>,
    album: Option<AlbumRefView>,
) -> spec_fn(TrackView) -> bool {
    |t: TrackView| selected(t, q, artist, album)
}

/// The tracks that pass the filter, in library order.
pub open spec fn selection(
    tracks: Seq<TrackView>,
    q: Seq<char>,
    artist: Option<Seq<char>>,
    album: Option<AlbumRefView>,
) -> Seq<TrackView> {
    tracks.filter(selector(q, artist, album))
}

/// `out` is `items` stably sorted by `keys` (`keys[i]` belongs to `items[i]`).
pub open spec fn stably_sorted<T>(items: Seq<T>, keys: Seq<Seq<i64>>, out: Seq<T>) -> bool {
    exists|p: Seq<usize>|
        #[trigger] is_stable_order(p, keys) && out == p.map_values(|i: usize| items[i as int])
}

/// Removes consecutive repeats (as `Vec::dedup`).
pub open spec fn dedup<T>(s: Seq<T>) -> Seq<T>
    decreases s.len(),
{
    if s.len() == 0 {
        s
    } else if s.len() >= 2 && s[s.len() - 2] == s.last() {
        dedup(s.drop_last())
    } else {
        dedup(s.drop_last()).push(s.last())
    }
}

/// `s` with every repeat of an earlier element removed: the first occurrence
/// of each element stays, in order.
pub open spec fn first_occurrences<T>(s: Seq<T>) -> Seq<T>
    decreases s.len(),
{
    if s.len() == 0 {
        s
    } else if s.drop_last().contains(s.last()) {
        first_occurrences(s.drop_last())
    } else {
        first_occurrences(s.drop_last()).push(s.last())
    }
}

/// "The " / "the " and the rest of the name after it, if the name starts so.
pub open spec fn article_rest(s: Seq<char>) -> Option<Seq<char>> {
    if has_prefix(s, seq!['T', 'h', 'e', ' ']) || has_prefix(s, seq!['t', 'h', 'e', ' ']) {
        Some(s.skip(4))
    } else {
        None
    }
}

/// The sort key of an artist name: lowercased, with a leading "The " moved to
/// the end as ", the" when `sort_articles` is on.
pub open spec fn article_key(s: Seq<char>, sort_articles: bool) -> Seq<char> {
    if sort_articles && article_rest(s) is Some {
        lowercase(article_rest(s)->0) + seq![',', ' ', 't', 'h', 'e']
    } else {
        lowercase(s)
    }
}

/// The display form of an artist name: "The Doors" becomes "Doors, The" when
/// `sort_articles` is on.
pub open spec fn display_name(s: Seq<char>, sort_articles: bool) -> Seq<char> {
    if sort_articles && article_rest(s) is Some {
        article_rest(s)->0 + seq![',', ' ', 'T', 'h', 'e']
    } else {
        s
    }
}

/// An optional year as a key part; absent years sort first.
pub open spec fn year_code(y: Option<i32>) -> i64 {
    match y {
        Some(v) => v as i64,
        None => i64::MIN,
    }
}

/// An optional disc or track number as a key part; absent numbers sort first.
pub open spec fn number_code(n: Option<u32>) -> i64 {
    match n {
        Some(v) => v as i64,
        None => -1i64,
    }
}

/// Albums sort by year, then by lowercased title.
pub open spec fn album_key(a: AlbumRefView) -> Seq<i64> {
    seq![year_code(a.year)] + text_key(lowercase(a.title))
}

/// Tracks sort by year, lowercased album, disc, track number, lowercased title.
pub open spec fn track_key(t: TrackView) -> Seq<i64> {
    seq![year_code(t.year)] + text_key(lowercase(t.album)) + seq![
        number_code(t.disc_no),
        number_code(t.track_no),
    ] + text_key(lowercase(t.title))
}

/// The album artists of the tracks that pass the search filter, in library order.
pub open spec fn artist_names(tracks: Seq<TrackView>, q: Seq<char>) -> Seq<Seq<char>> {
    selection(tracks, q, None, None).map_values(|t: TrackView| t.album_artist)
}

/// The sort keys of artist names.
pub open spec fn artist_keys(names: Seq<Seq<char>>, sort_articles: bool) -> Seq<Seq<i64>> {
    names.map_values(|n: Seq<char>| text_key(article_key(n, sort_articles)))
}

/// The albums of the tracks that pass the search filter and the optional artist
/// selection, in library order (with repeats).
pub open spec fn album_list(
    tracks: Seq<TrackView>,
    q: Seq<char>,
    artist: Option<Seq<char>>,
) -> Seq<AlbumRefView> {
    selection(tracks, q, artist, None).map_values(|t: TrackView| album_of(t))
}

/// The sort keys of albums.
pub open spec fn album_keys(albums: Seq<AlbumRefView>) -> Seq<Seq<i64>> {
    albums.map_values(|a: AlbumRefView| album_key(a))
}

/// The characters of an optional text.
pub open spec fn opt_view(s: Option<&str>) -> Option<Seq<char>> {
    match s {
        Some(a) => Some(a@),
        None => None,
    }
}

/// `r` is what [`Library::album_artists`] lists for these tracks, query and option.
pub open spec fn is_album_artists(
    tracks: Seq<TrackView>,
    q: Seq<char>,
    sort_articles: bool,
    r: Seq<Seq<char>>,
) -> bool {
    exists|sorted: Seq<Seq<char>>|
        #[trigger] stably_sorted(
            artist_names(tracks, q),
            artist_keys(artist_names(tracks, q), sort_articles),
            sorted,
        ) && r == first_occurrences(sorted)
}

/// `r` is what [`Library::albums`] lists for these tracks, query and artist.
pub open spec fn is_albums(
    tracks: Seq<TrackView>,
    q: Seq<char>,
    artist: Option<Seq<char>>,
    r: Seq<AlbumRefView>,
) -> bool {
    exists|sorted: Seq<AlbumRefView>|
        #[trigger] stably_sorted(
            album_list(tracks, q, artist),
            album_keys(album_list(tracks, q, artist)),
            sorted,
        ) && r == dedup(sorted)
}

/// `r` is what [`Library::tracks_view`] lists for these tracks, query, artist and album.
pub open spec fn is_tracks_view(
    tracks: Seq<TrackView>,
    q: Seq<char>,
    artist: Option<Seq<char>>,
    album: Option<AlbumRefView>,
    r: Seq<TrackView>,
) -> bool {
    stably_sorted(
        selection(tracks, q, artist, album),
        selection(tracks, q, artist, album).map_values(|t: TrackView| track_key(t)),
        r,
    )
}

/// The whole library held in memory; all browsing and filtering happens here.
pub struct Library {
    tracks: Vec<Track>,
    /// Lowercased search blobs, parallel to `tracks`, built once at construction.
    blobs: Vec<Vec<char>>,
}

impl View for Library {
    type V = Seq<TrackView>;

    closed spec fn view(&self) -> Seq<TrackView> {
        tracks_view_of(self.tracks@)
    }
}

/// The search text of a track: its four searchable fields, lowercased and
/// joined with a separator no query contains (see [`blob_of`]).
pub fn search_blob(t: &Track) -> (r: String)
    ensures
        r@ == blob_of(t@),
{
    let mut s: Vec<char> = chars_of(t.title.as_str());
    s.push('\u{1f}');
    append_chars(&mut s, &chars_of(t.track_artist.as_str()));
    s.push('\u{1f}');
    append_chars(&mut s, &chars_of(t.album.as_str()));
    s.push('\u{1f}');
    append_chars(&mut s, &chars_of(t.album_artist.as_str()));
    let joined = string_of(&s);
    assert(joined@ =~= t.title@ + seq![unit_separator()] + t.track_artist@ + seq![
        unit_separator(),
    ] + t.album@ + seq![unit_separator()] + t.album_artist@);
    to_lower(joined.as_str())
}

impl Library {
    #[verifier::type_invariant]
    spec fn blobs_match(self) -> bool {
        &&& self.blobs.len() == self.tracks.len()
        &&& forall|i: int| 0 <= i < self.tracks.len() ==> #[trigger] self.blobs@[i]@ == blob_of(self.tracks@[i]@)
    }

    /// Builds the library, computing each track's search text once.
    pub fn new(tracks: Vec<Track>) -> (r: Library)
        ensures
            r@ == tracks_view_of(tracks@),
    {
        let mut blobs: Vec<Vec<char>> = Vec::new();
        let mut i: usize = 0;
        while i < tracks.len()
            invariant
                i <= tracks.len(),
                blobs.len() == i,
                forall|j: int| 0 <= j < i ==> #[trigger] blobs@[j]@ == blob_of(tracks@[j]@),
            decreases tracks.len() - i,
        {
            let b = search_blob(&tracks[i]);
            blobs.push(chars_of(b.as_str()));
            i = i + 1;
        }
        Library { tracks, blobs }
    }

    /// True when the library holds no tracks.
    pub fn is_empty(&self) -> (r: bool)
        ensures
            r == (self@.len() == 0),
    {
        self.tracks.len() == 0
    }

    /// The number of tracks.
    pub fn len(&self) -> (r: usize)
        ensures
            r == self@.len(),
    {
        self.tracks.len()
    }

    /// All tracks, in library order.
    pub fn tracks(&self) -> (r: &Vec<Track>)
        ensures
            tracks_view_of(r@) == self@,
    {
        &self.tracks
    }

    /// Indices of the tracks that pass the filter, in library order.
    fn select(
        &self,
        q: &Vec<char>,
        artist: Option<&Vec<char>>,
        album: Option<&AlbumRef>,
    ) -> (r: Vec<usize>)
        ensures
            forall|k: int| 0 <= k < r.len() ==> (#[trigger] r@[k]) < self@.len(),
            r@.map_values(|i: usize| self@[i as int]) == selection(
                self@,
                q@,
                match artist {
                    Some(a) => Some(a@),
                    None => None,
                },
                match album {
                    Some(al) => Some(al@),
                    None => None,
                },
            ),
    {
        proof {
            use_type_invariant(self);
        }
        let ghost av = match artist {
            Some(a) => Some(a@),
            None => None::<Seq<char>>,
        };
        let ghost alv = match album {
            Some(al) => Some(al@),
            None => None::<AlbumRefView>,
        };
        let ghost pred = selector(q@, av, alv);
        let ghost all = self@;
        let mut out: Vec<usize> = Vec::new();
        let mut i: usize = 0;
        assert(all.take(0).filter(pred) =~= Seq::<TrackView>::empty()) by {
            reveal(Seq::filter);
        }
        while i < self.tracks.len()
            invariant
                i <= self.tracks.len(),
                all == self@,
                all.len() == self.tracks.len(),
                pred == selector(q@, av, alv),
                self.blobs.len() == self.tracks.len(),
                forall|j: int|
                    0 <= j < self.tracks.len() ==> #[trigger] self.blobs@[j]@ == blob_of(
                        self.tracks@[j]@,
                    ),
                forall|k: int| 0 <= k < out.len() ==> (#[trigger] out@[k]) < i,
                out@.map_values(|j: usize| all[j as int]) == all.take(i as int).filter(pred),
                av == match artist {
                    Some(a) => Some(a@),
                    None => None::<Seq<char>>,
                },
                alv == match album {
                    Some(al) => Some(al@),
                    None => None::<AlbumRefView>,
                },
            decreases self.tracks.len() - i,
        {
            let t = &self.tracks[i];
            let text_ok = q.len() == 0 || contains_chars(&self.blobs[i], q);
            let artist_ok = match artist {
                Some(a) => {
                    let s = chars_of(t.album_artist.as_str());
                    vec_eq(&s, a)
                },
                None => true,
            };
            let album_ok = match album {
                Some(al) => {
                    let r = AlbumRef {
                        album_artist: t.album_artist.clone(),
                        title: t.album.clone(),
                        year: t.year,
                    };
                    r.same_as(al)
                },
                None => true,
            };
            proof {
                assert(all[i as int] == t@);
                assert(all.take(i + 1) =~= all.take(i as int).push(all[i as int]));
                all.take(i as int).lemma_filter_push(all[i as int], pred);
                assert(pred(all[i as int]) == (text_ok && artist_ok && album_ok));
            }
            if text_ok && artist_ok && album_ok {
                let ghost before = out@;
                out.push(i);
                assert(out@.map_values(|j: usize| all[j as int]) =~= before.map_values(
                    |j: usize| all[j as int],
                ).push(all[i as int]));
            }
            i = i + 1;
        }
        assert(all.take(all.len() as int) =~= all);
        out
    }

    /// Distinct album artists (first column), sorted by their article-aware
    /// key, restricted to tracks that pass the search filter.
    pub fn album_artists(&self, query: &str, sort_articles: bool) -> (r: Vec<String>)
        ensures
            is_album_artists(self@, query@, sort_articles, strings_view(r@)),
    {
        let q = chars_of(query);
        let idx = self.select(&q, None, None);
        let ghost names = artist_names(self@, query@);
        let mut keys: Vec<Vec<i64>> = Vec::new();
        let mut k: usize = 0;
        while k < idx.len()
            invariant
                k <= idx.len(),
                forall|j: int| 0 <= j < idx.len() ==> (#[trigger] idx@[j]) < self@.len(),
                idx@.map_values(|i: usize| self@[i as int]) == selection(
                    self@,
                    query@,
                    None,
                    None,
                ),
                keys.len() == k,
                forall|j: int|
                    0 <= j < k ==> #[trigger] keys@[j]@ == text_key(
                        article_key(self@[idx@[j] as int].album_artist, sort_articles),
                    ),
            decreases idx.len() - k,
        {
            proof {
                use_type_invariant(self);
            }
            let key_text = article_sort_key(self.tracks[idx[k]].album_artist.as_str(), sort_articles);
            let mut key: Vec<i64> = Vec::new();
            push_text_key(&mut key, &chars_of(key_text.as_str()));
            assert(key@ =~= text_key(key_text@));
            keys.push(key);
            k = k + 1;
        }
        let order = stable_order(&keys);
        let mut sorted: Vec<String> = Vec::new();
        let mut j: usize = 0;
        while j < order.len()
            invariant
                j <= order.len(),
                order.len() == idx.len(),
                forall|t: int| 0 <= t < order.len() ==> (#[trigger] order@[t]) < idx.len(),
                forall|t: int| 0 <= t < idx.len() ==> (#[trigger] idx@[t]) < self@.len(),
                sorted.len() == j,
                forall|t: int|
                    0 <= t < j ==> #[trigger] sorted@[t]@ == self@[idx@[order@[t] as int] as int].album_artist,
            decreases order.len() - j,
        {
            proof {
                use_type_invariant(self);
            }
            sorted.push(self.tracks[idx[order[j]]].album_artist.clone());
            j = j + 1;
        }
        let ghost keyv = crate::order::key_views(keys@);
        proof {
            assert(names.len() == idx.len());
            assert forall|t: int| 0 <= t < idx.len() implies #[trigger] names[t]
                == self@[idx@[t] as int].album_artist by {
                assert(idx@.map_values(|i: usize| self@[i as int])[t] == self@[idx@[t] as int]);
            }
            assert(keyv =~= artist_keys(names, sort_articles));
            assert(is_stable_order(order@, keyv));
            assert(strings_view(sorted@) =~= order@.map_values(
                |i: usize| names[i as int],
            ));
            assert(stably_sorted(names, keyv, strings_view(sorted@)));
        }
        let r = distinct_strings(&sorted);
        r
    }

    /// Albums (second column) of the selected artist (every artist when
    /// `None`), restricted by the search filter, sorted by year then lowercased
    /// title, without repeats.
    pub fn albums(&self, query: &str, artist: Option<&str>) -> (r: Vec<AlbumRef>)
        ensures
            is_albums(self@, query@, opt_view(artist), albums_view(r@)),
    {
        let q = chars_of(query);
        let av: Option<Vec<char>> = match artist {
            Some(a) => Some(chars_of(a)),
            None => None,
        };
        let idx = match &av {
            Some(a) => self.select(&q, Some(a), None),
            None => self.select(&q, None, None),
        };
        let ghost artist_v = match artist {
            Some(a) => Some(a@),
            None => None::<Seq<char>>,
        };
        assert(artist_v == match &av {
            Some(a) => Some(a@),
            None => None::<Seq<char>>,
        });
        let ghost refs = album_list(self@, query@, artist_v);
        let mut keys: Vec<Vec<i64>> = Vec::new();
        let mut items: Vec<AlbumRef> = Vec::new();
        let mut k: usize = 0;
        while k < idx.len()
            invariant
                k <= idx.len(),
                forall|j: int| 0 <= j < idx.len() ==> (#[trigger] idx@[j]) < self@.len(),
                keys.len() == k,
                items.len() == k,
                forall|j: int|
                    0 <= j < k ==> #[trigger] items@[j]@ == album_of(self@[idx@[j] as int]),
                forall|j: int|
                    0 <= j < k ==> #[trigger] keys@[j]@ == album_key(
                        album_of(self@[idx@[j] as int]),
                    ),
            decreases idx.len() - k,
        {
            proof {
                use_type_invariant(self);
            }
            let t = &self.tracks[idx[k]];
            let a = AlbumRef { album_artist: t.album_artist.clone(), title: t.album.clone(), year: t.year };
            let key = album_sort_key(&a);
            keys.push(key);
            items.push(a);
            k = k + 1;
        }
        let order = stable_order(&keys);
        let mut sorted: Vec<AlbumRef> = Vec::new();
        let mut j: usize = 0;
        while j < order.len()
            invariant
                j <= order.len(),
                order.len() == items.len(),
                forall|t: int| 0 <= t < order.len() ==> (#[trigger] order@[t]) < items.len(),
                sorted.len() == j,
                forall|t: int| 0 <= t < j ==> #[trigger] sorted@[t]@ == items@[order@[t] as int]@,
            decreases order.len() - j,
        {
            sorted.push(items[order[j]].duplicate());
            j = j + 1;
        }
        proof {
            assert(refs.len() == idx.len());
            assert forall|t: int| 0 <= t < idx.len() implies #[trigger] refs[t] == items@[t]@ by {
                assert(idx@.map_values(|i: usize| self@[i as int])[t] == self@[idx@[t] as int]);
            }
            let keyv = crate::order::key_views(keys@);
            assert(keyv =~= album_keys(refs));
            assert(is_stable_order(order@, keyv));
            assert(albums_view(sorted@) =~= order@.map_values(
                |i: usize| refs[i as int],
            ));
            assert(artist_v == opt_view(artist));
            assert(stably_sorted(refs, keyv, albums_view(sorted@)));
        }
        dedup_albums(&sorted)
    }

    /// A representative track for an album: the first track of that album
    /// artist, title and year (used to source cover art).
    pub fn album_cover_track(&self, album: &AlbumRef) -> (r: Option<&Track>)
        ensures
            match r {
                Some(t) => exists|i: int|
                    0 <= i < self@.len() && album_of(self@[i]) == album@ && t@ == self@[i]
                        && forall|j: int| 0 <= j < i ==> album_of(#[trigger] self@[j]) != album@,
                None => forall|j: int| 0 <= j < self@.len() ==> album_of(#[trigger] self@[j]) != album@,
            },
    {
        let mut i: usize = 0;
        while i < self.tracks.len()
            invariant
                i <= self.tracks.len(),
                forall|j: int| 0 <= j < i ==> album_of(#[trigger] self@[j]) != album@,
            decreases self.tracks.len() - i,
        {
            let t = &self.tracks[i];
            if t.album == album.title && t.album_artist == album.album_artist && t.year
                == album.year {
                assert(album_of(self@[i as int]) == album@);
                return Some(t);
            }
            assert(album_of(self@[i as int]) != album@);
            i = i + 1;
        }
        None
    }

    /// Tracks (third column) restricted by the search filter and the optional
    /// artist and album selections, sorted by year, lowercased album, disc,
    /// track number and lowercased title.
    pub fn tracks_view(&self, query: &str, artist: Option<&str>, album: Option<&AlbumRef>) -> (r:
        Vec<Track>)
        ensures
            is_tracks_view(
                self@,
                query@,
                opt_view(artist),
                match album {
                    Some(al) => Some(al@),
                    None => None,
                },
                tracks_view_of(r@),
            ),
    {
        let q = chars_of(query);
        let av: Option<Vec<char>> = match artist {
            Some(a) => Some(chars_of(a)),
            None => None,
        };
        let idx = match &av {
            Some(a) => self.select(&q, Some(a), album),
            None => self.select(&q, None, album),
        };
        let ghost artist_v = match artist {
            Some(a) => Some(a@),
            None => None::<Seq<char>>,
        };
        let ghost album_v = match album {
            Some(al) => Some(al@),
            None => None::<AlbumRefView>,
        };
        assert(artist_v == match &av {
            Some(a) => Some(a@),
            None => None::<Seq<char>>,
        });
        let ghost sel = selection(self@, query@, artist_v, album_v);
        let mut keys: Vec<Vec<i64>> = Vec::new();
        let mut k: usize = 0;
        while k < idx.len()
            invariant
                k <= idx.len(),
                forall|j: int| 0 <= j < idx.len() ==> (#[trigger] idx@[j]) < self@.len(),
                keys.len() == k,
                forall|j: int|
                    0 <= j < k ==> #[trigger] keys@[j]@ == track_key(self@[idx@[j] as int]),
            decreases idx.len() - k,
        {
            proof {
                use_type_invariant(self);
            }
            let key = track_sort_key(&self.tracks[idx[k]]);
            keys.push(key);
            k = k + 1;
        }
        let order = stable_order(&keys);
        let mut out: Vec<Track> = Vec::new();
        let mut j: usize = 0;
        while j < order.len()
            invariant
                j <= order.len(),
                order.len() == idx.len(),
                forall|t: int| 0 <= t < order.len() ==> (#[trigger] order@[t]) < idx.len(),
                forall|t: int| 0 <= t < idx.len() ==> (#[trigger] idx@[t]) < self@.len(),
                out.len() == j,
                forall|t: int|
                    0 <= t < j ==> #[trigger] out@[t]@ == self@[idx@[order@[t] as int] as int],
            decreases order.len() - j,
        {
            proof {
                use_type_invariant(self);
            }
            out.push(self.tracks[idx[order[j]]].duplicate());
            j = j + 1;
        }
        proof {
            assert(sel.len() == idx.len());
            assert forall|t: int| 0 <= t < idx.len() implies #[trigger] sel[t]
                == self@[idx@[t] as int] by {
                assert(idx@.map_values(|i: usize| self@[i as int])[t] == self@[idx@[t] as int]);
            }
            let keyv = crate::order::key_views(keys@);
            assert(keyv =~= sel.map_values(|t: TrackView| track_key(t)));
            assert(is_stable_order(order@, keyv));
            assert(tracks_view_of(out@) =~= order@.map_values(|i: usize| sel[i as int]));
        }
        out
    }
}

impl Default for Library {
    fn default() -> (r: Library)
        ensures
            r@ == Seq::<TrackView>::empty(),
    {
        let r = Library { tracks: Vec::new(), blobs: Vec::new() };
        assert(r@ =~= Seq::<TrackView>::empty());
        r
    }
}

/// Character vectors with the same contents.
fn vec_eq(a: &Vec<char>, b: &Vec<char>) -> (r: bool)
    ensures
        r == (a@ == b@),
{
    if a.len() != b.len() {
        return false;
    }
    let mut i: usize = 0;
    while i < a.len()
        invariant
            a.len() == b.len(),
            i <= a.len(),
            forall|j: int| 0 <= j < i ==> a@[j] == b@[j],
        decreases a.len() - i,
    {
        if a[i] != b[i] {
            return false;
        }
        i = i + 1;
    }
    assert(a@ =~= b@);
    true
}

/// The sort key of an album (see [`album_key`]).
fn album_sort_key(a: &AlbumRef) -> (k: Vec<i64>)
    ensures
        k@ == album_key(a@),
{
    let mut key: Vec<i64> = Vec::new();
    key.push(year_key(a.year));
    let lt = to_lower(a.title.as_str());
    push_text_key(&mut key, &chars_of(lt.as_str()));
    assert(key@ =~= album_key(a@));
    key
}

/// The sort key of a track (see [`track_key`]).
fn track_sort_key(t: &Track) -> (k: Vec<i64>)
    ensures
        k@ == track_key(t@),
{
    let mut key: Vec<i64> = Vec::new();
    key.push(year_key(t.year));
    let la = to_lower(t.album.as_str());
    push_text_key(&mut key, &chars_of(la.as_str()));
    key.push(number_key(t.disc_no));
    key.push(number_key(t.track_no));
    let lt = to_lower(t.title.as_str());
    push_text_key(&mut key, &chars_of(lt.as_str()));
    assert(key@ =~= track_key(t@));
    key
}

fn year_key(y: Option<i32>) -> (r: i64)
    ensures
        r == year_code(y),
{
    match y {
        Some(v) => v as i64,
        None => i64::MIN,
    }
}

fn number_key(n: Option<u32>) -> (r: i64)
    ensures
        r == number_code(n),
{
    match n {
        Some(v) => v as i64,
        None => -1,
    }
}

proof fn lemma_dedup_step<T>(s: Seq<T>, i: int)
    requires
        0 <= i < s.len(),
    ensures
        dedup(s.take(i + 1)) == if i >= 1 && s[i - 1] == s[i] {
            dedup(s.take(i))
        } else {
            dedup(s.take(i)).push(s[i])
        },
{
    assert(s.take(i + 1).drop_last() =~= s.take(i));
}

proof fn lemma_first_occurrences_contains<T>(s: Seq<T>, x: T)
    ensures
        first_occurrences(s).contains(x) == s.contains(x),
    decreases s.len(),
{
    if s.len() > 0 {
        let t = s.drop_last();
        lemma_first_occurrences_contains(t, x);
        let f = first_occurrences(t);
        if s.contains(x) {
            let k = choose|k: int| 0 <= k < s.len() && s[k] == x;
            if k < t.len() {
                assert(t[k] == x);
            }
        }
        if t.contains(x) {
            let k = choose|k: int| 0 <= k < t.len() && t[k] == x;
            assert(s[k] == x);
        }
        if !t.contains(s.last()) {
            assert(f.push(s.last())[f.len() as int] == s.last());
            if f.push(s.last()).contains(x) {
                let k = choose|k: int| 0 <= k < f.len() + 1 && f.push(s.last())[k] == x;
                if k < f.len() {
                    assert(f[k] == x);
                }
            }
            if f.contains(x) {
                let k = choose|k: int| 0 <= k < f.len() && f[k] == x;
                assert(f.push(s.last())[k] == x);
            }
        }
    }
}

proof fn lemma_first_occurrences_distinct<T>(s: Seq<T>)
    ensures
        first_occurrences(s).no_duplicates(),
    decreases s.len(),
{
    if s.len() > 0 {
        let t = s.drop_last();
        lemma_first_occurrences_distinct(t);
        if !t.contains(s.last()) {
            let f = first_occurrences(t);
            let x = s.last();
            lemma_first_occurrences_contains(t, x);
            assert forall|i: int, j: int|
                0 <= i < f.push(x).len() && 0 <= j < f.push(x).len() && i != j implies f.push(x)[i]
                != f.push(x)[j] by {
                if i < f.len() && j < f.len() {
                    assert(f.push(x)[i] == f[i] && f.push(x)[j] == f[j]);
                } else if i < f.len() {
                    assert(f.push(x)[i] == f[i]);
                } else {
                    assert(f.push(x)[j] == f[j]);
                }
            }
        }
    }
}

proof fn lemma_first_occurrences_step<T>(s: Seq<T>, i: int)
    requires
        0 <= i < s.len(),
    ensures
        first_occurrences(s.take(i + 1)) == if s.take(i).contains(s[i]) {
            first_occurrences(s.take(i))
        } else {
            first_occurrences(s.take(i)).push(s[i])
        },
{
    assert(s.take(i + 1).drop_last() =~= s.take(i));
}

/// Keeps the first occurrence of each string, in order.
fn distinct_strings(v: &Vec<String>) -> (r: Vec<String>)
    ensures
        strings_view(r@) == first_occurrences(strings_view(v@)),
{
    let ghost vv = strings_view(v@);
    let mut out: Vec<String> = Vec::new();
    let mut i: usize = 0;
    assert(vv.take(0) =~= Seq::<Seq<char>>::empty());
    while i < v.len()
        invariant
            i <= v.len(),
            vv == strings_view(v@),
            strings_view(out@) == first_occurrences(vv.take(i as int)),
        decreases v.len() - i,
    {
        let mut found = false;
        let mut j: usize = 0;
        while j < out.len()
            invariant
                j <= out.len(),
                i < v.len(),
                vv == strings_view(v@),
                found == exists|k: int| 0 <= k < j && strings_view(out@)[k] == vv[i as int],
            decreases out.len() - j,
        {
            let same = out[j] == v[i];
            assert(strings_view(out@)[j as int] == out@[j as int]@);
            assert(vv[i as int] == v@[i as int]@);
            if same {
                found = true;
            }
            assert(found == exists|k: int| 0 <= k < j + 1 && strings_view(out@)[k] == vv[i as int]) by {
                if same {
                    assert(strings_view(out@)[j as int] == vv[i as int]);
                }
            }
            j = j + 1;
        }
        proof {
            lemma_first_occurrences_step(vv, i as int);
            lemma_first_occurrences_contains(vv.take(i as int), vv[i as int]);
            if found {
                let k = choose|k: int| 0 <= k < j && strings_view(out@)[k] == vv[i as int];
                assert(strings_view(out@).contains(vv[i as int]));
            } else {
                assert(!strings_view(out@).contains(vv[i as int]));
            }
        }
        if !found {
            let ghost before = out@;
            out.push(v[i].clone());
            assert(strings_view(out@) =~= strings_view(before).push(vv[i as int]));
        }
        i = i + 1;
    }
    assert(vv.take(v.len() as int) =~= vv);
    out
}

/// `Vec::dedup` on albums: drops each album equal to the one before it.
fn dedup_albums(v: &Vec<AlbumRef>) -> (r: Vec<AlbumRef>)
    ensures
        albums_view(r@) == dedup(albums_view(v@)),
{
    let ghost vv = albums_view(v@);
    let mut out: Vec<AlbumRef> = Vec::new();
    let mut i: usize = 0;
    assert(vv.take(0) =~= Seq::<AlbumRefView>::empty());
    while i < v.len()
        invariant
            i <= v.len(),
            vv == albums_view(v@),
            albums_view(out@) == dedup(vv.take(i as int)),
        decreases v.len() - i,
    {
        proof {
            lemma_dedup_step(vv, i as int);
        }
        if i >= 1 && v[i - 1].same_as(&v[i]) {
        } else {
            let a = v[i].duplicate();
            let ghost before = out@;
            out.push(a);
            assert(albums_view(out@) =~= albums_view(before).push(vv[i as int]));
        }
        i = i + 1;
    }
    assert(vv.take(v.len() as int) =~= vv);
    out
}

/// Repeat behaviour at the end of the queue.
#[derive(Clone, Copy, Debug, PartialEq, Eq, Structural)]
pub enum RepeatMode {
    Off,
    All,
    One,
}

impl RepeatMode {
    /// The next mode in the cycle Off → All → One → Off.
    pub fn next(self) -> (r: RepeatMode)
        ensures
            r == self.spec_next(),
    {
        match self {
            RepeatMode::Off => RepeatMode::All,
            RepeatMode::All => RepeatMode::One,
            RepeatMode::One => RepeatMode::Off,
        }
    }

    /// The mode after this one: off, all, one, off.
    pub open spec fn spec_next(self) -> RepeatMode {
        match self {
            RepeatMode::Off => RepeatMode::All,
            RepeatMode::All => RepeatMode::One,
            RepeatMode::One => RepeatMode::Off,
        }
    }

    /// The mode's label: "off", "all" or "one".
    pub fn glyph(self) -> (r: &'static str)
        ensures
            r@ == match self {
                RepeatMode::Off => seq!['o', 'f', 'f'],
                RepeatMode::All => seq!['a', 'l', 'l'],
                RepeatMode::One => seq!['o', 'n', 'e'],
            },
    {
        match self {
            RepeatMode::Off => {
                proof {
                    reveal_strlit("off");
                }
                "off"
            },
            RepeatMode::All => {
                proof {
                    reveal_strlit("all");
                }
                "all"
            },
            RepeatMode::One => {
                proof {
                    reveal_strlit("one");
                }
                "one"
            },
        }
    }
}

/// Cycling the repeat mode three times returns to the starting mode.
pub proof fn law_repeat_cycle(m: RepeatMode)
    ensures
        m.spec_next().spec_next().spec_next() == m,
{
}

/// Splits off a leading "The " or "the ".
fn strip_article(s: &Vec<char>) -> (r: Option<Vec<char>>)
    ensures
        match r {
            Some(rest) => article_rest(s@) == Some(rest@),
            None => article_rest(s@) is None,
        },
{
    let upper = vec!['T', 'h', 'e', ' '];
    let lower = vec!['t', 'h', 'e', ' '];
    assert(upper@ =~= seq!['T', 'h', 'e', ' ']);
    assert(lower@ =~= seq!['t', 'h', 'e', ' ']);
    if starts_with_chars(s, &upper) || starts_with_chars(s, &lower) {
        Some(skip_chars(s, 4))
    } else {
        None
    }
}

/// Sort key that moves a leading "The " to the end: "The Doors" → "doors, the".
pub fn article_sort_key(s: &str, sort_articles: bool) -> (r: String)
    ensures
        r@ == article_key(s@, sort_articles),
{
    let v = chars_of(s);
    if sort_articles {
        if let Some(rest) = strip_article(&v) {
            let low = to_lower(string_of(&rest).as_str());
            let mut out = chars_of(low.as_str());
            out.push(',');
            out.push(' ');
            out.push('t');
            out.push('h');
            out.push('e');
            assert(out@ =~= lowercase(rest@) + seq![',', ' ', 't', 'h', 'e']);
            return string_of(&out);
        }
    }
    to_lower(s)
}

/// Display form: "The Doors" → "Doors, The" when `sort_articles` is on.
pub fn display_artist(s: &str, sort_articles: bool) -> (r: String)
    ensures
        r@ == display_name(s@, sort_articles),
{
    let v = chars_of(s);
    if sort_articles {
        if let Some(rest) = strip_article(&v) {
            let mut out = rest;
            out.push(',');
            out.push(' ');
            out.push('T');
            out.push('h');
            out.push('e');
            return string_of(&out);
        }
    }
    string_of(&v)
}

/// Two-digit zero-padded rendering of `n < 100` (as `{:02}`).
pub open spec fn two_digits(n: nat) -> Seq<char> {
    seq![digit_char(n / 10), digit_char(n % 10)]
}

/// `M:SS`, or `H:MM:SS` when there is at least one hour.
pub open spec fn time_text(secs: nat) -> Seq<char> {
    let h = secs / 3600;
    let m = (secs % 3600) / 60;
    let s = secs % 60;
    if h > 0 {
        decimal(h) + seq![':'] + two_digits(m) + seq![':'] + two_digits(s)
    } else {
        decimal(m) + seq![':'] + two_digits(s)
    }
}

fn push_two_digits(out: &mut Vec<char>, n: u64)
    requires
        n < 100,
    ensures
        final(out)@ == old(out)@ + two_digits(n as nat),
{
    let mut tens: Vec<char> = Vec::new();
    push_decimal(&mut tens, n / 10);
    let mut ones: Vec<char> = Vec::new();
    push_decimal(&mut ones, n % 10);
    append_chars(out, &tens);
    append_chars(out, &ones);
    assert(old(out)@ + decimal((n / 10) as nat) + decimal((n % 10) as nat) =~= old(out)@
        + two_digits(n as nat));
}

/// Format seconds as M:SS (or H:MM:SS for long tracks).
pub fn fmt_time(secs: u64) -> (r: String)
    ensures
        r@ == time_text(secs as nat),
{
    let h = secs / 3600;
    let m = (secs % 3600) / 60;
    let s = secs % 60;
    let mut out: Vec<char> = Vec::new();
    if h > 0 {
        push_decimal(&mut out, h);
        out.push(':');
        push_two_digits(&mut out, m);
        out.push(':');
        push_two_digits(&mut out, s);
    } else {
        push_decimal(&mut out, m);
        out.push(':');
        push_two_digits(&mut out, s);
    }
    assert(out@ =~= time_text(secs as nat));
    string_of(&out)
}

} // verus!

verus! {

/// `s` is non-decreasing under the key function `kf`.
pub open spec fn sorted_by_key<T>(s: Seq<T>, kf: spec_fn(T) -> Seq<i64>) -> bool {
    forall|i: int, j: int| 0 <= i < j < s.len() ==> lex_le(#[trigger] kf(s[i]), #[trigger] kf(s[j]))
}

proof fn lemma_dedup_len<T>(s: Seq<T>)
    ensures
        dedup(s).len() <= s.len(),
    decreases s.len(),
{
    if s.len() > 0 {
        lemma_dedup_len(s.drop_last());
    }
}

proof fn lemma_dedup_contains<T>(s: Seq<T>, k: int)
    requires
        0 <= k < dedup(s).len(),
    ensures
        s.contains(dedup(s)[k]),
    decreases s.len(),
{
    if s.len() > 0 {
        let d = dedup(s.drop_last());
        if s.len() >= 2 && s[s.len() - 2] == s.last() {
            lemma_dedup_contains(s.drop_last(), k);
            let x = dedup(s)[k];
            let w = choose|w: int| 0 <= w < s.drop_last().len() && s.drop_last()[w] == x;
            assert(s[w] == x);
        } else if k < d.len() {
            lemma_dedup_contains(s.drop_last(), k);
            let x = dedup(s)[k];
            let w = choose|w: int| 0 <= w < s.drop_last().len() && s.drop_last()[w] == x;
            assert(s[w] == x);
        } else {
            assert(dedup(s)[k] == s[s.len() - 1]);
        }
    }
}

proof fn lemma_dedup_last<T>(s: Seq<T>)
    requires
        s.len() > 0,
    ensures
        dedup(s).len() > 0,
        dedup(s).last() == s.last(),
    decreases s.len(),
{
    if s.len() >= 2 && s[s.len() - 2] == s.last() {
        lemma_dedup_last(s.drop_last());
    }
}

proof fn lemma_dedup_sorted<T>(s: Seq<T>, kf: spec_fn(T) -> Seq<i64>)
    requires
        sorted_by_key(s, kf),
    ensures
        sorted_by_key(dedup(s), kf),
    decreases s.len(),
{
    if s.len() > 0 {
        let t = s.drop_last();
        assert(sorted_by_key(t, kf)) by {
            assert forall|i: int, j: int| 0 <= i < j < t.len() implies lex_le(
                #[trigger] kf(t[i]),
                #[trigger] kf(t[j]),
            ) by {
                assert(kf(s[i]) == kf(t[i]) && kf(s[j]) == kf(t[j]));
            }
        }
        lemma_dedup_sorted(t, kf);
        if !(s.len() >= 2 && s[s.len() - 2] == s.last()) {
            let d = dedup(t);
            let x = s.last();
            assert forall|i: int, j: int| 0 <= i < j < d.push(x).len() implies lex_le(
                #[trigger] kf(d.push(x)[i]),
                #[trigger] kf(d.push(x)[j]),
            ) by {
                if j == d.len() {
                    lemma_dedup_contains(t, i);
                    let w = choose|w: int| 0 <= w < t.len() && t[w] == d[i];
                    assert(kf(s[w]) == kf(d[i]));
                    assert(lex_le(kf(s[w]), kf(s[s.len() - 1])));
                } else {
                    assert(d.push(x)[i] == d[i] && d.push(x)[j] == d[j]);
                }
            }
        }
    }
}

proof fn lemma_stably_sorted_is_sorted<T>(
    items: Seq<T>,
    kf: spec_fn(T) -> Seq<i64>,
    out: Seq<T>,
)
    requires
        stably_sorted(items, items.map_values(kf), out),
    ensures
        sorted_by_key(out, kf),
        out.len() == items.len(),
        forall|i: int| 0 <= i < out.len() ==> items.contains(#[trigger] out[i]),
{
    let keys = items.map_values(kf);
    let p = choose|p: Seq<usize>|
        #[trigger] is_stable_order(p, keys) && out == p.map_values(|i: usize| items[i as int]);
    assert forall|i: int, j: int| 0 <= i < j < out.len() implies lex_le(
        #[trigger] kf(out[i]),
        #[trigger] kf(out[j]),
    ) by {
        assert(out[i] == items[p[i] as int] && out[j] == items[p[j] as int]);
        assert(lex_le(keys[p[i] as int], keys[p[j] as int]));
    }
    assert forall|i: int| 0 <= i < out.len() implies items.contains(#[trigger] out[i]) by {
        assert(out[i] == items[p[i] as int]);
    }
}

/// The sort key of an album artist.
pub open spec fn artist_key_fn(sort_articles: bool) -> spec_fn(Seq<char>) -> Seq<i64> {
    |n: Seq<char>| text_key(article_key(n, sort_articles))
}

proof fn lemma_first_occurrences_sorted<T>(s: Seq<T>, kf: spec_fn(T) -> Seq<i64>)
    requires
        sorted_by_key(s, kf),
    ensures
        sorted_by_key(first_occurrences(s), kf),
    decreases s.len(),
{
    if s.len() > 0 {
        let t = s.drop_last();
        assert(sorted_by_key(t, kf)) by {
            assert forall|i: int, j: int| 0 <= i < j < t.len() implies lex_le(
                #[trigger] kf(t[i]),
                #[trigger] kf(t[j]),
            ) by {
                assert(kf(s[i]) == kf(t[i]) && kf(s[j]) == kf(t[j]));
            }
        }
        lemma_first_occurrences_sorted(t, kf);
        if !t.contains(s.last()) {
            let f = first_occurrences(t);
            let x = s.last();
            assert forall|i: int, j: int| 0 <= i < j < f.push(x).len() implies lex_le(
                #[trigger] kf(f.push(x)[i]),
                #[trigger] kf(f.push(x)[j]),
            ) by {
                if j == f.len() {
                    lemma_first_occurrences_contains(t, f[i]);
                    assert(f.contains(f[i]));
                    let w = choose|w: int| 0 <= w < t.len() && t[w] == f[i];
                    assert(kf(s[w]) == kf(f[i]));
                    assert(lex_le(kf(s[w]), kf(s[s.len() - 1])));
                } else {
                    assert(f.push(x)[i] == f[i] && f.push(x)[j] == f[j]);
                }
            }
        }
    }
}

/// Album artists come out in ascending (article-aware, lowercased) order.
pub proof fn law_album_artists_sorted(
    lib: Library,
    query: &str,
    sort_articles: bool,
    r: Seq<Seq<char>>,
)
    requires
        is_album_artists(lib@, query@, sort_articles, r),
    ensures
        sorted_by_key(r, artist_key_fn(sort_articles)),
{
    let names = artist_names(lib@, query@);
    let sorted = choose|sorted: Seq<Seq<char>>|
        #[trigger] stably_sorted(names, artist_keys(names, sort_articles), sorted)
            && r == first_occurrences(sorted);
    assert(artist_keys(names, sort_articles) =~= names.map_values(artist_key_fn(sort_articles)));
    lemma_stably_sorted_is_sorted(names, artist_key_fn(sort_articles), sorted);
    lemma_first_occurrences_sorted(sorted, artist_key_fn(sort_articles));
}

/// Album artists are distinct: no name is listed twice.
pub proof fn law_album_artists_distinct(
    lib: Library,
    query: &str,
    sort_articles: bool,
    r: Seq<Seq<char>>,
)
    requires
        is_album_artists(lib@, query@, sort_articles, r),
    ensures
        r.no_duplicates(),
{
    let names = artist_names(lib@, query@);
    let sorted = choose|sorted: Seq<Seq<char>>|
        #[trigger] stably_sorted(names, artist_keys(names, sort_articles), sorted)
            && r == first_occurrences(sorted);
    lemma_first_occurrences_distinct(sorted);
}

/// The sort key of an album.
pub open spec fn album_key_fn() -> spec_fn(AlbumRefView) -> Seq<i64> {
    |a: AlbumRefView| album_key(a)
}

/// Albums come out by year, then lowercased title.
pub proof fn law_albums_sorted(lib: Library, query: &str, artist: Option<&str>, r: Seq<AlbumRefView>)
    requires
        is_albums(lib@, query@, opt_view(artist), r),
    ensures
        sorted_by_key(r, album_key_fn()),
{
    let refs = album_list(lib@, query@, opt_view(artist));
    let sorted = choose|sorted: Seq<AlbumRefView>|
        #[trigger] stably_sorted(refs, album_keys(refs), sorted) && r == dedup(sorted);
    assert(album_keys(refs) =~= refs.map_values(album_key_fn()));
    lemma_stably_sorted_is_sorted(refs, album_key_fn(), sorted);
    lemma_dedup_sorted(sorted, album_key_fn());
}

/// Every listed album belongs to the selected artist, when one is selected.
pub proof fn law_albums_of_artist(lib: Library, query: &str, artist: &str, r: Seq<AlbumRefView>)
    requires
        is_albums(lib@, query@, Some(artist@), r),
    ensures
        forall|i: int| 0 <= i < r.len() ==> (#[trigger] r[i]).album_artist == artist@,
{
    let refs = album_list(lib@, query@, Some(artist@));
    let sorted = choose|sorted: Seq<AlbumRefView>|
        #[trigger] stably_sorted(refs, album_keys(refs), sorted) && r == dedup(sorted);
    assert(album_keys(refs) =~= refs.map_values(album_key_fn()));
    lemma_stably_sorted_is_sorted(refs, album_key_fn(), sorted);
    let sel = selection(lib@, query@, Some(artist@), None);
    assert forall|i: int| 0 <= i < r.len() implies (#[trigger] r[i]).album_artist == artist@ by {
        lemma_dedup_contains(sorted, i);
        let w = choose|w: int| 0 <= w < sorted.len() && sorted[w] == r[i];
        assert(refs.contains(sorted[w]));
        let v = choose|v: int| 0 <= v < refs.len() && refs[v] == sorted[w];
        assert(refs[v] == album_of(sel[v]));
        lib@.lemma_filter_pred(selector(query@, Some(artist@), None), v);
        assert(selector(query@, Some(artist@), None)(sel[v]));
    }
}

/// The sort key of a track.
pub open spec fn track_key_fn() -> spec_fn(TrackView) -> Seq<i64> {
    |t: TrackView| track_key(t)
}

/// The track column comes out by year, lowercased album, disc, track number,
/// and lowercased title, and every listed track passes the search filter.
pub proof fn law_tracks_view_sorted_and_filtered(
    lib: Library,
    query: &str,
    artist: Option<&str>,
    album: Option<AlbumRefView>,
    r: Seq<TrackView>,
)
    requires
        is_tracks_view(lib@, query@, opt_view(artist), album, r),
    ensures
        sorted_by_key(r, track_key_fn()),
        forall|i: int| 0 <= i < r.len() ==> track_matches(#[trigger] r[i], query@),
{
    let sel = selection(lib@, query@, opt_view(artist), album);
    assert(sel.map_values(|t: TrackView| track_key(t)) =~= sel.map_values(track_key_fn()));
    lemma_stably_sorted_is_sorted(sel, track_key_fn(), r);
    assert forall|i: int| 0 <= i < r.len() implies track_matches(#[trigger] r[i], query@) by {
        let v = choose|v: int| 0 <= v < sel.len() && sel[v] == r[i];
        lib@.lemma_filter_pred(selector(query@, opt_view(artist), album), v);
    }
}

/// Every track the track column lists passes all three filters: it matches
/// the query, belongs to the chosen album artist, and to the chosen album.
pub proof fn law_tracks_view_selected(
    tracks: Seq<TrackView>,
    q: Seq<char>,
    artist: Option<Seq<char>>,
    album: Option<AlbumRefView>,
    r: Seq<TrackView>,
)
    requires
        is_tracks_view(tracks, q, artist, album, r),
    ensures
        forall|i: int| 0 <= i < r.len() ==> track_matches(#[trigger] r[i], q),
        forall|i: int| 0 <= i < r.len() ==> (artist matches Some(a) ==> (#[trigger] r[i]).album_artist == a),
        forall|i: int| 0 <= i < r.len() ==> (album matches Some(al) ==> album_of(#[trigger] r[i]) == al),
{
    let sel = selection(tracks, q, artist, album);
    assert(sel.map_values(|t: TrackView| track_key(t)) =~= sel.map_values(track_key_fn()));
    lemma_stably_sorted_is_sorted(sel, track_key_fn(), r);
    assert forall|i: int| 0 <= i < r.len() implies selected(#[trigger] r[i], q, artist, album) by {
        let v = choose|v: int| 0 <= v < sel.len() && sel[v] == r[i];
        tracks.lemma_filter_pred(selector(q, artist, album), v);
    }
}

} // verus!

verus! {

/// `m` places `a` inside `b` in order: `a[i]` is `b[m[i]]`, with increasing
/// positions.
pub open spec fn embeds<T>(m: Seq<int>, a: Seq<T>, b: Seq<T>) -> bool {
    &&& m.len() == a.len()
    &&& forall|i: int| 0 <= i < m.len() ==> 0 <= #[trigger] m[i] < b.len() && a[i] == b[m[i]]
    &&& forall|i: int, j: int| 0 <= i < j < m.len() ==> #[trigger] m[i] < #[trigger] m[j]
}

/// `a` is a subsequence of `b`: `b` with some items left out, nothing added
/// or moved.
pub open spec fn is_subsequence<T>(a: Seq<T>, b: Seq<T>) -> bool {
    exists|m: Seq<int>| #[trigger] embeds(m, a, b)
}

proof fn lemma_filter_embeds<T>(s: Seq<T>, pred: spec_fn(T) -> bool) -> (m: Seq<int>)
    ensures
        embeds(m, s.filter(pred), s),
    decreases s.len(),
{
    reveal(Seq::filter);
    if s.len() == 0 {
        Seq::<int>::empty()
    } else {
        let t = s.drop_last();
        let m0 = lemma_filter_embeds(t, pred);
        let f0 = t.filter(pred);
        if pred(s.last()) {
            let m = m0.push(s.len() - 1);
            let f = s.filter(pred);
            assert(f == f0.push(s.last()));
            assert forall|i: int| 0 <= i < m.len() implies 0 <= #[trigger] m[i] < s.len() && f[i]
                == s[m[i]] by {
                if i < m0.len() {
                    assert(m[i] == m0[i] && f[i] == f0[i] && t[m0[i]] == s[m0[i]]);
                }
            }
            assert forall|i: int, j: int| 0 <= i < j < m.len() implies #[trigger] m[i]
                < #[trigger] m[j] by {
                if j < m0.len() {
                    assert(m[i] == m0[i] && m[j] == m0[j]);
                } else {
                    assert(m[i] == m0[i]);
                }
            }
            m
        } else {
            assert forall|i: int| 0 <= i < m0.len() implies 0 <= #[trigger] m0[i] < s.len()
                && s.filter(pred)[i] == s[m0[i]] by {
                assert(t[m0[i]] == s[m0[i]]);
            }
            m0
        }
    }
}

proof fn lemma_filter_filter<T>(s: Seq<T>, pn: spec_fn(T) -> bool, pw: spec_fn(T) -> bool)
    requires
        forall|x: T| #[trigger] pn(x) ==> pw(x),
    ensures
        s.filter(pn) == s.filter(pw).filter(pn),
    decreases s.len(),
{
    reveal(Seq::filter);
    if s.len() > 0 {
        lemma_filter_filter(s.drop_last(), pn, pw);
        let a = s.drop_last().filter(pw);
        if pw(s.last()) {
            assert(a.push(s.last()).drop_last() =~= a);
        }
    }
}

proof fn lemma_permutation_onto(p: Seq<usize>, n: nat, x: int)
    requires
        crate::order::is_permutation(p, n),
        0 <= x < n,
    ensures
        exists|a: int| 0 <= a < p.len() && p[a] as int == x,
{
    let q = p.map_values(|v: usize| v as int);
    assert(q.no_duplicates()) by {
        assert forall|i: int, j: int| 0 <= i < q.len() && 0 <= j < q.len() && i != j implies q[i]
            != q[j] by {
            if i < j {
                assert(p[i] != p[j]);
            } else {
                assert(p[j] != p[i]);
            }
        }
    }
    q.unique_seq_to_set();
    vstd::set_lib::lemma_int_range(0, n as int);
    let range = vstd::set_lib::set_int_range(0, n as int);
    assert(q.to_set().subset_of(range)) by {
        assert forall|v: int| q.to_set().contains(v) implies range.contains(v) by {
            let k = choose|k: int| 0 <= k < q.len() && q[k] == v;
            assert(p[k] < n);
        }
    }
    vstd::set_lib::lemma_subset_equality(q.to_set(), range);
    assert(range.contains(x));
    assert(q.to_set().contains(x));
    let k = choose|k: int| 0 <= k < q.len() && q[k] == x;
    assert(p[k] as int == x);
}

proof fn lemma_lex_antisymmetric(a: Seq<i64>, b: Seq<i64>)
    requires
        lex_le(a, b),
        lex_le(b, a),
    ensures
        a == b,
{
    crate::order::lemma_lex_total(a, b);
}

/// Stably sorting a filtered list gives a subsequence of the stably sorted
/// whole list.
proof fn lemma_sorted_filter_subsequence<T>(
    items: Seq<T>,
    kf: spec_fn(T) -> Seq<i64>,
    pred: spec_fn(T) -> bool,
    r: Seq<T>,
    r2: Seq<T>,
)
    requires
        stably_sorted(items, items.map_values(kf), r),
        stably_sorted(items.filter(pred), items.filter(pred).map_values(kf), r2),
    ensures
        is_subsequence(r2, r),
{
    let keys = items.map_values(kf);
    let items2 = items.filter(pred);
    let keys2 = items2.map_values(kf);
    let p = choose|p: Seq<usize>|
        #[trigger] is_stable_order(p, keys) && r == p.map_values(|i: usize| items[i as int]);
    let p2 = choose|p: Seq<usize>|
        #[trigger] is_stable_order(p, keys2) && r2 == p.map_values(|i: usize| items2[i as int]);
    let f = lemma_filter_embeds(items, pred);
    let o = Seq::new(r2.len(), |i: int| f[p2[i] as int]);
    let m = Seq::new(r2.len(), |i: int| choose|a: int| 0 <= a < p.len() && p[a] as int == o[i]);
    assert forall|i: int| 0 <= i < m.len() implies 0 <= #[trigger] m[i] < r.len() && r2[i]
        == r[m[i]] by {
        assert(p2[i] < keys2.len());
        lemma_permutation_onto(p, keys.len(), o[i]);
        assert(r2[i] == items2[p2[i] as int]);
        assert(items2[p2[i] as int] == items[f[p2[i] as int]]);
        assert(r[m[i]] == items[p[m[i]] as int]);
    }
    assert forall|i: int, j: int| 0 <= i < j < m.len() implies #[trigger] m[i] < #[trigger] m[j] by {
        assert(p2[i] < keys2.len() && p2[j] < keys2.len());
        lemma_permutation_onto(p, keys.len(), o[i]);
        lemma_permutation_onto(p, keys.len(), o[j]);
        let x = p2[i] as int;
        let y = p2[j] as int;
        assert(x < keys2.len() && y < keys2.len() && x != y);
        assert(keys2[x] == keys[f[x]] && keys2[y] == keys[f[y]]);
        assert(lex_le(keys2[x], keys2[y]));
        if x > y {
            assert(f[y] < f[x]);
        } else {
            assert(f[x] < f[y]);
        }
        if m[j] <= m[i] {
            if m[j] == m[i] {
                assert(f[x] == f[y]);
            } else {
                assert(lex_le(keys[p[m[j]] as int], keys[p[m[i]] as int]));
                lemma_lex_antisymmetric(keys[f[x]], keys[f[y]]);
                assert(keys2[x] == keys2[y]);
                assert(x < y);
                assert(p[m[j]] < p[m[i]]);
            }
        }
    }
    assert(embeds(m, r2, r));
}

/// Narrowing the track column's filters never adds or reorders tracks: with
/// a query that contains the wider query, the same or a newly chosen album
/// artist, and the same or a newly chosen album, the tracks listed are a
/// subsequence of those listed before.
pub proof fn law_narrowing_keeps_order(
    lib: Library,
    q: Seq<char>,
    artist: Option<Seq<char>>,
    album: Option<AlbumRefView>,
    q2: Seq<char>,
    artist2: Option<Seq<char>>,
    album2: Option<AlbumRefView>,
    wide: Seq<TrackView>,
    narrow: Seq<TrackView>,
)
    requires
        occurs_in(q2, q),
        artist is Some ==> artist2 == artist,
        album is Some ==> album2 == album,
        is_tracks_view(lib@, q, artist, album, wide),
        is_tracks_view(lib@, q2, artist2, album2, narrow),
    ensures
        is_subsequence(narrow, wide),
{
    let pw = selector(q, artist, album);
    let pn = selector(q2, artist2, album2);
    assert forall|t: TrackView| #[trigger] pn(t) implies pw(t) by {
        if q.len() > 0 {
            let i = choose|i: int|
                0 <= i && i + q2.len() <= blob_of(t).len() && #[trigger] blob_of(t).subrange(
                    i,
                    i + q2.len(),
                ) == q2;
            let k = choose|k: int| 0 <= k && k + q.len() <= q2.len() && #[trigger] q2.subrange(k, k + q.len()) == q;
            assert(blob_of(t).subrange(i + k, i + k + q.len()) =~= q);
        }
    }
    let wsel = lib@.filter(pw);
    lemma_filter_filter(lib@, pn, pw);
    let kf = track_key_fn();
    assert(wsel.map_values(|t: TrackView| track_key(t)) =~= wsel.map_values(kf));
    assert(wsel.filter(pn).map_values(|t: TrackView| track_key(t)) =~= wsel.filter(pn).map_values(kf));
    lemma_sorted_filter_subsequence(wsel, kf, pn, wide, narrow);
}

} // verus!
