//! Decisions of the library scan: which files are audio, how tag values
//! become a track, when progress is reported, which picture is the cover,
//! and the messages a background scan sends.
use vstd::prelude::*;

use crate::model::{Track, TrackView};
use crate::text::{
    chars_of, decimal, has_prefix, lowercase, push_decimal, same_chars, skip_chars,
    starts_with_chars, string_of, to_lower, trim_start, trim_start_chars,
};

verus! {

/// Messages streamed from the background scan to the interface.
pub enum ScanMsg {
    Progress { done: usize, total: usize },
    Finished(Vec<Track>),
    Error(String),
}

/// What `Path::extension` gives for a path: the file name's text after its
/// last `.`, when there is one that does not only start the name.
pub uninterp spec fn extension_of(p: Seq<char>) -> Option<Seq<char>>;

/// What `Path::file_stem` gives for a path: the file name without its
/// extension, when there is a file name.
pub uninterp spec fn file_stem_of(p: Seq<char>) -> Option<Seq<char>>;

/// Calls `Path::extension` on a text path. The result is named; the one
/// fact stated is the documented one that a path without a `.` has no
/// extension.
#[verifier::external_body]
fn path_extension(p: &str) -> (r: Option<String>)
    ensures
        match r {
            Some(e) => extension_of(p@) == Some(e@),
            None => extension_of(p@) is None,
        },
        !p@.contains('.') ==> r is None,
{
    std::path::Path::new(p).extension().and_then(|e| e.to_str()).map(|e| e.to_string())
}

/// Calls `Path::file_stem` on a text path and renders it as text (lossily,
/// which changes nothing for a path that is already text). The result is
/// named.
#[verifier::external_body]
fn path_file_stem(p: &str) -> (r: Option<String>)
    ensures
        match r {
            Some(s) => file_stem_of(p@) == Some(s@),
            None => file_stem_of(p@) is None,
        },
{
    std::path::Path::new(p).file_stem().map(|s| s.to_string_lossy().into_owned())
}

/// The file extensions read as audio (lowercase).
pub open spec fn audio_exts() -> Seq<Seq<char>> {
    seq![
        "mp3"@,
        "flac"@,
        "ogg"@,
        "oga"@,
        "opus"@,
        "wav"@,
        "m4a"@,
        "mp4"@,
        "aac"@,
        "alac"@,
        "aiff"@,
        "aif"@,
    ]
}

/// Whether `e` (already lowercased) is one of the audio extensions.
fn is_audio_ext(e: &Vec<char>) -> (r: bool)
    ensures
        r == audio_exts().contains(e@),
{
    let r = same_chars(e, "mp3") || same_chars(e, "flac") || same_chars(e, "ogg") || same_chars(
        e,
        "oga",
    ) || same_chars(e, "opus") || same_chars(e, "wav") || same_chars(e, "m4a") || same_chars(
        e,
        "mp4",
    ) || same_chars(e, "aac") || same_chars(e, "alac") || same_chars(e, "aiff") || same_chars(
        e,
        "aif",
    );
    proof {
        let x = audio_exts();
        if r {
            if e@ == "mp3"@ {
                assert(x[0] == e@);
            } else if e@ == "flac"@ {
                assert(x[1] == e@);
            } else if e@ == "ogg"@ {
                assert(x[2] == e@);
            } else if e@ == "oga"@ {
                assert(x[3] == e@);
            } else if e@ == "opus"@ {
                assert(x[4] == e@);
            } else if e@ == "wav"@ {
                assert(x[5] == e@);
            } else if e@ == "m4a"@ {
                assert(x[6] == e@);
            } else if e@ == "mp4"@ {
                assert(x[7] == e@);
            } else if e@ == "aac"@ {
                assert(x[8] == e@);
            } else if e@ == "alac"@ {
                assert(x[9] == e@);
            } else if e@ == "aiff"@ {
                assert(x[10] == e@);
            } else {
                assert(x[11] == e@);
            }
        } else {
            assert forall|i: int| 0 <= i < x.len() implies x[i] != e@ by {
                if i == 0 {
                } else if i == 1 {
                } else if i == 2 {
                } else if i == 3 {
                } else if i == 4 {
                } else if i == 5 {
                } else if i == 6 {
                } else if i == 7 {
                } else if i == 8 {
                } else if i == 9 {
                } else if i == 10 {
                } else {
                }
            }
        }
    }
    r
}

/// Whether a file is read as audio: its extension, lowercased, is one of
/// [`audio_exts`]. A path without an extension is not audio.
pub fn is_audio(path: &str) -> (r: bool)
    ensures
        r == (extension_of(path@) matches Some(e) && audio_exts().contains(lowercase(e))),
{
    match path_extension(path) {
        Some(e) => {
            let low = to_lower(e.as_str());
            is_audio_ext(&chars_of(low.as_str()))
        },
        None => false,
    }
}

/// Whether the scan reports progress after the file at index `i` of
/// `total`: every 25th file and the last one.
pub fn progress_due(i: usize, total: usize) -> (r: bool)
    ensures
        r == (i % 25 == 0 || i + 1 == total),
{
    i % 25 == 0 || (i < usize::MAX && i + 1 == total)
}

/// Which picture is the cover, given whether each is marked as the front
/// cover: the first front cover, else the first picture; none without pictures.
pub fn pick_cover(front: &Vec<bool>) -> (r: Option<usize>)
    ensures
        front.len() == 0 ==> r is None,
        front.len() > 0 ==> (r matches Some(i) && i < front.len() && (if front@.contains(true) {
            front@[i as int] && forall|j: int| 0 <= j < i ==> !#[trigger] front@[j]
        } else {
            i == 0
        })),
{
    if front.len() == 0 {
        return None;
    }
    let mut i: usize = 0;
    while i < front.len()
        invariant
            i <= front.len(),
            forall|j: int| 0 <= j < i ==> !#[trigger] front@[j],
        decreases front.len() - i,
    {
        if front[i] {
            return Some(i);
        }
        i = i + 1;
    }
    assert(!front@.contains(true));
    Some(0)
}

/// The decimal rendering of a signed number (as `format!("{y}")`).
pub open spec fn signed_decimal(y: int) -> Seq<char> {
    if y < 0 {
        seq!['-'] + decimal((-y) as nat)
    } else {
        decimal(y as nat)
    }
}

/// Appends the decimal rendering of `y`.
pub fn push_signed(out: &mut Vec<char>, y: i32)
    ensures
        final(out)@ == old(out)@ + signed_decimal(y as int),
{
    if y < 0 {
        out.push('-');
        let m: i64 = -(y as i64);
        push_decimal(out, m as u64);
        assert(old(out)@.push('-') + decimal(m as nat) =~= old(out)@ + (seq!['-'] + decimal(
            m as nat,
        )));
    } else {
        push_decimal(out, y as u64);
    }
}

/// `[y]` or `(y)`, depending on the bracket.
pub open spec fn year_tag(open: char, y: int, close: char) -> Seq<char> {
    seq![open] + signed_decimal(y) + seq![close]
}

/// The rest of `album` after `tag` and the whitespace that follows it, when
/// `album` starts with `tag` and something is left.
pub open spec fn after_tag(album: Seq<char>, tag: Seq<char>) -> Option<Seq<char>> {
    if has_prefix(album, tag) && trim_start(album.skip(tag.len() as int)).len() > 0 {
        Some(trim_start(album.skip(tag.len() as int)))
    } else {
        None
    }
}

/// An album title with a leading `[year]` or `(year)` removed when the year
/// is the track's own (and something is left).
pub open spec fn year_stripped(album: Seq<char>, year: Option<i32>) -> Seq<char> {
    match year {
        None => album,
        Some(y) => match after_tag(album, year_tag('[', y as int, ']')) {
            Some(rest) => rest,
            None => match after_tag(album, year_tag('(', y as int, ')')) {
                Some(rest) => rest,
                None => album,
            },
        },
    }
}

fn try_strip(album: &Vec<char>, open: char, y: i32, close: char) -> (r: Option<Vec<char>>)
    ensures
        match r {
            Some(v) => after_tag(album@, year_tag(open, y as int, close)) == Some(v@),
            None => after_tag(album@, year_tag(open, y as int, close)) is None,
        },
{
    let mut tag: Vec<char> = Vec::new();
    tag.push(open);
    push_signed(&mut tag, y);
    tag.push(close);
    assert(tag@ =~= year_tag(open, y as int, close));
    if starts_with_chars(album, &tag) {
        let rest = trim_start_chars(&skip_chars(album, tag.len()));
        if rest.len() > 0 {
            return Some(rest);
        }
    }
    None
}

/// Strips a leading `[YYYY]` or `(YYYY)` from an album title when it repeats
/// the track's year, so the year is not shown twice.
pub fn strip_year_prefix(album: &str, year: Option<i32>) -> (r: String)
    ensures
        r@ == year_stripped(album@, year),
{
    let y = match year {
        Some(y) => y,
        None => {
            return String::from_str(album);
        },
    };
    let v = chars_of(album);
    if let Some(rest) = try_strip(&v, '[', y, ']') {
        return string_of(&rest);
    }
    if let Some(rest) = try_strip(&v, '(', y, ')') {
        return string_of(&rest);
    }
    String::from_str(album)
}

/// Whether every character of `s` is an ASCII digit.
pub open spec fn all_digits(s: Seq<char>) -> bool {
    forall|i: int| 0 <= i < s.len() ==> '0' <= #[trigger] s[i] <= '9'
}

/// The value of a run of ASCII digits.
pub open spec fn digits_value(s: Seq<char>) -> int
    decreases s.len(),
{
    if s.len() == 0 {
        0
    } else {
        digits_value(s.drop_last()) * 10 + (s.last() as int - '0' as int)
    }
}

/// What `str::parse::<i32>` gives for a short text: an optional `+` or `-`
/// followed by at least one ASCII digit, nothing else.
pub open spec fn int_text(s: Seq<char>) -> Option<int> {
    if s.len() > 0 && (s[0] == '+' || s[0] == '-') {
        if s.len() > 1 && all_digits(s.skip(1)) {
            Some(
                if s[0] == '-' {
                    -digits_value(s.skip(1))
                } else {
                    digits_value(s.skip(1))
                },
            )
        } else {
            None
        }
    } else if s.len() > 0 && all_digits(s) {
        Some(digits_value(s))
    } else {
        None
    }
}

/// The year a date text starts with: its first four bytes read as a number,
/// as `s.get(0..4)` then `parse::<i32>` do. Those are four characters, all
/// ASCII (at most U+007F), or the reading fails.
pub open spec fn year_of_text(s: Seq<char>) -> Option<int> {
    if s.len() >= 4 && forall|i: int| 0 <= i < 4 ==> #[trigger] s[i] <= '\u{7f}' {
        int_text(s.take(4))
    } else {
        None
    }
}

/// Ten to the power `n`.
pub open spec fn pow10(n: nat) -> int
    decreases n,
{
    if n == 0 {
        1
    } else {
        10 * pow10((n - 1) as nat)
    }
}

proof fn lemma_digits_bound(s: Seq<char>)
    requires
        all_digits(s),
    ensures
        0 <= digits_value(s) < pow10(s.len()),
    decreases s.len(),
{
    if s.len() > 0 {
        let d = s.drop_last();
        assert(s.last() == s[s.len() - 1]);
        assert(all_digits(d)) by {
            assert forall|i: int| 0 <= i < d.len() implies '0' <= #[trigger] d[i] <= '9' by {
                assert(d[i] == s[i]);
            }
        }
        lemma_digits_bound(d);
        let a = digits_value(d);
        let b = pow10(d.len());
        let c = s.last() as int - '0' as int;
        assert(0 <= c <= 9);
        assert(0 <= a * 10 + c < 10 * b) by (nonlinear_arith)
            requires
                0 <= a < b,
                0 <= c <= 9,
        ;
    }
}

/// Reads the value of the digits `v[from..]`.
fn read_digits(v: &Vec<char>, from: usize) -> (r: i32)
    requires
        from <= v.len() <= 4,
        all_digits(v@.skip(from as int)),
    ensures
        r == digits_value(v@.skip(from as int)),
{
    let mut acc: i32 = 0;
    let mut i: usize = from;
    assert(v@.skip(from as int).take(0) =~= Seq::<char>::empty());
    while i < v.len()
        invariant
            from <= i <= v.len() <= 4,
            all_digits(v@.skip(from as int)),
            acc == digits_value(v@.subrange(from as int, i as int)),
        decreases v.len() - i,
    {
        let ghost part = v@.subrange(from as int, i + 1);
        assert(part.drop_last() =~= v@.subrange(from as int, i as int));
        assert(part.last() == v@.skip(from as int)[i - from]);
        assert(all_digits(part)) by {
            assert forall|k: int| 0 <= k < part.len() implies '0' <= #[trigger] part[k] <= '9' by {
                assert(part[k] == v@.skip(from as int)[k]);
            }
        }
        proof {
            lemma_digits_bound(part);
            lemma_digits_bound(v@.subrange(from as int, i as int));
            reveal_with_fuel(pow10, 5);
            assert(pow10(part.len()) <= 10000);
        }
        let d: u32 = v[i] as u32 - '0' as u32;
        acc = acc * 10 + d as i32;
        i = i + 1;
    }
    assert(v@.subrange(from as int, v.len() as int) =~= v@.skip(from as int));
    acc
}

/// Whether `v[from..]` is all ASCII digits.
fn digits_only(v: &Vec<char>, from: usize) -> (r: bool)
    requires
        from <= v.len(),
    ensures
        r == all_digits(v@.skip(from as int)),
{
    let mut i: usize = from;
    while i < v.len()
        invariant
            from <= i <= v.len(),
            forall|k: int| from <= k < i ==> '0' <= #[trigger] v@[k] <= '9',
        decreases v.len() - i,
    {
        if v[i] < '0' || v[i] > '9' {
            assert(v@.skip(from as int)[i - from] == v@[i as int]);
            return false;
        }
        i = i + 1;
    }
    assert forall|k: int| 0 <= k < v@.skip(from as int).len() implies '0' <= #[trigger] v@.skip(
        from as int,
    )[k] <= '9' by {
        assert(v@.skip(from as int)[k] == v@[from + k]);
    }
    true
}

/// The year a date text starts with (see [`year_of_text`]).
pub fn year_from_text(s: &str) -> (r: Option<i32>)
    ensures
        match r {
            Some(y) => year_of_text(s@) == Some(y as int),
            None => year_of_text(s@) is None,
        },
{
    let all = chars_of(s);
    if all.len() < 4 {
        return None;
    }
    let mut i: usize = 0;
    while i < 4
        invariant
            all@ == s@,
            all.len() >= 4,
            i <= 4,
            forall|k: int| 0 <= k < i ==> #[trigger] all@[k] <= '\u{7f}',
        decreases 4 - i,
    {
        if all[i] > '\u{7f}' {
            return None;
        }
        i = i + 1;
    }
    let v = crate::text::slice_chars(&all, 0, 4);
    assert(v@ =~= all@.take(4));
    if v[0] == '+' || v[0] == '-' {
        if digits_only(&v, 1) {
            let n = read_digits(&v, 1);
            proof {
                lemma_digits_bound(v@.skip(1));
                reveal_with_fuel(pow10, 4);
                assert(pow10(3) == 1000);
            }
            if v[0] == '-' {
                Some(-n)
            } else {
                Some(n)
            }
        } else {
            None
        }
    } else {
        assert(v@.skip(0) =~= v@);
        if digits_only(&v, 0) {
            Some(read_digits(&v, 0))
        } else {
            None
        }
    }
}

/// The track's year from its tags: the year field, else the recording date,
/// read by [`year_from_text`].
pub fn parse_year(year: Option<String>, recording_date: Option<String>) -> (r: Option<i32>)
    ensures
        ({
            let text = match year {
                Some(y) => Some(y@),
                None => match recording_date {
                    Some(d) => Some(d@),
                    None => None,
                },
            };
            match text {
                None => r is None,
                Some(t) => match r {
                    Some(v) => year_of_text(t) == Some(v as int),
                    None => year_of_text(t) is None,
                },
            }
        }),
{
    match year {
        Some(y) => year_from_text(y.as_str()),
        None => match recording_date {
            Some(d) => year_from_text(d.as_str()),
            None => None,
        },
    }
}

/// The tag values read from an audio file.
pub struct TagFields {
    pub title: Option<String>,
    pub artist: Option<String>,
    pub album: Option<String>,
    pub album_artist: Option<String>,
    /// The year field, as text.
    pub year: Option<String>,
    /// The recording date, as text (used when there is no year).
    pub recording_date: Option<String>,
    pub track: Option<u32>,
    pub disc: Option<u32>,
}

/// The text of an optional string, or `d`.
pub open spec fn or_text(o: Option<String>, d: Seq<char>) -> Seq<char> {
    match o {
        Some(s) => s@,
        None => d,
    }
}

/// The parsed year of tag fields.
pub open spec fn tags_year(t: TagFields, y: Option<i32>) -> bool {
    let text = match t.year {
        Some(s) => Some(s@),
        None => match t.recording_date {
            Some(d) => Some(d@),
            None => None,
        },
    };
    match text {
        None => y is None,
        Some(s) => match y {
            Some(v) => year_of_text(s) == Some(v as int),
            None => year_of_text(s) is None,
        },
    }
}

/// The track made from a file's path, its tags (if it has any) and its
/// length: missing texts fall back to the file stem (or "Unknown"),
/// "Unknown Artist" and "Unknown Album"; the album artist defaults to the
/// track artist; a leading `[year]` that repeats the year is cut from the
/// album title. The id is 0 until the track is stored.
pub open spec fn track_of_tags(path: Seq<char>, tags: Option<TagFields>, length_secs: u64, t: TrackView) -> bool {
    let stem = match file_stem_of(path) {
        Some(s) => s,
        None => "Unknown"@,
    };
    &&& t.id == 0
    &&& t.path == path
    &&& t.length_secs == length_secs
    &&& match tags {
        None => {
            &&& t.title == stem
            &&& t.track_artist == "Unknown Artist"@
            &&& t.album == "Unknown Album"@
            &&& t.album_artist == "Unknown Artist"@
            &&& t.year is None
            &&& t.track_no is None
            &&& t.disc_no is None
        },
        Some(f) => {
            &&& t.title == or_text(f.title, stem)
            &&& t.track_artist == or_text(f.artist, "Unknown Artist"@)
            &&& t.album == year_stripped(or_text(f.album, "Unknown Album"@), t.year)
            &&& t.album_artist == or_text(f.album_artist, t.track_artist)
            &&& tags_year(f, t.year)
            &&& t.track_no == f.track
            &&& t.disc_no == f.disc
        },
    }
}

fn text_or(o: Option<String>, d: String) -> (r: String)
    ensures
        r@ == or_text(o, d@),
{
    match o {
        Some(s) => s,
        None => d,
    }
}

/// Builds the track for an audio file from its tags (see [`track_of_tags`]).
pub fn track_from_tags(path: String, tags: Option<TagFields>, length_secs: u64) -> (r: Track)
    ensures
        track_of_tags(path@, tags, length_secs, r@),
{
    let stem = match path_file_stem(path.as_str()) {
        Some(s) => s,
        None => String::from_str("Unknown"),
    };
    match tags {
        None => Track {
            id: 0,
            path,
            title: stem,
            track_artist: String::from_str("Unknown Artist"),
            album_artist: String::from_str("Unknown Artist"),
            album: String::from_str("Unknown Album"),
            year: None,
            track_no: None,
            disc_no: None,
            length_secs,
        },
        Some(f) => {
            let year = parse_year(f.year, f.recording_date);
            let title = text_or(f.title, stem);
            let track_artist = text_or(f.artist, String::from_str("Unknown Artist"));
            let album_artist = text_or(f.album_artist, track_artist.clone());
            let album_raw = text_or(f.album, String::from_str("Unknown Album"));
            let album = strip_year_prefix(album_raw.as_str(), year);
            Track {
                id: 0,
                path,
                title,
                track_artist,
                album_artist,
                album,
                year,
                track_no: f.track,
                disc_no: f.disc,
                length_secs,
            }
        },
    }
}

} // verus!
