//! Text shaping for the columns: fitting a label to a width and hiding a
//! year prefix kept in older album titles.
use vstd::prelude::*;

use crate::model::{fmt_time, time_text, AlbumRef, AlbumRefView, Track};
use crate::playlist::Playlist;
use crate::scan::all_digits;
use crate::state::{ListState, Rect, Rects};

use ratatui::layout::{Constraint, Layout};
use crate::text::{
    append_chars, chars_of, decimal, push_decimal, slice_chars, skip_chars, string_of, trim_start,
    trim_start_chars,
};

verus! {

/// `s` fitted to `max` characters: padded with spaces when it is shorter,
/// else cut to `max - 1` characters followed by an ellipsis.
pub open spec fn fitted(s: Seq<char>, max: nat) -> Seq<char> {
    if s.len() <= max {
        s + Seq::new((max - s.len()) as nat, |_i: int| ' ')
    } else {
        s.take(if max >= 1 {
            max - 1
        } else {
            0
        }).push('…')
    }
}

/// Fits a label to a column width (see [`fitted`]).
pub fn fit(s: &str, max: usize) -> (r: String)
    ensures
        r@ == fitted(s@, max as nat),
{
    let mut v = chars_of(s);
    if v.len() <= max {
        let ghost base = v@;
        let pad = max - v.len();
        let mut k: usize = 0;
        while k < pad
            invariant
                k <= pad,
                pad == max - base.len(),
                v@ == base + Seq::new(k as nat, |_i: int| ' '),
            decreases pad - k,
        {
            v.push(' ');
            k = k + 1;
            assert(v@ =~= base + Seq::new(k as nat, |_i: int| ' '));
        }
        string_of(&v)
    } else {
        let keep: usize = if max >= 1 {
            max - 1
        } else {
            0
        };
        let mut out = slice_chars(&v, 0, keep);
        out.push('…');
        assert(out@ =~= s@.take(keep as int).push('…'));
        string_of(&out)
    }
}

/// `s` without a leading `[dddd]` or `(dddd)` (four ASCII digits) and the
/// whitespace after it.
pub open spec fn year_bracket_cut(s: Seq<char>) -> Seq<char> {
    if s.len() >= 6 && ((s[0] == '[' && s[5] == ']') || (s[0] == '(' && s[5] == ')'))
        && all_digits(s.subrange(1, 5)) {
        trim_start(s.skip(6))
    } else {
        s
    }
}

/// Hides a leading `[YYYY]` or `(YYYY)` in an album title (titles stored
/// before the scan removed it).
pub fn strip_year_bracket(s: &str) -> (r: String)
    ensures
        r@ == year_bracket_cut(s@),
{
    let v = chars_of(s);
    if v.len() >= 6 && (v[0] == '[' || v[0] == '(') {
        let close = if v[0] == '[' {
            ']'
        } else {
            ')'
        };
        if v[5] == close {
            let mut k: usize = 1;
            while k < 5
                invariant
                    v@ == s@,
                    v.len() >= 6,
                    1 <= k <= 5,
                    forall|j: int| 1 <= j < k ==> '0' <= #[trigger] v@[j] <= '9',
                decreases 5 - k,
            {
                if v[k] < '0' || v[k] > '9' {
                    assert(v@.subrange(1, 5)[k - 1] == v@[k as int]);
                    return String::from_str(s);
                }
                k = k + 1;
            }
            assert forall|j: int| 0 <= j < 4 implies '0' <= #[trigger] v@.subrange(1, 5)[j]
                <= '9' by {
                assert(v@.subrange(1, 5)[j] == v@[j + 1]);
            }
            let rest = trim_start_chars(&skip_chars(&v, 6));
            return string_of(&rest);
        }
    }
    String::from_str(s)
}

/// `n` spaces.
pub open spec fn spaces(n: nat) -> Seq<char> {
    Seq::new(n, |_i: int| ' ')
}

/// `s` right-aligned in `w` characters (as `format!("{s:>w$}")`).
pub open spec fn pad_left(s: Seq<char>, w: nat) -> Seq<char> {
    if s.len() < w {
        spaces((w - s.len()) as nat) + s
    } else {
        s
    }
}

fn push_spaces(v: &mut Vec<char>, n: usize)
    ensures
        final(v)@ == old(v)@ + spaces(n as nat),
{
    let mut k: usize = 0;
    while k < n
        invariant
            k <= n,
            v@ == old(v)@ + spaces(k as nat),
        decreases n - k,
    {
        v.push(' ');
        k = k + 1;
        assert(v@ =~= old(v)@ + spaces(k as nat));
    }
}

/// Right-aligns `s` in `w` characters.
pub fn right_aligned(s: &str, w: usize) -> (r: String)
    ensures
        r@ == pad_left(s@, w as nat),
{
    let v = chars_of(s);
    let mut out: Vec<char> = Vec::new();
    if v.len() < w {
        push_spaces(&mut out, w - v.len());
    }
    append_chars(&mut out, &v);
    assert(out@ =~= pad_left(s@, w as nat));
    string_of(&out)
}

/// The widths of the title and album cells of a track row `inner_w` wide,
/// given the longest title and album in view and the width of the length
/// field: both at full width when they fit in the budget left by the fixed
/// cells (number, gaps, length), else sharing that budget in proportion.
pub open spec fn track_widths_spec(inner_w: int, max_title: int, max_album: int, len_w: int) -> (int, int) {
    let avail = if inner_w > 7 + len_w {
        inner_w - (7 + len_w)
    } else {
        0
    };
    let want = max_title + max_album;
    let budget = if avail > 1 {
        avail - 1
    } else {
        0
    };
    if want <= budget {
        (max_title, max_album)
    } else {
        let tw0 = budget * max_title / want;
        let tw = if tw0 > 1 {
            tw0
        } else {
            1
        };
        let aw0 = if budget > tw {
            budget - tw
        } else {
            0
        };
        (tw, if aw0 > 1 {
            aw0
        } else {
            1
        })
    }
}

/// Title and album cell widths of the track column (see [`track_widths_spec`]).
/// When the texts do not fit and the budget is at least 2, the two cells
/// share exactly the budget.
pub fn track_widths(inner_w: usize, max_title: usize, max_album: usize, len_w: usize) -> (r: (usize, usize))
    requires
        max_title >= 1,
        max_album >= 1,
        max_title + max_album <= usize::MAX,
        7 + len_w <= usize::MAX,
    ensures
        (r.0 as int, r.1 as int) == track_widths_spec(inner_w as int, max_title as int, max_album as int, len_w as int),
        ({
            let avail = inner_w - (7 + len_w);
            let budget = avail - 1;
            max_title + max_album > budget >= 2 ==> r.0 + r.1 == budget
        }),
{
    let avail = inner_w.saturating_sub(7 + len_w);
    let want = max_title + max_album;
    let budget = avail.saturating_sub(1);
    if want <= budget {
        (max_title, max_album)
    } else {
        assert(budget * max_title <= u128::MAX) by (nonlinear_arith)
            requires
                budget <= 0xffff_ffff_ffff_ffffu64,
                max_title <= 0xffff_ffff_ffff_ffffu64,
        ;
        let prod: u128 = budget as u128 * max_title as u128;
        let q: u128 = prod / want as u128;
        proof {
            assert(q <= budget) by (nonlinear_arith)
                requires
                    q == (prod as int) / (want as int),
                    prod == budget * max_title,
                    max_title < want,
                    want > 0,
                    budget >= 0,
            ;
            if budget >= 2 {
                assert(q < budget) by (nonlinear_arith)
                    requires
                        q == (prod as int) / (want as int),
                        prod == budget * max_title,
                        max_title < want,
                        want > 0,
                        budget >= 2,
                ;
            }
        }
        let tw0 = q as usize;
        let tw = if tw0 > 1 {
            tw0
        } else {
            1
        };
        let aw0 = budget.saturating_sub(tw);
        (tw, if aw0 > 1 {
            aw0
        } else {
            1
        })
    }
}

/// The text cells of one track row.
pub struct TrackCells {
    /// The track number right-aligned in three characters, then a space.
    pub no: String,
    pub title: String,
    pub album: String,
    /// Spaces that fill the row before the length.
    pub fill: String,
    /// The length right-aligned in `len_w` characters, then a space.
    pub length: String,
}

/// The track number as text (empty when there is none).
pub open spec fn number_text(n: Option<u32>) -> Seq<char> {
    match n {
        Some(v) => decimal(v as nat),
        None => Seq::empty(),
    }
}

/// The cells of a track row `inner_w` wide: number, fitted title, fitted
/// album, filler (at least one space), length.
pub fn track_cells(t: &Track, title_w: usize, album_w: usize, len_w: usize, inner_w: usize) -> (r: TrackCells)
    requires
        4 + title_w + 2 + album_w + len_w + 1 <= usize::MAX,
    ensures
        r.no@ == pad_left(number_text(t.track_no), 3) + seq![' '],
        r.title@ == fitted(t.title@, title_w as nat),
        r.album@ == fitted(t.album@, album_w as nat),
        r.fill@ == spaces(({
            let used = 4 + title_w + 2 + album_w + len_w + 1;
            if inner_w > used + 1 {
                inner_w - used
            } else {
                1
            }
        }) as nat),
        r.length@ == pad_left(time_text(t.length_secs as nat), len_w as nat) + seq![' '],
{
    let mut digits: Vec<char> = Vec::new();
    if let Some(n) = t.track_no {
        push_decimal(&mut digits, n as u64);
    }
    assert(digits@ =~= number_text(t.track_no));
    let mut no = chars_of(right_aligned(string_of(&digits).as_str(), 3).as_str());
    no.push(' ');
    let used = 4 + title_w + 2 + album_w + len_w + 1;
    let n_fill: usize = if inner_w > used && inner_w - used > 1 {
        inner_w - used
    } else {
        1
    };
    let mut fill: Vec<char> = Vec::new();
    push_spaces(&mut fill, n_fill);
    assert(fill@ =~= spaces(n_fill as nat));
    let mut len = chars_of(right_aligned(fmt_time(t.length_secs).as_str(), len_w).as_str());
    len.push(' ');
    TrackCells {
        no: string_of(&no),
        title: fit(t.title.as_str(), title_w),
        album: fit(t.album.as_str(), album_w),
        fill: string_of(&fill),
        length: string_of(&len),
    }
}

/// The label of album row `i`: "All" for the first row, else the year in
/// brackets (`----` without one) and the title without a stored year prefix.
pub open spec fn album_label_spec(i: int, a: AlbumRefView) -> (Seq<char>, Seq<char>) {
    if i == 0 {
        (Seq::empty(), "All"@)
    } else {
        (
            seq!['['] + match a.year {
                Some(y) => crate::scan::signed_decimal(y as int),
                None => "----"@,
            } + "] "@,
            year_bracket_cut(a.title),
        )
    }
}

/// The year cell and title cell of album row `i` (see [`album_label_spec`]).
pub fn album_label(i: usize, a: &AlbumRef) -> (r: (String, String))
    ensures
        (r.0@, r.1@) == album_label_spec(i as int, a@),
{
    if i == 0 {
        proof {
            reveal_strlit("");
        }
        return (String::from_str(""), String::from_str("All"));
    }
    let mut y: Vec<char> = Vec::new();
    y.push('[');
    match a.year {
        Some(v) => crate::scan::push_signed(&mut y, v),
        None => append_chars(&mut y, &chars_of("----")),
    }
    append_chars(&mut y, &chars_of("] "));
    let ghost mid = match a.year {
        Some(v) => crate::scan::signed_decimal(v as int),
        None => "----"@,
    };
    assert(y@ =~= seq!['['] + mid + "] "@);
    (string_of(&y), strip_year_bracket(a.title.as_str()))
}

/// The scan line of the Settings tab.
pub open spec fn scan_status_spec(scanning: Option<(usize, usize)>, n: nat) -> Seq<char> {
    match scanning {
        Some((done, total)) => if total > 0 {
            "Scanning… "@ + decimal(done as nat) + seq!['/'] + decimal(total as nat)
        } else {
            "Scanning… "@ + decimal(done as nat) + " files"@
        },
        None => decimal(n) + " tracks indexed."@,
    }
}

/// The scan line of the Settings tab: progress while scanning, else the
/// library size.
pub fn scan_status(scanning: Option<(usize, usize)>, n_tracks: usize) -> (r: String)
    ensures
        r@ == scan_status_spec(scanning, n_tracks as nat),
{
    let mut v: Vec<char> = Vec::new();
    match scanning {
        Some((done, total)) => {
            append_chars(&mut v, &chars_of("Scanning… "));
            push_decimal(&mut v, done as u64);
            if total > 0 {
                v.push('/');
                push_decimal(&mut v, total as u64);
            } else {
                append_chars(&mut v, &chars_of(" files"));
            }
        },
        None => {
            push_decimal(&mut v, n_tracks as u64);
            append_chars(&mut v, &chars_of(" tracks indexed."));
        },
    }
    assert(v@ =~= scan_status_spec(scanning, n_tracks as nat));
    string_of(&v)
}

/// A queue row: a play marker for the playing entry, then "artist — title".
pub fn queue_row(i: usize, now: Option<usize>, t: &Track) -> (r: (String, String))
    ensures
        r.0@ == (if now == Some(i) {
            "▶ "@
        } else {
            "  "@
        }),
        r.1@ == t.track_artist@ + " — "@ + t.title@,
{
    let marker = if now == Some(i) {
        String::from_str("▶ ")
    } else {
        String::from_str("  ")
    };
    (marker, crate::app::text_message(t.track_artist.as_str(), " — ", t.title.as_str()))
}

/// A playlist row: its name and track count, as "name  (n)".
pub fn playlist_label(p: &Playlist) -> (r: String)
    ensures
        r@ == p.name@ + "  ("@ + decimal(p.tracks.len() as nat) + ")"@,
{
    let mut v = chars_of(p.name.as_str());
    append_chars(&mut v, &chars_of("  ("));
    push_decimal(&mut v, p.tracks.len() as u64);
    append_chars(&mut v, &chars_of(")"));
    string_of(&v)
}

/// The seek bar's label, "position / duration".
pub fn seek_label(pos: u64, dur: u64) -> (r: String)
    ensures
        r@ == time_text(pos as nat) + " / "@ + time_text(dur as nat),
{
    crate::app::text_message(fmt_time(pos).as_str(), " / ", fmt_time(dur).as_str())
}

/// How many rows of height `row_h` fit in `height`.
pub open spec fn visible_rows(height: u16, row_h: u16) -> nat {
    (height / (if row_h > 1 {
        row_h
    } else {
        1
    })) as nat
}

/// The scroll offset a list of `len` rows keeps: the stored one, capped so
/// the last page stays full.
pub open spec fn kept_offset(offset: usize, len: nat, visible: nat) -> nat {
    let v = if visible > 1 {
        visible
    } else {
        1
    };
    let max_offset = if len > v {
        (len - v) as nat
    } else {
        0
    };
    if offset < max_offset {
        offset as nat
    } else {
        max_offset
    }
}

/// Fits a list's scroll window to its height: the offset is capped so the
/// last page stays full, and the selection is returned for highlighting only
/// when it lies inside the window.
pub fn scroll_window(state: &mut ListState, len: usize, height: u16, row_h: u16) -> (r: Option<usize>)
    ensures
        final(state).selected == old(state).selected,
        final(state).offset as nat == kept_offset(old(state).offset, len as nat, visible_rows(height, row_h)),
        r == (match old(state).selected {
            Some(s) => if final(state).offset <= s && s < final(state).offset + visible_rows(height, row_h) {
                Some(s)
            } else {
                None
            },
            None => None,
        }),
{
    let h = if row_h > 1 {
        row_h
    } else {
        1
    };
    let visible: usize = (height / h) as usize;
    let v = if visible > 1 {
        visible
    } else {
        1
    };
    let max_offset = if len > v {
        len - v
    } else {
        0
    };
    let offset = if state.offset < max_offset {
        state.offset
    } else {
        max_offset
    };
    state.offset = offset;
    match state.selected {
        Some(s) => if offset <= s && s - offset < visible {
            Some(s)
        } else {
            None
        },
        None => None,
    }
}

/// Where the five transport buttons sit in `area`: each `w` wide and `h`
/// high with `gap` between, the row centred horizontally at row `y`.
pub open spec fn button_row(area: Rect, w: u16, h: u16, gap: u16, y: u16, i: int) -> Rect {
    let total = 5 * w + 4 * gap;
    let x0 = area.x + (if area.width > total {
        area.width - total
    } else {
        0
    }) / 2;
    Rect { x: (x0 + i * (w + gap)) as u16, y, width: w, height: h }
}

/// The transport buttons' rectangles: double-size icons are 2×2 cells with
/// 5 between, centred above the status line; plain ones are 5×1 with 2
/// between, on the middle row.
pub fn transport_layout(area: Rect, big: bool) -> (r: [Rect; 5])
    requires
        area.x + area.width + 40 <= u16::MAX,
        area.y + area.height <= u16::MAX,
    ensures
        forall|i: int|
            0 <= i < 5 ==> #[trigger] r@[i] == if big {
                button_row(area, 2, 2, 5, (area.y + (if area.height > 3 {
                    area.height - 3
                } else {
                    0
                }) / 2) as u16, i)
            } else {
                button_row(area, 5, 1, 2, (area.y + area.height / 2) as u16, i)
            },
{
    let (w, h, gap): (u16, u16, u16) = if big {
        (2, 2, 5)
    } else {
        (5, 1, 2)
    };
    let y: u16 = if big {
        area.y + area.height.saturating_sub(3) / 2
    } else {
        area.y + area.height / 2
    };
    let total: u16 = 5 * w + 4 * gap;
    let x0: u16 = area.x + area.width.saturating_sub(total) / 2;
    let r = [
        Rect { x: x0, y, width: w, height: h },
        Rect { x: x0 + (w + gap), y, width: w, height: h },
        Rect { x: x0 + 2 * (w + gap), y, width: w, height: h },
        Rect { x: x0 + 3 * (w + gap), y, width: w, height: h },
        Rect { x: x0 + 4 * (w + gap), y, width: w, height: h },
    ];
    r
}

} // verus!

verus! {

/// The three rectangles ratatui's `Layout::horizontal` gives an area for
/// three width percentages.
pub uninterp spec fn columns_split(area: Rect, w0: u16, w1: u16, w2: u16) -> Seq<Rect>;

/// The two rectangles ratatui's `Layout::vertical` gives an area for two
/// height percentages.
pub uninterp spec fn rows_split(area: Rect, top: u16, bottom: u16) -> Seq<Rect>;

/// Calls ratatui's `Layout::horizontal` with three `Constraint::Percentage`
/// widths and `split`, carrying the rectangles over field by field.
#[verifier::external_body]
fn split_columns(area: Rect, w0: u16, w1: u16, w2: u16) -> (r: [Rect; 3])
    ensures
        r@ == columns_split(area, w0, w1, w2),
{
    let a = ratatui::layout::Rect::new(area.x, area.y, area.width, area.height);
    let c = Layout::horizontal([Constraint::Percentage(w0), Constraint::Percentage(w1), Constraint::Percentage(w2)]).split(a);
    [
        Rect { x: c[0].x, y: c[0].y, width: c[0].width, height: c[0].height },
        Rect { x: c[1].x, y: c[1].y, width: c[1].width, height: c[1].height },
        Rect { x: c[2].x, y: c[2].y, width: c[2].width, height: c[2].height },
    ]
}

/// Calls ratatui's `Layout::vertical` with two `Constraint::Percentage`
/// heights and `split`, carrying the rectangles over field by field.
#[verifier::external_body]
fn split_rows(area: Rect, top: u16, bottom: u16) -> (r: [Rect; 2])
    ensures
        r@ == rows_split(area, top, bottom),
{
    let a = ratatui::layout::Rect::new(area.x, area.y, area.width, area.height);
    let c = Layout::vertical([Constraint::Percentage(top), Constraint::Percentage(bottom)]).split(a);
    [
        Rect { x: c[0].x, y: c[0].y, width: c[0].width, height: c[0].height },
        Rect { x: c[1].x, y: c[1].y, width: c[1].width, height: c[1].height },
    ]
}

/// The areas of the browser body: the three columns, and the third column
/// split into the track list and the queue.
#[derive(Clone, Copy, Debug)]
pub struct BodyAreas {
    pub columns: [Rect; 3],
    pub tracks: Rect,
    pub queue: Rect,
}

/// Lays out the browser body for the column width percentages and the
/// queue's height percentage, and records in `rects` what dragging the
/// dividers needs: the body, the two column divider positions, the third
/// column and the row of the tracks/queue divider.
pub fn lay_out_body(rects: &mut Rects, area: Rect, col_widths: [u16; 3], queue_pct: u16) -> (r: BodyAreas)
    requires
        queue_pct <= 100,
    ensures
        r.columns@ == columns_split(area, col_widths[0], col_widths[1], col_widths[2]),
        r.columns@.len() == 3,
        ({
            let rows = rows_split(r.columns@[2], (100 - queue_pct) as u16, queue_pct);
            &&& r.tracks == rows[0]
            &&& r.queue == rows[1]
            &&& *final(rects) == (Rects {
                body: area,
                col_div0: r.columns@[1].x,
                col_div1: r.columns@[2].x,
                col3: r.columns@[2],
                queue_div: rows[1].y,
                ..*old(rects)
            })
        }),
{
    let cols = split_columns(area, col_widths[0], col_widths[1], col_widths[2]);
    let rows = split_rows(cols[2], 100 - queue_pct, queue_pct);
    rects.body = area;
    rects.col_div0 = cols[1].x;
    rects.col_div1 = cols[2].x;
    rects.col3 = cols[2];
    rects.queue_div = rows[1].y;
    BodyAreas { columns: cols, tracks: rows[0], queue: rows[1] }
}

} // verus!
