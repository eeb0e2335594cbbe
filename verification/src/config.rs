//! Configuration values the library reads (layout, UI options, theme names,
//! music directory), their defaults, the layout validation, and the
//! locations of the program's files.
use vstd::prelude::*;

use directories::ProjectDirs;

use crate::text::{append_chars, chars_of, contains_chars, occurs_in, string_of};

verus! {

/// UI options.
#[derive(Clone, Debug)]
pub struct UiConfig {
    /// Render transport icons at 2x (kitty text-sizing protocol).
    pub big_transport_icons: bool,
    /// Pre-cache cover-art thumbnails for the whole library in the background.
    pub cache_all_art: bool,
    /// Sort and display "The Doors" as "Doors, The".
    pub sort_articles: bool,
}

/// The default for options that are on unless switched off.
pub fn default_true() -> (r: bool)
    ensures
        r,
{
    true
}

impl Default for UiConfig {
    fn default() -> (r: UiConfig)
        ensures
            r.big_transport_icons && !r.cache_all_art && r.sort_articles,
    {
        UiConfig { big_transport_icons: default_true(), cache_all_art: false, sort_articles: true }
    }
}

/// Persisted layout state.
#[derive(Clone, Debug)]
pub struct LayoutConfig {
    /// Width percentages for the three browser columns; should sum to about 100.
    pub columns: Vec<u16>,
    /// Height percentage of the queue panel within the third column.
    pub queue_pct: u16,
}

/// The default column widths.
pub fn default_columns() -> (r: Vec<u16>)
    ensures
        r@ == seq![25u16, 30u16, 45u16],
{
    let r = vec![25u16, 30u16, 45u16];
    assert(r@ =~= seq![25u16, 30u16, 45u16]);
    r
}

/// The default queue height percentage.
pub fn default_queue_pct() -> (r: u16)
    ensures
        r == 28,
{
    28
}

impl Default for LayoutConfig {
    fn default() -> (r: LayoutConfig)
        ensures
            r.columns@ == seq![25u16, 30u16, 45u16],
            r.queue_pct == 28,
    {
        LayoutConfig { columns: default_columns(), queue_pct: default_queue_pct() }
    }
}

/// Colors as written in the config file (names, `#rrggbb`, or 256-color indices).
#[derive(Clone, Debug)]
pub struct ThemeConfig {
    pub accent: String,
    pub selection_fg: String,
    pub border: String,
    pub dim: String,
    pub muted: String,
}

fn text(s: &str) -> (r: String)
    ensures
        r@ == s@,
{
    String::from_str(s)
}

/// Default accent color: "cyan".
pub fn d_accent() -> (r: String)
    ensures
        r@ == seq!['c', 'y', 'a', 'n'],
{
    proof {
        reveal_strlit("cyan");
    }
    text("cyan")
}

/// Default selection foreground: "black".
pub fn d_selection_fg() -> (r: String)
    ensures
        r@ == seq!['b', 'l', 'a', 'c', 'k'],
{
    proof {
        reveal_strlit("black");
    }
    text("black")
}

/// Default border color: "darkgray".
pub fn d_border() -> (r: String)
    ensures
        r@ == seq!['d', 'a', 'r', 'k', 'g', 'r', 'a', 'y'],
{
    proof {
        reveal_strlit("darkgray");
    }
    text("darkgray")
}

/// Default dim color: "darkgray".
pub fn d_dim() -> (r: String)
    ensures
        r@ == seq!['d', 'a', 'r', 'k', 'g', 'r', 'a', 'y'],
{
    proof {
        reveal_strlit("darkgray");
    }
    text("darkgray")
}

/// Default muted color: "gray".
pub fn d_muted() -> (r: String)
    ensures
        r@ == seq!['g', 'r', 'a', 'y'],
{
    proof {
        reveal_strlit("gray");
    }
    text("gray")
}

impl Default for ThemeConfig {
    fn default() -> (r: ThemeConfig)
        ensures
            r.accent@ == seq!['c', 'y', 'a', 'n'],
            r.selection_fg@ == seq!['b', 'l', 'a', 'c', 'k'],
            r.border@ == seq!['d', 'a', 'r', 'k', 'g', 'r', 'a', 'y'],
            r.dim@ == seq!['d', 'a', 'r', 'k', 'g', 'r', 'a', 'y'],
            r.muted@ == seq!['g', 'r', 'a', 'y'],
    {
        ThemeConfig {
            accent: d_accent(),
            selection_fg: d_selection_fg(),
            border: d_border(),
            dim: d_dim(),
            muted: d_muted(),
        }
    }
}

/// The configuration the library reads. (The crossfade duration, a
/// floating-point setting, is kept beside it by the program.)
#[derive(Clone, Debug)]
pub struct Config {
    /// Root directory scanned for music.
    pub music_dir: String,
    pub theme: ThemeConfig,
    pub layout: LayoutConfig,
    pub ui: UiConfig,
}

impl Default for Config {
    /// The default settings, with the environment's music directory.
    fn default() -> (r: Config)
        ensures
            r.theme.accent@ == seq!['c', 'y', 'a', 'n'],
            r.theme.selection_fg@ == seq!['b', 'l', 'a', 'c', 'k'],
            r.theme.border@ == seq!['d', 'a', 'r', 'k', 'g', 'r', 'a', 'y'],
            r.theme.dim@ == seq!['d', 'a', 'r', 'k', 'g', 'r', 'a', 'y'],
            r.theme.muted@ == seq!['g', 'r', 'a', 'y'],
            r.layout.columns@ == seq![25u16, 30u16, 45u16],
            r.layout.queue_pct == 28,
            r.ui.big_transport_icons && !r.ui.cache_all_art && r.ui.sort_articles,
    {
        Config {
            music_dir: default_music_dir(),
            theme: ThemeConfig::default(),
            layout: LayoutConfig::default(),
            ui: UiConfig::default(),
        }
    }
}

/// `v` held within `lo..=hi`.
pub open spec fn clamp_spec(v: int, lo: int, hi: int) -> int {
    if v < lo {
        lo
    } else if v > hi {
        hi
    } else {
        v
    }
}

/// The three column widths the layout starts from: the stored ones when
/// there are exactly three, else the defaults.
pub open spec fn base_columns(c: Seq<u16>) -> Seq<int> {
    if c.len() == 3 {
        seq![c[0] as int, c[1] as int, c[2] as int]
    } else {
        seq![25, 30, 45]
    }
}

/// Column widths scaled to sum to 100: each width is clamped to `10..=80`,
/// scaled by `100 / sum` (rounding down), and the rounding loss is given to
/// the last column.
pub open spec fn scaled_columns_spec(c: Seq<u16>) -> Seq<int> {
    let b = base_columns(c);
    let a0 = clamp_spec(b[0], 10, 80);
    let a1 = clamp_spec(b[1], 10, 80);
    let a2 = clamp_spec(b[2], 10, 80);
    let sum = a0 + a1 + a2;
    let n0 = a0 * 100 / sum;
    let n1 = a1 * 100 / sum;
    let n2 = a2 * 100 / sum;
    seq![n0, n1, n2 + (100 - (n0 + n1 + n2))]
}

/// How much a scaled width falls short of the 10-wide minimum.
pub open spec fn shortfall(v: int) -> int {
    if v < 10 {
        10 - v
    } else {
        0
    }
}

/// The first of the widest of three columns.
pub open spec fn widest_of(p: Seq<int>) -> int {
    if p[0] >= p[1] && p[0] >= p[2] {
        0
    } else if p[1] >= p[2] {
        1
    } else {
        2
    }
}

/// Column widths renormalized to sum to 100 with every column at least 10
/// wide: the scaled widths (see [`scaled_columns_spec`]), with each column
/// under 10 raised to 10 and the total shortfall taken from the widest column.
pub open spec fn validated_columns_spec(c: Seq<u16>) -> Seq<int> {
    let p = scaled_columns_spec(c);
    let w = widest_of(p);
    let d = shortfall(p[0]) + shortfall(p[1]) + shortfall(p[2]);
    seq![
        if w == 0 { p[0] - d } else { p[0] + shortfall(p[0]) },
        if w == 1 { p[1] - d } else { p[1] + shortfall(p[1]) },
        if w == 2 { p[2] - d } else { p[2] + shortfall(p[2]) },
    ]
}

fn clamp_u16(v: u16, lo: u16, hi: u16) -> (r: u16)
    requires
        lo <= hi,
    ensures
        r == clamp_spec(v as int, lo as int, hi as int),
{
    if v < lo {
        lo
    } else if v > hi {
        hi
    } else {
        v
    }
}

proof fn lemma_scaled_share(a: int, sum: int)
    requires
        10 <= a <= 80,
        a < sum,
        sum <= 240,
        sum >= 30,
    ensures
        a * 100 / sum <= 100,
        a * 100 / sum >= 0,
{
    assert(a * 100 <= sum * 100) by (nonlinear_arith)
        requires
            a < sum,
    ;
    assert(a * 100 / sum <= 100) by (nonlinear_arith)
        requires
            a * 100 <= sum * 100,
            sum > 0,
    ;
    assert(a * 100 / sum >= 0) by (nonlinear_arith)
        requires
            a >= 0,
            sum > 0,
    ;
}

proof fn lemma_shares_total(a0: int, a1: int, a2: int)
    requires
        10 <= a0 <= 80,
        10 <= a1 <= 80,
        10 <= a2 <= 80,
    ensures
        ({
            let s = a0 + a1 + a2;
            a0 * 100 / s + a1 * 100 / s + a2 * 100 / s <= 100
        }),
        ({
            let s = a0 + a1 + a2;
            a0 * 100 / s + a1 * 100 / s + a2 * 100 / s >= 98
        }),
{
    let s = a0 + a1 + a2;
    let q0 = a0 * 100 / s;
    let q1 = a1 * 100 / s;
    let q2 = a2 * 100 / s;
    assert(q0 * s <= a0 * 100 && a0 * 100 < q0 * s + s) by (nonlinear_arith)
        requires
            s > 0,
            q0 == a0 * 100 / s,
    ;
    assert(q1 * s <= a1 * 100 && a1 * 100 < q1 * s + s) by (nonlinear_arith)
        requires
            s > 0,
            q1 == a1 * 100 / s,
    ;
    assert(q2 * s <= a2 * 100 && a2 * 100 < q2 * s + s) by (nonlinear_arith)
        requires
            s > 0,
            q2 == a2 * 100 / s,
    ;
    assert((q0 + q1 + q2) * s <= 100 * s) by (nonlinear_arith)
        requires
            q0 * s <= a0 * 100,
            q1 * s <= a1 * 100,
            q2 * s <= a2 * 100,
            s == a0 + a1 + a2,
    ;
    assert(q0 + q1 + q2 <= 100) by (nonlinear_arith)
        requires
            (q0 + q1 + q2) * s <= 100 * s,
            s > 0,
    ;
    assert((q0 + q1 + q2 + 3) * s > 100 * s) by (nonlinear_arith)
        requires
            a0 * 100 < q0 * s + s,
            a1 * 100 < q1 * s + s,
            a2 * 100 < q2 * s + s,
            s == a0 + a1 + a2,
    ;
    assert(q0 + q1 + q2 + 3 > 100) by (nonlinear_arith)
        requires
            (q0 + q1 + q2 + 3) * s > 100 * s,
            s > 0,
    ;
}

impl Config {
    /// Column widths as a renormalized `[left, middle, right]` (see
    /// [`validated_columns_spec`]).
    pub fn validated_columns(&self) -> (r: [u16; 3])
        ensures
            r@.map_values(|v: u16| v as int) == validated_columns_spec(self.layout.columns@),
    {
        let c = &self.layout.columns;
        let b0: u16;
        let b1: u16;
        let b2: u16;
        if c.len() == 3 {
            b0 = c[0];
            b1 = c[1];
            b2 = c[2];
        } else {
            b0 = 25;
            b1 = 30;
            b2 = 45;
        }
        let a0 = clamp_u16(b0, 10, 80);
        let a1 = clamp_u16(b1, 10, 80);
        let a2 = clamp_u16(b2, 10, 80);
        let sum: u32 = a0 as u32 + a1 as u32 + a2 as u32;
        proof {
            lemma_scaled_share(a0 as int, sum as int);
            lemma_scaled_share(a1 as int, sum as int);
            lemma_scaled_share(a2 as int, sum as int);
            lemma_shares_total(a0 as int, a1 as int, a2 as int);
        }
        let n0 = ((a0 as u32 * 100) / sum) as u16;
        let n1 = ((a1 as u32 * 100) / sum) as u16;
        let n2 = ((a2 as u32 * 100) / sum) as u16;
        let s: u16 = n0 + n1 + n2;
        let p2 = n2 + (100 - s);
        proof {
            lemma_share_at_least_five(a0 as int, a1 + a2);
            lemma_share_at_least_five(a1 as int, a0 + a2);
            lemma_share_at_least_five(a2 as int, a0 + a1);
        }
        let d0: u16 = if n0 < 10 { 10 - n0 } else { 0 };
        let d1: u16 = if n1 < 10 { 10 - n1 } else { 0 };
        let d2: u16 = if p2 < 10 { 10 - p2 } else { 0 };
        let d: u16 = d0 + d1 + d2;
        let r = if n0 >= n1 && n0 >= p2 {
            [n0 - d, n1 + d1, p2 + d2]
        } else if n1 >= p2 {
            [n0 + d0, n1 - d, p2 + d2]
        } else {
            [n0 + d0, n1 + d1, p2 - d]
        };
        assert(r@.map_values(|v: u16| v as int) =~= validated_columns_spec(self.layout.columns@));
        r
    }

    /// Queue panel height percentage, clamped to `10..=60`.
    pub fn validated_queue_pct(&self) -> (r: u16)
        ensures
            r == clamp_spec(self.layout.queue_pct as int, 10, 60),
    {
        clamp_u16(self.layout.queue_pct, 10, 60)
    }
}

proof fn lemma_share_at_least_five(a: int, others: int)
    requires
        10 <= a <= 80,
        20 <= others <= 160,
    ensures
        a * 100 / (a + others) >= 5,
{
    let s = a + others;
    let q = a * 100 / s;
    assert(a * 100 < q * s + s) by (nonlinear_arith)
        requires
            s > 0,
            q == a * 100 / s,
    ;
    assert(q <= 4 ==> q * s <= 4 * s) by (nonlinear_arith)
        requires
            s > 0,
    ;
}

/// The validated column widths always sum to 100, and each column is at
/// least 10 wide.
pub proof fn law_validated_columns_sum(c: Seq<u16>)
    ensures
        ({
            let v = validated_columns_spec(c);
            &&& v.len() == 3
            &&& v[0] + v[1] + v[2] == 100
            &&& v[0] >= 10 && v[1] >= 10 && v[2] >= 10
        }),
{
    let b = base_columns(c);
    let a0 = clamp_spec(b[0], 10, 80);
    let a1 = clamp_spec(b[1], 10, 80);
    let a2 = clamp_spec(b[2], 10, 80);
    lemma_shares_total(a0, a1, a2);
    lemma_share_at_least_five(a0, a1 + a2);
    lemma_share_at_least_five(a1, a0 + a2);
    lemma_share_at_least_five(a2, a0 + a1);
}

#[verifier::external_type_specification]
#[verifier::external_body]
pub struct ExProjectDirs(ProjectDirs);

/// What `Path::join` gives for a base path and a name on Unix, as text: a
/// name that starts with `/` (an absolute path) replaces the base; otherwise
/// the name is appended, after a `/` unless the base is empty or already ends
/// in one.
pub open spec fn joined_path(base: Seq<char>, name: Seq<char>) -> Seq<char> {
    if name.len() > 0 && name[0] == '/' {
        name
    } else if base.len() == 0 || base.last() == '/' {
        base + name
    } else {
        base + seq!['/'] + name
    }
}

/// Calls `directories::ProjectDirs::from`. Whether directories are found, and
/// where, depends on the environment (the home directory and XDG variables),
/// so nothing is stated of the result.
#[verifier::external_body]
fn project_dirs_from(qualifier: &str, organization: &str, application: &str) -> Option<ProjectDirs> {
    ProjectDirs::from(qualifier, organization, application)
}

/// Calls `ProjectDirs::data_dir` and renders the path as text (lossily). The
/// directory comes from the environment; nothing is stated of it.
#[verifier::external_body]
fn dirs_data_dir(d: &ProjectDirs) -> String {
    d.data_dir().to_string_lossy().into_owned()
}

/// Calls `ProjectDirs::cache_dir` and renders the path as text (lossily). The
/// directory comes from the environment; nothing is stated of it.
#[verifier::external_body]
fn dirs_cache_dir(d: &ProjectDirs) -> String {
    d.cache_dir().to_string_lossy().into_owned()
}

/// Calls `ProjectDirs::config_dir` and renders the path as text (lossily). The
/// directory comes from the environment; nothing is stated of it.
#[verifier::external_body]
fn dirs_config_dir(d: &ProjectDirs) -> String {
    d.config_dir().to_string_lossy().into_owned()
}

/// Calls `Path::join` on text paths and renders the result as text (the
/// text of UTF-8 paths is kept as it is). The contract states Unix paths,
/// where `/` is the only separator and the only root (see [`joined_path`]).
#[verifier::external_body]
pub(crate) fn path_join(base: &str, name: &str) -> (r: String)
    ensures
        r@ == joined_path(base@, name@),
{
    std::path::Path::new(base).join(name).to_string_lossy().into_owned()
}

/// Calls `directories::UserDirs::new` and renders the home directory as text
/// (lossily). The home directory comes from the environment; nothing is
/// stated of it.
#[verifier::external_body]
pub(crate) fn home_dir() -> Option<String> {
    directories::UserDirs::new().map(|u| u.home_dir().to_string_lossy().into_owned())
}

/// Calls `directories::UserDirs::new` and `UserDirs::audio_dir`, rendering
/// the directory as text (lossily). It comes from the environment; nothing
/// is stated of it.
#[verifier::external_body]
fn user_audio_dir() -> Option<String> {
    directories::UserDirs::new().and_then(|u| u.audio_dir().map(|p| p.to_string_lossy().into_owned()))
}

/// The music directory chosen from the user's audio directory and home
/// directory, as far as each was found: the audio directory, else `Music`
/// in the home directory, else `Music`.
pub open spec fn music_dir_choice(audio: Option<String>, home: Option<String>) -> Seq<char> {
    match audio {
        Some(d) => d@,
        None => match home {
            Some(h) => joined_path(h@, "Music"@),
            None => "Music"@,
        },
    }
}

/// Chooses the music directory from the audio and home directories that
/// were found (see [`music_dir_choice`]).
pub fn music_dir_from(audio: Option<String>, home: Option<String>) -> (r: String)
    ensures
        r@ == music_dir_choice(audio, home),
{
    match audio {
        Some(d) => d,
        None => match home {
            Some(h) => path_join(h.as_str(), "Music"),
            None => text("Music"),
        },
    }
}

/// The music directory used before one is configured: the user's audio
/// directory, else `Music` in the home directory, else `Music`, as
/// [`music_dir_from`] chooses. The home directory is looked up only when no
/// audio directory is found. Both come from the environment, so nothing
/// more is stated of the result.
pub fn default_music_dir() -> String {
    let audio = user_audio_dir();
    let home = if audio.is_none() { home_dir() } else { None };
    music_dir_from(audio, home)
}

/// The program's per-user directories, when the environment provides a home.
fn project_dirs() -> Option<ProjectDirs> {
    project_dirs_from("", "", "music-tui")
}

/// `r` is `name` inside some directory, or the fallback name.
pub open spec fn located(r: Seq<char>, name: Seq<char>, fallback: Seq<char>) -> bool {
    r == fallback || exists|dir: Seq<char>| r == #[trigger] joined_path(dir, name)
}

fn file_in(dir: String, name: &str) -> (r: String)
    ensures
        r@ == joined_path(dir@, name@),
{
    path_join(dir.as_str(), name)
}

/// Path to the SQLite library index, e.g. ~/.local/share/music-tui/library.db.
pub fn db_path() -> (r: String)
    ensures
        located(r@, "library.db"@, "music-tui-library.db"@),
{
    match project_dirs() {
        Some(d) => file_in(dirs_data_dir(&d), "library.db"),
        None => text("music-tui-library.db"),
    }
}

/// Path to the saved playlists file, e.g. ~/.local/share/music-tui/playlists.toml.
pub fn playlists_path() -> (r: String)
    ensures
        located(r@, "playlists.toml"@, "music-tui-playlists.toml"@),
{
    match project_dirs() {
        Some(d) => file_in(dirs_data_dir(&d), "playlists.toml"),
        None => text("music-tui-playlists.toml"),
    }
}

/// Directory for cached cover-art thumbnails, e.g. ~/.cache/music-tui/art.
pub fn art_cache_dir() -> (r: String)
    ensures
        located(r@, "art"@, "music-tui-art-cache"@),
{
    match project_dirs() {
        Some(d) => file_in(dirs_cache_dir(&d), "art"),
        None => text("music-tui-art-cache"),
    }
}

/// Path to the config file, e.g. ~/.config/music-tui/config.toml.
pub fn config_path() -> (r: String)
    ensures
        located(r@, "config.toml"@, "music-tui-config.toml"@),
{
    match project_dirs() {
        Some(d) => file_in(dirs_config_dir(&d), "config.toml"),
        None => text("music-tui-config.toml"),
    }
}

/// The config file path as a display string, shown in the Settings tab.
pub fn config_path_display() -> (r: String)
    ensures
        located(r@, "config.toml"@, "music-tui-config.toml"@),
{
    config_path()
}

/// The documented `[theme]`, `[playback]` and `[ui]` sections written into a
/// new config file, and appended to one that predates theming.
pub open spec fn theme_template_text() -> Seq<char> {
    "\n[theme]\n# Colors accept a name (\"cyan\", \"lightmagenta\"), hex (\"#ff8800\"),\n# or a 256-color index (\"39\"). Restart music-tui to apply changes.\naccent = \"cyan\"         # highlights, focused borders, progress & volume\nselection_fg = \"black\"  # text drawn on the accent background\nborder = \"darkgray\"     # unfocused panel borders\ndim = \"darkgray\"        # years, track numbers, hints\nmuted = \"gray\"          # artist subtext, status line\n\n[playback]\n# Gapless playback: crossfade seconds between tracks (0 = hard cut).\ngapless_fade_secs = 3.0\n\n[ui]\n# Render transport icons at 2x (needs kitty >= 0.40).\nbig_transport_icons = true\n# Pre-cache all cover-art thumbnails in the background.\ncache_all_art = false\n# Display \"The Doors\" as \"Doors, The\" and sort accordingly.\nsort_articles = true\n"@
}

/// The documented sections of a config file (see [`theme_template_text`]).
pub fn theme_template() -> (r: &'static str)
    ensures
        r@ == theme_template_text(),
{
    "\n[theme]\n# Colors accept a name (\"cyan\", \"lightmagenta\"), hex (\"#ff8800\"),\n# or a 256-color index (\"39\"). Restart music-tui to apply changes.\naccent = \"cyan\"         # highlights, focused borders, progress & volume\nselection_fg = \"black\"  # text drawn on the accent background\nborder = \"darkgray\"     # unfocused panel borders\ndim = \"darkgray\"        # years, track numbers, hints\nmuted = \"gray\"          # artist subtext, status line\n\n[playback]\n# Gapless playback: crossfade seconds between tracks (0 = hard cut).\ngapless_fade_secs = 3.0\n\n[ui]\n# Render transport icons at 2x (needs kitty >= 0.40).\nbig_transport_icons = true\n# Pre-cache all cover-art thumbnails in the background.\ncache_all_art = false\n# Display \"The Doors\" as \"Doors, The\" and sort accordingly.\nsort_articles = true\n"
}

/// The text to write back to a config file that has no `[theme]` section
/// (the template appended on a line of its own), or `None` when it has one.
pub fn with_theme_section(existing: &str) -> (r: Option<String>)
    ensures
        occurs_in(existing@, "[theme]"@) ==> r is None,
        !occurs_in(existing@, "[theme]"@) ==> (r matches Some(t) && t@ == existing@ + (if existing@.len() > 0
            && existing@.last() == '\n' {
            Seq::empty()
        } else {
            seq!['\n']
        }) + theme_template_text()),
{
    let v = chars_of(existing);
    if contains_chars(&v, &chars_of("[theme]")) {
        return None;
    }
    let mut out = v;
    if !(out.len() > 0 && out[out.len() - 1] == '\n') {
        out.push('\n');
    }
    let ghost before = out@;
    append_chars(&mut out, &chars_of(theme_template()));
    proof {
        reveal_strlit("");
    }
    assert(before =~= existing@ + (if existing@.len() > 0 && existing@.last() == '\n' {
        Seq::<char>::empty()
    } else {
        seq!['\n']
    }));
    Some(string_of(&out))
}

/// A character as it is written inside a TOML basic string: backslash and
/// double quote are escaped with a backslash.
pub open spec fn escaped_char(c: char) -> Seq<char> {
    if c == '\\' {
        seq!['\\', '\\']
    } else if c == '"' {
        seq!['\\', '"']
    } else {
        seq![c]
    }
}

/// A text as it is written inside a TOML basic string.
pub open spec fn escaped(s: Seq<char>) -> Seq<char>
    decreases s.len(),
{
    if s.len() == 0 {
        Seq::empty()
    } else {
        escaped(s.drop_last()) + escaped_char(s.last())
    }
}

/// Escapes backslashes and double quotes for a TOML basic string.
pub fn escape_basic(s: &str) -> (r: String)
    ensures
        r@ == escaped(s@),
{
    let v = chars_of(s);
    let mut out: Vec<char> = Vec::new();
    let mut i: usize = 0;
    while i < v.len()
        invariant
            i <= v.len(),
            v@ == s@,
            out@ == escaped(v@.take(i as int)),
        decreases v.len() - i,
    {
        let c = v[i];
        if c == '\\' {
            out.push('\\');
            out.push('\\');
        } else if c == '"' {
            out.push('\\');
            out.push('"');
        } else {
            out.push(c);
        }
        assert(v@.take(i + 1).drop_last() =~= v@.take(i as int));
        assert(out@ =~= escaped(v@.take(i + 1)));
        i = i + 1;
    }
    assert(v@.take(v.len() as int) =~= v@);
    string_of(&out)
}

/// The config file written on first run: the music directory, then the
/// documented sections.
pub fn default_config_text(music_dir: &str) -> (r: String)
    ensures
        r@ == "music_dir = \""@ + escaped(music_dir@) + "\"\n"@ + theme_template_text(),
{
    let mut v = chars_of("music_dir = \"");
    append_chars(&mut v, &chars_of(escape_basic(music_dir).as_str()));
    append_chars(&mut v, &chars_of("\"\n"));
    append_chars(&mut v, &chars_of(theme_template()));
    string_of(&v)
}

} // verus!
