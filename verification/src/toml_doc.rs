//! Rewriting the config file in place: the managed keys are read from and
//! written into the user's TOML text through `toml_edit`, which keeps
//! comments, formatting and unmanaged keys as they were.
use vstd::prelude::*;

use toml_edit::DocumentMut;

use crate::config::Config;
use crate::model::opt_view;
use crate::text::{chars_of, same_chars};

verus! {

/// The string value `toml_edit` finds at `key` in `table` (the top level when
/// `None`) of a document's text, or `None` (no such key or table, another
/// kind of value, or text that does not parse).
pub uninterp spec fn toml_str_at(doc: Seq<char>, table: Option<Seq<char>>, key: Seq<char>) -> Option<Seq<char>>;

/// The document's text after `toml_edit` sets `key` in `table` to a string.
pub uninterp spec fn toml_with_str(
    doc: Seq<char>,
    table: Option<Seq<char>>,
    key: Seq<char>,
    val: Seq<char>,
) -> Seq<char>;

/// The integer value `toml_edit` finds at `key` in `table`, if any.
pub uninterp spec fn toml_int_at(doc: Seq<char>, table: Option<Seq<char>>, key: Seq<char>) -> Option<i64>;

/// The document's text after `toml_edit` sets `key` in `table` to an integer.
pub uninterp spec fn toml_with_int(doc: Seq<char>, table: Option<Seq<char>>, key: Seq<char>, val: i64) -> Seq<char>;

/// The boolean value `toml_edit` finds at `key` in `table`, if any.
pub uninterp spec fn toml_bool_at(doc: Seq<char>, table: Option<Seq<char>>, key: Seq<char>) -> Option<bool>;

/// The document's text after `toml_edit` sets `key` in `table` to a boolean.
pub uninterp spec fn toml_with_bool(doc: Seq<char>, table: Option<Seq<char>>, key: Seq<char>, val: bool) -> Seq<char>;

/// The items of the array `toml_edit` finds at `key` in `table`, each as
/// the integer it holds or `None`; `None` when there is no array there.
pub uninterp spec fn toml_int_items_at(
    doc: Seq<char>,
    table: Option<Seq<char>>,
    key: Seq<char>,
) -> Option<Seq<Option<i64>>>;

/// The document's text after `toml_edit` sets `key` in `table` to an array
/// of integers.
pub uninterp spec fn toml_with_ints(
    doc: Seq<char>,
    table: Option<Seq<char>>,
    key: Seq<char>,
    vals: Seq<i64>,
) -> Seq<char>;

/// The document's text after `toml_edit` removes `key` from `table`
/// (creating the table when it is missing).
pub uninterp spec fn toml_without(doc: Seq<char>, table: Option<Seq<char>>, key: Seq<char>) -> Seq<char>;

/// Parses the text with `toml_edit` and reads a string at `key` in `table`
/// (`Item::as_str`); a parse failure, a missing table or key, or a table or
/// value of another kind gives `None`.
#[verifier::external_body]
fn toml_get_str(doc: &str, table: Option<&str>, key: &str) -> (r: Option<String>)
    ensures
        match r {
            Some(s) => toml_str_at(doc@, opt_view(table), key@) == Some(s@),
            None => toml_str_at(doc@, opt_view(table), key@) is None,
        },
{
    let d = doc.parse::<DocumentMut>().ok()?;
    let t = match table { Some(t) => d.get(t)?.as_table()?, None => d.as_table() };
    t.get(key)?.as_str().map(|v| v.to_string())
}

/// Parses the text with `toml_edit` (an empty document when it does not
/// parse), sets `key` in `table` (inserted when missing; left alone when it
/// is not a table) to a string, and renders the document.
#[verifier::external_body]
fn toml_set_str(doc: &str, table: Option<&str>, key: &str, val: &str) -> (r: String)
    ensures
        r@ == toml_with_str(doc@, opt_view(table), key@, val@),
{
    let mut d = doc.parse::<DocumentMut>().unwrap_or_default();
    let t = match table { Some(t) => d[t].or_insert(toml_edit::table()).as_table_mut(), None => Some(d.as_table_mut()) };
    if let Some(t) = t { t[key] = toml_edit::value(val); }
    d.to_string()
}

/// Reads an integer at `key` in `table` (`Item::as_integer`), as
/// [`toml_get_str`] reads a string.
#[verifier::external_body]
fn toml_get_int(doc: &str, table: Option<&str>, key: &str) -> (r: Option<i64>)
    ensures
        r == toml_int_at(doc@, opt_view(table), key@),
{
    let d = doc.parse::<DocumentMut>().ok()?;
    let t = match table { Some(t) => d.get(t)?.as_table()?, None => d.as_table() };
    t.get(key)?.as_integer()
}

/// Sets `key` in `table` to an integer, as [`toml_set_str`] sets a string.
#[verifier::external_body]
fn toml_set_int(doc: &str, table: Option<&str>, key: &str, val: i64) -> (r: String)
    ensures
        r@ == toml_with_int(doc@, opt_view(table), key@, val),
{
    let mut d = doc.parse::<DocumentMut>().unwrap_or_default();
    let t = match table { Some(t) => d[t].or_insert(toml_edit::table()).as_table_mut(), None => Some(d.as_table_mut()) };
    if let Some(t) = t { t[key] = toml_edit::value(val); }
    d.to_string()
}

/// Reads a boolean at `key` in `table` (`Item::as_bool`), as
/// [`toml_get_str`] reads a string.
#[verifier::external_body]
fn toml_get_bool(doc: &str, table: Option<&str>, key: &str) -> (r: Option<bool>)
    ensures
        r == toml_bool_at(doc@, opt_view(table), key@),
{
    let d = doc.parse::<DocumentMut>().ok()?;
    let t = match table { Some(t) => d.get(t)?.as_table()?, None => d.as_table() };
    t.get(key)?.as_bool()
}

/// Sets `key` in `table` to a boolean, as [`toml_set_str`] sets a string.
#[verifier::external_body]
fn toml_set_bool(doc: &str, table: Option<&str>, key: &str, val: bool) -> (r: String)
    ensures
        r@ == toml_with_bool(doc@, opt_view(table), key@, val),
{
    let mut d = doc.parse::<DocumentMut>().unwrap_or_default();
    let t = match table { Some(t) => d[t].or_insert(toml_edit::table()).as_table_mut(), None => Some(d.as_table_mut()) };
    if let Some(t) = t { t[key] = toml_edit::value(val); }
    d.to_string()
}

/// Reads the array at `key` in `table` (`Item::as_array`), each item as
/// `Value::as_integer` gives it, as [`toml_get_str`] reads a string.
#[verifier::external_body]
fn toml_get_int_items(doc: &str, table: Option<&str>, key: &str) -> (r: Option<Vec<Option<i64>>>)
    ensures
        match r {
            Some(v) => toml_int_items_at(doc@, opt_view(table), key@) == Some(v@),
            None => toml_int_items_at(doc@, opt_view(table), key@) is None,
        },
{
    let d = doc.parse::<DocumentMut>().ok()?;
    let t = match table { Some(t) => d.get(t)?.as_table()?, None => d.as_table() };
    Some(t.get(key)?.as_array()?.iter().map(|v| v.as_integer()).collect())
}

/// Sets `key` in `table` to an array of integers (collected into a
/// `toml_edit::Array`), as [`toml_set_str`] sets a string.
#[verifier::external_body]
fn toml_set_ints(doc: &str, table: Option<&str>, key: &str, vals: &Vec<i64>) -> (r: String)
    ensures
        r@ == toml_with_ints(doc@, opt_view(table), key@, vals@),
{
    let mut d = doc.parse::<DocumentMut>().unwrap_or_default();
    let t = match table { Some(t) => d[t].or_insert(toml_edit::table()).as_table_mut(), None => Some(d.as_table_mut()) };
    if let Some(t) = t { t[key] = toml_edit::value(vals.iter().copied().collect::<toml_edit::Array>()); }
    d.to_string()
}

/// Parses the text (an empty document when it does not parse), removes `key`
/// from `table` (inserted when missing; left alone when it is not a table),
/// and renders the document.
#[verifier::external_body]
fn toml_remove(doc: &str, table: Option<&str>, key: &str) -> (r: String)
    ensures
        r@ == toml_without(doc@, opt_view(table), key@),
{
    let mut d = doc.parse::<DocumentMut>().unwrap_or_default();
    let t = match table { Some(t) => d[t].or_insert(toml_edit::table()).as_table_mut(), None => Some(d.as_table_mut()) };
    if let Some(t) = t { t.remove(key); }
    d.to_string()
}

/// The document with a string key set, unless it already holds that value
/// (so an unchanged key keeps its inline comment).
pub open spec fn put_str(doc: Seq<char>, table: Option<Seq<char>>, key: Seq<char>, val: Seq<char>) -> Seq<char> {
    if toml_str_at(doc, table, key) == Some(val) {
        doc
    } else {
        toml_with_str(doc, table, key, val)
    }
}

/// The document with an integer key set, unless it already holds that value.
pub open spec fn put_int(doc: Seq<char>, table: Option<Seq<char>>, key: Seq<char>, val: i64) -> Seq<char> {
    if toml_int_at(doc, table, key) == Some(val) {
        doc
    } else {
        toml_with_int(doc, table, key, val)
    }
}

/// The document with a boolean key set, unless it already holds that value.
pub open spec fn put_bool(doc: Seq<char>, table: Option<Seq<char>>, key: Seq<char>, val: bool) -> Seq<char> {
    if toml_bool_at(doc, table, key) == Some(val) {
        doc
    } else {
        toml_with_bool(doc, table, key, val)
    }
}

/// The integers among an array's items, in order (items of other kinds are
/// skipped).
pub open spec fn present_ints(items: Seq<Option<i64>>) -> Seq<i64>
    decreases items.len(),
{
    if items.len() == 0 {
        Seq::empty()
    } else {
        match items.last() {
            Some(v) => present_ints(items.drop_last()).push(v),
            None => present_ints(items.drop_last()),
        }
    }
}

/// The document with an integer-array key set, unless the integers in the
/// array already there are exactly these.
pub open spec fn put_ints(doc: Seq<char>, table: Option<Seq<char>>, key: Seq<char>, vals: Seq<i64>) -> Seq<char> {
    if toml_int_items_at(doc, table, key) matches Some(items) && present_ints(items) == vals {
        doc
    } else {
        toml_with_ints(doc, table, key, vals)
    }
}

/// Column widths as TOML integers.
pub open spec fn widened(c: Seq<u16>) -> Seq<i64> {
    c.map_values(|v: u16| v as i64)
}

/// The config text after saving `cfg` into `existing`: `music_dir`, the five
/// theme colors, the layout's columns and queue height, and the three UI
/// switches are each written only where the value differs, and the old
/// `crossfade_secs` key is dropped from `[playback]`. What each step does to
/// the rest of the text is `toml_edit`'s (named, not stated).
pub open spec fn rendered(existing: Seq<char>, cfg: Config) -> Seq<char> {
    let theme = Some("theme"@);
    let layout = Some("layout"@);
    let ui = Some("ui"@);
    let d0 = put_str(existing, None, "music_dir"@, cfg.music_dir@);
    let d1 = put_str(d0, theme, "accent"@, cfg.theme.accent@);
    let d2 = put_str(d1, theme, "selection_fg"@, cfg.theme.selection_fg@);
    let d3 = put_str(d2, theme, "border"@, cfg.theme.border@);
    let d4 = put_str(d3, theme, "dim"@, cfg.theme.dim@);
    let d5 = put_str(d4, theme, "muted"@, cfg.theme.muted@);
    let d6 = put_ints(d5, layout, "columns"@, widened(cfg.layout.columns@));
    let d7 = put_int(d6, layout, "queue_pct"@, cfg.layout.queue_pct as i64);
    let d8 = toml_without(d7, Some("playback"@), "crossfade_secs"@);
    let d9 = put_bool(d8, ui, "big_transport_icons"@, cfg.ui.big_transport_icons);
    let d10 = put_bool(d9, ui, "cache_all_art"@, cfg.ui.cache_all_art);
    put_bool(d10, ui, "sort_articles"@, cfg.ui.sort_articles)
}

fn copy_text(s: &str) -> (r: String)
    ensures
        r@ == s@,
{
    String::from_str(s)
}

/// Sets a string key only where its value differs.
fn set_str_if_changed(doc: &str, table: Option<&str>, key: &str, val: &str) -> (r: String)
    ensures
        r@ == put_str(doc@, opt_view(table), key@, val@),
{
    let same = match toml_get_str(doc, table, key) {
        Some(cur) => same_chars(&chars_of(cur.as_str()), val),
        None => false,
    };
    if same {
        copy_text(doc)
    } else {
        toml_set_str(doc, table, key, val)
    }
}

/// Sets an integer key only where its value differs.
fn set_int_if_changed(doc: &str, table: Option<&str>, key: &str, val: i64) -> (r: String)
    ensures
        r@ == put_int(doc@, opt_view(table), key@, val),
{
    let same = match toml_get_int(doc, table, key) {
        Some(cur) => cur == val,
        None => false,
    };
    if same {
        copy_text(doc)
    } else {
        toml_set_int(doc, table, key, val)
    }
}

/// Sets a boolean key only where its value differs.
fn set_bool_if_changed(doc: &str, table: Option<&str>, key: &str, val: bool) -> (r: String)
    ensures
        r@ == put_bool(doc@, opt_view(table), key@, val),
{
    let same = match toml_get_bool(doc, table, key) {
        Some(cur) => cur == val,
        None => false,
    };
    if same {
        copy_text(doc)
    } else {
        toml_set_bool(doc, table, key, val)
    }
}

/// The integers among an array's items, in order.
fn ints_present(items: &Vec<Option<i64>>) -> (r: Vec<i64>)
    ensures
        r@ == present_ints(items@),
{
    let mut out: Vec<i64> = Vec::new();
    let mut i: usize = 0;
    assert(items@.take(0) =~= Seq::<Option<i64>>::empty());
    while i < items.len()
        invariant
            i <= items.len(),
            out@ == present_ints(items@.take(i as int)),
        decreases items.len() - i,
    {
        assert(items@.take(i + 1).drop_last() =~= items@.take(i as int));
        if let Some(v) = items[i] {
            out.push(v);
        }
        i = i + 1;
    }
    assert(items@.take(items.len() as int) =~= items@);
    out
}

/// Whether two integer lists are equal.
fn ints_equal(a: &Vec<i64>, b: &Vec<i64>) -> (r: bool)
    ensures
        r == (a@ == b@),
{
    if a.len() != b.len() {
        return false;
    }
    let mut i: usize = 0;
    while i < a.len()
        invariant
            i <= a.len(),
            a.len() == b.len(),
            forall|k: int| 0 <= k < i ==> a@[k] == b@[k],
        decreases a.len() - i,
    {
        if a[i] != b[i] {
            return false;
        }
        i = i + 1;
    }
    assert(a@ =~= b@);
    true
}

/// Sets an integer-array key only where the integers there differ.
fn set_ints_if_changed(doc: &str, table: Option<&str>, key: &str, vals: &Vec<i64>) -> (r: String)
    ensures
        r@ == put_ints(doc@, opt_view(table), key@, vals@),
{
    let same = match toml_get_int_items(doc, table, key) {
        Some(items) => ints_equal(&ints_present(&items), vals),
        None => false,
    };
    if same {
        copy_text(doc)
    } else {
        toml_set_ints(doc, table, key, vals)
    }
}

impl Config {
    /// Writes the configuration into an existing config file's text: each
    /// managed key is rewritten only when its value changed, so comments,
    /// formatting and other keys survive (see [`rendered`]). The crossfade
    /// duration, a floating-point setting, is written by the program.
    pub fn render_toml(&self, existing: &str) -> (r: String)
        ensures
            r@ == rendered(existing@, *self),
    {
        let mut cols: Vec<i64> = Vec::new();
        let mut i: usize = 0;
        while i < self.layout.columns.len()
            invariant
                i <= self.layout.columns.len(),
                cols@ == widened(self.layout.columns@.take(i as int)),
            decreases self.layout.columns.len() - i,
        {
            assert(widened(self.layout.columns@.take(i + 1)) =~= widened(
                self.layout.columns@.take(i as int),
            ).push(self.layout.columns@[i as int] as i64));
            cols.push(self.layout.columns[i] as i64);
            i = i + 1;
        }
        assert(self.layout.columns@.take(self.layout.columns.len() as int) =~= self.layout.columns@);
        let d = set_str_if_changed(existing, None, "music_dir", self.music_dir.as_str());
        let d = set_str_if_changed(d.as_str(), Some("theme"), "accent", self.theme.accent.as_str());
        let d = set_str_if_changed(d.as_str(), Some("theme"), "selection_fg", self.theme.selection_fg.as_str());
        let d = set_str_if_changed(d.as_str(), Some("theme"), "border", self.theme.border.as_str());
        let d = set_str_if_changed(d.as_str(), Some("theme"), "dim", self.theme.dim.as_str());
        let d = set_str_if_changed(d.as_str(), Some("theme"), "muted", self.theme.muted.as_str());
        let d = set_ints_if_changed(d.as_str(), Some("layout"), "columns", &cols);
        let d = set_int_if_changed(d.as_str(), Some("layout"), "queue_pct", self.layout.queue_pct as i64);
        let d = toml_remove(d.as_str(), Some("playback"), "crossfade_secs");
        let d = set_bool_if_changed(d.as_str(), Some("ui"), "big_transport_icons", self.ui.big_transport_icons);
        let d = set_bool_if_changed(d.as_str(), Some("ui"), "cache_all_art", self.ui.cache_all_art);
        set_bool_if_changed(d.as_str(), Some("ui"), "sort_articles", self.ui.sort_articles)
    }
}

} // verus!
