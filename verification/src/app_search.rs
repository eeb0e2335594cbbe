//! The search field: a line editor with readline-style motions, kills and yank.
use vstd::prelude::*;

use crate::app::{views_refreshed, App};
use crate::text::{char_is_alphanumeric, chars_of, is_alnum, slice_chars, string_of};

verus! {

/// Back over separators from position `i`.
pub open spec fn back_over_separators(s: Seq<char>, i: int) -> int
    decreases i,
{
    if i > 0 && i <= s.len() && !is_alnum(s[i - 1]) {
        back_over_separators(s, i - 1)
    } else {
        i
    }
}

/// Back over word characters from position `i`.
pub open spec fn back_over_word(s: Seq<char>, i: int) -> int
    decreases i,
{
    if i > 0 && i <= s.len() && is_alnum(s[i - 1]) {
        back_over_word(s, i - 1)
    } else {
        i
    }
}

/// Forward over separators from position `i`.
pub open spec fn forward_over_separators(s: Seq<char>, i: int) -> int
    decreases s.len() - i,
{
    if 0 <= i < s.len() && !is_alnum(s[i]) {
        forward_over_separators(s, i + 1)
    } else {
        i
    }
}

/// Forward over word characters from position `i`.
pub open spec fn forward_over_word(s: Seq<char>, i: int) -> int
    decreases s.len() - i,
{
    if 0 <= i < s.len() && is_alnum(s[i]) {
        forward_over_word(s, i + 1)
    } else {
        i
    }
}

/// The word boundary reached from position `i`: backwards (`dir < 0`) over
/// separators and then a word, otherwise forwards likewise.
pub open spec fn word_boundary(s: Seq<char>, i: int, dir: int) -> int {
    if dir < 0 {
        back_over_word(s, back_over_separators(s, i))
    } else {
        forward_over_word(s, forward_over_separators(s, i))
    }
}

proof fn lemma_back_bounds(s: Seq<char>, i: int)
    requires
        0 <= i <= s.len(),
    ensures
        0 <= back_over_separators(s, i) <= i,
        0 <= back_over_word(s, i) <= i,
    decreases i,
{
    if i > 0 {
        lemma_back_bounds(s, i - 1);
    }
}

proof fn lemma_forward_bounds(s: Seq<char>, i: int)
    requires
        0 <= i <= s.len(),
    ensures
        i <= forward_over_separators(s, i) <= s.len(),
        i <= forward_over_word(s, i) <= s.len(),
    decreases s.len() - i,
{
    if i < s.len() {
        lemma_forward_bounds(s, i + 1);
    }
}

/// `s` with the characters in `[from, to)` cut out.
pub open spec fn cut(s: Seq<char>, from: int, to: int) -> Seq<char> {
    s.take(from) + s.skip(to)
}

impl App {
    /// The word boundary reached from the cursor in direction `dir`.
    pub fn search_word_boundary(&self, dir: i32) -> (r: usize)
        requires
            self.inv(),
        ensures
            r as int == word_boundary(self.search@, self.search_cursor as int, dir as int),
            dir < 0 ==> r <= self.search_cursor,
            dir >= 0 ==> self.search_cursor <= r <= self.search@.len(),
    {
        let chars = chars_of(self.search.as_str());
        let mut i = self.search_cursor;
        proof {
            lemma_back_bounds(chars@, i as int);
            lemma_forward_bounds(chars@, i as int);
        }
        if dir < 0 {
            while i > 0 && !char_is_alphanumeric(chars[i - 1])
                invariant
                    i <= chars.len(),
                    chars@ == self.search@,
                    back_over_separators(chars@, self.search_cursor as int)
                        == back_over_separators(chars@, i as int),
                    i <= self.search_cursor,
                decreases i,
            {
                i = i - 1;
            }
            let ghost mid = i;
            while i > 0 && char_is_alphanumeric(chars[i - 1])
                invariant
                    i <= mid <= chars.len(),
                    chars@ == self.search@,
                    mid == back_over_separators(chars@, self.search_cursor as int),
                    back_over_word(chars@, mid as int) == back_over_word(chars@, i as int),
                    mid <= self.search_cursor,
                decreases i,
            {
                i = i - 1;
            }
        } else {
            let n = chars.len();
            while i < n && !char_is_alphanumeric(chars[i])
                invariant
                    n == chars.len(),
                    self.search_cursor <= i <= n,
                    chars@ == self.search@,
                    forward_over_separators(chars@, self.search_cursor as int)
                        == forward_over_separators(chars@, i as int),
                decreases n - i,
            {
                i = i + 1;
            }
            let ghost mid = i;
            while i < n && char_is_alphanumeric(chars[i])
                invariant
                    n == chars.len(),
                    self.search_cursor <= mid <= i <= n,
                    chars@ == self.search@,
                    mid == forward_over_separators(chars@, self.search_cursor as int),
                    forward_over_word(chars@, mid as int) == forward_over_word(chars@, i as int),
                decreases n - i,
            {
                i = i + 1;
            }
        }
        i
    }

    /// Types `c` at the cursor.
    pub fn search_input(&mut self, c: char)
        requires
            old(self).inv(),
        ensures
            search_input_done(*old(self), *final(self), c),
    {
        let mut v = chars_of(self.search.as_str());
        v.insert(self.search_cursor, c);
        assert(self.search_cursor + 1 <= v.len());
        self.search = string_of(&v);
        self.search_cursor = self.search_cursor + 1;
        self.refresh_views();
    }

    /// Deletes the character before the cursor (nothing at the start).
    pub fn search_backspace(&mut self)
        requires
            old(self).inv(),
        ensures
            search_backspace_done(*old(self), *final(self)),
    {
        if self.search_cursor == 0 {
            return;
        }
        let mut v = chars_of(self.search.as_str());
        v.remove(self.search_cursor - 1);
        self.search = string_of(&v);
        self.search_cursor = self.search_cursor - 1;
        self.refresh_views();
    }

    /// Deletes the character under the cursor (nothing at the end).
    pub fn search_delete_forward(&mut self)
        requires
            old(self).inv(),
        ensures
            search_delete_forward_done(*old(self), *final(self)),
    {
        let mut v = chars_of(self.search.as_str());
        if self.search_cursor >= v.len() {
            return;
        }
        v.remove(self.search_cursor);
        self.search = string_of(&v);
        self.refresh_views();
    }

    /// Empties the search field.
    pub fn clear_search(&mut self)
        ensures
            clear_search_done(*old(self), *final(self)),
    {
        self.search = String::new();
        self.search_cursor = 0;
        self.refresh_views();
    }

    /// Cursor to the start.
    pub fn search_home(&mut self)
        ensures
            search_home_done(*old(self), *final(self)),
    {
        self.search_cursor = 0;
    }

    /// Cursor to the end.
    pub fn search_end(&mut self)
        ensures
            search_end_done(*old(self), *final(self)),
    {
        self.search_cursor = self.search.as_str().unicode_len();
    }

    /// Moves the cursor by `delta` characters, staying within the text.
    pub fn search_move(&mut self, delta: i32)
        ensures
            search_move_done(*old(self), *final(self), delta),
    {
        let len = self.search.as_str().unicode_len();
        let t: i128 = self.search_cursor as i128 + delta as i128;
        self.search_cursor = if t < 0 {
            0
        } else if t > len as i128 {
            len
        } else {
            t as usize
        };
    }

    /// Moves the cursor to the word boundary in direction `dir`.
    pub fn search_move_word(&mut self, dir: i32)
        requires
            old(self).inv(),
        ensures
            search_move_word_done(*old(self), *final(self), dir),
    {
        self.search_cursor = self.search_word_boundary(dir);
    }

    /// Cuts the characters in `[from, to)` into the kill buffer (nothing when
    /// the range is empty); the cursor moves back to `from` if it was past it.
    pub fn search_kill(&mut self, from: usize, to: usize)
        requires
            old(self).inv(),
            to <= old(self).search@.len(),
        ensures
            search_kill_done(*old(self), *final(self), from, to),
    {
        if from >= to {
            return;
        }
        let v = chars_of(self.search.as_str());
        let killed = slice_chars(&v, from, to);
        let mut rest = slice_chars(&v, 0, from);
        crate::text::append_chars(&mut rest, &slice_chars(&v, to, v.len()));
        assert(rest@ =~= cut(v@, from as int, to as int));
        self.kill_buffer = string_of(&killed);
        self.search = string_of(&rest);
        if self.search_cursor > from {
            self.search_cursor = from;
        }
        self.refresh_views();
    }

    /// Cuts the word before the cursor.
    pub fn search_kill_word_back(&mut self)
        requires
            old(self).inv(),
        ensures
            search_kill_word_back_done(*old(self), *final(self)),
    {
        let to = self.search_cursor;
        let from = self.search_word_boundary(-1);
        self.search_kill(from, to);
    }

    /// Cuts the word after the cursor; the cursor stays put.
    pub fn search_kill_word_forward(&mut self)
        requires
            old(self).inv(),
        ensures
            search_kill_word_forward_done(*old(self), *final(self)),
    {
        let from = self.search_cursor;
        let to = self.search_word_boundary(1);
        self.search_kill(from, to);
        self.search_cursor = from;
    }

    /// Cuts everything before the cursor.
    pub fn search_kill_to_start(&mut self)
        requires
            old(self).inv(),
        ensures
            search_kill_to_start_done(*old(self), *final(self)),
    {
        let to = self.search_cursor;
        self.search_kill(0, to);
        assert(cut(old(self).search@, 0, to as int) =~= old(self).search@.skip(to as int));
        assert(old(self).search@.subrange(0, to as int) =~= old(self).search@.take(to as int));
    }

    /// Cuts everything from the cursor on.
    pub fn search_kill_to_end(&mut self)
        requires
            old(self).inv(),
        ensures
            search_kill_to_end_done(*old(self), *final(self)),
    {
        let from = self.search_cursor;
        let len = self.search.as_str().unicode_len();
        self.search_kill(from, len);
        assert(cut(old(self).search@, from as int, len as int) =~= old(self).search@.take(
            from as int,
        ));
        assert(old(self).search@.subrange(from as int, len as int) =~= old(self).search@.skip(
            from as int,
        ));
    }

    /// Inserts the kill buffer at the cursor, leaving the cursor after it.
    pub fn search_yank(&mut self)
        requires
            old(self).inv(),
        ensures
            search_yank_done(*old(self), *final(self)),
    {
        let text = chars_of(self.kill_buffer.as_str());
        if text.len() == 0 {
            return;
        }
        let v = chars_of(self.search.as_str());
        let c = self.search_cursor;
        let mut out = slice_chars(&v, 0, c);
        crate::text::append_chars(&mut out, &text);
        crate::text::append_chars(&mut out, &slice_chars(&v, c, v.len()));
        assert(out@ =~= v@.take(c as int) + text@ + v@.skip(c as int));
        assert(c + text.len() <= out.len());
        self.search = string_of(&out);
        self.search_cursor = c + text.len();
        self.refresh_views();
    }
}

/// Yanking right after a kill puts the text back as it was (for a kill of
/// `[from, to)` with the cursor left at `from`).
pub proof fn law_kill_then_yank_restores(s: Seq<char>, from: int, to: int)
    requires
        0 <= from < to <= s.len(),
    ensures
        ({
            let rest = cut(s, from, to);
            let killed = s.subrange(from, to);
            rest.take(from) + killed + rest.skip(from) == s
        }),
{
    let rest = cut(s, from, to);
    assert(rest.take(from) =~= s.take(from));
    assert(rest.skip(from) =~= s.skip(to));
    assert(s.take(from) + s.subrange(from, to) + s.skip(to) =~= s);
}

/// Killing to the end of the search text and then yanking re-inserts
/// exactly the killed text at the cursor: the text is as before and the
/// cursor stands at its end (for a text whose length fits a `usize`).
pub proof fn law_kill_to_end_then_yank(pre: App, mid: App, post: App)
    requires
        pre.inv(),
        pre.search_cursor < pre.search@.len(),
        pre.search@.len() <= usize::MAX,
        search_kill_to_end_done(pre, mid),
        search_yank_done(mid, post),
    ensures
        post.search@ == pre.search@,
        post.search_cursor == pre.search@.len(),
{
    let c = pre.search_cursor as int;
    assert(mid.search_cursor == pre.search_cursor);
    assert(mid.search@.take(c) =~= pre.search@.take(c));
    assert(mid.search@.skip(c) =~= Seq::<char>::empty());
    assert(pre.search@.take(c) + pre.search@.skip(c) =~= pre.search@);
    assert(mid.search@.take(c) + mid.kill_buffer@ + mid.search@.skip(c) =~= pre.search@);
}

/// Typing a character and then deleting backwards gives the text back.
pub proof fn law_input_then_backspace(s: Seq<char>, cursor: int, c: char)
    requires
        0 <= cursor <= s.len(),
    ensures
        s.insert(cursor, c).remove(cursor) == s,
        s.insert(cursor, c)[cursor] == c,
{
    assert(s.insert(cursor, c).remove(cursor) =~= s);
}

/// A word-boundary motion never leaves the text.
pub proof fn law_word_boundary_in_text(s: Seq<char>, i: int, dir: int)
    requires
        0 <= i <= s.len(),
    ensures
        0 <= word_boundary(s, i, dir) <= s.len(),
        dir < 0 ==> word_boundary(s, i, dir) <= i,
        dir >= 0 ==> i <= word_boundary(s, i, dir),
{
    lemma_back_bounds(s, i);
    lemma_back_bounds(s, back_over_separators(s, i));
    lemma_forward_bounds(s, i);
    lemma_forward_bounds(s, forward_over_separators(s, i));
}

/// What [`App::search_input`] does.
pub open spec fn search_input_done(pre: App, post: App, c: char) -> bool {
    &&& post.inv()
    &&& post.search@ == pre.search@.insert(pre.search_cursor as int, c)
    &&& views_refreshed(
        App {
            search: post.search,
            search_cursor: (pre.search_cursor + 1) as usize,
            ..pre
        },
        post,
    )
}

/// What [`App::search_backspace`] does.
pub open spec fn search_backspace_done(pre: App, post: App) -> bool {
    &&& post.inv()
    &&& pre.search_cursor == 0 ==> post == pre
    &&& pre.search_cursor > 0 ==> {
        &&& post.search@ == pre.search@.remove(pre.search_cursor - 1)
        &&& views_refreshed(
            App {
                search: post.search,
                search_cursor: (pre.search_cursor - 1) as usize,
                ..pre
            },
            post,
        )
    }
}

/// What [`App::search_delete_forward`] does.
pub open spec fn search_delete_forward_done(pre: App, post: App) -> bool {
    &&& post.inv()
    &&& pre.search_cursor >= pre.search@.len() ==> post == pre
    &&& pre.search_cursor < pre.search@.len() ==> {
        &&& post.search@ == pre.search@.remove(pre.search_cursor as int)
        &&& views_refreshed(
            App { search: post.search, ..pre },
            post,
        )
    }
}

/// What [`App::clear_search`] does.
pub open spec fn clear_search_done(pre: App, post: App) -> bool {
    &&& post.search@.len() == 0
    &&& views_refreshed(
        App { search: post.search, search_cursor: 0, ..pre },
        post,
    )
}

/// What [`App::search_home`] does.
pub open spec fn search_home_done(pre: App, post: App) -> bool {
    &&& post == (App { search_cursor: 0, ..pre })
}

/// What [`App::search_end`] does.
pub open spec fn search_end_done(pre: App, post: App) -> bool {
    &&& post == (App { search_cursor: pre.search@.len() as usize, ..pre })
}

/// What [`App::search_move`] does.
pub open spec fn search_move_done(pre: App, post: App, delta: i32) -> bool {
    &&& post == (App {
        search_cursor: crate::app_nav::clamp_i(
            pre.search_cursor + delta,
            0,
            pre.search@.len() as int,
        ) as usize,
        ..pre
    })
}

/// What [`App::search_move_word`] does.
pub open spec fn search_move_word_done(pre: App, post: App, dir: i32) -> bool {
    &&& post.inv()
    &&& post == (App {
        search_cursor: word_boundary(
            pre.search@,
            pre.search_cursor as int,
            dir as int,
        ) as usize,
        ..pre
    })
}

/// What [`App::search_kill`] does.
pub open spec fn search_kill_done(pre: App, post: App, from: usize, to: usize) -> bool {
    &&& post.inv()
    &&& from >= to ==> post == pre
    &&& from < to ==> {
        &&& post.kill_buffer@ == pre.search@.subrange(from as int, to as int)
        &&& post.search@ == cut(pre.search@, from as int, to as int)
        &&& views_refreshed(
            App {
                search: post.search,
                kill_buffer: post.kill_buffer,
                search_cursor: if pre.search_cursor < from {
                    pre.search_cursor
                } else {
                    from
                },
                ..pre
            },
            post,
        )
    }
}

/// What [`App::search_kill_word_back`] does.
pub open spec fn search_kill_word_back_done(pre: App, post: App) -> bool {
    &&& post.inv()
    &&& ({
        let from = word_boundary(pre.search@, pre.search_cursor as int, -1);
        &&& from == pre.search_cursor ==> post == pre
        &&& from < pre.search_cursor ==> {
            &&& post.kill_buffer@ == pre.search@.subrange(
                from,
                pre.search_cursor as int,
            )
            &&& post.search@ == cut(
                pre.search@,
                from,
                pre.search_cursor as int,
            )
            &&& views_refreshed(
                App {
                    search: post.search,
                    kill_buffer: post.kill_buffer,
                    search_cursor: from as usize,
                    ..pre
                },
                post,
            )
        }
    })
}

/// What [`App::search_kill_word_forward`] does.
pub open spec fn search_kill_word_forward_done(pre: App, post: App) -> bool {
    &&& post.inv()
    &&& ({
        let to = word_boundary(pre.search@, pre.search_cursor as int, 1);
        &&& to == pre.search_cursor ==> post == pre
        &&& to > pre.search_cursor ==> {
            &&& post.kill_buffer@ == pre.search@.subrange(
                pre.search_cursor as int,
                to,
            )
            &&& post.search@ == cut(
                pre.search@,
                pre.search_cursor as int,
                to,
            )
            &&& views_refreshed(
                App {
                    search: post.search,
                    kill_buffer: post.kill_buffer,
                    ..pre
                },
                post,
            )
        }
    })
}

/// What [`App::search_kill_to_start`] does.
pub open spec fn search_kill_to_start_done(pre: App, post: App) -> bool {
    &&& post.inv()
    &&& pre.search_cursor == 0 ==> post == pre
    &&& pre.search_cursor > 0 ==> {
        &&& post.kill_buffer@ == pre.search@.take(
            pre.search_cursor as int,
        )
        &&& post.search@ == pre.search@.skip(pre.search_cursor as int)
        &&& views_refreshed(
            App {
                search: post.search,
                kill_buffer: post.kill_buffer,
                search_cursor: 0,
                ..pre
            },
            post,
        )
    }
}

/// What [`App::search_kill_to_end`] does.
pub open spec fn search_kill_to_end_done(pre: App, post: App) -> bool {
    &&& post.inv()
    &&& pre.search_cursor == pre.search@.len() ==> post == pre
    &&& pre.search_cursor < pre.search@.len() ==> {
        &&& post.kill_buffer@ == pre.search@.skip(
            pre.search_cursor as int,
        )
        &&& post.search@ == pre.search@.take(pre.search_cursor as int)
        &&& views_refreshed(
            App {
                search: post.search,
                kill_buffer: post.kill_buffer,
                ..pre
            },
            post,
        )
    }
}

/// What [`App::search_yank`] does.
pub open spec fn search_yank_done(pre: App, post: App) -> bool {
    &&& post.inv()
    &&& pre.kill_buffer@.len() == 0 ==> post == pre
    &&& pre.kill_buffer@.len() > 0 ==> {
        let c = pre.search_cursor as int;
        &&& post.search@ == pre.search@.take(c) + pre.kill_buffer@
            + pre.search@.skip(c)
        &&& views_refreshed(
            App {
                search: post.search,
                search_cursor: (c + pre.kill_buffer@.len()) as usize,
                ..pre
            },
            post,
        )
    }
}

/// `s[c..t)` is separators up to `m` and word characters from `m` on, and
/// holds at least one word character unless it runs to the end of `s`.
pub open spec fn separators_then_word(s: Seq<char>, c: int, m: int, t: int) -> bool {
    &&& c <= m <= t
    &&& forall|k: int| c <= k < m ==> !is_alnum(#[trigger] s[k])
    &&& forall|k: int| m <= k < t ==> is_alnum(#[trigger] s[k])
    &&& (m == t ==> t == s.len())
}

proof fn lemma_forward_separators_run(s: Seq<char>, i: int)
    requires
        0 <= i <= s.len(),
    ensures
        i <= forward_over_separators(s, i) <= s.len(),
        forall|k: int| i <= k < forward_over_separators(s, i) ==> !is_alnum(#[trigger] s[k]),
        forward_over_separators(s, i) == s.len() || is_alnum(s[forward_over_separators(s, i)]),
    decreases s.len() - i,
{
    if i < s.len() && !is_alnum(s[i]) {
        lemma_forward_separators_run(s, i + 1);
    }
}

proof fn lemma_forward_word_run(s: Seq<char>, i: int)
    requires
        0 <= i <= s.len(),
    ensures
        i <= forward_over_word(s, i) <= s.len(),
        forall|k: int| i <= k < forward_over_word(s, i) ==> is_alnum(#[trigger] s[k]),
        forward_over_word(s, i) == s.len() || !is_alnum(s[forward_over_word(s, i)]),
    decreases s.len() - i,
{
    if i < s.len() && is_alnum(s[i]) {
        lemma_forward_word_run(s, i + 1);
    }
}

/// Alt-d cuts the next word after the cursor and nothing more: with text
/// after the cursor, the cut starts at the cursor, is non-empty, and is a run
/// of separators followed by one run of word characters that ends at the end
/// of the text or before a separator (a cut of separators alone reaches the
/// end); the cut text goes to the kill buffer, the text before the cursor and
/// after the cut is kept, and the cursor stays. At the end of the text
/// nothing changes.
pub proof fn law_kill_word_forward_cuts_one_word(pre: App, post: App)
    requires
        pre.inv(),
        search_kill_word_forward_done(pre, post),
    ensures
        pre.search_cursor == pre.search@.len() ==> post == pre,
        pre.search_cursor < pre.search@.len() ==> {
            let s = pre.search@;
            let c = pre.search_cursor as int;
            let t = c + post.kill_buffer@.len();
            &&& c < t <= s.len()
            &&& post.kill_buffer@ == s.subrange(c, t)
            &&& post.search@ == s.take(c) + s.skip(t)
            &&& post.search_cursor == pre.search_cursor
            &&& (t == s.len() || !is_alnum(s[t]))
            &&& exists|m: int| #[trigger] separators_then_word(s, c, m, t)
        },
{
    let s = pre.search@;
    let c = pre.search_cursor as int;
    lemma_forward_separators_run(s, c);
    let m = forward_over_separators(s, c);
    lemma_forward_word_run(s, m);
    let to = forward_over_word(s, m);
    assert(to == word_boundary(s, c, 1));
    if c < s.len() {
        if !is_alnum(s[c]) {
            assert(m > c);
        } else {
            assert(m == c);
            assert(to > c);
        }
        assert(post.kill_buffer@.len() == to - c);
        assert(c <= m <= to);
        if m == to {
            if m < s.len() {
                assert(is_alnum(s[m]));
            }
        }
        assert(separators_then_word(s, c, m, to));
    }
}

} // verus!
