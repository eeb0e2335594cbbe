//! Where a track's cover thumbnail is cached: a file in the art cache
//! directory named by a hash of the track's path.
use vstd::prelude::*;

use crate::config::{art_cache_dir, joined_path, located, path_join};
use crate::text::{append_chars, chars_of, string_of};

verus! {

/// What `DefaultHasher::new()` finishes with after hashing a path (std
/// documents that every hasher made by `new` is the same).
pub uninterp spec fn path_hash_of(p: Seq<char>) -> u64;

/// Hashes a text path with a fresh `DefaultHasher` (as `Path`, through
/// `Hash::hash`) and finishes it. The hash is named, not stated.
#[verifier::external_body]
fn path_hash(p: &str) -> (r: u64)
    ensures
        r == path_hash_of(p@),
{
    let mut hasher = std::collections::hash_map::DefaultHasher::new();
    std::hash::Hash::hash(&std::path::Path::new(p), &mut hasher);
    std::hash::Hasher::finish(&hasher)
}

/// The lowercase hexadecimal digit for `d < 16`.
pub open spec fn hex_digit(d: nat) -> char {
    if d < 10 {
        crate::text::digit_char(d)
    } else if d == 10 {
        'a'
    } else if d == 11 {
        'b'
    } else if d == 12 {
        'c'
    } else if d == 13 {
        'd'
    } else if d == 14 {
        'e'
    } else {
        'f'
    }
}

/// The last `n` hexadecimal digits of `x`, most significant first, with
/// leading zeros (as `format!("{x:0n$x}")` for `x < 16^n`).
pub open spec fn hex_digits(x: nat, n: nat) -> Seq<char>
    decreases n,
{
    if n == 0 {
        Seq::empty()
    } else {
        hex_digits(x / 16, (n - 1) as nat).push(hex_digit(x % 16))
    }
}

fn hex_char(d: u64) -> (c: char)
    requires
        d < 16,
    ensures
        c == hex_digit(d as nat),
{
    if d == 0 {
        '0'
    } else if d == 1 {
        '1'
    } else if d == 2 {
        '2'
    } else if d == 3 {
        '3'
    } else if d == 4 {
        '4'
    } else if d == 5 {
        '5'
    } else if d == 6 {
        '6'
    } else if d == 7 {
        '7'
    } else if d == 8 {
        '8'
    } else if d == 9 {
        '9'
    } else if d == 10 {
        'a'
    } else if d == 11 {
        'b'
    } else if d == 12 {
        'c'
    } else if d == 13 {
        'd'
    } else if d == 14 {
        'e'
    } else {
        'f'
    }
}

/// Appends the last `n` hexadecimal digits of `x`.
fn push_hex(out: &mut Vec<char>, x: u64, n: usize)
    ensures
        final(out)@ == old(out)@ + hex_digits(x as nat, n as nat),
    decreases n,
{
    if n > 0 {
        push_hex(out, x / 16, n - 1);
        out.push(hex_char(x % 16));
        assert(old(out)@ + hex_digits(x as nat, n as nat) =~= old(out)@ + hex_digits(
            (x / 16) as nat,
            (n - 1) as nat,
        ) + seq![hex_digit((x % 16) as nat)]);
    }
}

/// The thumbnail's file name for a track path: the path's hash as sixteen
/// hex digits, then the thumbnail size, `-1024.png`.
pub open spec fn thumb_name(p: Seq<char>) -> Seq<char> {
    hex_digits(path_hash_of(p) as nat, 16) + "-1024.png"@
}

/// The thumbnail's file name for a track path (see [`thumb_name`]).
pub fn art_thumb_name(path: &str) -> (r: String)
    ensures
        r@ == thumb_name(path@),
{
    let h = path_hash(path);
    let mut v: Vec<char> = Vec::new();
    push_hex(&mut v, h, 16);
    append_chars(&mut v, &chars_of("-1024.png"));
    assert(v@ =~= hex_digits(h as nat, 16) + "-1024.png"@);
    string_of(&v)
}

/// Where a track's cover thumbnail is cached: [`thumb_name`] inside the art
/// cache directory.
pub fn art_thumb_path(path: &str) -> (r: String)
    ensures
        exists|dir: Seq<char>|
            located(dir, "art"@, "music-tui-art-cache"@) && r@ == #[trigger] joined_path(
                dir,
                thumb_name(path@),
            ),
{
    let dir = art_cache_dir();
    let r = art_thumb_path_in(dir.as_str(), path);
    assert(located(dir@, "art"@, "music-tui-art-cache"@) && r@ == joined_path(dir@, thumb_name(path@)));
    r
}

/// A track's cover thumbnail inside the cache directory `dir`: the
/// thumbnail's file name (see [`thumb_name`]) joined to `dir`.
pub fn art_thumb_path_in(dir: &str, path: &str) -> (r: String)
    ensures
        r@ == joined_path(dir@, thumb_name(path@)),
{
    let name = art_thumb_name(path);
    path_join(dir, name.as_str())
}

} // verus!
