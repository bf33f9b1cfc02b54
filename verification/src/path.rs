//! The last component of a path and its extension, as `std::path::Path` reads them on Unix.
use vstd::prelude::*;

use crate::text::{chars_of, split_chars, split_on, string_from_chars};

verus! {

/// Of the pieces of a path between slashes, the last one that is neither empty nor `.`.
pub open spec fn last_named_piece(pieces: Seq<Seq<char>>) -> Option<Seq<char>>
    decreases pieces.len(),
{
    if pieces.len() == 0 {
        None
    } else if pieces.last().len() == 0 || pieces.last() == "."@ {
        last_named_piece(pieces.drop_last())
    } else {
        Some(pieces.last())
    }
}

/// The final component of path `p`, unless that is `..` or there is none (what
/// `Path::file_name` gives).
pub open spec fn file_name_of(p: Seq<char>) -> Option<Seq<char>> {
    match last_named_piece(split_on(p, '/')) {
        Some(name) => if name == ".."@ {
            None
        } else {
            Some(name)
        },
        None => None,
    }
}

/// The extension of a file name: what follows its last dot, unless there is no dot or the
/// only dot starts the name (what `Path::extension` takes from the file name).
pub open spec fn extension_of_name(name: Seq<char>) -> Option<Seq<char>> {
    if exists|i: int| 0 < i < name.len() && name[i] == '.' {
        let i = choose|i: int|
            0 < i < name.len() && name[i] == '.' && forall|j: int| i < j < name.len() ==> name[j] != '.';
        Some(name.skip(i + 1))
    } else {
        None
    }
}

/// The extension of path `p`.
pub open spec fn extension_of(p: Seq<char>) -> Option<Seq<char>> {
    match file_name_of(p) {
        Some(name) => extension_of_name(name),
        None => None,
    }
}

fn is_dot(v: &Vec<char>) -> (b: bool)
    ensures
        b == (v@ == "."@),
{
    proof {
        reveal_strlit(".");
    }
    if v.len() == 1 && v[0] == '.' {
        assert(v@ =~= "."@);
        true
    } else {
        false
    }
}

fn is_dot_dot(v: &Vec<char>) -> (b: bool)
    ensures
        b == (v@ == ".."@),
{
    proof {
        reveal_strlit("..");
    }
    if v.len() == 2 && v[0] == '.' && v[1] == '.' {
        assert(v@ =~= ".."@);
        true
    } else {
        false
    }
}

/// The final component of `path`.
pub fn file_name(path: &str) -> (r: Option<String>)
    ensures
        r matches Some(n) ==> file_name_of(path@) == Some(n@),
        r is None ==> file_name_of(path@) is None,
{
    let v = chars_of(path);
    let pieces = split_chars(&v, '/');
    let ghost all = pieces.deep_view();
    let mut k: usize = pieces.len();
    assert(all.take(k as int) =~= all);
    while k > 0
        invariant
            k <= pieces@.len(),
            all == pieces.deep_view(),
            all == split_on(path@, '/'),
            last_named_piece(all) == last_named_piece(all.take(k as int)),
        decreases k,
    {
        let piece = &pieces[k - 1];
        assert(piece@ =~= all[k - 1]);
        assert(all.take(k as int).last() == all[k - 1]);
        if piece.len() > 0 && !is_dot(piece) {
            if is_dot_dot(piece) {
                return None;
            }
            return Some(string_from_chars(piece));
        }
        assert(all.take(k as int).drop_last() =~= all.take(k - 1));
        k = k - 1;
    }
    None
}

/// The extension of the file name `name`.
pub fn name_extension(name: &str) -> (r: Option<String>)
    ensures
        r matches Some(e) ==> extension_of_name(name@) == Some(e@),
        r is None ==> extension_of_name(name@) is None,
{
    let v = chars_of(name);
    let mut k: usize = v.len();
    while k > 1
        invariant
            k <= v@.len(),
            v@ == name@,
            forall|j: int| k <= j < v@.len() ==> v@[j] != '.',
        decreases k,
    {
        if v[k - 1] == '.' {
            let ghost i = k - 1;
            proof {
                let c = choose|c: int|
                    0 < c < v@.len() && v@[c] == '.' && forall|j: int| c < j < v@.len() ==> v@[j] != '.';
                assert(c == i) by {
                    if c < i { assert(v@[i] != '.'); }
                    if c > i { assert(v@[c] != '.'); }
                }
            }
            let mut ext = String::new();
            let mut j = k;
            while j < v.len()
                invariant
                    k <= j <= v@.len(),
                    ext@ == v@.subrange(k as int, j as int),
                decreases v@.len() - j,
            {
                ext.push(v[j]);
                j = j + 1;
                assert(ext@ =~= v@.subrange(k as int, j as int));
            }
            assert(v@.skip(k as int) =~= v@.subrange(k as int, v@.len() as int));
            return Some(ext);
        }
        k = k - 1;
    }
    None
}

/// The extension of `path`.
pub fn extension(path: &str) -> (r: Option<String>)
    ensures
        r matches Some(e) ==> extension_of(path@) == Some(e@),
        r is None ==> extension_of(path@) is None,
{
    match file_name(path) {
        Some(n) => name_extension(n.as_str()),
        None => None,
    }
}

} // verus!
