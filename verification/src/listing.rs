//! Listings: the files of a local folder offered for sending, with their sizes, and the file
//! names that the phone reports.
use vstd::prelude::*;

use crate::text::{
    chars_of, decimal, has_prefix, push_decimal, split_chars, split_on, string_from_chars, trim,
    trimmed,
};

verus! {

/// How many files a folder menu lists at most.
pub open spec fn folder_menu_limit() -> nat {
    9
}

/// The spacing of the `f64` values near `n`: 1 below 2^53, doubling with each further bit.
pub open spec fn f64_grain(n: nat) -> nat
    decreases n,
{
    if n < 0x20_0000_0000_0000 {
        1
    } else {
        2 * f64_grain(n / 2)
    }
}

/// The `f64` value nearest to `n` (ties to the even neighbour), which is what `n as f64` gives.
pub open spec fn nearest_f64(n: nat) -> nat {
    let g = f64_grain(n);
    let q = n / g;
    let r = n % g;
    if 2 * r > g || (2 * r == g && q % 2 == 1) {
        (q + 1) * g
    } else {
        q * g
    }
}

/// `v` bytes in tenths of a mebibyte, rounded to the nearest tenth (ties to even), as `{:.1}`
/// rounds `v / 1048576.0`.
pub open spec fn mib_tenths(v: nat) -> nat {
    let q = (v * 10) / 1048576;
    let r = (v * 10) % 1048576;
    if r > 524288 || (r == 524288 && q % 2 == 1) {
        q + 1
    } else {
        q
    }
}

/// How a file size of `len` bytes is shown: above one mebibyte in mebibytes with one decimal,
/// otherwise in whole kibibytes.
pub open spec fn size_text(len: nat) -> Seq<char> {
    if len > 1048576 {
        let t = mib_tenths(nearest_f64(len));
        decimal(t / 10) + "."@ + decimal(t % 10) + " MB"@
    } else {
        decimal(len / 1024) + " KB"@
    }
}

fn f64_grain_of(n: u64) -> (g: u64)
    ensures
        g == f64_grain(n as nat),
        g >= 1,
        g == 1 || g * 0x20_0000_0000_0000 <= 2 * n,
    decreases n,
{
    if n < 0x20_0000_0000_0000 {
        1
    } else {
        let h = f64_grain_of(n / 2);
        2 * h
    }
}

/// The text for a file size of `len` bytes.
pub fn size_description(len: u64) -> (s: String)
    ensures
        s@ == size_text(len as nat),
{
    let mut s = String::new();
    if len > 1048576 {
        let g = f64_grain_of(len);
        let q = len / g;
        let r = len % g;
        proof {
            vstd::arithmetic::div_mod::lemma_fundamental_div_mod(len as int, g as int);
            assert(g <= 8192);
            assert(q * g <= len) by (nonlinear_arith)
                requires
                    len == g * q + r,
                    r >= 0,
            ;
            assert((q + 1) * g <= 0x1_0000_0000_0000_0000 + 8192) by (nonlinear_arith)
                requires
                    q * g <= len,
                    g <= 8192,
                    len < 0x1_0000_0000_0000_0000,
            ;
        }
        let v: u128 = if 2 * (r as u128) > g as u128 || (2 * (r as u128) == g as u128 && q % 2 == 1) {
            (q as u128 + 1) * g as u128
        } else {
            q as u128 * g as u128
        };
        assert(v == nearest_f64(len as nat));
        let w = v * 10;
        let q2 = w / 1048576;
        let r2 = w % 1048576;
        let t: u128 = if r2 > 524288 || (r2 == 524288 && q2 % 2 == 1) {
            q2 + 1
        } else {
            q2
        };
        assert(t == mib_tenths(v as nat));
        let whole: u64 = (t / 10) as u64;
        let tenth: u64 = (t % 10) as u64;
        push_decimal(&mut s, whole);
        s.append(".");
        push_decimal(&mut s, tenth);
        s.append(" MB");
    } else {
        push_decimal(&mut s, len / 1024);
        s.append(" KB");
    }
    s
}

/// A directory entry as the folder listing sees it: its name, whether it is a regular file,
/// its size where known, and its full path.
pub struct FolderEntry {
    pub name: String,
    pub is_file: bool,
    pub size: Option<u64>,
    pub path: String,
}

/// The menu row for a directory entry: regular files whose names do not start with a dot
/// are listed as (label, full path), the label adding the size where it is known.
pub open spec fn entry_row(name: Seq<char>, is_file: bool, size: Option<u64>, path: Seq<char>) -> Option<
    (Seq<char>, Seq<char>),
> {
    if !is_file || (name.len() > 0 && name[0] == '.') {
        None
    } else {
        let label = match size {
            Some(len) => name + " ("@ + size_text(len as nat) + ")"@,
            None => name,
        };
        Some((label, path))
    }
}

/// The menu row for `e`, if it is listed.
pub fn folder_entry_row(e: &FolderEntry) -> (r: Option<(String, String)>)
    ensures
        r matches Some(row) ==> entry_row(e.name@, e.is_file, e.size, e.path@) == Some(
            (row.0@, row.1@),
        ),
        r is None ==> entry_row(e.name@, e.is_file, e.size, e.path@) is None,
{
    if !e.is_file {
        return None;
    }
    let v = chars_of(e.name.as_str());
    if v.len() > 0 && v[0] == '.' {
        return None;
    }
    let label = match e.size {
        Some(len) => {
            let mut label = e.name.clone();
            label.append(" (");
            let d = size_description(len);
            label.append(d.as_str());
            label.append(")");
            label
        },
        None => e.name.clone(),
    };
    Some((label, e.path.clone()))
}

/// The listing of a folder as it is read, entry by entry, until the menu is full.
pub struct FolderScan {
    rows: Vec<(String, String)>,
}

impl FolderScan {
    /// The rows listed so far, as plain values.
    pub closed spec fn spec_rows(&self) -> Seq<(Seq<char>, Seq<char>)> {
        self.rows.deep_view()
    }

    /// A scan that has listed nothing yet.
    pub fn new() -> (s: FolderScan)
        ensures
            s.spec_rows() == Seq::<(Seq<char>, Seq<char>)>::empty(),
    {
        let s = FolderScan { rows: Vec::new() };
        assert(s.spec_rows() =~= Seq::<(Seq<char>, Seq<char>)>::empty());
        s
    }

    /// Takes the next directory entry; says whether the menu still has room for more.
    pub fn offer(&mut self, e: &FolderEntry) -> (more: bool)
        ensures
            final(self).spec_rows() == match entry_row(e.name@, e.is_file, e.size, e.path@) {
                Some(row) => old(self).spec_rows().push(row),
                None => old(self).spec_rows(),
            },
            more == (final(self).spec_rows().len() < folder_menu_limit()),
    {
        match folder_entry_row(e) {
            Some(row) => {
                let ghost before = self.rows.deep_view();
                let ghost row_model = (row.0@, row.1@);
                self.rows.push(row);
                assert(self.rows.deep_view() =~= before.push(row_model));
            },
            None => {},
        }
        self.rows.len() < 9
    }

    /// The listed rows: (label, full path).
    pub fn rows(self) -> (r: Vec<(String, String)>)
        ensures
            r.deep_view() == self.spec_rows(),
    {
        self.rows
    }
}

/// Of the lines `lines`, the trimmed ones that are not empty, in order.
pub open spec fn kept_lines(lines: Seq<Seq<char>>) -> Seq<Seq<char>>
    decreases lines.len(),
{
    if lines.len() == 0 {
        Seq::empty()
    } else {
        let rest = kept_lines(lines.drop_last());
        let t = trim(lines.last());
        if t.len() > 0 {
            rest.push(t)
        } else {
            rest
        }
    }
}

/// The file names in the phone's listing output: its lines, trimmed, without the empty ones.
pub open spec fn phone_listing(text: Seq<char>) -> Seq<Seq<char>> {
    kept_lines(split_on(text, '\n'))
}

/// The file names in the phone's listing output `text`.
pub fn phone_files(text: &str) -> (files: Vec<String>)
    ensures
        files.deep_view() == phone_listing(text@),
{
    let v = chars_of(text);
    let pieces = split_chars(&v, '\n');
    let ghost lines = pieces.deep_view();
    let mut files: Vec<String> = Vec::new();
    let mut i: usize = 0;
    assert(lines.take(0) =~= Seq::<Seq<char>>::empty());
    while i < pieces.len()
        invariant
            i <= pieces@.len(),
            lines == pieces.deep_view(),
            lines == split_on(text@, '\n'),
            files.deep_view() =~= kept_lines(lines.take(i as int)),
        decreases pieces@.len() - i,
    {
        let line = string_from_chars(&pieces[i]);
        assert(line@ =~= lines[i as int]);
        let t = trimmed(line.as_str());
        let tv = chars_of(t.as_str());
        assert(lines.take(i + 1).drop_last() =~= lines.take(i as int));
        if tv.len() > 0 {
            let ghost before = files.deep_view();
            files.push(t);
            assert(files.deep_view() =~= before.push(trim(lines[i as int])));
        }
        i = i + 1;
    }
    assert(lines.take(pieces@.len() as int) =~= lines);
    files
}


/// Every file name taken from the phone's listing is non-empty and has no white space at
/// either end.
pub proof fn law_listing_names_are_clean(lines: Seq<Seq<char>>)
    ensures
        forall|i: int|
            0 <= i < kept_lines(lines).len() ==> #[trigger] kept_lines(lines)[i].len() > 0
                && trim(kept_lines(lines)[i]) == kept_lines(lines)[i],
    decreases lines.len(),
{
    if lines.len() > 0 {
        let rest = kept_lines(lines.drop_last());
        let k = kept_lines(lines);
        law_listing_names_are_clean(lines.drop_last());
        crate::text::law_trim_is_clean(lines.last());
        assert forall|i: int| 0 <= i < k.len() implies #[trigger] k[i].len() > 0 && trim(k[i]) == k[i] by {
            if i < rest.len() {
                assert(k[i] == rest[i]);
            }
        }
    }
}

/// A folder scan that is offered entries only while it has room lists at most nine files.
pub proof fn law_folder_menu_is_bounded(
    rows: Seq<(Seq<char>, Seq<char>)>,
    name: Seq<char>,
    is_file: bool,
    size: Option<u64>,
    path: Seq<char>,
)
    requires
        rows.len() < folder_menu_limit(),
    ensures
        (match entry_row(name, is_file, size, path) {
            Some(row) => rows.push(row),
            None => rows,
        }).len() <= folder_menu_limit(),
{
}

/// Hidden files and anything that is not a regular file are never listed.
pub proof fn law_hidden_files_are_skipped(name: Seq<char>, is_file: bool, size: Option<u64>, path: Seq<char>)
    ensures
        (!is_file || (name.len() > 0 && name[0] == '.')) ==> entry_row(name, is_file, size, path)
            is None,
        entry_row(name, is_file, size, path) matches Some(row) ==> row.1 == path && has_prefix(
            row.0,
            name,
        ),
{
    if let Some(row) = entry_row(name, is_file, size, path) {
        match size {
            Some(len) => {
                assert(row.0.subrange(0, name.len() as int) =~= name);
            },
            None => {
                assert(row.0.subrange(0, name.len() as int) =~= name);
            },
        }
    }
}

} // verus!
