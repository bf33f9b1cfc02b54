//! Character-level text operations with their meaning stated over `Seq<char>`.
use vstd::prelude::*;

verus! {

/// `String::push` appends one character at the end of the string.
pub assume_specification[ String::push ](s: &mut String, ch: char)
    ensures
        final(s)@ == old(s)@.push(ch),
;

/// The characters of `s`, in order.
pub fn chars_of(s: &str) -> (v: Vec<char>)
    ensures
        v@ == s@,
{
    let mut v: Vec<char> = Vec::new();
    for c in it: s.chars()
        invariant
            v@ == it.seq().take(it.index() as int),
            it.seq() == s@,
    {
        v.push(c);
    }
    v
}


/// Unicode's `White_Space` property, which `char::is_whitespace` tests.
pub open spec fn is_white_space(c: char) -> bool {
    let u = c as u32;
    ||| 0x9 <= u <= 0xd
    ||| u == 0x20
    ||| u == 0x85
    ||| u == 0xa0
    ||| u == 0x1680
    ||| 0x2000 <= u <= 0x200a
    ||| u == 0x2028
    ||| u == 0x2029
    ||| u == 0x202f
    ||| u == 0x205f
    ||| u == 0x3000
}

/// Whether `c` is white space.
pub fn is_white_space_char(c: char) -> (b: bool)
    ensures
        b == is_white_space(c),
{
    let u = c as u32;
    (0x9 <= u && u <= 0xd) || u == 0x20 || u == 0x85 || u == 0xa0 || u == 0x1680
        || (0x2000 <= u && u <= 0x200a) || u == 0x2028 || u == 0x2029 || u == 0x202f
        || u == 0x205f || u == 0x3000
}

/// `s` without its leading white space.
pub open spec fn trim_start(s: Seq<char>) -> Seq<char>
    decreases s.len(),
{
    if s.len() > 0 && is_white_space(s[0]) {
        trim_start(s.drop_first())
    } else {
        s
    }
}

/// `s` without its trailing white space.
pub open spec fn trim_end(s: Seq<char>) -> Seq<char>
    decreases s.len(),
{
    if s.len() > 0 && is_white_space(s.last()) {
        trim_end(s.drop_last())
    } else {
        s
    }
}

/// `s` without leading and trailing white space (what `str::trim` gives).
pub open spec fn trim(s: Seq<char>) -> Seq<char> {
    trim_end(trim_start(s))
}

/// The characters `v[lo..hi]` as a string.
pub fn string_from_range(v: &Vec<char>, lo: usize, hi: usize) -> (r: String)
    requires
        lo <= hi <= v@.len(),
    ensures
        r@ == v@.subrange(lo as int, hi as int),
{
    let mut r = String::new();
    let mut i = lo;
    while i < hi
        invariant
            lo <= i <= hi <= v@.len(),
            r@ == v@.subrange(lo as int, i as int),
        decreases hi - i,
    {
        r.push(v[i]);
        i = i + 1;
        assert(r@ =~= v@.subrange(lo as int, i as int));
    }
    r
}

/// The characters of `v` as a string.
pub fn string_from_chars(v: &Vec<char>) -> (r: String)
    ensures
        r@ == v@,
{
    let r = string_from_range(v, 0, v.len());
    assert(v@.subrange(0, v@.len() as int) =~= v@);
    r
}

/// `s` with leading and trailing white space removed.
pub fn trimmed(s: &str) -> (r: String)
    ensures
        r@ == trim(s@),
{
    let v = chars_of(s);
    let n = v.len();
    let mut lo: usize = 0;
    assert(v@.subrange(0, n as int) =~= v@);
    while lo < n && is_white_space_char(v[lo])
        invariant
            lo <= n == v@.len(),
            v@ == s@,
            trim_start(s@) == trim_start(v@.subrange(lo as int, n as int)),
        decreases n - lo,
    {
        assert(v@.subrange(lo as int, n as int).drop_first() =~= v@.subrange(lo + 1, n as int));
        lo = lo + 1;
    }
    assert(trim_start(s@) == v@.subrange(lo as int, n as int));
    let mut hi: usize = n;
    while hi > lo && is_white_space_char(v[hi - 1])
        invariant
            lo <= hi <= n == v@.len(),
            v@ == s@,
            trim(s@) == trim_end(v@.subrange(lo as int, hi as int)),
        decreases hi,
    {
        assert(v@.subrange(lo as int, hi as int).drop_last() =~= v@.subrange(lo as int, hi - 1));
        hi = hi - 1;
    }
    string_from_range(&v, lo, hi)
}

/// `n` occurs in `h` starting at position `i`.
pub open spec fn occurs_at(h: Seq<char>, n: Seq<char>, i: int) -> bool {
    0 <= i && i + n.len() <= h.len() && h.subrange(i, i + n.len()) == n
}

/// `n` occurs somewhere in `h` (what `str::contains` tests for a string pattern).
pub open spec fn has_substring(h: Seq<char>, n: Seq<char>) -> bool {
    exists|i: int| occurs_at(h, n, i)
}

/// `h` starts with `n`.
pub open spec fn has_prefix(h: Seq<char>, n: Seq<char>) -> bool {
    occurs_at(h, n, 0)
}

fn matches_at(h: &Vec<char>, n: &Vec<char>, i: usize) -> (b: bool)
    requires
        i + n@.len() <= h@.len(),
    ensures
        b == occurs_at(h@, n@, i as int),
{
    let hl = h.len();
    let mut j: usize = 0;
    while j < n.len()
        invariant
            j <= n@.len(),
            i + n@.len() <= h@.len() == hl,
            forall|k: int| 0 <= k < j ==> h@[i + k] == n@[k],
        decreases n@.len() - j,
    {
        if h[i + j] != n[j] {
            assert(h@.subrange(i as int, i + n@.len())[j as int] != n@[j as int]);
            return false;
        }
        j = j + 1;
    }
    assert(h@.subrange(i as int, i + n@.len()) =~= n@);
    true
}

/// Whether `needle` occurs in `hay`.
pub fn contains_text(hay: &str, needle: &str) -> (b: bool)
    ensures
        b == has_substring(hay@, needle@),
{
    let h = chars_of(hay);
    let n = chars_of(needle);
    if n.len() > h.len() {
        return false;
    }
    let last = h.len() - n.len();
    let mut i: usize = 0;
    while i <= last
        invariant
            last + n@.len() == h@.len(),
            h@ == hay@,
            n@ == needle@,
            forall|k: int| 0 <= k < i ==> !occurs_at(h@, n@, k),
        decreases last + 1 - i,
    {
        if matches_at(&h, &n, i) {
            return true;
        }
        if i == last {
            return false;
        }
        i = i + 1;
    }
    false
}

/// Whether `s` starts with `prefix`.
pub fn starts_with_text(s: &str, prefix: &str) -> (b: bool)
    ensures
        b == has_prefix(s@, prefix@),
{
    let h = chars_of(s);
    let n = chars_of(prefix);
    if n.len() > h.len() {
        false
    } else {
        matches_at(&h, &n, 0)
    }
}


/// `s` with every leading copy of `p` removed (what `str::trim_start_matches` gives for a
/// string pattern; an empty pattern removes nothing).
pub open spec fn strip_leading(s: Seq<char>, p: Seq<char>) -> Seq<char>
    decreases s.len(),
{
    if p.len() > 0 && has_prefix(s, p) {
        strip_leading(s.skip(p.len() as int), p)
    } else {
        s
    }
}

/// `s` with every leading copy of `p` removed (`s` itself where `p` is empty).
pub fn strip_leading_text(s: &str, p: &str) -> (r: String)
    ensures
        r@ == strip_leading(s@, p@),
{
    let h = chars_of(s);
    let n = chars_of(p);
    if n.len() == 0 {
        return String::from_str(s);
    }
    let hl = h.len();
    let mut lo: usize = 0;
    assert(h@.subrange(0, hl as int) =~= h@);
    loop
        invariant
            lo <= hl == h@.len(),
            h@ == s@,
            n@ == p@,
            n@.len() > 0,
            strip_leading(s@, p@) == strip_leading(h@.subrange(lo as int, hl as int), p@),
        decreases hl - lo,
    {
        if n.len() > hl - lo || !matches_at(&h, &n, lo) {
            proof {
                let rest = h@.subrange(lo as int, hl as int);
                if has_prefix(rest, p@) {
                    assert(rest.subrange(0, n@.len() as int) =~= h@.subrange(lo as int, lo + n@.len()));
                }
            }
            return string_from_range(&h, lo, hl);
        }
        proof {
            let rest = h@.subrange(lo as int, hl as int);
            assert(rest.subrange(0, n@.len() as int) =~= h@.subrange(lo as int, lo + n@.len()));
            assert(rest.skip(n@.len() as int) =~= h@.subrange(lo + n@.len(), hl as int));
        }
        lo = lo + n.len();
    }
}

/// `s` with every occurrence of `c` left out.
pub open spec fn without_char(s: Seq<char>, c: char) -> Seq<char>
    decreases s.len(),
{
    if s.len() == 0 {
        s
    } else if s.last() == c {
        without_char(s.drop_last(), c)
    } else {
        without_char(s.drop_last(), c).push(s.last())
    }
}

/// `s` with every occurrence of `c` removed (what `str::replace` with an empty replacement
/// gives for a one-character pattern).
pub fn remove_char(s: &str, c: char) -> (r: String)
    ensures
        r@ == without_char(s@, c),
{
    let v = chars_of(s);
    let mut r = String::new();
    let mut i: usize = 0;
    assert(v@.take(0) =~= Seq::<char>::empty());
    while i < v.len()
        invariant
            i <= v@.len(),
            v@ == s@,
            r@ == without_char(v@.take(i as int), c),
        decreases v@.len() - i,
    {
        assert(v@.take(i + 1).drop_last() =~= v@.take(i as int));
        if v[i] != c {
            r.push(v[i]);
        }
        i = i + 1;
    }
    assert(v@.take(v@.len() as int) =~= v@);
    r
}

/// The position of the first `c` in `s`, if there is one.
pub open spec fn first_index_of(s: Seq<char>, c: char) -> Option<int> {
    if s.contains(c) {
        Some(choose|i: int| 0 <= i < s.len() && s[i] == c && forall|j: int| 0 <= j < i ==> s[j] != c)
    } else {
        None
    }
}

/// The position of the first `c` in `v`.
pub fn find_char(v: &Vec<char>, c: char) -> (r: Option<usize>)
    ensures
        r matches Some(i) ==> i < v@.len() && v@[i as int] == c && forall|j: int| 0 <= j < i ==> v@[j] != c,
        r is None <==> !v@.contains(c),
        r matches Some(i) ==> first_index_of(v@, c) == Some(i as int),
        r is None ==> first_index_of(v@, c) is None,
{
    let mut i: usize = 0;
    while i < v.len()
        invariant
            i <= v@.len(),
            forall|j: int| 0 <= j < i ==> v@[j] != c,
        decreases v@.len() - i,
    {
        if v[i] == c {
            proof {
                assert(v@.contains(c));
                let k = choose|k: int| 0 <= k < v@.len() && v@[k] == c && forall|j: int| 0 <= j < k ==> v@[j] != c;
                assert(k == i) by {
                    if k < i { assert(v@[k] != c); }
                    if k > i { assert(v@[i as int] != c); }
                }
            }
            return Some(i);
        }
        i = i + 1;
    }
    None
}

/// The digit character for `d` (below ten).
pub open spec fn digit_char(d: nat) -> char {
    if d == 0 { '0' }
    else if d == 1 { '1' }
    else if d == 2 { '2' }
    else if d == 3 { '3' }
    else if d == 4 { '4' }
    else if d == 5 { '5' }
    else if d == 6 { '6' }
    else if d == 7 { '7' }
    else if d == 8 { '8' }
    else { '9' }
}

/// The decimal notation of `n`, as `{}` formats an unsigned integer.
pub open spec fn decimal(n: nat) -> Seq<char>
    decreases n,
{
    if n < 10 {
        seq![digit_char(n)]
    } else {
        decimal(n / 10).push(digit_char(n % 10))
    }
}

fn digit(d: u64) -> (c: char)
    requires
        d < 10,
    ensures
        c == digit_char(d as nat),
{
    if d == 0 { '0' }
    else if d == 1 { '1' }
    else if d == 2 { '2' }
    else if d == 3 { '3' }
    else if d == 4 { '4' }
    else if d == 5 { '5' }
    else if d == 6 { '6' }
    else if d == 7 { '7' }
    else if d == 8 { '8' }
    else { '9' }
}

/// Appends the decimal notation of `n` to `s`.
pub fn push_decimal(s: &mut String, n: u64)
    ensures
        final(s)@ == old(s)@ + decimal(n as nat),
    decreases n,
{
    if n >= 10 {
        push_decimal(s, n / 10);
    }
    s.push(digit(n % 10));
    assert(s@ =~= old(s)@ + decimal(n as nat)) by {
        if n >= 10 {
            assert(decimal(n as nat) == decimal((n / 10) as nat).push(digit_char((n % 10) as nat)));
        } else {
            assert(decimal(n as nat) == seq![digit_char(n as nat)]);
        }
    }
}


/// The pieces of `s` between the occurrences of `sep`, in order (what `str::split` gives for a
/// one-character pattern); there is always at least one piece.
pub open spec fn split_on(s: Seq<char>, sep: char) -> Seq<Seq<char>>
    decreases s.len(),
{
    if s.len() == 0 {
        seq![Seq::empty()]
    } else {
        let prev = split_on(s.drop_last(), sep);
        if s.last() == sep {
            prev.push(Seq::empty())
        } else {
            prev.update(prev.len() - 1, prev.last().push(s.last()))
        }
    }
}

/// There is always at least one piece.
pub proof fn lemma_split_on_nonempty(s: Seq<char>, sep: char)
    ensures
        split_on(s, sep).len() >= 1,
    decreases s.len(),
{
    if s.len() > 0 {
        lemma_split_on_nonempty(s.drop_last(), sep);
    }
}

/// The pieces of `v` between the occurrences of `sep`.
pub fn split_chars(v: &Vec<char>, sep: char) -> (pieces: Vec<Vec<char>>)
    ensures
        pieces.deep_view() == split_on(v@, sep),
{
    let mut done: Vec<Vec<char>> = Vec::new();
    let mut cur: Vec<char> = Vec::new();
    let mut i: usize = 0;
    assert(v@.take(0) =~= Seq::<char>::empty());
    while i < v.len()
        invariant
            i <= v@.len(),
            done.deep_view().push(cur@) =~= split_on(v@.take(i as int), sep),
        decreases v@.len() - i,
    {
        let ghost before = v@.take(i as int);
        proof {
            lemma_split_on_nonempty(before, sep);
            assert(v@.take(i + 1).drop_last() =~= before);
        }
        let ghost done_before = done.deep_view();
        if v[i] == sep {
            let finished = cur;
            assert(finished.deep_view() =~= finished@);
            done.push(finished);
            assert(done.deep_view() =~= done_before.push(finished@));
            cur = Vec::new();
            assert(done.deep_view() =~= split_on(before, sep));
        } else {
            cur.push(v[i]);
            assert(done.deep_view() =~= split_on(before, sep).drop_last());
        }
        i = i + 1;
    }
    let last = cur;
    let ghost done_before = done.deep_view();
    assert(last.deep_view() =~= last@);
    done.push(last);
    assert(done.deep_view() =~= done_before.push(last@));
    assert(v@.take(v@.len() as int) =~= v@);
    assert(done.deep_view() =~= split_on(v@, sep));
    done
}


/// `trim_start` leaves no leading white space and only drops a prefix.
pub proof fn lemma_trim_start_shape(s: Seq<char>)
    ensures
        trim_start(s).len() > 0 ==> !is_white_space(trim_start(s)[0]),
        trim_start(s).len() <= s.len(),
        trim_start(s) == s.skip(s.len() - trim_start(s).len()),
    decreases s.len(),
{
    if s.len() > 0 && is_white_space(s[0]) {
        lemma_trim_start_shape(s.drop_first());
        assert(s.drop_first().skip(s.drop_first().len() - trim_start(s).len()) =~= s.skip(
            s.len() - trim_start(s).len(),
        ));
    } else {
        assert(s.skip(0) =~= s);
    }
}

/// `trim_end` leaves no trailing white space and only drops a suffix.
pub proof fn lemma_trim_end_shape(s: Seq<char>)
    ensures
        trim_end(s).len() > 0 ==> !is_white_space(trim_end(s).last()),
        trim_end(s).len() <= s.len(),
        trim_end(s) == s.take(trim_end(s).len() as int),
    decreases s.len(),
{
    if s.len() > 0 && is_white_space(s.last()) {
        lemma_trim_end_shape(s.drop_last());
        assert(s.drop_last().take(trim_end(s).len() as int) =~= s.take(trim_end(s).len() as int));
    } else {
        assert(s.take(s.len() as int) =~= s);
    }
}

/// Trimming leaves neither leading nor trailing white space, so trimming again changes nothing.
pub proof fn law_trim_is_clean(s: Seq<char>)
    ensures
        trim(s).len() > 0 ==> !is_white_space(trim(s)[0]) && !is_white_space(trim(s).last()),
        trim(trim(s)) == trim(s),
{
    let a = trim_start(s);
    lemma_trim_start_shape(s);
    lemma_trim_end_shape(a);
    let t = trim_end(a);
    if t.len() > 0 {
        assert(t[0] == a[0]);
    }
    assert(trim_start(t) == t) by {
        if t.len() > 0 {
            assert(!is_white_space(t[0]));
        }
    }
    assert(trim_end(t) == t) by {
        if t.len() > 0 {
            assert(!is_white_space(t.last()));
        }
    }
}

/// An occurrence of a string is an occurrence of each of its parts.
pub proof fn lemma_substring_of_substring(h: Seq<char>, n: Seq<char>, m: Seq<char>, k: int)
    requires
        has_substring(h, n),
        occurs_at(n, m, k),
    ensures
        has_substring(h, m),
{
    let i = choose|i: int| occurs_at(h, n, i);
    assert(h.subrange(i + k, i + k + m.len()) =~= n.subrange(k, k + m.len()));
    assert(occurs_at(h, m, i + k));
}

} // verus!
