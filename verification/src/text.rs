//! Character-level string helpers: substring search, prefix tests,
//! trimming and decimal rendering, each against a specification over
//! `Seq<char>`.
use vstd::prelude::*;
use vstd::string::StrSliceExecFns;

verus! {

/// `String::push` appends one character at the end of the string.
pub assume_specification[ String::push ](s: &mut String, ch: char)
    ensures
        final(s)@ == old(s)@.push(ch),
;

/// `pat` occurs in `hay` starting at index `i`.
pub open spec fn occurs_at(hay: Seq<char>, pat: Seq<char>, i: int) -> bool {
    0 <= i && i + pat.len() <= hay.len() && hay.subrange(i, i + pat.len()) == pat
}

/// `pat` occurs somewhere in `hay` (what `str::contains` decides).
pub open spec fn contains_seq(hay: Seq<char>, pat: Seq<char>) -> bool {
    exists|i: int| #[trigger] occurs_at(hay, pat, i)
}

/// `s` begins with `prefix`.
pub open spec fn starts_with_seq(s: Seq<char>, prefix: Seq<char>) -> bool {
    prefix.len() <= s.len() && s.subrange(0, prefix.len() as int) == prefix
}

/// `s` with every trailing `c` removed.
pub open spec fn trim_end_char(s: Seq<char>, c: char) -> Seq<char>
    decreases s.len(),
{
    if s.len() > 0 && s.last() == c {
        trim_end_char(s.drop_last(), c)
    } else {
        s
    }
}

/// The ASCII digit for `d`.
pub open spec fn digit_char(d: nat) -> char {
    if d == 0 {
        '0'
    } else if d == 1 {
        '1'
    } else if d == 2 {
        '2'
    } else if d == 3 {
        '3'
    } else if d == 4 {
        '4'
    } else if d == 5 {
        '5'
    } else if d == 6 {
        '6'
    } else if d == 7 {
        '7'
    } else if d == 8 {
        '8'
    } else {
        '9'
    }
}

/// The decimal rendering of `n`, without sign or leading zeros.
pub open spec fn decimal(n: nat) -> Seq<char>
    decreases n,
{
    if n < 10 {
        seq![digit_char(n)]
    } else {
        decimal(n / 10).push(digit_char(n % 10))
    }
}

/// The characters of `s`, in order.
pub fn chars_of(s: &str) -> (v: Vec<char>)
    ensures
        v@ == s@,
{
    let n: usize = s.unicode_len();
    let mut v: Vec<char> = Vec::new();
    let mut i: usize = 0;
    while i < n
        invariant
            n == s@.len(),
            i <= n,
            v@ == s@.take(i as int),
        decreases n - i,
    {
        assert(s@.take(i as int + 1) == s@.take(i as int).push(s@[i as int]));
        v.push(s.get_char(i));
        i = i + 1;
    }
    assert(s@.take(n as int) == s@);
    v
}

/// A string holding exactly the characters of `cs`.
pub fn string_from_chars(cs: &[char]) -> (s: String)
    ensures
        s@ == cs@,
{
    let mut s = String::new();
    let mut i: usize = 0;
    while i < cs.len()
        invariant
            i <= cs@.len(),
            s@ == cs@.take(i as int),
        decreases cs@.len() - i,
    {
        assert(cs@.take(i as int + 1) == cs@.take(i as int).push(cs@[i as int]));
        s.push(cs[i]);
        i = i + 1;
    }
    assert(cs@.take(cs@.len() as int) == cs@);
    s
}

/// Appends `t` to `s`.
pub fn append_str(s: &mut String, t: &str)
    ensures
        final(s)@ == old(s)@ + t@,
{
    let cs = chars_of(t);
    let mut i: usize = 0;
    while i < cs.len()
        invariant
            i <= cs@.len(),
            cs@ == t@,
            s@ == old(s)@ + cs@.take(i as int),
        decreases cs@.len() - i,
    {
        assert(cs@.take(i as int + 1) == cs@.take(i as int).push(cs@[i as int]));
        assert(old(s)@ + cs@.take(i as int + 1) == (old(s)@ + cs@.take(i as int)).push(cs@[i as int]));
        s.push(cs[i]);
        i = i + 1;
    }
    assert(cs@.take(cs@.len() as int) == cs@);
}

/// The concatenation of `a` and `b` as a new string.
pub fn concat2(a: &str, b: &str) -> (s: String)
    ensures
        s@ == a@ + b@,
{
    let mut s = String::new();
    append_str(&mut s, a);
    append_str(&mut s, b);
    assert(Seq::<char>::empty() + a@ == a@);
    s
}

/// Does `pat` occur in `hay` at index `i`?
fn occurs_at_exec(hay: &Vec<char>, pat: &Vec<char>, i: usize) -> (r: bool)
    requires
        i + pat@.len() <= hay@.len(),
    ensures
        r == occurs_at(hay@, pat@, i as int),
{
    let hl: usize = hay.len();
    let mut j: usize = 0;
    while j < pat.len()
        invariant
            hl == hay@.len(),
            j <= pat@.len(),
            i + pat@.len() <= hay@.len(),
            forall|k: int| 0 <= k < j ==> hay@[i + k] == pat@[k],
        decreases pat@.len() - j,
    {
        if hay[i + j] != pat[j] {
            assert(hay@.subrange(i as int, i + pat@.len())[j as int] != pat@[j as int]);
            return false;
        }
        j = j + 1;
    }
    assert(hay@.subrange(i as int, i + pat@.len()) =~= pat@);
    true
}

/// Does `pat` occur in `hay`? (`str::contains` with a string pattern.)
pub fn str_contains(hay: &str, pat: &str) -> (r: bool)
    ensures
        r == contains_seq(hay@, pat@),
{
    let h = chars_of(hay);
    let p = chars_of(pat);
    if p.len() > h.len() {
        assert forall|i: int| !#[trigger] occurs_at(hay@, pat@, i) by {}
        return false;
    }
    let last: usize = h.len() - p.len();
    let mut i: usize = 0;
    while i <= last
        invariant
            h@ == hay@,
            p@ == pat@,
            last == h@.len() - p@.len(),
            i <= last + 1,
            forall|k: int| 0 <= k < i ==> !#[trigger] occurs_at(hay@, pat@, k),
        decreases last + 1 - i,
    {
        if occurs_at_exec(&h, &p, i) {
            assert(occurs_at(hay@, pat@, i as int));
            return true;
        }
        if i == last {
            assert forall|k: int| !#[trigger] occurs_at(hay@, pat@, k) by {
                if 0 <= k <= i {
                }
            }
            return false;
        }
        i = i + 1;
    }
    assert forall|k: int| !#[trigger] occurs_at(hay@, pat@, k) by {
        if 0 <= k < i {
        }
    }
    false
}

/// A string holding the characters of `cs` from `lo` up to `hi`.
fn string_from_range(cs: &Vec<char>, lo: usize, hi: usize) -> (s: String)
    requires
        lo <= hi <= cs@.len(),
    ensures
        s@ == cs@.subrange(lo as int, hi as int),
{
    let mut s = String::new();
    let mut i: usize = lo;
    while i < hi
        invariant
            lo <= i <= hi <= cs@.len(),
            s@ == cs@.subrange(lo as int, i as int),
        decreases hi - i,
    {
        assert(cs@.subrange(lo as int, i + 1) == cs@.subrange(lo as int, i as int).push(cs@[i as int]));
        s.push(cs[i]);
        i = i + 1;
    }
    s
}

/// Splits `hay` around the first occurrence of `pat` (what
/// `str::split_once` does with a string pattern): `None` when `pat` does
/// not occur, else the text before and after that occurrence.
pub fn split_once_str(hay: &str, pat: &str) -> (r: Option<(String, String)>)
    ensures
        r is None <==> !contains_seq(hay@, pat@),
        r matches Some((a, b)) ==> {
            &&& hay@ == a@ + pat@ + b@
            &&& occurs_at(hay@, pat@, a@.len() as int)
            &&& forall|k: int| 0 <= k < a@.len() ==> !#[trigger] occurs_at(hay@, pat@, k)
        },
{
    let h = chars_of(hay);
    let p = chars_of(pat);
    if p.len() > h.len() {
        assert forall|i: int| !#[trigger] occurs_at(hay@, pat@, i) by {}
        return None;
    }
    let last: usize = h.len() - p.len();
    let mut i: usize = 0;
    while i <= last
        invariant
            h@ == hay@,
            p@ == pat@,
            last == h@.len() - p@.len(),
            i <= last + 1,
            forall|k: int| 0 <= k < i ==> !#[trigger] occurs_at(hay@, pat@, k),
        decreases last + 1 - i,
    {
        if occurs_at_exec(&h, &p, i) {
            let a = string_from_range(&h, 0, i);
            let end: usize = i + (h.len() - last);
            let b = string_from_range(&h, end, h.len());
            assert(hay@ =~= a@ + pat@ + b@);
            return Some((a, b));
        }
        if i == last {
            assert forall|k: int| !#[trigger] occurs_at(hay@, pat@, k) by {
                if 0 <= k <= i {
                }
            }
            return None;
        }
        i = i + 1;
    }
    assert forall|k: int| !#[trigger] occurs_at(hay@, pat@, k) by {
        if 0 <= k < i {
        }
    }
    None
}

/// Does `s` begin with `prefix`? (`str::starts_with` with a string pattern.)
pub fn str_starts_with(s: &str, prefix: &str) -> (r: bool)
    ensures
        r == starts_with_seq(s@, prefix@),
{
    let h = chars_of(s);
    let p = chars_of(prefix);
    if p.len() > h.len() {
        return false;
    }
    occurs_at_exec(&h, &p, 0)
}

/// Compares a string with a string slice.
pub fn string_eq_str(a: &String, b: &str) -> (r: bool)
    ensures
        r == (a@ == b@),
{
    let owned = b.to_owned();
    *a == owned
}

/// `s` with every trailing `c` removed (`str::trim_end_matches` with a
/// character pattern).
pub fn trim_end_matches_char(s: &str, c: char) -> (r: String)
    ensures
        r@ == trim_end_char(s@, c),
{
    let cs = chars_of(s);
    let mut n: usize = cs.len();
    assert(cs@.take(n as int) == cs@);
    while n > 0 && cs[n - 1] == c
        invariant
            n <= cs@.len(),
            cs@ == s@,
            trim_end_char(cs@.take(n as int), c) == trim_end_char(s@, c),
        decreases n,
    {
        assert(cs@.take(n as int).drop_last() == cs@.take(n - 1));
        n = n - 1;
    }
    assert(trim_end_char(cs@.take(n as int), c) == cs@.take(n as int));
    string_from_chars(cs.as_slice().split_at(n).0)
}

/// The decimal digit character of `d`.
fn digit(d: u64) -> (c: char)
    requires
        d < 10,
    ensures
        c == digit_char(d as nat),
{
    if d == 0 {
        '0'
    } else if d == 1 {
        '1'
    } else if d == 2 {
        '2'
    } else if d == 3 {
        '3'
    } else if d == 4 {
        '4'
    } else if d == 5 {
        '5'
    } else if d == 6 {
        '6'
    } else if d == 7 {
        '7'
    } else if d == 8 {
        '8'
    } else {
        '9'
    }
}

/// The decimal rendering of `n` (what `format!("{n}")` prints).
pub fn decimal_string(n: u64) -> (s: String)
    ensures
        s@ == decimal(n as nat),
    decreases n,
{
    if n < 10 {
        let mut s = String::new();
        s.push(digit(n));
        s
    } else {
        let mut s = decimal_string(n / 10);
        s.push(digit(n % 10));
        s
    }
}

} // verus!
