use vstd::prelude::*;

use crate::klass_repo::SharedKlassRepo;
use crate::strings::chars_of;

verus! {

/// A character that may begin a Java identifier in a class or member name:
/// an ASCII letter, `_` or `$`.
pub open spec fn is_ident_start(c: char) -> bool {
    ('a' <= c && c <= 'z') || ('A' <= c && c <= 'Z') || c == '_' || c == '$'
}

/// A decimal digit: a character of Unicode's general category `Nd`
/// (Unicode 16.0).
pub open spec fn is_decimal_digit(c: char) -> bool {
    ('0' <= c && c <= '9')
        || ('\u{660}' <= c && c <= '\u{669}')
        || ('\u{6f0}' <= c && c <= '\u{6f9}')
        || ('\u{7c0}' <= c && c <= '\u{7c9}')
        || ('\u{966}' <= c && c <= '\u{96f}')
        || ('\u{9e6}' <= c && c <= '\u{9ef}')
        || ('\u{a66}' <= c && c <= '\u{a6f}')
        || ('\u{ae6}' <= c && c <= '\u{aef}')
        || ('\u{b66}' <= c && c <= '\u{b6f}')
        || ('\u{be6}' <= c && c <= '\u{bef}')
        || ('\u{c66}' <= c && c <= '\u{c6f}')
        || ('\u{ce6}' <= c && c <= '\u{cef}')
        || ('\u{d66}' <= c && c <= '\u{d6f}')
        || ('\u{de6}' <= c && c <= '\u{def}')
        || ('\u{e50}' <= c && c <= '\u{e59}')
        || ('\u{ed0}' <= c && c <= '\u{ed9}')
        || ('\u{f20}' <= c && c <= '\u{f29}')
        || ('\u{1040}' <= c && c <= '\u{1049}')
        || ('\u{1090}' <= c && c <= '\u{1099}')
        || ('\u{17e0}' <= c && c <= '\u{17e9}')
        || ('\u{1810}' <= c && c <= '\u{1819}')
        || ('\u{1946}' <= c && c <= '\u{194f}')
        || ('\u{19d0}' <= c && c <= '\u{19d9}')
        || ('\u{1a80}' <= c && c <= '\u{1a89}')
        || ('\u{1a90}' <= c && c <= '\u{1a99}')
        || ('\u{1b50}' <= c && c <= '\u{1b59}')
        || ('\u{1bb0}' <= c && c <= '\u{1bb9}')
        || ('\u{1c40}' <= c && c <= '\u{1c49}')
        || ('\u{1c50}' <= c && c <= '\u{1c59}')
        || ('\u{a620}' <= c && c <= '\u{a629}')
        || ('\u{a8d0}' <= c && c <= '\u{a8d9}')
        || ('\u{a900}' <= c && c <= '\u{a909}')
        || ('\u{a9d0}' <= c && c <= '\u{a9d9}')
        || ('\u{a9f0}' <= c && c <= '\u{a9f9}')
        || ('\u{aa50}' <= c && c <= '\u{aa59}')
        || ('\u{abf0}' <= c && c <= '\u{abf9}')
        || ('\u{ff10}' <= c && c <= '\u{ff19}')
        || ('\u{104a0}' <= c && c <= '\u{104a9}')
        || ('\u{10d30}' <= c && c <= '\u{10d39}')
        || ('\u{10d40}' <= c && c <= '\u{10d49}')
        || ('\u{11066}' <= c && c <= '\u{1106f}')
        || ('\u{110f0}' <= c && c <= '\u{110f9}')
        || ('\u{11136}' <= c && c <= '\u{1113f}')
        || ('\u{111d0}' <= c && c <= '\u{111d9}')
        || ('\u{112f0}' <= c && c <= '\u{112f9}')
        || ('\u{11450}' <= c && c <= '\u{11459}')
        || ('\u{114d0}' <= c && c <= '\u{114d9}')
        || ('\u{11650}' <= c && c <= '\u{11659}')
        || ('\u{116c0}' <= c && c <= '\u{116c9}')
        || ('\u{116d0}' <= c && c <= '\u{116e3}')
        || ('\u{11730}' <= c && c <= '\u{11739}')
        || ('\u{118e0}' <= c && c <= '\u{118e9}')
        || ('\u{11950}' <= c && c <= '\u{11959}')
        || ('\u{11bf0}' <= c && c <= '\u{11bf9}')
        || ('\u{11c50}' <= c && c <= '\u{11c59}')
        || ('\u{11d50}' <= c && c <= '\u{11d59}')
        || ('\u{11da0}' <= c && c <= '\u{11da9}')
        || ('\u{11f50}' <= c && c <= '\u{11f59}')
        || ('\u{16130}' <= c && c <= '\u{16139}')
        || ('\u{16a60}' <= c && c <= '\u{16a69}')
        || ('\u{16ac0}' <= c && c <= '\u{16ac9}')
        || ('\u{16b50}' <= c && c <= '\u{16b59}')
        || ('\u{16d70}' <= c && c <= '\u{16d79}')
        || ('\u{1ccf0}' <= c && c <= '\u{1ccf9}')
        || ('\u{1d7ce}' <= c && c <= '\u{1d7ff}')
        || ('\u{1e140}' <= c && c <= '\u{1e149}')
        || ('\u{1e2f0}' <= c && c <= '\u{1e2f9}')
        || ('\u{1e4f0}' <= c && c <= '\u{1e4f9}')
        || ('\u{1e5f1}' <= c && c <= '\u{1e5fa}')
        || ('\u{1e950}' <= c && c <= '\u{1e959}')
        || ('\u{1fbf0}' <= c && c <= '\u{1fbf9}')
}

/// A character that may continue such an identifier: also a decimal digit.
pub open spec fn is_ident_part(c: char) -> bool {
    is_ident_start(c) || is_decimal_digit(c)
}

/// The end of the run of identifier characters that starts at `i`.
pub open spec fn run_end(s: Seq<char>, i: int) -> int
    decreases s.len() - i,
{
    if i < 0 || i >= s.len() || !is_ident_part(s[i]) {
        i
    } else {
        run_end(s, i + 1)
    }
}

/// The end of the longest `ident(sep ident)*` that starts at `i`.
pub open spec fn path_end(s: Seq<char>, i: int, sep: char) -> int
    decreases s.len() - i,
{
    let j = run_end(s, i);
    if 0 <= i < j && j + 1 < s.len() && s[j] == sep && is_ident_start(s[j + 1]) {
        path_end(s, j + 1, sep)
    } else {
        j
    }
}

/// The position of the last separator inside the longest
/// `ident(sep ident)*` that starts at `i`, if it has two or more parts.
pub open spec fn last_sep(s: Seq<char>, i: int, sep: char) -> Option<int>
    decreases s.len() - i,
{
    let j = run_end(s, i);
    if 0 <= i < j && j + 1 < s.len() && s[j] == sep && is_ident_start(s[j + 1]) {
        match last_sep(s, j + 1, sep) {
            Some(k) => Some(k),
            None => Some(j),
        }
    } else {
        None
    }
}

/// A slash-separated name followed by `.` begins at `i`.
pub open spec fn fq_match_at(s: Seq<char>, i: int) -> bool {
    &&& 0 <= i < s.len()
    &&& is_ident_start(s[i])
    &&& path_end(s, i, '/') < s.len()
    &&& s[path_end(s, i, '/')] == '.'
}

/// The first position from `i` on where a slash-separated name followed by
/// `.` begins.
pub open spec fn first_fq_match(s: Seq<char>, i: int) -> Option<int>
    decreases s.len() - i,
{
    if i < 0 || i >= s.len() {
        None
    } else if fq_match_at(s, i) {
        Some(i)
    } else {
        first_fq_match(s, i + 1)
    }
}

/// The first position from `i` on that holds an identifier start.
pub open spec fn first_ident_start(s: Seq<char>, i: int) -> Option<int>
    decreases s.len() - i,
{
    if i < 0 || i >= s.len() {
        None
    } else if is_ident_start(s[i]) {
        Some(i)
    } else {
        first_ident_start(s, i + 1)
    }
}

/// The class part of a `pkg/Class.member:desc` string: the leftmost
/// `ident(/ident)*` that a `.` follows. `None` when there is none.
pub open spec fn spec_klass_name_from_fq(s: Seq<char>) -> Option<Seq<char>> {
    match first_fq_match(s, 0) {
        Some(i) => Some(s.subrange(i, path_end(s, i, '/'))),
        None => None,
    }
}

/// The package part of a dotted `pkg.Class` name: in the leftmost
/// `ident(.ident)*`, everything before its last dot, or empty when it has
/// one part. `None` when the string holds no identifier.
pub open spec fn spec_klass_name_from_dotted_fq(s: Seq<char>) -> Option<Seq<char>> {
    match first_ident_start(s, 0) {
        Some(i) => match last_sep(s, i, '.') {
            Some(k) => Some(s.subrange(i, k)),
            None => Some(Seq::empty()),
        },
        None => None,
    }
}

proof fn lemma_run_end_bounds(s: Seq<char>, i: int)
    requires
        0 <= i <= s.len(),
    ensures
        i <= run_end(s, i) <= s.len(),
        i < s.len() && is_ident_part(s[i]) ==> i < run_end(s, i),
        run_end(s, i) < s.len() ==> !is_ident_part(s[run_end(s, i)]),
    decreases s.len() - i,
{
    if i < s.len() && is_ident_part(s[i]) {
        lemma_run_end_bounds(s, i + 1);
    }
}

fn is_ident_start_char(c: char) -> (r: bool)
    ensures
        r == is_ident_start(c),
{
    ('a' <= c && c <= 'z') || ('A' <= c && c <= 'Z') || c == '_' || c == '$'
}

/// Whether `c` is a decimal digit (see `is_decimal_digit`).
fn is_decimal_digit_char(c: char) -> (r: bool)
    ensures
        r == is_decimal_digit(c),
{
    ('0' <= c && c <= '9')
        || ('\u{660}' <= c && c <= '\u{669}')
        || ('\u{6f0}' <= c && c <= '\u{6f9}')
        || ('\u{7c0}' <= c && c <= '\u{7c9}')
        || ('\u{966}' <= c && c <= '\u{96f}')
        || ('\u{9e6}' <= c && c <= '\u{9ef}')
        || ('\u{a66}' <= c && c <= '\u{a6f}')
        || ('\u{ae6}' <= c && c <= '\u{aef}')
        || ('\u{b66}' <= c && c <= '\u{b6f}')
        || ('\u{be6}' <= c && c <= '\u{bef}')
        || ('\u{c66}' <= c && c <= '\u{c6f}')
        || ('\u{ce6}' <= c && c <= '\u{cef}')
        || ('\u{d66}' <= c && c <= '\u{d6f}')
        || ('\u{de6}' <= c && c <= '\u{def}')
        || ('\u{e50}' <= c && c <= '\u{e59}')
        || ('\u{ed0}' <= c && c <= '\u{ed9}')
        || ('\u{f20}' <= c && c <= '\u{f29}')
        || ('\u{1040}' <= c && c <= '\u{1049}')
        || ('\u{1090}' <= c && c <= '\u{1099}')
        || ('\u{17e0}' <= c && c <= '\u{17e9}')
        || ('\u{1810}' <= c && c <= '\u{1819}')
        || ('\u{1946}' <= c && c <= '\u{194f}')
        || ('\u{19d0}' <= c && c <= '\u{19d9}')
        || ('\u{1a80}' <= c && c <= '\u{1a89}')
        || ('\u{1a90}' <= c && c <= '\u{1a99}')
        || ('\u{1b50}' <= c && c <= '\u{1b59}')
        || ('\u{1bb0}' <= c && c <= '\u{1bb9}')
        || ('\u{1c40}' <= c && c <= '\u{1c49}')
        || ('\u{1c50}' <= c && c <= '\u{1c59}')
        || ('\u{a620}' <= c && c <= '\u{a629}')
        || ('\u{a8d0}' <= c && c <= '\u{a8d9}')
        || ('\u{a900}' <= c && c <= '\u{a909}')
        || ('\u{a9d0}' <= c && c <= '\u{a9d9}')
        || ('\u{a9f0}' <= c && c <= '\u{a9f9}')
        || ('\u{aa50}' <= c && c <= '\u{aa59}')
        || ('\u{abf0}' <= c && c <= '\u{abf9}')
        || ('\u{ff10}' <= c && c <= '\u{ff19}')
        || ('\u{104a0}' <= c && c <= '\u{104a9}')
        || ('\u{10d30}' <= c && c <= '\u{10d39}')
        || ('\u{10d40}' <= c && c <= '\u{10d49}')
        || ('\u{11066}' <= c && c <= '\u{1106f}')
        || ('\u{110f0}' <= c && c <= '\u{110f9}')
        || ('\u{11136}' <= c && c <= '\u{1113f}')
        || ('\u{111d0}' <= c && c <= '\u{111d9}')
        || ('\u{112f0}' <= c && c <= '\u{112f9}')
        || ('\u{11450}' <= c && c <= '\u{11459}')
        || ('\u{114d0}' <= c && c <= '\u{114d9}')
        || ('\u{11650}' <= c && c <= '\u{11659}')
        || ('\u{116c0}' <= c && c <= '\u{116c9}')
        || ('\u{116d0}' <= c && c <= '\u{116e3}')
        || ('\u{11730}' <= c && c <= '\u{11739}')
        || ('\u{118e0}' <= c && c <= '\u{118e9}')
        || ('\u{11950}' <= c && c <= '\u{11959}')
        || ('\u{11bf0}' <= c && c <= '\u{11bf9}')
        || ('\u{11c50}' <= c && c <= '\u{11c59}')
        || ('\u{11d50}' <= c && c <= '\u{11d59}')
        || ('\u{11da0}' <= c && c <= '\u{11da9}')
        || ('\u{11f50}' <= c && c <= '\u{11f59}')
        || ('\u{16130}' <= c && c <= '\u{16139}')
        || ('\u{16a60}' <= c && c <= '\u{16a69}')
        || ('\u{16ac0}' <= c && c <= '\u{16ac9}')
        || ('\u{16b50}' <= c && c <= '\u{16b59}')
        || ('\u{16d70}' <= c && c <= '\u{16d79}')
        || ('\u{1ccf0}' <= c && c <= '\u{1ccf9}')
        || ('\u{1d7ce}' <= c && c <= '\u{1d7ff}')
        || ('\u{1e140}' <= c && c <= '\u{1e149}')
        || ('\u{1e2f0}' <= c && c <= '\u{1e2f9}')
        || ('\u{1e4f0}' <= c && c <= '\u{1e4f9}')
        || ('\u{1e5f1}' <= c && c <= '\u{1e5fa}')
        || ('\u{1e950}' <= c && c <= '\u{1e959}')
        || ('\u{1fbf0}' <= c && c <= '\u{1fbf9}')
}

fn is_ident_part_char(c: char) -> (r: bool)
    ensures
        r == is_ident_part(c),
{
    is_ident_start_char(c) || is_decimal_digit_char(c)
}

fn run_end_at(cs: &Vec<char>, i: usize) -> (r: usize)
    requires
        i <= cs@.len(),
    ensures
        r == run_end(cs@, i as int),
{
    let mut j = i;
    while j < cs.len() && is_ident_part_char(cs[j])
        invariant
            i <= j <= cs@.len(),
            run_end(cs@, i as int) == run_end(cs@, j as int),
        decreases cs.len() - j,
    {
        j = j + 1;
    }
    j
}

/// The end of the longest `ident(sep ident)*` at `i` and the position of
/// its last separator, if any.
fn path_at(cs: &Vec<char>, i: usize, sep: char) -> (r: (usize, Option<usize>))
    requires
        i < cs@.len(),
        is_ident_start(cs@[i as int]),
    ensures
        r.0 == path_end(cs@, i as int, sep),
        r.1 matches Some(k) ==> last_sep(cs@, i as int, sep) == Some(k as int),
        r.1 is None ==> last_sep(cs@, i as int, sep) is None,
        r.1 matches Some(k) ==> i < k < r.0,
        i < r.0 <= cs@.len(),
{
    let mut k = i;
    let mut last: Option<usize> = None;
    proof {
        lemma_run_end_bounds(cs@, k as int);
    }
    let mut j = run_end_at(cs, k);
    while cs.len() - j > 1 && cs[j] == sep && is_ident_start_char(cs[j + 1])
        invariant
            i <= k < j <= cs@.len(),
            j == run_end(cs@, k as int),
            last matches Some(y) ==> i < y < k,
            path_end(cs@, i as int, sep) == path_end(cs@, k as int, sep),
            last_sep(cs@, i as int, sep) == (match last_sep(cs@, k as int, sep) {
                Some(x) => Some(x),
                None => match last {
                    Some(y) => Some(y as int),
                    None => None,
                },
            }),
        decreases cs.len() - k,
    {
        last = Some(j);
        k = j + 1;
        proof {
            lemma_run_end_bounds(cs@, k as int);
        }
        j = run_end_at(cs, k);
    }
    (j, last)
}

impl SharedKlassRepo {
    /// The class part of a `pkg/Class.member:desc` string (see
    /// `spec_klass_name_from_fq`).
    pub fn klass_name_from_fq(klass_name: &String) -> (r: Option<String>)
        ensures
            r matches Some(s) ==> spec_klass_name_from_fq(klass_name@) == Some(s@),
            r is None ==> spec_klass_name_from_fq(klass_name@) is None,
    {
        let cs = chars_of(klass_name.as_str());
        let mut i: usize = 0;
        while i < cs.len()
            invariant
                cs@ == klass_name@,
                i <= cs@.len(),
                first_fq_match(cs@, 0) == first_fq_match(cs@, i as int),
            decreases cs.len() - i,
        {
            if is_ident_start_char(cs[i]) {
                let (j, _) = path_at(&cs, i, '/');
                if j < cs.len() && cs[j] == '.' {
                    let name = klass_name.as_str().substring_char(i, j);
                    return Some(String::from_str(name));
                }
            }
            i = i + 1;
        }
        None
    }

    /// The package part of a dotted `pkg.Class` name (see
    /// `spec_klass_name_from_dotted_fq`).
    pub fn klass_name_from_dotted_fq(klass_name: &String) -> (r: Option<String>)
        ensures
            r matches Some(s) ==> spec_klass_name_from_dotted_fq(klass_name@) == Some(s@),
            r is None ==> spec_klass_name_from_dotted_fq(klass_name@) is None,
    {
        let cs = chars_of(klass_name.as_str());
        let mut i: usize = 0;
        while i < cs.len()
            invariant
                cs@ == klass_name@,
                i <= cs@.len(),
                first_ident_start(cs@, 0) == first_ident_start(cs@, i as int),
            decreases cs.len() - i,
        {
            if is_ident_start_char(cs[i]) {
                let (_, last) = path_at(&cs, i, '.');
                return match last {
                    Some(k) => Some(String::from_str(klass_name.as_str().substring_char(i, k))),
                    None => Some(String::new()),
                };
            }
            i = i + 1;
        }
        None
    }
}

} // verus!
