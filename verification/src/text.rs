//! Character-level string utilities: substring containment (the matcher's
//! notion of a "match"), first-occurrence search, and one-level wildcard
//! suffix comparison.
use vstd::prelude::*;
use vstd::string::StrSliceExecFns;

verus! {

/// `needle` occurs contiguously somewhere inside `hay`.
pub open spec fn is_substring(hay: Seq<char>, needle: Seq<char>) -> bool {
    exists|i: int|
        0 <= i <= hay.len() - needle.len() && #[trigger] hay.subrange(i, i + needle.len() as int)
            == needle
}

/// `s` begins with the two characters `*.`, marking a wildcard SAN entry.
pub open spec fn has_wildcard_prefix(s: Seq<char>) -> bool {
    s.len() >= 2 && s[0] == '*' && s[1] == '.'
}

/// A wildcard SAN `wildcard` (beginning `*.`) matches `name` exactly when
/// `name` has at least one `.`, the label before its first `.` is non-empty,
/// and everything after that first `.` equals the wildcard's suffix (the
/// wildcard with its leading `*.` removed). The wildcard stands for exactly
/// one label: it neither matches the bare suffix nor spans several labels.
pub open spec fn wildcard_matches(name: Seq<char>, wildcard: Seq<char>) -> bool {
    exists|i: int|
        {
            &&& 0 < i < name.len()
            &&& #[trigger] name[i] == '.'
            &&& (forall|j: int| 0 <= j < i ==> name[j] != '.')
            &&& name.subrange(i + 1, name.len() as int) == wildcard.subrange(
                2,
                wildcard.len() as int,
            )
        }
}

/// Compare `len` characters of `a` starting at `ai` with `len` characters of
/// `b` starting at `bi`.
pub fn eq_range(a: &str, ai: usize, b: &str, bi: usize, len: usize) -> (r: bool)
    requires
        ai + len <= a@.len() <= usize::MAX,
        bi + len <= b@.len() <= usize::MAX,
    ensures
        r == (a@.subrange(ai as int, ai as int + len as int) == b@.subrange(
            bi as int,
            bi as int + len as int,
        )),
{
    let ghost asub = a@.subrange(ai as int, ai as int + len as int);
    let ghost bsub = b@.subrange(bi as int, bi as int + len as int);
    let mut j: usize = 0;
    while j < len
        invariant
            ai + len <= a@.len() <= usize::MAX,
            bi + len <= b@.len() <= usize::MAX,
            j <= len,
            asub == a@.subrange(ai as int, ai as int + len as int),
            bsub == b@.subrange(bi as int, bi as int + len as int),
            forall|k: int| 0 <= k < j ==> asub[k] == bsub[k],
        decreases len - j,
    {
        let ca = a.get_char(ai + j);
        let cb = b.get_char(bi + j);
        if ca != cb {
            assert(asub[j as int] != bsub[j as int]);
            return false;
        }
        assert(asub[j as int] == bsub[j as int]);
        j += 1;
    }
    assert(asub =~= bsub);
    true
}

/// Substring containment: does `needle` occur anywhere inside `hay`?
pub fn str_contains(hay: &str, needle: &str) -> (r: bool)
    ensures
        r == is_substring(hay@, needle@),
{
    let h = hay.unicode_len();
    let n = needle.unicode_len();
    if n > h {
        return false;
    }
    if n == 0 {
        assert(hay@.subrange(0, 0 + needle@.len() as int) =~= needle@);
        return true;
    }
    let mut i: usize = 0;
    while i <= h - n
        invariant
            h == hay@.len(),
            n == needle@.len(),
            1 <= n <= h,
            i <= h - n + 1,
            forall|k: int|
                0 <= k < i ==> #[trigger] hay@.subrange(k, k + needle@.len() as int) != needle@,
        decreases h - n - i + 1,
    {
        let ghost nsub = needle@.subrange(0, n as int);
        assert(nsub =~= needle@);
        if eq_range(hay, i, needle, 0, n) {
            assert(hay@.subrange(i as int, i as int + needle@.len() as int) == needle@);
            return true;
        }
        i += 1;
    }
    false
}

/// Index of the first occurrence of `c` in `s`, if any.
pub fn find_char(s: &str, c: char) -> (r: Option<usize>)
    ensures
        match r {
            Some(i) => i < s@.len() && s@[i as int] == c && (forall|j: int|
                0 <= j < i ==> s@[j] != c),
            None => forall|j: int| 0 <= j < s@.len() ==> s@[j] != c,
        },
{
    let n = s.unicode_len();
    let mut i: usize = 0;
    while i < n
        invariant
            n == s@.len(),
            i <= n,
            forall|j: int| 0 <= j < i ==> s@[j] != c,
        decreases n - i,
    {
        if s.get_char(i) == c {
            return Some(i);
        }
        i += 1;
    }
    None
}

/// Does `s` begin with `*.`?
pub fn starts_with_wildcard(s: &str) -> (r: bool)
    ensures
        r == has_wildcard_prefix(s@),
{
    s.unicode_len() >= 2 && s.get_char(0) == '*' && s.get_char(1) == '.'
}

/// One-level wildcard matching of `name` against a SAN entry `wildcard` that
/// begins with `*.`: the hostname must consist of one non-empty label, a dot,
/// and then exactly the wildcard's suffix.
pub fn wildcard_match(name: &str, wildcard: &str) -> (r: bool)
    requires
        has_wildcard_prefix(wildcard@),
    ensures
        r == wildcard_matches(name@, wildcard@),
{
    let nl = name.unicode_len();
    let wl = wildcard.unicode_len();
    match find_char(name, '.') {
        None => {
            assert(!wildcard_matches(name@, wildcard@));
            false
        },
        Some(idx) => {
            proof {
                lemma_wildcard_first_dot(name@, wildcard@, idx as int);
            }
            if idx == 0 {
                return false;
            }
            if nl - idx - 1 != wl - 2 {
                assert(name@.subrange(idx + 1, nl as int).len() == nl - idx - 1);
                assert(wildcard@.subrange(2, wl as int).len() == wl - 2);
                return false;
            }
            let r = eq_range(name, idx + 1, wildcard, 2, wl - 2);
            assert(name@.subrange(idx + 1, nl as int) == name@.subrange(
                idx + 1,
                idx + 1 + (wl - 2),
            ));
            r
        },
    }
}

/// Relies on std's `String::push`: appends exactly one character to the end
/// of the string. vstd gives `String` no specification for `push`.
#[verifier::external_body]
pub fn push_char(s: &mut String, c: char)
    ensures
        final(s)@ == old(s)@.push(c),
{
    s.push(c);
}

/// The decimal digit character for a value between 0 and 9.
pub open spec fn dec_digit(d: int) -> char {
    ((d + 48) as u8) as char
}

/// The decimal rendering of a byte, without leading zeros.
pub open spec fn u8_dec(d: u8) -> Seq<char> {
    if d < 10 {
        seq![dec_digit(d as int)]
    } else if d < 100 {
        seq![dec_digit(d as int / 10), dec_digit(d as int % 10)]
    } else {
        seq![
            dec_digit(d as int / 100),
            dec_digit((d as int / 10) % 10),
            dec_digit(d as int % 10),
        ]
    }
}

fn digit_char(d: u8) -> (c: char)
    requires
        d < 10,
    ensures
        c == dec_digit(d as int),
{
    (d + 48) as char
}

/// Append the decimal rendering of `d` to `s`.
pub fn append_u8_dec(s: &mut String, d: u8)
    ensures
        final(s)@ == old(s)@ + u8_dec(d),
{
    if d >= 100 {
        push_char(s, digit_char(d / 100));
        push_char(s, digit_char((d / 10) % 10));
        push_char(s, digit_char(d % 10));
    } else if d >= 10 {
        push_char(s, digit_char(d / 10));
        push_char(s, digit_char(d % 10));
    } else {
        push_char(s, digit_char(d));
    }
    assert(s@ =~= old(s)@ + u8_dec(d));
}

/// When `idx` is the first `.` in `name`, the wildcard matches exactly when
/// that dot splits `name` into a non-empty label and the wildcard's suffix.
proof fn lemma_wildcard_first_dot(name: Seq<char>, wildcard: Seq<char>, idx: int)
    requires
        0 <= idx < name.len(),
        name[idx] == '.',
        forall|j: int| 0 <= j < idx ==> name[j] != '.',
    ensures
        wildcard_matches(name, wildcard) <==> (idx > 0 && name.subrange(idx + 1, name.len() as int)
            == wildcard.subrange(2, wildcard.len() as int)),
{
    if wildcard_matches(name, wildcard) {
        let i = choose|i: int|
            {
                &&& 0 < i < name.len()
                &&& #[trigger] name[i] == '.'
                &&& (forall|j: int| 0 <= j < i ==> name[j] != '.')
                &&& name.subrange(i + 1, name.len() as int) == wildcard.subrange(
                    2,
                    wildcard.len() as int,
                )
            };
        if i < idx {
            assert(name[i] != '.');
        }
        if i > idx {
            assert(name[idx] != '.');
        }
        assert(i == idx);
    }
    if idx > 0 && name.subrange(idx + 1, name.len() as int) == wildcard.subrange(
        2,
        wildcard.len() as int,
    ) {
        assert(wildcard_matches(name, wildcard));
    }
}

} // verus!
