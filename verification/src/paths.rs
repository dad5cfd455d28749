//! Virtual paths: slash-separated, rootless identities for templates and
//! assets, together with the string functions the catalog needs (final
//! segment, extension, ASCII-case-insensitive comparison).
use vstd::prelude::*;

verus! {

/// Index of the last occurrence of `c` in `s`, or `None` when `c` does not
/// occur.
pub open spec fn last_index_of(s: Seq<char>, c: char) -> Option<int>
    decreases s.len(),
{
    if s.len() == 0 {
        None
    } else if s.last() == c {
        Some(s.len() - 1)
    } else {
        last_index_of(s.drop_last(), c)
    }
}

pub proof fn lemma_last_index_of(s: Seq<char>, c: char)
    ensures
        match last_index_of(s, c) {
            Some(i) => 0 <= i < s.len() && s[i] == c && forall|j: int|
                i < j < s.len() ==> #[trigger] s[j] != c,
            None => forall|j: int| 0 <= j < s.len() ==> #[trigger] s[j] != c,
        },
    decreases s.len(),
{
    if s.len() > 0 && s.last() != c {
        lemma_last_index_of(s.drop_last(), c);
        assert forall|j: int| 0 <= j < s.len() - 1 implies s[j] == s.drop_last()[j] by {
        }
    }
}

/// The final slash-separated segment of a virtual path; the whole path when
/// it holds no slash.
pub open spec fn file_name_of(p: Seq<char>) -> Seq<char> {
    match last_index_of(p, '/') {
        Some(i) => p.subrange(i + 1, p.len() as int),
        None => p,
    }
}

/// The extension of a virtual path: the part of the final segment after its
/// last dot. A dot at the very start of the segment does not begin an
/// extension, and a segment without a dot has none.
pub open spec fn extension_of(p: Seq<char>) -> Option<Seq<char>> {
    let name = file_name_of(p);
    match last_index_of(name, '.') {
        Some(i) => if i > 0 {
            Some(name.subrange(i + 1, name.len() as int))
        } else {
            None
        },
        None => None,
    }
}

/// `c` equals `t` up to ASCII case, where `t` is already lower case.
pub open spec fn lower_char_matches(c: char, t: char) -> bool {
    c == t || (65 <= c as u32 <= 90 && c as u32 + 32 == t as u32)
}

/// `a` equals `b` up to ASCII case, where `b` is already lower case.
pub open spec fn eq_ignore_ascii_case(a: Seq<char>, b: Seq<char>) -> bool {
    a.len() == b.len() && forall|i: int|
        0 <= i < a.len() ==> lower_char_matches(#[trigger] a[i], b[i])
}

/// Index of the last occurrence of `c` in `path`, as executable code.
pub fn find_last(path: &str, c: char) -> (r: Option<usize>)
    ensures
        match r {
            Some(i) => i < path@.len() && last_index_of(path@, c) == Some(i as int),
            None => last_index_of(path@, c) is None,
        },
{
    let n = path.unicode_len();
    let mut i: usize = 0;
    let mut last: Option<usize> = None;
    while i < n
        invariant
            i <= n,
            n == path@.len(),
            match last {
                Some(j) => j < i && path@[j as int] == c && forall|k: int|
                    j < k < i ==> #[trigger] path@[k] != c,
                None => forall|k: int| 0 <= k < i ==> #[trigger] path@[k] != c,
            },
        decreases n - i,
    {
        if path.get_char(i) == c {
            last = Some(i);
        }
        i = i + 1;
    }
    proof {
        lemma_last_index_of(path@, c);
    }
    last
}

/// The final slash-separated segment of `path`.
pub fn file_name(path: &str) -> (r: String)
    ensures
        r@ == file_name_of(path@),
{
    let n = path.unicode_len();
    match find_last(path, '/') {
        Some(i) => path.substring_char(i + 1, n).to_owned(),
        None => path.to_owned(),
    }
}

/// The extension of `path`, as `extension_of` describes it.
pub fn extension(path: &str) -> (r: Option<String>)
    ensures
        r is Some <==> extension_of(path@) is Some,
        r matches Some(e) ==> extension_of(path@) == Some(e@),
{
    let name = file_name(path);
    let name_str = name.as_str();
    let m = name_str.unicode_len();
    match find_last(name_str, '.') {
        Some(i) => if i > 0 {
            Some(name_str.substring_char(i + 1, m).to_owned())
        } else {
            None
        },
        None => None,
    }
}

/// Character-for-character equality of two string slices.
pub fn str_eq(a: &str, b: &str) -> (r: bool)
    ensures
        r == (a@ == b@),
{
    let na = a.unicode_len();
    let nb = b.unicode_len();
    if na != nb {
        proof {
            assert(a@ != b@);
        }
        return false;
    }
    let mut i: usize = 0;
    while i < na
        invariant
            i <= na,
            na == a@.len(),
            na == b@.len(),
            forall|k: int| 0 <= k < i ==> a@[k] == b@[k],
        decreases na - i,
    {
        if a.get_char(i) != b.get_char(i) {
            return false;
        }
        i = i + 1;
    }
    proof {
        assert(a@ =~= b@);
    }
    true
}

/// Whether `a` equals `b` up to ASCII case; `b` must already be lower case
/// for the answer to mean a case-insensitive match.
pub fn str_eq_ignore_ascii_case(a: &str, b: &str) -> (r: bool)
    ensures
        r == eq_ignore_ascii_case(a@, b@),
{
    let na = a.unicode_len();
    let nb = b.unicode_len();
    if na != nb {
        return false;
    }
    let mut i: usize = 0;
    while i < na
        invariant
            i <= na,
            na == a@.len(),
            na == b@.len(),
            forall|k: int| 0 <= k < i ==> lower_char_matches(#[trigger] a@[k], b@[k]),
        decreases na - i,
    {
        let ca = a.get_char(i);
        let cb = b.get_char(i);
        let cau = ca as u32;
        let cbu = cb as u32;
        let matches = ca == cb || (65 <= cau && cau <= 90 && cau + 32 == cbu);
        if !matches {
            return false;
        }
        i = i + 1;
    }
    true
}

} // verus!
