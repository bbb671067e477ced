//! Character-level string helpers used throughout the shell: equality and
//! prefix tests, prefix stripping, path joining and base-name extraction.

use vstd::prelude::*;
use vstd::string::StrSliceExecFns;
use vstd::string::StringExecFns;

verus! {

/// True when `a` and `b` hold the same characters.
pub fn str_eq_str(a: &str, b: &str) -> (r: bool)
    ensures
        r == (a@ == b@),
{
    let a_len: usize = a.unicode_len();
    let b_len: usize = b.unicode_len();
    if a_len != b_len {
        return false;
    }
    let mut i: usize = 0;
    while i < a_len
        invariant
            i <= a_len,
            a_len == a@.len(),
            b_len == b@.len(),
            a_len == b_len,
            forall|j: int| 0 <= j < i ==> a@[j] == b@[j],
        decreases a_len - i,
    {
        let ca = a.get_char(i);
        let cb = b.get_char(i);
        if ca != cb {
            return false;
        }
        i += 1;
    }
    proof {
        assert(a@ =~= b@);
    }
    true
}

/// True when the characters of `prefix` open `s`.
pub fn str_starts_with(s: &str, prefix: &str) -> (r: bool)
    ensures
        r == prefix@.is_prefix_of(s@),
{
    let p_len: usize = prefix.unicode_len();
    let s_len: usize = s.unicode_len();
    if p_len > s_len {
        return false;
    }
    let mut i: usize = 0;
    while i < p_len
        invariant
            i <= p_len,
            p_len == prefix@.len(),
            s_len == s@.len(),
            p_len <= s_len,
            forall|j: int| 0 <= j < i ==> prefix@[j] == s@[j],
        decreases p_len - i,
    {
        let cp = prefix.get_char(i);
        let cs = s.get_char(i);
        if cp != cs {
            return false;
        }
        i += 1;
    }
    proof {
        assert(prefix@ =~= s@.subrange(0, p_len as int));
    }
    true
}

/// Returns `s` with the leading `prefix` removed.
pub fn strip_prefix_exact(s: &str, prefix: &str) -> (r: String)
    requires
        prefix@.is_prefix_of(s@),
    ensures
        r@ == s@.skip(prefix@.len() as int),
{
    let p_len: usize = prefix.unicode_len();
    let s_len: usize = s.unicode_len();
    let rest = s.substring_char(p_len, s_len);
    String::from_str(rest)
}

/// A character that separates path components.
pub open spec fn is_path_sep(c: char) -> bool {
    c == '/' || c == '\\'
}

/// The characters of a path after its last separator; the whole path when no
/// separator occurs, and empty when the path ends with one.
pub open spec fn base_name_of(p: Seq<char>) -> Seq<char>
    decreases p.len(),
{
    if p.len() == 0 {
        p
    } else if is_path_sep(p.last()) {
        Seq::<char>::empty()
    } else {
        base_name_of(p.drop_last()).push(p.last())
    }
}

proof fn lemma_base_name_subrange(p: Seq<char>, cut: int)
    requires
        0 <= cut <= p.len(),
        forall|j: int| cut <= j < p.len() ==> !is_path_sep(p[j]),
        cut > 0 ==> is_path_sep(p[cut - 1]),
    ensures
        base_name_of(p) == p.subrange(cut, p.len() as int),
    decreases p.len(),
{
    if cut == p.len() {
        if p.len() == 0 {
            assert(p.subrange(0, 0) =~= p);
        } else {
            assert(is_path_sep(p.last()));
            assert(base_name_of(p) =~= p.subrange(cut, p.len() as int));
        }
    } else {
        assert(!is_path_sep(p.last()));
        let q = p.drop_last();
        assert(forall|j: int| cut <= j < q.len() ==> q[j] == p[j]);
        lemma_base_name_subrange(q, cut);
        assert(base_name_of(p) == q.subrange(cut, q.len() as int).push(p.last()));
        assert(q.subrange(cut, q.len() as int).push(p.last()) =~= p.subrange(
            cut,
            p.len() as int,
        ));
    }
}

/// The file name at the end of `path`: everything after the last `/` or `\`.
pub fn base_name(path: &str) -> (r: String)
    ensures
        r@ == base_name_of(path@),
{
    let len: usize = path.unicode_len();
    let mut cut: usize = 0;
    let mut i: usize = 0;
    while i < len
        invariant
            i <= len,
            len == path@.len(),
            cut <= i,
            forall|j: int| cut <= j < i ==> !is_path_sep(path@[j]),
            cut > 0 ==> is_path_sep(path@[cut - 1]),
        decreases len - i,
    {
        let c = path.get_char(i);
        if c == '/' || c == '\\' {
            cut = i + 1;
        }
        i += 1;
    }
    proof {
        lemma_base_name_subrange(path@, cut as int);
    }
    let tail = path.substring_char(cut, len);
    String::from_str(tail)
}

/// A directory and a file name joined with a single `/`.
pub open spec fn joined_path(dir: Seq<char>, name: Seq<char>) -> Seq<char> {
    dir + "/"@ + name
}

/// The characters of each string in a sequence of strings.
pub open spec fn strings_view(v: Seq<String>) -> Seq<Seq<char>> {
    v.map_values(|s: String| s@)
}

/// The characters of an optional string.
pub open spec fn opt_str_view(o: Option<String>) -> Option<Seq<char>> {
    match o {
        Option::Some(s) => Option::Some(s@),
        Option::None => Option::None,
    }
}

/// Joins `dir` and `name` with a `/` between them.
pub fn join_path(dir: &str, name: &str) -> (r: String)
    ensures
        r@ == joined_path(dir@, name@),
{
    String::from_str(dir).concat("/").concat(name)
}

} // verus!
