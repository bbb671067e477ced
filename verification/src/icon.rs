//! Icon resolution: a fixed, ordered list of candidate icon paths is built
//! from the package name, and the first candidate that exists on disk wins.
//! The filesystem probe itself happens outside; this module decides the
//! candidate order and the choice.

use vstd::prelude::*;
use vstd::string::StrSliceExecFns;
use vstd::string::StringExecFns;
use vstd::utf8::is_ascii_chars;
use crate::strutil::{join_path, joined_path, strings_view};

verus! {

/// What the MD5 digest of the UTF-8 bytes of a string prints as in lowercase
/// hex; a function of the characters alone.
pub uninterp spec fn md5_hex_of(s: Seq<char>) -> Seq<char>;

/// Relies on `md5::compute` over the UTF-8 bytes of `s`, printed with the
/// crate's `LowerHex` digest formatting: the 16 digest bytes as two lowercase
/// hex digits each, 32 characters in all, a function of the characters alone.
#[verifier::external_body]
fn md5_hex(s: &str) -> (r: String)
    ensures
        r@ == md5_hex_of(s@),
        r@.len() == 32,
{
    format!("{:x}", md5::compute(s.as_bytes()))
}

/// The icon file tried for a given name stem: `png/{stem}_32.ico`.
pub open spec fn icon_file_view(stem: Seq<char>) -> Seq<char> {
    "png/"@ + stem + "_32.ico"@
}

/// Builds `png/{stem}_32.ico`.
fn icon_file(stem: &str) -> (r: String)
    ensures
        r@ == icon_file_view(stem@),
{
    String::from_str("png/").concat(stem).concat("_32.ico")
}

/// The candidate icon paths in priority order: the literal package name
/// relative to the working directory, then the same under the executable's
/// directory; for a package name with characters beyond ASCII, the
/// `app{hash}_32.ico` fallback built from the first eight hex digits of the
/// name's MD5 digest, at both locations; and last the generic icon at both
/// locations.
pub open spec fn icon_candidates_view(
    name: Seq<char>,
    exe_dir: Seq<char>,
    hash_hex: Seq<char>,
) -> Seq<Seq<char>> {
    let named = icon_file_view(name);
    let hashed = icon_file_view("app"@ + hash_hex.take(8));
    let generic = icon_file_view("icon"@);
    let named_pair = seq![named, joined_path(exe_dir, named)];
    let hashed_pair = seq![hashed, joined_path(exe_dir, hashed)];
    let generic_pair = seq![generic, joined_path(exe_dir, generic)];
    if is_ascii_chars(name) {
        named_pair + generic_pair
    } else {
        named_pair + hashed_pair + generic_pair
    }
}

/// Builds the candidate icon paths for `name` in priority order, exactly as
/// `icon_candidates_view` describes.
pub fn icon_candidates(name: &str, exe_dir: &str) -> (r: Vec<String>)
    ensures
        strings_view(r@) == icon_candidates_view(name@, exe_dir@, md5_hex_of(name@)),
{
    let mut out: Vec<String> = Vec::new();
    let named = icon_file(name);
    let named_exe = join_path(exe_dir, named.as_str());
    out.push(named);
    out.push(named_exe);
    if !name.is_ascii() {
        let digest = md5_hex(name);
        let prefix = digest.as_str().substring_char(0, 8);
        let stem = String::from_str("app").concat(prefix);
        let hashed = icon_file(stem.as_str());
        let hashed_exe = join_path(exe_dir, hashed.as_str());
        out.push(hashed);
        out.push(hashed_exe);
    }
    let generic = icon_file("icon");
    let generic_exe = join_path(exe_dir, generic.as_str());
    out.push(generic);
    out.push(generic_exe);
    proof {
        assert(strings_view(out@) =~~= icon_candidates_view(
            name@,
            exe_dir@,
            md5_hex_of(name@),
        ));
    }
    out
}

/// The index of the first `true` in a sequence of probe results, if any.
pub open spec fn first_present(p: Seq<bool>) -> Option<int>
    decreases p.len(),
{
    if p.len() == 0 {
        Option::None
    } else if p[0] {
        Option::Some(0int)
    } else {
        match first_present(p.drop_first()) {
            Option::Some(i) => Option::Some(i + 1),
            Option::None => Option::None,
        }
    }
}

/// Law: the choice among candidates follows the fixed priority order — the
/// chosen index carries a present candidate, every earlier candidate is
/// absent, and no candidate is chosen only when all are absent. Together with
/// `icon_candidates_view` this makes icon resolution a function of the
/// package name and the filesystem state alone.
pub proof fn lemma_first_present_is_priority_choice(p: Seq<bool>)
    ensures
        first_present(p) matches Some(i) ==> 0 <= i < p.len() && p[i] && (forall|j: int|
            0 <= j < i ==> !p[j]),
        first_present(p) is None ==> forall|j: int| 0 <= j < p.len() ==> !p[j],
    decreases p.len(),
{
    if p.len() > 0 && !p[0] {
        let q = p.drop_first();
        lemma_first_present_is_priority_choice(q);
        match first_present(q) {
            Option::Some(i) => {
                assert(q[i] == p[i + 1]);
                assert forall|j: int| 0 <= j < i + 1 implies !p[j] by {
                    if j > 0 {
                        assert(!q[j - 1]);
                    }
                }
            },
            Option::None => {
                assert forall|j: int| 0 <= j < p.len() implies !p[j] by {
                    if j > 0 {
                        assert(!q[j - 1]);
                    }
                }
            },
        }
    }
}

proof fn lemma_first_present_from_scan(p: Seq<bool>, i: int)
    requires
        0 <= i <= p.len(),
        forall|j: int| 0 <= j < i ==> !p[j],
    ensures
        i < p.len() && p[i] ==> first_present(p) == Option::Some(i),
        i == p.len() ==> first_present(p) is None,
    decreases p.len(),
{
    if p.len() > 0 && i > 0 {
        assert(!p[0]);
        lemma_first_present_from_scan(p.drop_first(), i - 1);
    }
}

/// Picks the first present candidate, exactly as `first_present` describes.
pub fn pick_first_present(present: &Vec<bool>) -> (r: Option<usize>)
    ensures
        match r {
            Option::Some(i) => first_present(present@) == Option::Some(i as int),
            Option::None => first_present(present@) is None,
        },
{
    let n: usize = present.len();
    let mut i: usize = 0;
    while i < n
        invariant
            i <= n,
            n == present@.len(),
            forall|j: int| 0 <= j < i ==> !present@[j],
        decreases n - i,
    {
        if present[i] {
            proof {
                lemma_first_present_from_scan(present@, i as int);
            }
            return Some(i);
        }
        i += 1;
    }
    proof {
        lemma_first_present_from_scan(present@, n as int);
    }
    None
}

/// Chooses the icon path to load: the first candidate whose probe result is
/// `true`, or none when no candidate exists on disk. Given the same
/// candidates and the same probe results, the same path is chosen.
pub fn select_icon(candidates: &Vec<String>, present: &Vec<bool>) -> (r: Option<String>)
    requires
        candidates@.len() == present@.len(),
    ensures
        match first_present(present@) {
            Option::Some(i) => r matches Some(s) && s@ == candidates@[i]@,
            Option::None => r is None,
        },
{
    proof {
        lemma_first_present_is_priority_choice(present@);
    }
    let picked = pick_first_present(present);
    match picked {
        Some(i) => Some(candidates[i].clone()),
        None => None,
    }
}

} // verus!
