//! The download lifecycle bridge. When a download starts, its destination is
//! rewritten to live under the user's download directory — or under a given
//! temporary directory when no download directory is available — using only
//! the suggested file's base name, and the download is always accepted.

use vstd::prelude::*;
use vstd::string::StringExecFns;
use crate::strutil::{base_name, base_name_of, join_path, joined_path};
use crate::events::UserEvent;

verus! {

/// Where a started download will be written, whether the temp-directory
/// fallback was taken, and the accept decision handed back to the webview.
#[derive(Debug, Clone)]
pub struct DownloadPlan {
    pub destination: String,
    pub accept: bool,
    pub used_fallback: bool,
}

/// Rewrites a suggested download path: the destination is the base name of
/// `suggested` under `download_dir`, or under `temp_dir` when no download
/// directory is available, and the download is always accepted.
pub fn plan_download(suggested: &str, download_dir: &Option<String>, temp_dir: &str) -> (p:
    DownloadPlan)
    ensures
        p.accept,
        p.used_fallback == (download_dir is None),
        *download_dir matches Some(d) ==> p.destination@ == joined_path(
            d@,
            base_name_of(suggested@),
        ),
        download_dir is None ==> p.destination@ == joined_path(
            temp_dir@,
            base_name_of(suggested@),
        ),
{
    let name = base_name(suggested);
    match download_dir {
        Some(d) => DownloadPlan {
            destination: join_path(d.as_str(), name.as_str()),
            accept: true,
            used_fallback: false,
        },
        None => DownloadPlan {
            destination: join_path(temp_dir, name.as_str()),
            accept: true,
            used_fallback: true,
        },
    }
}

/// Law: a planned destination really lives under the chosen directory — the
/// directory followed by a separator opens it, and nothing but the suggested
/// file's base name follows, which itself holds no separator.
pub proof fn lemma_destination_lives_under_dir(dir: Seq<char>, suggested: Seq<char>)
    ensures
        (dir + "/"@).is_prefix_of(joined_path(dir, base_name_of(suggested))),
        joined_path(dir, base_name_of(suggested)).skip(dir.len() as int + 1) == base_name_of(
            suggested,
        ),
        forall|i: int|
            0 <= i < base_name_of(suggested).len() ==> !crate::strutil::is_path_sep(
                #[trigger] base_name_of(suggested)[i],
            ),
{
    let joined = joined_path(dir, base_name_of(suggested));
    assert((dir + "/"@) =~= joined.subrange(0, dir.len() as int + "/"@.len() as int));
    assert(joined.skip(dir.len() as int + 1) =~= base_name_of(suggested)) by {
        reveal_strlit("/");
    }
    lemma_base_name_has_no_separator(suggested);
}

/// The base name of a path never holds a path separator.
proof fn lemma_base_name_has_no_separator(p: Seq<char>)
    ensures
        forall|i: int|
            0 <= i < base_name_of(p).len() ==> !crate::strutil::is_path_sep(
                #[trigger] base_name_of(p)[i],
            ),
    decreases p.len(),
{
    if p.len() > 0 && !crate::strutil::is_path_sep(p.last()) {
        lemma_base_name_has_no_separator(p.drop_last());
        let inner = base_name_of(p.drop_last());
        assert(base_name_of(p) == inner.push(p.last()));
        assert forall|i: int|
            0 <= i < base_name_of(p).len() implies !crate::strutil::is_path_sep(
            base_name_of(p)[i],
        ) by {
            if i < inner.len() {
                assert(base_name_of(p)[i] == inner[i]);
            } else {
                assert(base_name_of(p)[i] == p.last());
            }
        }
    }
}

/// Relies on `dirs::download_dir`: the user's download directory, or `None`
/// when the platform defines none. The value depends on the environment, so
/// nothing is promised of it.
#[verifier::external_body]
fn system_download_dir() -> (r: Option<String>) {
    dirs::download_dir().map(|p| p.display().to_string())
}

/// A handled download start: the plan for the webview, the event for the
/// loop, and the download directory the environment answered with, if any.
#[derive(Debug, Clone)]
pub struct StartedDownload {
    pub plan: DownloadPlan,
    pub event: UserEvent,
    pub resolved_dir: Option<String>,
}

/// Handles a download start against the real environment: resolves the
/// user's download directory, plans the destination as `plan_download`
/// describes — under the resolved directory when one came back, under
/// `temp_dir` when none was available — and builds the event announcing the
/// start. The download is accepted in every outcome, and the fallback is
/// taken exactly when the environment named no directory.
pub fn handle_download_started(uri: &str, suggested: &str, temp_dir: &str) -> (r: StartedDownload)
    ensures
        r.plan.accept,
        r.plan.used_fallback == (r.resolved_dir is None),
        r.resolved_dir matches Some(d) ==> r.plan.destination@ == joined_path(
            d@,
            base_name_of(suggested@),
        ),
        r.resolved_dir is None ==> r.plan.destination@ == joined_path(
            temp_dir@,
            base_name_of(suggested@),
        ),
        r.event matches UserEvent::DownloadStarted(u, dst) && u@ == uri@ && dst@
            == r.plan.destination@,
{
    let dir = system_download_dir();
    let plan = plan_download(suggested, &dir, temp_dir);
    let event = UserEvent::DownloadStarted(String::from_str(uri), plan.destination.clone());
    StartedDownload { plan, event, resolved_dir: dir }
}

} // verus!
