//! The per-OS strategy data: which desktop platform the shell runs on, the
//! user-agent string the webview presents there, and where the per-app
//! profile directory lives.

use vstd::prelude::*;
use vstd::string::StringExecFns;
use crate::strutil::opt_str_view;

verus! {

/// The desktop platform the shell is built for.
#[derive(Debug, Clone, Copy, PartialEq, Eq, Structural)]
pub enum Platform {
    MacOs,
    Windows,
    Linux,
}

/// The fixed user-agent string presented on each platform.
pub open spec fn user_agent_view(p: Platform) -> Seq<char> {
    match p {
        Platform::MacOs
            => "Mozilla/5.0 (Macintosh; Intel Mac OS X 10_15_7) AppleWebKit/605.1.15 (KHTML, like Gecko) Version/16.1 Safari/605.1.15"@,
        Platform::Windows
            => "Mozilla/5.0 (Windows NT 10.0; Win64; x64) AppleWebKit/537.36 (KHTML, like Gecko) Chrome/108.0.0.0 Safari/537.36"@,
        Platform::Linux
            => "Mozilla/5.0 (X11; Linux x86_64) AppleWebKit/537.36 (KHTML, like Gecko) Chrome/108.0.0.0 Safari/537.36"@,
    }
}

/// Returns the user-agent string for `p`.
pub fn user_agent(p: Platform) -> (r: &'static str)
    ensures
        r@ == user_agent_view(p),
{
    match p {
        Platform::MacOs
            => "Mozilla/5.0 (Macintosh; Intel Mac OS X 10_15_7) AppleWebKit/605.1.15 (KHTML, like Gecko) Version/16.1 Safari/605.1.15",
        Platform::Windows
            => "Mozilla/5.0 (Windows NT 10.0; Win64; x64) AppleWebKit/537.36 (KHTML, like Gecko) Chrome/108.0.0.0 Safari/537.36",
        Platform::Linux
            => "Mozilla/5.0 (X11; Linux x86_64) AppleWebKit/537.36 (KHTML, like Gecko) Chrome/108.0.0.0 Safari/537.36",
    }
}

/// Where the webview keeps its persistent per-app storage: under the roaming
/// application data on Windows, under `.config` on Linux, and nowhere on
/// macOS, where the webview manages its own storage.
pub open spec fn profile_dir_view(p: Platform, home: Seq<char>, package: Seq<char>) -> Option<
    Seq<char>,
> {
    match p {
        Platform::MacOs => Option::None,
        Platform::Windows => Option::Some(home + "/AppData/Roaming/"@ + package),
        Platform::Linux => Option::Some(home + "/.config/"@ + package),
    }
}

/// Returns the per-app profile directory for `p` under `home`.
pub fn profile_dir(p: Platform, home: &str, package: &str) -> (r: Option<String>)
    ensures
        opt_str_view(r) == profile_dir_view(p, home@, package@),
{
    match p {
        Platform::MacOs => None,
        Platform::Windows => Some(
            String::from_str(home).concat("/AppData/Roaming/").concat(package),
        ),
        Platform::Linux => Some(String::from_str(home).concat("/.config/").concat(package)),
    }
}

/// Relies on `home::home_dir`: the user's home directory, or `None` when the
/// environment names none. The value depends on the environment, so nothing
/// is promised of it.
#[verifier::external_body]
pub(crate) fn system_home_dir() -> (r: Option<String>) {
    home::home_dir().map(|p| p.display().to_string())
}

} // verus!
