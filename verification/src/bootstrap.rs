//! Bootstrap planning: from a resolved configuration to everything the
//! native side needs to build the window and the webview — validated URL,
//! geometry, user agent, per-app profile directory, and the icon candidates
//! where the platform uses them. Construction of the native objects happens
//! outside; a failed plan is fatal, as window creation cannot proceed.

use vstd::prelude::*;
use vstd::string::StrSliceExecFns;
use vstd::string::StringExecFns;
use crate::config::{AppConfig, AppConfigView, WindowSettings, WindowView};
use crate::platform::{profile_dir, profile_dir_view, system_home_dir, user_agent, user_agent_view, Platform};
use crate::icon::{icon_candidates, icon_candidates_view, md5_hex_of};
use crate::strutil::{opt_str_view, str_eq_str, strings_view};

verus! {

/// A URL the webview may be pointed at: non-empty and not the literal
/// placeholder `null`.
pub open spec fn url_acceptable(url: Seq<char>) -> bool {
    url.len() > 0 && url != "null"@
}

/// Decides whether `url` may be navigated to, exactly as `url_acceptable`
/// describes.
pub fn validate_url(url: &str) -> (ok: bool)
    ensures
        ok == url_acceptable(url@),
{
    if url.unicode_len() == 0 {
        false
    } else {
        !str_eq_str(url, "null")
    }
}

/// A platform failure that aborts bootstrap.
#[derive(Debug, Clone, Copy, PartialEq, Eq, Structural)]
pub enum BootstrapError {
    /// The configured URL is empty or the placeholder `null`.
    InvalidUrl,
    /// The platform keeps per-app state under the home directory, and the
    /// environment names none.
    MissingHomeDir,
}

/// Everything the native side needs to build the window and webview.
#[derive(Debug, Clone)]
pub struct BootstrapPlan {
    pub package_name: String,
    pub window: WindowSettings,
    pub user_agent: String,
    pub profile_dir: Option<String>,
    pub icon_candidates: Option<Vec<String>>,
}

/// The mathematical value of a `BootstrapPlan`.
pub struct BootstrapPlanView {
    pub package_name: Seq<char>,
    pub window: WindowView,
    pub user_agent: Seq<char>,
    pub profile_dir: Option<Seq<char>>,
    pub icon_candidates: Option<Seq<Seq<char>>>,
}

impl View for BootstrapPlan {
    type V = BootstrapPlanView;

    open spec fn view(&self) -> BootstrapPlanView {
        BootstrapPlanView {
            package_name: self.package_name@,
            window: self.window@,
            user_agent: self.user_agent@,
            profile_dir: opt_str_view(self.profile_dir),
            icon_candidates: match self.icon_candidates {
                Option::Some(v) => Option::Some(strings_view(v@)),
                Option::None => Option::None,
            },
        }
    }
}

/// How a configuration turns into a plan for a given home directory: an
/// unacceptable URL is rejected first; a platform that keeps per-app state
/// under the home directory fails without one; otherwise the plan carries
/// the window as configured, the platform's user agent, the profile
/// directory where the platform uses one, and the icon candidates on the
/// platform that resolves icons this way.
pub open spec fn bootstrap_plan_of(
    platform: Platform,
    cfg: AppConfigView,
    home: Option<Seq<char>>,
    exe_dir: Seq<char>,
    hash_hex: Seq<char>,
) -> Result<BootstrapPlanView, BootstrapError> {
    if !url_acceptable(cfg.window.url) {
        Result::Err(BootstrapError::InvalidUrl)
    } else if !(platform is MacOs) && home is None {
        Result::Err(BootstrapError::MissingHomeDir)
    } else {
        Result::Ok(
            BootstrapPlanView {
                package_name: cfg.package_name,
                window: cfg.window,
                user_agent: user_agent_view(platform),
                profile_dir: match home {
                    Option::Some(h) => profile_dir_view(platform, h, cfg.package_name),
                    Option::None => Option::None,
                },
                icon_candidates: if platform is Windows {
                    Option::Some(icon_candidates_view(cfg.package_name, exe_dir, hash_hex))
                } else {
                    Option::None
                },
            },
        )
    }
}

/// The mathematical value of a planning result.
pub open spec fn plan_result_view(r: Result<BootstrapPlan, BootstrapError>) -> Result<
    BootstrapPlanView,
    BootstrapError,
> {
    match r {
        Result::Ok(p) => Result::Ok(p@),
        Result::Err(e) => Result::Err(e),
    }
}

/// Plans bootstrap for a known home directory, exactly as
/// `bootstrap_plan_of` describes.
pub fn plan_for_home(
    platform: Platform,
    config: &AppConfig,
    home: &Option<String>,
    exe_dir: &str,
) -> (r: Result<BootstrapPlan, BootstrapError>)
    ensures
        plan_result_view(r) == bootstrap_plan_of(
            platform,
            config@,
            opt_str_view(*home),
            exe_dir@,
            md5_hex_of(config.package_name@),
        ),
{
    if !validate_url(config.window.url.as_str()) {
        return Err(BootstrapError::InvalidUrl);
    }
    let is_macos = match platform {
        Platform::MacOs => true,
        _ => false,
    };
    if !is_macos && home.is_none() {
        return Err(BootstrapError::MissingHomeDir);
    }
    let window = WindowSettings {
        url: config.window.url.clone(),
        width: config.window.width,
        height: config.window.height,
        resizable: config.window.resizable,
        fullscreen: config.window.fullscreen,
        transparent: config.window.transparent,
    };
    let profile = match home {
        Some(h) => profile_dir(platform, h.as_str(), config.package_name.as_str()),
        None => None,
    };
    let icons = match platform {
        Platform::Windows => Some(icon_candidates(config.package_name.as_str(), exe_dir)),
        _ => None,
    };
    Ok(
        BootstrapPlan {
            package_name: config.package_name.clone(),
            window,
            user_agent: String::from_str(user_agent(platform)),
            profile_dir: profile,
            icon_candidates: icons,
        },
    )
}

/// Plans bootstrap against the real environment: resolves the home directory
/// and plans as `bootstrap_plan_of` describes for whatever came back. An
/// unacceptable URL always fails with `InvalidUrl`; on the platform that
/// needs no home directory an acceptable URL always yields a plan.
pub fn plan_bootstrap(platform: Platform, config: &AppConfig, exe_dir: &str) -> (r: Result<
    BootstrapPlan,
    BootstrapError,
>)
    ensures
        exists|h: Option<Seq<char>>|
            plan_result_view(r) == bootstrap_plan_of(
                platform,
                config@,
                h,
                exe_dir@,
                md5_hex_of(config.package_name@),
            ),
        !url_acceptable(config@.window.url) ==> (r matches Err(e) && e
            == BootstrapError::InvalidUrl),
        url_acceptable(config@.window.url) && platform is MacOs ==> r is Ok,
{
    let home = system_home_dir();
    let r = plan_for_home(platform, config, &home, exe_dir);
    proof {
        let hv = opt_str_view(home);
        assert(plan_result_view(r) == bootstrap_plan_of(
            platform,
            config@,
            hv,
            exe_dir@,
            md5_hex_of(config.package_name@),
        ));
    }
    r
}

} // verus!
