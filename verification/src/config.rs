//! Manifest resolution: the bundled JSON manifest names the application and
//! (optionally) a first window; resolution turns that into the package name
//! used for per-user directories and the exact window parameters, or into a
//! fatal configuration error.

use vstd::prelude::*;
use vstd::string::StringExecFns;

verus! {

/// Window parameters carried as plain values: the target URL, the inner size
/// in whole pixels, and the three window flags.
#[derive(Debug, Clone)]
pub struct WindowSettings {
    pub url: String,
    pub width: u64,
    pub height: u64,
    pub resizable: bool,
    pub fullscreen: bool,
    pub transparent: bool,
}

/// The mathematical value of a `WindowSettings`.
pub struct WindowView {
    pub url: Seq<char>,
    pub width: int,
    pub height: int,
    pub resizable: bool,
    pub fullscreen: bool,
    pub transparent: bool,
}

impl View for WindowSettings {
    type V = WindowView;

    open spec fn view(&self) -> WindowView {
        WindowView {
            url: self.url@,
            width: self.width as int,
            height: self.height as int,
            resizable: self.resizable,
            fullscreen: self.fullscreen,
            transparent: self.transparent,
        }
    }
}

/// What the manifest document holds once parsed: the declared product name,
/// if any, and the first window entry, if any.
#[derive(Debug, Clone)]
pub struct RawManifest {
    pub product_name: Option<String>,
    pub window: Option<WindowSettings>,
}

/// The mathematical value of a `RawManifest`.
pub struct ManifestView {
    pub product_name: Option<Seq<char>>,
    pub window: Option<WindowView>,
}

impl View for RawManifest {
    type V = ManifestView;

    open spec fn view(&self) -> ManifestView {
        ManifestView {
            product_name: match self.product_name {
                Option::Some(s) => Option::Some(s@),
                Option::None => Option::None,
            },
            window: match self.window {
                Option::Some(w) => Option::Some(w@),
                Option::None => Option::None,
            },
        }
    }
}

/// A configuration failure that leaves nothing to show a window for.
#[derive(Debug, Clone, Copy, PartialEq, Eq, Structural)]
pub enum ConfigError {
    /// The manifest text is not a well-formed manifest document.
    ManifestUnreadable,
    /// The manifest declares no product name.
    MissingProductName,
}

/// The resolved configuration: the lower-cased package name and the window
/// parameters to build with.
#[derive(Debug, Clone)]
pub struct AppConfig {
    pub package_name: String,
    pub window: WindowSettings,
}

/// The mathematical value of an `AppConfig`.
pub struct AppConfigView {
    pub package_name: Seq<char>,
    pub window: WindowView,
}

impl View for AppConfig {
    type V = AppConfigView;

    open spec fn view(&self) -> AppConfigView {
        AppConfigView { package_name: self.package_name@, window: self.window@ }
    }
}

/// What Unicode lowercasing returns on a given string; a function of the
/// characters alone.
pub uninterp spec fn lowercased(s: Seq<char>) -> Seq<char>;

/// Relies on `serde_json::from_str` deserializing a
/// `tauri_utils::config::Config`: a JSON document with a
/// `package.productName` string and a `tauri.windows` list whose entries
/// default to url `index.html`, 800 by 600, resizable, not fullscreen, not
/// transparent. The outcome can depend on more than the text — the
/// `package.version` field may name a file the deserializer reads from disk
/// — so nothing is promised of it; resolution of whatever comes back is
/// specified at `resolve_config`. The window size is carried on as whole
/// pixels.
#[verifier::external_body]
fn parse_manifest(text: &str) -> (r: Option<RawManifest>) {
    let config: tauri_utils::config::Config = match serde_json::from_str(text) {
        Ok(c) => c,
        Err(_) => return None,
    };
    let window = config.tauri.windows.first().map(|w| WindowSettings {
        url: w.url.to_string(),
        width: w.width as u64,
        height: w.height as u64,
        resizable: w.resizable,
        fullscreen: w.fullscreen,
        transparent: w.transparent,
    });
    Some(RawManifest { product_name: config.package.product_name.clone(), window })
}

/// Relies on `str::to_lowercase` of std: the result is a function of the
/// characters alone.
#[verifier::external_body]
fn to_lower(s: &str) -> (r: String)
    ensures
        r@ == lowercased(s@),
{
    s.to_lowercase()
}

/// The window used when the manifest names none.
pub open spec fn default_window_view() -> WindowView {
    WindowView {
        url: "index.html"@,
        width: 800,
        height: 600,
        resizable: true,
        fullscreen: false,
        transparent: false,
    }
}

/// The window settings used when the manifest names no window.
pub fn default_window() -> (w: WindowSettings)
    ensures
        w@ == default_window_view(),
{
    WindowSettings {
        url: String::from_str("index.html"),
        width: 800,
        height: 600,
        resizable: true,
        fullscreen: false,
        transparent: false,
    }
}

/// How a parsed manifest resolves: an unreadable manifest and a missing
/// product name are fatal; otherwise the package name is the lower-cased
/// product name, and a missing window entry falls back to the default window.
pub open spec fn resolved_of(raw: Option<ManifestView>) -> Result<AppConfigView, ConfigError> {
    match raw {
        Option::None => Result::Err(ConfigError::ManifestUnreadable),
        Option::Some(m) => match m.product_name {
            Option::None => Result::Err(ConfigError::MissingProductName),
            Option::Some(p) => Result::Ok(
                AppConfigView {
                    package_name: lowercased(p),
                    window: match m.window {
                        Option::Some(w) => w,
                        Option::None => default_window_view(),
                    },
                },
            ),
        },
    }
}

/// The mathematical value of a resolution result.
pub open spec fn config_result_view(r: Result<AppConfig, ConfigError>) -> Result<
    AppConfigView,
    ConfigError,
> {
    match r {
        Result::Ok(c) => Result::Ok(c@),
        Result::Err(e) => Result::Err(e),
    }
}

/// The mathematical value of an optional parsed manifest.
pub open spec fn opt_manifest_view(raw: Option<RawManifest>) -> Option<ManifestView> {
    match raw {
        Option::Some(m) => Option::Some(m@),
        Option::None => Option::None,
    }
}

/// Resolves a parsed manifest exactly as `resolved_of` describes.
pub fn resolve_config(raw: Option<RawManifest>) -> (r: Result<AppConfig, ConfigError>)
    ensures
        config_result_view(r) == resolved_of(opt_manifest_view(raw)),
{
    match raw {
        None => Err(ConfigError::ManifestUnreadable),
        Some(m) => match m.product_name {
            None => Err(ConfigError::MissingProductName),
            Some(p) => {
                let package_name = to_lower(p.as_str());
                let window = match m.window {
                    Some(w) => w,
                    None => default_window(),
                };
                Ok(AppConfig { package_name, window })
            },
        },
    }
}

/// Law: a manifest that declares a product name and a window resolves
/// successfully, and the declared window values pass through exactly; only
/// the product name is transformed, by lowercasing.
pub proof fn lemma_declared_values_pass_through(p: Seq<char>, w: WindowView)
    ensures
        resolved_of(
            Option::Some(
                ManifestView { product_name: Option::Some(p), window: Option::Some(w) },
            ),
        ) == Result::<AppConfigView, ConfigError>::Ok(
            AppConfigView { package_name: lowercased(p), window: w },
        ),
{
}

/// Law: a manifest without a product name is a fatal configuration error,
/// whatever window it declares; nothing is resolved to create a window from.
pub proof fn lemma_missing_product_name_is_fatal(w: Option<WindowView>)
    ensures
        resolved_of(Option::Some(ManifestView { product_name: Option::None, window: w }))
            == Result::<AppConfigView, ConfigError>::Err(ConfigError::MissingProductName),
{
}

/// Parses the manifest text and resolves it. The parse is an outside value
/// that can depend on the filesystem as well as the text, so the contract
/// promises only that the result is the resolution of some parsed manifest;
/// the resolution itself is exact at `resolve_config`.
pub fn load_config(manifest_text: &str) -> (r: Result<AppConfig, ConfigError>)
    ensures
        exists|raw: Option<ManifestView>| config_result_view(r) == resolved_of(raw),
{
    let raw = parse_manifest(manifest_text);
    let ghost raw_view = opt_manifest_view(raw);
    let r = resolve_config(raw);
    proof {
        assert(config_result_view(r) == resolved_of(raw_view));
    }
    r
}

} // verus!
