//! The wallboard configuration: a monitor selection policy and exactly
//! four view entries. Loaded once at startup and replaced wholesale on
//! every successful save; it is the single source of truth driving
//! reconciliation.

use vstd::prelude::*;
use vstd::string::StringExecFns;
use crate::text::has_prefix;
use crate::text::spec_has_prefix;

verus! {

/// How the target display is chosen.
#[derive(Debug, Clone, PartialEq, Eq, Structural)]
pub enum MonitorMode {
    Primary,
    Index,
    NameContains,
}

/// Selection policy plus its argument: an index for `Index`, a
/// case-insensitive name fragment for `NameContains`, ignored for
/// `Primary`.
#[derive(Debug, Clone, PartialEq)]
pub struct MonitorSelector {
    pub mode: MonitorMode,
    pub value: Option<String>,
}

/// One content pane: a stable id, the URL to show, and an optional
/// storage-profile name. When `profile` is absent the view's window
/// label doubles as its profile name.
#[derive(Debug, Clone, PartialEq)]
pub struct ViewConfig {
    pub id: String,
    pub url: String,
    pub profile: Option<String>,
}

/// The whole configuration: schema version, monitor selector, and
/// exactly four views in tile order.
#[derive(Debug, Clone, PartialEq)]
pub struct AppConfig {
    pub version: u8,
    pub monitor: MonitorSelector,
    pub views: [ViewConfig; 4],
}

/// The documented first-run configuration: primary display, four
/// example pages, one isolated profile per view.
pub fn default_config() -> (r: AppConfig)
    ensures
        r.version == 1,
        r.monitor.mode is Primary,
        r.monitor.value is None,
        r.views[0].id@ == "topLeft"@,
        r.views[0].url@ == "https://example.com"@,
        r.views[0].profile matches Some(p) && p@ == "view1"@,
        r.views[1].id@ == "topRight"@,
        r.views[1].url@ == "https://example.org"@,
        r.views[1].profile matches Some(p) && p@ == "view2"@,
        r.views[2].id@ == "bottomLeft"@,
        r.views[2].url@ == "https://example.net"@,
        r.views[2].profile matches Some(p) && p@ == "view3"@,
        r.views[3].id@ == "bottomRight"@,
        r.views[3].url@ == "https://www.wikipedia.org"@,
        r.views[3].profile matches Some(p) && p@ == "view4"@,
{
    AppConfig {
        version: 1,
        monitor: MonitorSelector { mode: MonitorMode::Primary, value: None },
        views: [
            ViewConfig {
                id: String::from_str("topLeft"),
                url: String::from_str("https://example.com"),
                profile: Some(String::from_str("view1")),
            },
            ViewConfig {
                id: String::from_str("topRight"),
                url: String::from_str("https://example.org"),
                profile: Some(String::from_str("view2")),
            },
            ViewConfig {
                id: String::from_str("bottomLeft"),
                url: String::from_str("https://example.net"),
                profile: Some(String::from_str("view3")),
            },
            ViewConfig {
                id: String::from_str("bottomRight"),
                url: String::from_str("https://www.wikipedia.org"),
                profile: Some(String::from_str("view4")),
            },
        ],
    }
}

/// The URL starts with the plain or the secure web scheme.
pub open spec fn spec_is_http_url(u: Seq<char>) -> bool {
    spec_has_prefix(u, "http://"@) || spec_has_prefix(u, "https://"@)
}

/// Decides whether `u` carries an `http://` or `https://` prefix.
pub fn is_http_url(u: &str) -> (r: bool)
    ensures
        r == spec_is_http_url(u@),
{
    has_prefix(u, "http://") || has_prefix(u, "https://")
}

/// Every view URL of `c` carries a web scheme prefix.
pub open spec fn spec_views_all_http(c: AppConfig) -> bool {
    forall|i: int| 0 <= i < 4 ==> spec_is_http_url((#[trigger] c.views[i]).url@)
}

/// Why a configuration was refused at save time.
#[derive(Debug, Clone, PartialEq)]
pub enum SaveError {
    /// The named view's URL does not start with `http://` or `https://`.
    UrlMissingScheme { id: String, url: String },
}

/// Checks a configuration before it may be persisted: every view URL
/// must start with `http://` or `https://`. On failure names the first
/// offending view.
pub fn validate_config(c: &AppConfig) -> (r: Result<(), SaveError>)
    ensures
        r is Ok <==> spec_views_all_http(*c),
        r matches Err(e) ==> ({
            &&& e matches SaveError::UrlMissingScheme { id, url }
            &&& exists|i: int|
                {
                    &&& 0 <= i < 4
                    &&& !spec_is_http_url((#[trigger] c.views[i]).url@)
                    &&& id@ == c.views[i].id@
                    &&& url@ == c.views[i].url@
                    &&& forall|j: int| 0 <= j < i ==> spec_is_http_url((#[trigger] c.views[j]).url@)
                }
        }),
{
    let mut i: usize = 0;
    while i < 4
        invariant
            i <= 4,
            forall|j: int| 0 <= j < i ==> spec_is_http_url((#[trigger] c.views[j]).url@),
        decreases 4 - i,
    {
        if !is_http_url(c.views[i].url.as_str()) {
            return Err(SaveError::UrlMissingScheme {
                id: c.views[i].id.clone(),
                url: c.views[i].url.clone(),
            });
        }
        i = i + 1;
    }
    Ok(())
}

} // verus!
