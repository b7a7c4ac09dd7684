//! The process-wide state behind the settings surface: the current
//! configuration and the views-minimized flag, owned as a single-writer
//! cell. The host serializes access to it and passes it here by
//! mutable reference; saving validates first and leaves the state
//! untouched on rejection.

use vstd::prelude::*;
use crate::config::AppConfig;
use crate::config::SaveError;
use crate::config::spec_views_all_http;
use crate::config::spec_is_http_url;
use crate::config::validate_config;
use crate::reconcile::spec_view_only;
use crate::reconcile::view_window_labels;

verus! {

/// The mutable application state: the loaded configuration and whether
/// the view windows are currently minimized or hidden.
#[derive(Debug, Clone)]
pub struct AppState {
    pub config: AppConfig,
    pub views_minimized: bool,
}

/// Accepts `new_cfg` as the configuration exactly when every view URL
/// carries an `http://` or `https://` prefix; a rejected save leaves
/// the state untouched and names the first offending view. The caller
/// persists the accepted configuration and then triggers an apply.
pub fn save_config(state: &mut AppState, new_cfg: AppConfig) -> (r: Result<(), SaveError>)
    ensures
        r is Ok <==> spec_views_all_http(new_cfg),
        r is Ok ==> final(state).config == new_cfg && final(state).views_minimized == old(
            state,
        ).views_minimized,
        r is Err ==> *final(state) == *old(state),
        r matches Err(e) ==> ({
            &&& e matches SaveError::UrlMissingScheme { id, url }
            &&& exists|i: int|
                {
                    &&& 0 <= i < 4
                    &&& !spec_is_http_url((#[trigger] new_cfg.views[i]).url@)
                    &&& id@ == new_cfg.views[i].id@
                    &&& url@ == new_cfg.views[i].url@
                    &&& forall|j: int|
                        0 <= j < i ==> spec_is_http_url((#[trigger] new_cfg.views[j]).url@)
                }
        }),
{
    match validate_config(&new_cfg) {
        Ok(()) => {
            state.config = new_cfg;
            Ok(())
        },
        Err(e) => Err(e),
    }
}

/// How this platform takes a view window off the screen: by hiding it,
/// or by a real minimize. Resolved once per target platform.
#[derive(Debug, Clone, Copy, PartialEq, Eq, Structural)]
pub enum HideStyle {
    HideOnly,
    Minimize,
}

/// One window-system call the host must make on a view window.
#[derive(Debug, Clone, Copy, PartialEq, Eq, Structural)]
pub enum WindowOp {
    Hide,
    Minimize,
    Unminimize,
    Show,
    Focus,
}

/// The calls every view window gets when toggling: off-screen by hide
/// or minimize; back on-screen by show and focus, with an unminimize
/// first where a real minimize was used.
pub open spec fn spec_toggle_ops(want_minimize: bool, style: HideStyle) -> Seq<WindowOp> {
    if want_minimize {
        match style {
            HideStyle::HideOnly => seq![WindowOp::Hide],
            HideStyle::Minimize => seq![WindowOp::Minimize],
        }
    } else {
        match style {
            HideStyle::HideOnly => seq![WindowOp::Show, WindowOp::Focus],
            HideStyle::Minimize => seq![WindowOp::Unminimize, WindowOp::Show, WindowOp::Focus],
        }
    }
}

/// Flips the minimized flag and says what the host must do: which
/// windows to touch — exactly those with the view label prefix, in the
/// order given — and which calls to make on each.
pub fn toggle_minimize_views(
    state: &mut AppState,
    window_labels: &Vec<String>,
    style: HideStyle,
) -> (r: (Vec<String>, Vec<WindowOp>))
    ensures
        final(state).views_minimized == !old(state).views_minimized,
        final(state).config == old(state).config,
        r.0@ == spec_view_only(window_labels@),
        r.1@ == spec_toggle_ops(!old(state).views_minimized, style),
{
    let want_minimize = !state.views_minimized;
    state.views_minimized = want_minimize;
    let targets = view_window_labels(window_labels);
    let mut ops: Vec<WindowOp> = Vec::new();
    if want_minimize {
        match style {
            HideStyle::HideOnly => {
                ops.push(WindowOp::Hide);
            },
            HideStyle::Minimize => {
                ops.push(WindowOp::Minimize);
            },
        }
    } else {
        match style {
            HideStyle::HideOnly => {
                ops.push(WindowOp::Show);
                ops.push(WindowOp::Focus);
            },
            HideStyle::Minimize => {
                ops.push(WindowOp::Unminimize);
                ops.push(WindowOp::Show);
                ops.push(WindowOp::Focus);
            },
        }
    }
    proof {
        assert(ops@ =~= spec_toggle_ops(want_minimize, style));
    }
    (targets, ops)
}

} // verus!
