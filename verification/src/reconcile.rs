//! View reconciliation: given the desired configuration, the tile
//! geometry and the labels of the windows that exist right now, decide
//! per view whether to update the window in place or to create it. The
//! decision comes out as a plan of actions; the host windowing layer
//! executes it. The update path never destroys a window — recreation is
//! reserved for the explicit rebuild path, which closes every window
//! with the view label prefix first.

use vstd::prelude::*;
use vstd::string::StringExecFns;
use crate::config::AppConfig;
use crate::config::ViewConfig;
use crate::display::DisplayDescriptor;
use crate::layout::TileRect;
use crate::layout::compute_tiles;
use crate::layout::spec_tile_fits;
use crate::layout::spec_tiles;
use crate::monitor::SelectError;
use crate::monitor::select_monitor;
use crate::monitor::spec_selected_display;
use crate::monitor::spec_selection_ok;
use crate::monitor::spec_needle_source;
use crate::config::MonitorMode;
use crate::text::has_prefix;
use crate::text::lowered;
use crate::text::spec_all_digits;
use crate::text::spec_dec_value;
use crate::text::spec_has_prefix;

verus! {

/// Whether a string parses as an absolute URL; what the `url` crate's
/// parser accepts.
pub uninterp spec fn url_accepted(s: Seq<char>) -> bool;

/// Relies on url::Url::parse: whether a string parses as an absolute
/// URL is a function of the string alone.
#[verifier::external_body]
fn url_parses(s: &str) -> (r: bool)
    ensures
        r == url_accepted(s@),
{
    url::Url::parse(s).is_ok()
}

/// The stable window label a view id derives: `view-` plus the id.
pub open spec fn spec_label_of(id: Seq<char>) -> Seq<char> {
    "view-"@ + id
}

/// The storage-profile name of a view: its configured profile, or its
/// window label when none is configured — distinct by construction, so
/// the four panes get isolated sessions unless the operator shares a
/// profile on purpose.
pub open spec fn spec_profile_of(v: ViewConfig) -> Seq<char> {
    match v.profile {
        Some(p) => p@,
        None => spec_label_of(v.id@),
    }
}

/// Builds the window label for a view id.
pub fn label_of(id: &str) -> (r: String)
    ensures
        r@ == spec_label_of(id@),
{
    String::from_str("view-").concat(id)
}

/// Law: distinct view ids derive distinct window labels.
pub proof fn lemma_label_injective(a: Seq<char>, b: Seq<char>)
    requires
        spec_label_of(a) == spec_label_of(b),
    ensures
        a == b,
{
    let p = "view-"@;
    assert((p + a).len() == (p + b).len());
    assert(a =~= (p + a).subrange(p.len() as int, (p + a).len() as int));
    assert(b =~= (p + b).subrange(p.len() as int, (p + b).len() as int));
}

/// A label occurs in the live window set.
pub open spec fn spec_live_has(live: Seq<String>, lab: Seq<char>) -> bool {
    exists|i: int| 0 <= i < live.len() && (#[trigger] live[i])@ == lab
}

/// One step of the reconciliation plan. `Update` navigates, repositions,
/// resizes and shows an existing window; `Create` makes a new
/// undecorated, non-resizable, always-on-top window bound to the named
/// storage profile, then places it on its tile.
#[derive(Debug, Clone, PartialEq)]
pub enum ViewAction {
    Update { label: String, url: String, tile: TileRect },
    Create { label: String, url: String, profile: String, tile: TileRect },
}

/// The label an action addresses.
pub open spec fn spec_action_label(a: ViewAction) -> String {
    match a {
        ViewAction::Update { label, .. } => label,
        ViewAction::Create { label, .. } => label,
    }
}

/// The action that view `v` on tile `t` must get, given the live set:
/// an update when its window label is live, a creation otherwise.
pub open spec fn spec_action_for(a: ViewAction, v: ViewConfig, t: TileRect, live: Seq<String>) -> bool {
    if spec_live_has(live, spec_label_of(v.id@)) {
        &&& a matches ViewAction::Update { label, url, tile }
        &&& label@ == spec_label_of(v.id@)
        &&& url == v.url
        &&& tile == t
    } else {
        &&& a matches ViewAction::Create { label, url, profile, tile }
        &&& label@ == spec_label_of(v.id@)
        &&& url == v.url
        &&& profile@ == spec_profile_of(v)
        &&& tile == t
    }
}

/// `plan` holds the actions of the first `n` views, in view order.
pub open spec fn spec_plan_prefix(
    plan: Seq<ViewAction>,
    views: Seq<ViewConfig>,
    tiles: Seq<TileRect>,
    live: Seq<String>,
    n: int,
) -> bool {
    &&& plan.len() == n
    &&& forall|i: int|
        0 <= i < n ==> #[trigger] spec_action_for(plan[i], views[i], tiles[i], live)
}

/// `plan` is the full reconciliation plan for `views` on `tiles`
/// against the live window set: one action per view, in view order.
pub open spec fn spec_plan_for(
    plan: Seq<ViewAction>,
    views: Seq<ViewConfig>,
    tiles: Seq<TileRect>,
    live: Seq<String>,
) -> bool {
    spec_plan_prefix(plan, views, tiles, live, views.len() as int)
}

/// Every view URL parses as an absolute URL.
pub open spec fn spec_views_accepted(views: Seq<ViewConfig>) -> bool {
    forall|i: int| 0 <= i < views.len() ==> url_accepted((#[trigger] views[i]).url@)
}

/// Why a reconciliation attempt failed. All are fatal to the attempt;
/// windows already converged stay as they are.
#[derive(Debug, Clone, PartialEq)]
pub enum ReconcileError {
    /// The policy asked for the primary display and the host reports none.
    NoPrimaryDisplay,
    /// The index selector value does not read as a non-negative integer.
    InvalidIndexValue,
    /// The parsed index is at or past the end of the enumeration.
    MonitorIndexOutOfRange(usize),
    /// No display name contains the (lowercased) needle.
    NoMatchingMonitorName(String),
    /// The named view's URL does not parse as an absolute URL; aborts
    /// the whole apply, since a malformed URL is a config integrity
    /// problem.
    InvalidViewUrl { id: String, url: String },
    /// A host windowing call failed; carries the host's message.
    WindowOperationFailed(String),
}

/// A failed plan stops at the first view, in array order, whose URL
/// does not parse: `e` names that view, and the actions cover exactly
/// the views before it — those are still carried out; there is no
/// rollback.
pub open spec fn spec_failed_plan(
    plan: Seq<ViewAction>,
    views: Seq<ViewConfig>,
    tiles: Seq<TileRect>,
    live: Seq<String>,
    e: ReconcileError,
) -> bool {
    exists|k: int|
        {
            &&& 0 <= k < views.len()
            &&& !url_accepted((#[trigger] views[k]).url@)
            &&& forall|j: int| 0 <= j < k ==> url_accepted((#[trigger] views[j]).url@)
            &&& e == (ReconcileError::InvalidViewUrl { id: views[k].id, url: views[k].url })
            &&& spec_plan_prefix(plan, views, tiles, live, k)
        }
}

/// The live set holds `lab`.
fn live_contains(live: &Vec<String>, lab: &String) -> (r: bool)
    ensures
        r == spec_live_has(live@, lab@),
{
    let mut i: usize = 0;
    while i < live.len()
        invariant
            i <= live@.len(),
            forall|j: int| 0 <= j < i ==> (#[trigger] live@[j])@ != lab@,
        decreases live@.len() - i,
    {
        if lab.eq(&live[i]) {
            proof {
                assert((live@[i as int])@ == lab@);
            }
            return true;
        }
        i = i + 1;
    }
    false
}

/// Decides, view by view in array order, whether to update the existing
/// window or to create one, checking each view's URL as it goes. On the
/// first view whose URL does not parse it stops and reports the error,
/// but still hands back the actions planned for the views before it:
/// the host carries those out and then surfaces the error, leaving the
/// earlier views converged and the rest untouched — no rollback.
pub fn plan_apply(
    views: &[ViewConfig; 4],
    tiles: &[TileRect; 4],
    live_labels: &Vec<String>,
) -> (r: (Vec<ViewAction>, Option<ReconcileError>))
    ensures
        r.1 is None <==> spec_views_accepted(views@),
        r.1 is None ==> spec_plan_for(r.0@, views@, tiles@, live_labels@),
        r.1 matches Some(e) ==> spec_failed_plan(r.0@, views@, tiles@, live_labels@, e),
{
    let mut plan: Vec<ViewAction> = Vec::new();
    let mut i: usize = 0;
    while i < 4
        invariant
            i <= 4,
            plan@.len() == i,
            forall|j: int| 0 <= j < i ==> url_accepted((#[trigger] views@[j]).url@),
            forall|j: int|
                0 <= j < i ==> #[trigger] spec_action_for(
                    plan@[j],
                    views@[j],
                    tiles@[j],
                    live_labels@,
                ),
        decreases 4 - i,
    {
        let v = &views[i];
        if !url_parses(v.url.as_str()) {
            let failure = ReconcileError::InvalidViewUrl { id: v.id.clone(), url: v.url.clone() };
            return (plan, Some(failure));
        }
        let label = label_of(v.id.as_str());
        let tile = tiles[i];
        if live_contains(live_labels, &label) {
            plan.push(ViewAction::Update { label, url: v.url.clone(), tile });
        } else {
            let profile: String = match &v.profile {
                Some(p) => p.clone(),
                None => label.clone(),
            };
            plan.push(ViewAction::Create { label, url: v.url.clone(), profile, tile });
        }
        i = i + 1;
    }
    (plan, None)
}

/// The outcome of planning one apply cycle: the target display, the
/// per-view actions to carry out, and — when a view URL failed to
/// parse — the error to surface once the actions before it have run.
#[derive(Debug, PartialEq)]
pub struct ReconcilePlan {
    pub monitor: DisplayDescriptor,
    pub actions: Vec<ViewAction>,
    pub failure: Option<ReconcileError>,
}

/// The error a failed monitor selection turns into at the
/// reconciliation level.
pub open spec fn spec_selection_failure(
    cfg: AppConfig,
    displays: Seq<DisplayDescriptor>,
    e: ReconcileError,
) -> bool {
    match cfg.monitor.mode {
        MonitorMode::Primary => e is NoPrimaryDisplay,
        MonitorMode::Index => match cfg.monitor.value {
            None => e is InvalidIndexValue,
            Some(v) => if !spec_all_digits(v@) || spec_dec_value(v@) > usize::MAX {
                e is InvalidIndexValue
            } else {
                e matches ReconcileError::MonitorIndexOutOfRange(i) && i == spec_dec_value(v@)
            },
        },
        MonitorMode::NameContains => e matches ReconcileError::NoMatchingMonitorName(n) && n@
            == lowered(spec_needle_source(cfg.monitor)),
    }
}

/// Lifts a monitor-selection error into the reconciliation error space.
fn widen_select_error(e: SelectError) -> (r: ReconcileError)
    ensures
        match e {
            SelectError::NoPrimaryDisplay => r is NoPrimaryDisplay,
            SelectError::InvalidIndexValue => r is InvalidIndexValue,
            SelectError::MonitorIndexOutOfRange(i) => r == ReconcileError::MonitorIndexOutOfRange(
                i,
            ),
            SelectError::NoMatchingMonitorName(n) => r == ReconcileError::NoMatchingMonitorName(n),
        },
{
    match e {
        SelectError::NoPrimaryDisplay => ReconcileError::NoPrimaryDisplay,
        SelectError::InvalidIndexValue => ReconcileError::InvalidIndexValue,
        SelectError::MonitorIndexOutOfRange(i) => ReconcileError::MonitorIndexOutOfRange(i),
        SelectError::NoMatchingMonitorName(n) => ReconcileError::NoMatchingMonitorName(n),
    }
}

/// One idempotent apply cycle: resolve the target display, compute the
/// four tiles, and plan the per-view actions against the live window
/// set. A failed selection returns an error and plans nothing; a
/// malformed view URL still yields the actions for the views before it,
/// with the error carried in the plan. Called at startup, after every
/// successful save, and on demand.
pub fn plan_reconcile(
    cfg: &AppConfig,
    displays: &Vec<DisplayDescriptor>,
    primary: &Option<DisplayDescriptor>,
    live_labels: &Vec<String>,
) -> (r: Result<ReconcilePlan, ReconcileError>)
    requires
        forall|i: int| 0 <= i < displays@.len() ==> spec_tile_fits(#[trigger] displays@[i]),
        (*primary) matches Some(p) ==> spec_tile_fits(p),
    ensures
        r is Ok <==> spec_selection_ok(cfg.monitor, displays@, *primary),
        r matches Ok(pl) ==> {
            &&& spec_selected_display(cfg.monitor, displays@, *primary, pl.monitor)
            &&& (pl.failure is None <==> spec_views_accepted(cfg.views@))
            &&& (pl.failure is None ==> spec_plan_for(
                pl.actions@,
                cfg.views@,
                spec_tiles(pl.monitor),
                live_labels@,
            ))
            &&& (pl.failure matches Some(e) ==> spec_failed_plan(
                pl.actions@,
                cfg.views@,
                spec_tiles(pl.monitor),
                live_labels@,
                e,
            ))
        },
        r matches Err(e) ==> spec_selection_failure(*cfg, displays@, e),
{
    let monitor = match select_monitor(cfg, displays, primary) {
        Ok(m) => m,
        Err(e) => {
            return Err(widen_select_error(e));
        },
    };
    proof {
        if exists|i: int| 0 <= i < displays@.len() && monitor == #[trigger] displays@[i] {
            let k = choose|i: int| 0 <= i < displays@.len() && monitor == #[trigger] displays@[i];
            assert(spec_tile_fits(displays@[k]));
        }
    }
    let tiles = compute_tiles(&monitor);
    let (actions, failure) = plan_apply(&cfg.views, &tiles, live_labels);
    Ok(ReconcilePlan { monitor, actions, failure })
}

/// The label of a window that belongs to a view pane.
pub open spec fn spec_is_view_label(l: Seq<char>) -> bool {
    spec_has_prefix(l, "view-"@)
}

/// The sublist of labels that carry the view prefix, in order.
pub open spec fn spec_view_only(ls: Seq<String>) -> Seq<String>
    decreases ls.len(),
{
    if ls.len() == 0 {
        Seq::empty()
    } else {
        let rest = spec_view_only(ls.drop_last());
        if spec_is_view_label(ls.last()@) {
            rest.push(ls.last())
        } else {
            rest
        }
    }
}

/// Picks out, in order, the window labels that belong to view panes.
/// The rebuild path closes exactly these windows before reapplying.
pub fn view_window_labels(labels: &Vec<String>) -> (r: Vec<String>)
    ensures
        r@ == spec_view_only(labels@),
{
    let mut out: Vec<String> = Vec::new();
    let mut i: usize = 0;
    while i < labels.len()
        invariant
            i <= labels@.len(),
            out@ == spec_view_only(labels@.subrange(0, i as int)),
        decreases labels@.len() - i,
    {
        let l = &labels[i];
        if has_prefix(l.as_str(), "view-") {
            out.push(l.clone());
        }
        proof {
            assert(labels@.subrange(0, i + 1).drop_last() =~= labels@.subrange(0, i as int));
            assert(labels@.subrange(0, i + 1).last() == labels@[i as int]);
        }
        i = i + 1;
    }
    proof {
        assert(labels@.subrange(0, labels@.len() as int) =~= labels@);
    }
    out
}

/// The live label set after a plan has run: every window the plan
/// addressed exists, because updates found their window and creations
/// made theirs.
pub open spec fn spec_live_after(live: Seq<String>, plan: Seq<ViewAction>) -> Seq<String> {
    live + plan.map_values(|a: ViewAction| spec_action_label(a))
}

/// Law (idempotence): a second apply with an unchanged configuration
/// and no outside window closures plans no creation at all — every
/// action of the second plan is an in-place update.
pub proof fn lemma_apply_idempotent(
    views: Seq<ViewConfig>,
    tiles: Seq<TileRect>,
    live: Seq<String>,
    plan1: Seq<ViewAction>,
    plan2: Seq<ViewAction>,
)
    requires
        spec_plan_for(plan1, views, tiles, live),
        spec_plan_for(plan2, views, tiles, spec_live_after(live, plan1)),
    ensures
        forall|k: int| 0 <= k < plan2.len() ==> (#[trigger] plan2[k]) is Update,
{
    assert forall|k: int| 0 <= k < plan2.len() implies (#[trigger] plan2[k]) is Update by {
        let lab = spec_label_of(views[k].id@);
        let l2 = spec_live_after(live, plan1);
        assert(spec_action_for(plan1[k], views[k], tiles[k], live));
        assert(l2[live.len() + k] == spec_action_label(plan1[k]));
        assert((l2[live.len() + k])@ == lab);
        assert(spec_live_has(l2, lab));
        assert(spec_action_for(plan2[k], views[k], tiles[k], l2));
    }
}

/// Law (isolated update): when every view's window is live and the four
/// ids are distinct, the plan is pure in-place updates, and the action
/// at position `k` is the only one addressed to view `k`'s label — so
/// editing one view's URL and reapplying touches exactly that window
/// and creates nothing.
pub proof fn lemma_reapply_updates_exactly_one(
    views: Seq<ViewConfig>,
    tiles: Seq<TileRect>,
    live: Seq<String>,
    plan: Seq<ViewAction>,
    k: int,
)
    requires
        spec_plan_for(plan, views, tiles, live),
        forall|i: int|
            0 <= i < views.len() ==> spec_live_has(
                live,
                spec_label_of((#[trigger] views[i]).id@),
            ),
        forall|i: int, j: int|
            0 <= i < j < views.len() ==> (#[trigger] views[i]).id@ != (#[trigger] views[j]).id@,
        0 <= k < views.len(),
    ensures
        plan[k] matches ViewAction::Update { label, url, tile } && label@ == spec_label_of(
            views[k].id@,
        ) && url == views[k].url && tile == tiles[k],
        forall|i: int|
            0 <= i < plan.len() && i != k ==> (spec_action_label(#[trigger] plan[i]))@
                != spec_label_of(views[k].id@),
        forall|i: int| 0 <= i < plan.len() ==> !((#[trigger] plan[i]) is Create),
{
    assert(spec_action_for(plan[k], views[k], tiles[k], live));
    assert forall|i: int|
        0 <= i < plan.len() && i != k implies (spec_action_label(#[trigger] plan[i]))@
        != spec_label_of(views[k].id@) by {
        assert(spec_action_for(plan[i], views[i], tiles[i], live));
        if (spec_action_label(plan[i]))@ == spec_label_of(views[k].id@) {
            assert(spec_label_of(views[i].id@) == spec_label_of(views[k].id@));
            lemma_label_injective(views[i].id@, views[k].id@);
            if i < k {
                assert(views[i].id@ != views[k].id@);
            } else {
                assert(views[k].id@ != views[i].id@);
            }
            assert(false);
        }
    }
    assert forall|i: int| 0 <= i < plan.len() implies !((#[trigger] plan[i]) is Create) by {
        assert(spec_action_for(plan[i], views[i], tiles[i], live));
    }
}

} // verus!
