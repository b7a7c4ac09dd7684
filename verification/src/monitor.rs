//! Monitor resolution: given the selection policy from the configuration
//! and the live set of connected displays, pick exactly one target
//! display, or fail. Enumeration order comes from the host and is not
//! re-sorted here; `Index` and `NameContains` ties go by that order.

use vstd::prelude::*;
use vstd::string::StringExecFns;
use crate::config::AppConfig;
use crate::config::MonitorMode;
use crate::config::MonitorSelector;
use crate::display::DisplayDescriptor;
use crate::display::same_display;
use crate::display::spec_same_display;
use crate::text::lowered;
use crate::text::parse_index;
use crate::text::spec_all_digits;
use crate::text::spec_contains_seq;
use crate::text::spec_dec_digits;
use crate::text::spec_dec_value;
use crate::text::str_contains;
use crate::text::to_lower;
use crate::text::usize_to_string;

verus! {

/// Why no display could be selected.
#[derive(Debug, Clone, PartialEq)]
pub enum SelectError {
    /// `Primary` was asked for but the host reports no primary display.
    NoPrimaryDisplay,
    /// `Index` was asked for but the value — required for this mode —
    /// is absent or does not read as a non-negative integer that fits
    /// the platform.
    InvalidIndexValue,
    /// `Index` was asked for with an index at or past the end of the
    /// enumeration; carries the parsed index.
    MonitorIndexOutOfRange(usize),
    /// `NameContains` was asked for and no display name contains the
    /// needle; carries the lowercased needle.
    NoMatchingMonitorName(String),
}

/// The raw needle that `NameContains` selection lowercases: the selector
/// value, or the empty string when it is absent.
pub open spec fn spec_needle_source(sel: MonitorSelector) -> Seq<char> {
    match sel.value {
        Some(v) => v@,
        None => ""@,
    }
}

/// The name a display is matched under: the reported name, or the empty
/// string when the host reports none.
pub open spec fn spec_display_name(d: DisplayDescriptor) -> Seq<char> {
    match d.name {
        Some(n) => n@,
        None => ""@,
    }
}

/// The display's lowercased name contains the (lowercased) needle.
pub open spec fn spec_name_matches(d: DisplayDescriptor, needle: Seq<char>) -> bool {
    spec_contains_seq(lowered(spec_display_name(d)), needle)
}

/// The selection policy finds a display in `displays`/`primary`.
pub open spec fn spec_selection_ok(
    sel: MonitorSelector,
    displays: Seq<DisplayDescriptor>,
    primary: Option<DisplayDescriptor>,
) -> bool {
    match sel.mode {
        MonitorMode::Primary => primary is Some,
        MonitorMode::Index => {
            &&& sel.value matches Some(v)
            &&& spec_all_digits(v@)
            &&& spec_dec_value(v@) <= usize::MAX
            &&& spec_dec_value(v@) < displays.len()
        },
        MonitorMode::NameContains => exists|i: int|
            0 <= i < displays.len() && spec_name_matches(
                #[trigger] displays[i],
                lowered(spec_needle_source(sel)),
            ),
    }
}

/// `d` is the display the policy selects: the primary, the indexed one,
/// or the first whose lowercased name contains the needle.
pub open spec fn spec_selected_display(
    sel: MonitorSelector,
    displays: Seq<DisplayDescriptor>,
    primary: Option<DisplayDescriptor>,
    d: DisplayDescriptor,
) -> bool {
    match sel.mode {
        MonitorMode::Primary => primary matches Some(p) && d == p,
        MonitorMode::Index => sel.value matches Some(v) && d == displays[spec_dec_value(v@)],
        MonitorMode::NameContains => exists|i: int|
            {
                let needle = lowered(spec_needle_source(sel));
                &&& 0 <= i < displays.len()
                &&& spec_name_matches(#[trigger] displays[i], needle)
                &&& d == displays[i]
                &&& forall|j: int| 0 <= j < i ==> !spec_name_matches(#[trigger] displays[j], needle)
            },
    }
}

/// The error that a failed selection must report.
pub open spec fn spec_selection_error(
    sel: MonitorSelector,
    displays: Seq<DisplayDescriptor>,
    primary: Option<DisplayDescriptor>,
    e: SelectError,
) -> bool {
    match sel.mode {
        MonitorMode::Primary => e is NoPrimaryDisplay,
        MonitorMode::Index => match sel.value {
            None => e is InvalidIndexValue,
            Some(v) => if !spec_all_digits(v@) || spec_dec_value(v@) > usize::MAX {
                e is InvalidIndexValue
            } else {
                e matches SelectError::MonitorIndexOutOfRange(i) && i == spec_dec_value(v@)
            },
        },
        MonitorMode::NameContains => e matches SelectError::NoMatchingMonitorName(n) && n@
            == lowered(spec_needle_source(sel)),
    }
}

/// Picks the target display for `cfg` out of the host's enumeration.
///
/// `Primary` returns the host-reported primary display. `Index`
/// requires a selector value, parses it as a non-negative integer and
/// indexes the enumeration; an absent value fails like an unparsable
/// one. `NameContains` lowercases the selector value (absent reads as
/// empty) and returns the first display whose lowercased name contains
/// it as a substring. Any failure aborts the surrounding
/// reconciliation.
pub fn select_monitor(
    cfg: &AppConfig,
    displays: &Vec<DisplayDescriptor>,
    primary: &Option<DisplayDescriptor>,
) -> (r: Result<DisplayDescriptor, SelectError>)
    ensures
        r is Ok <==> spec_selection_ok(cfg.monitor, displays@, *primary),
        r matches Ok(d) ==> spec_selected_display(cfg.monitor, displays@, *primary, d),
        r matches Ok(d) ==> ((*primary) matches Some(p) && d == p) || (exists|i: int|
            0 <= i < displays@.len() && d == #[trigger] displays@[i]),
        r matches Err(e) ==> spec_selection_error(cfg.monitor, displays@, *primary, e),
{
    match cfg.monitor.mode {
        MonitorMode::Primary => match primary {
            Some(p) => Ok(copy_display(p)),
            None => Err(SelectError::NoPrimaryDisplay),
        },
        MonitorMode::Index => match &cfg.monitor.value {
            None => Err(SelectError::InvalidIndexValue),
            Some(v) => match parse_index(v.as_str()) {
                None => Err(SelectError::InvalidIndexValue),
                Some(idx) => {
                    if idx < displays.len() {
                        Ok(copy_display(&displays[idx]))
                    } else {
                        Err(SelectError::MonitorIndexOutOfRange(idx))
                    }
                },
            },
        },
        MonitorMode::NameContains => {
            let raw: &str = match &cfg.monitor.value {
                Some(v) => v.as_str(),
                None => "",
            };
            let needle = to_lower(raw);
            let mut i: usize = 0;
            while i < displays.len()
                invariant
                    i <= displays@.len(),
                    cfg.monitor.mode is NameContains,
                    needle@ == lowered(spec_needle_source(cfg.monitor)),
                    forall|j: int|
                        0 <= j < i ==> !spec_name_matches(
                            #[trigger] displays@[j],
                            needle@,
                        ),
                decreases displays@.len() - i,
            {
                let d_i = &displays[i];
                let name: &str = match &d_i.name {
                    Some(n) => n.as_str(),
                    None => "",
                };
                proof {
                    assert(name@ == spec_display_name(displays@[i as int]));
                }
                let lowered_name = to_lower(name);
                if str_contains(lowered_name.as_str(), needle.as_str()) {
                    proof {
                        let needle_spec = lowered(spec_needle_source(cfg.monitor));
                        assert(spec_name_matches(displays@[i as int], needle_spec));
                        assert(forall|j: int|
                            0 <= j < i as int ==> !spec_name_matches(
                                #[trigger] displays@[j],
                                needle_spec,
                            ));
                        assert(spec_selection_ok(cfg.monitor, displays@, *primary));
                        assert(spec_selected_display(
                            cfg.monitor,
                            displays@,
                            *primary,
                            displays@[i as int],
                        ));
                    }
                    return Ok(copy_display(d_i));
                }
                i = i + 1;
            }
            Err(SelectError::NoMatchingMonitorName(needle))
        },
    }
}

/// Copies a descriptor field by field; the copy equals the original.
fn copy_display(d: &DisplayDescriptor) -> (r: DisplayDescriptor)
    ensures
        r == *d,
{
    DisplayDescriptor {
        x: d.x,
        y: d.y,
        width: d.width,
        height: d.height,
        name: match &d.name {
            Some(n) => Some(n.clone()),
            None => None,
        },
    }
}

/// One row of the human-readable monitor listing that the settings
/// surface shows; not used by the reconciliation core itself.
#[derive(Debug, PartialEq)]
pub struct MonitorInfo {
    pub index: usize,
    pub name: String,
    pub is_primary: bool,
    pub position: (i32, i32),
    pub size: (u32, u32),
}

/// The name a listing row shows: the reported name, or `Monitor` plus
/// the enumeration index when the host reports none.
pub open spec fn spec_listed_name(d: DisplayDescriptor, index: int) -> Seq<char> {
    match d.name {
        Some(n) => n@,
        None => "Monitor "@ + spec_dec_digits(index),
    }
}

/// Describes every connected display for the settings surface: index
/// and name, whether it is the primary (same origin and size), and its
/// position and size.
pub fn list_monitors(
    displays: &Vec<DisplayDescriptor>,
    primary: &Option<DisplayDescriptor>,
) -> (r: Vec<MonitorInfo>)
    ensures
        r@.len() == displays@.len(),
        forall|i: int|
            0 <= i < displays@.len() ==> {
                let m = #[trigger] r@[i];
                let d = displays@[i];
                &&& m.index == i
                &&& m.name@ == spec_listed_name(d, i)
                &&& m.is_primary == ((*primary) matches Some(p) && spec_same_display(p, d))
                &&& m.position.0 == d.x
                &&& m.position.1 == d.y
                &&& m.size.0 == d.width
                &&& m.size.1 == d.height
            },
{
    let mut out: Vec<MonitorInfo> = Vec::new();
    let mut i: usize = 0;
    while i < displays.len()
        invariant
            i <= displays@.len(),
            out@.len() == i,
            forall|k: int|
                0 <= k < i ==> {
                    let m = #[trigger] out@[k];
                    let d = displays@[k];
                    &&& m.index == k
                    &&& m.name@ == spec_listed_name(d, k)
                    &&& m.is_primary == ((*primary) matches Some(p) && spec_same_display(p, d))
                    &&& m.position.0 == d.x
                    &&& m.position.1 == d.y
                    &&& m.size.0 == d.width
                    &&& m.size.1 == d.height
                },
        decreases displays@.len() - i,
    {
        let d = &displays[i];
        let name: String = match &d.name {
            Some(n) => n.clone(),
            None => String::from_str("Monitor ").concat(usize_to_string(i).as_str()),
        };
        let is_primary: bool = match primary {
            Some(p) => same_display(p, d),
            None => false,
        };
        out.push(MonitorInfo {
            index: i,
            name,
            is_primary,
            position: (d.x, d.y),
            size: (d.width, d.height),
        });
        i = i + 1;
    }
    out
}

} // verus!
