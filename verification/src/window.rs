//! Per-monitor bar window configuration: the stable monitor identity and the
//! layer-shell settings a bar surface is created with. The caller applies the
//! configuration to the real surface; nothing here changes after construction.

use vstd::prelude::*;
use crate::text::dec_str;
use crate::text::u64_to_string;

verus! {

/// The identity under which a monitor's widgets are registered: the
/// compositor-reported connector name, or `monitor-<index>` when the
/// connector is unavailable.
pub open spec fn monitor_name_spec(connector: Option<Seq<char>>, index: nat) -> Seq<char> {
    match connector {
        Some(c) => c,
        None => "monitor-"@ + dec_str(index),
    }
}

/// Compose a monitor's stable identity from its connector name, falling back
/// to one synthesized from its enumeration index.
pub fn monitor_name(connector: Option<&str>, index: u32) -> (r: String)
    ensures
        connector matches Some(c) ==> r@ == monitor_name_spec(Some(c@), index as nat),
        connector is None ==> r@ == monitor_name_spec(None, index as nat),
{
    match connector {
        Some(c) => String::from_str(c),
        None => {
            let mut r = String::from_str("monitor-");
            r.append(u64_to_string(index as u64).as_str());
            proof {
                assert(r@ =~= monitor_name_spec(None, index as nat));
            }
            r
        },
    }
}

/// The application identity the process registers under.
pub fn application_id() -> (r: &'static str)
    ensures
        r@ == "com.github.sokolawesome.forgebar"@,
{
    "com.github.sokolawesome.forgebar"
}

/// How one bar surface is configured at construction: anchored across the
/// bottom edge on the top layer, reserving an exclusive zone, with a
/// three-region child whose outer margins are fixed.
pub struct BarWindowConfig {
    /// The window title: `forgebar - <monitor>`.
    pub title: String,
    /// The layer-shell namespace.
    pub namespace: &'static str,
    /// The surface sits on the top layer.
    pub layer_top: bool,
    /// Anchored to the bottom edge.
    pub anchor_bottom: bool,
    /// Anchored to the left edge.
    pub anchor_left: bool,
    /// Anchored to the right edge.
    pub anchor_right: bool,
    /// Not anchored to the top edge.
    pub anchor_top: bool,
    /// Logical pixels reserved along the anchored edge.
    pub exclusive_zone: i32,
    /// Outer margin at the start of the child container.
    pub margin_start: i32,
    /// Outer margin at the end of the child container.
    pub margin_end: i32,
    /// Outer margin above the child container.
    pub margin_top: i32,
    /// Outer margin below the child container.
    pub margin_bottom: i32,
}

/// Build the fixed configuration of one monitor's bar window.
pub fn bar_window_config(monitor_name: &str) -> (r: BarWindowConfig)
    ensures
        r.title@ == "forgebar - "@ + monitor_name@,
        r.namespace@ == "forgebar"@,
        r.layer_top,
        r.anchor_bottom,
        r.anchor_left,
        r.anchor_right,
        !r.anchor_top,
        r.exclusive_zone == 35,
        r.margin_start == 10,
        r.margin_end == 10,
        r.margin_top == 5,
        r.margin_bottom == 5,
{
    let mut title = String::from_str("forgebar - ");
    title.append(monitor_name);
    BarWindowConfig {
        title,
        namespace: "forgebar",
        layer_top: true,
        anchor_bottom: true,
        anchor_left: true,
        anchor_right: true,
        anchor_top: false,
        exclusive_zone: 35,
        margin_start: 10,
        margin_end: 10,
        margin_top: 5,
        margin_bottom: 5,
    }
}

} // verus!
