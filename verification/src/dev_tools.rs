//! The developer overlays: the UI debug view, the gizmos that follow it, and
//! the fog of war.
use vstd::prelude::*;

verus! {

/// Whether the UI debug view and the gizmos are shown.
#[derive(Clone, Copy, Debug, PartialEq, Eq, Structural)]
pub struct DevToolsState {
    pub ui_debug: bool,
    pub gizmos: bool,
}

/// The overlays at startup: both hidden.
pub open spec fn initial_dev_tools() -> DevToolsState {
    DevToolsState { ui_debug: false, gizmos: false }
}

/// At startup both overlays are hidden.
pub fn init_dev_tools() -> (tools: DevToolsState)
    ensures
        tools == initial_dev_tools(),
        !tools.ui_debug,
        !tools.gizmos,
{
    DevToolsState { ui_debug: false, gizmos: false }
}

/// The spec of one press of the developer toggle key: the UI debug view
/// flips and the gizmos take its new value.
pub open spec fn toggled(tools: DevToolsState) -> DevToolsState {
    DevToolsState { ui_debug: !tools.ui_debug, gizmos: !tools.ui_debug }
}

/// The spec of one press of the fog toggle key.
pub open spec fn fow_toggled(enabled: bool) -> bool {
    !enabled
}

impl DevToolsState {
    /// The toggle key flips the UI debug view, and the gizmos follow it.
    pub fn toggle_dev_tools(&mut self)
        ensures
            *final(self) == toggled(*old(self)),
            final(self).ui_debug == !old(self).ui_debug,
            final(self).gizmos == final(self).ui_debug,
    {
        self.ui_debug = !self.ui_debug;
        self.gizmos = self.ui_debug;
    }
}

/// The fog toggle key flips whether the fog of war is drawn.
pub fn toggle_fow(enabled: bool) -> (now_enabled: bool)
    ensures
        now_enabled == fow_toggled(enabled),
{
    !enabled
}

/// After any press of the toggle key the gizmos show exactly when the UI debug
/// view does, and two presses bring both back to where they stood once they
/// are in step (as they are from startup on).
pub proof fn law_toggle_dev_tools(tools: DevToolsState)
    ensures
        toggled(tools).gizmos == toggled(tools).ui_debug,
        toggled(toggled(tools)).ui_debug == tools.ui_debug,
        tools.gizmos == tools.ui_debug ==> toggled(toggled(tools)) == tools,
{
}

/// The overlays after `presses` presses of the toggle key.
pub open spec fn toggled_times(tools: DevToolsState, presses: nat) -> DevToolsState
    decreases presses,
{
    if presses == 0 {
        tools
    } else {
        toggled(toggled_times(tools, (presses - 1) as nat))
    }
}

/// After startup and any number of presses of the toggle key, the UI debug
/// view is shown exactly when the number of presses is odd, and the gizmos
/// always agree with it.
pub proof fn law_toggle_presses(presses: nat)
    ensures
        toggled_times(initial_dev_tools(), presses).ui_debug == (presses % 2 == 1),
        toggled_times(initial_dev_tools(), presses).gizmos == toggled_times(initial_dev_tools(), presses).ui_debug,
    decreases presses,
{
    if presses > 0 {
        law_toggle_presses((presses - 1) as nat);
    }
}

/// Two presses of the fog toggle key leave the fog as it was, and each press
/// changes it.
pub proof fn law_toggle_fow(enabled: bool)
    ensures
        fow_toggled(fow_toggled(enabled)) == enabled,
        fow_toggled(enabled) != enabled,
{
}

} // verus!
