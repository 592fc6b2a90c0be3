use gameplay_core::controller::PlayerState;
use gameplay_core::dev_tools::{init_dev_tools, toggle_fow, DevToolsState};
use gameplay_core::player::{vision_multiplier_percent, FOW_CIRCLE_BASE_RANGE, FOW_CONE_BASE_RANGE};

#[test]
fn vision_scales_with_pace() {
    assert_eq!(vision_multiplier_percent(PlayerState::Idle), 120);
    assert_eq!(vision_multiplier_percent(PlayerState::Walking), 100);
    assert_eq!(vision_multiplier_percent(PlayerState::Running), 90);
    assert_eq!(FOW_CONE_BASE_RANGE, 400);
    assert_eq!(FOW_CIRCLE_BASE_RANGE, 120);
    // The percentages give exactly the multipliers 1.2 and 0.9 in single precision.
    assert_eq!(vision_multiplier_percent(PlayerState::Idle) as f32 / 100.0, 1.2f32);
    assert_eq!(vision_multiplier_percent(PlayerState::Running) as f32 / 100.0, 0.9f32);
}

#[test]
fn dev_tools_start_hidden_and_toggle_together() {
    let mut tools = init_dev_tools();
    assert_eq!(tools, DevToolsState { ui_debug: false, gizmos: false });
    tools.toggle_dev_tools();
    assert_eq!(tools, DevToolsState { ui_debug: true, gizmos: true });
    tools.toggle_dev_tools();
    assert_eq!(tools, DevToolsState { ui_debug: false, gizmos: false });
}

#[test]
fn gizmos_follow_ui_debug() {
    let mut tools = DevToolsState { ui_debug: false, gizmos: true };
    tools.toggle_dev_tools();
    assert_eq!(tools, DevToolsState { ui_debug: true, gizmos: true });
    let mut tools = DevToolsState { ui_debug: true, gizmos: false };
    tools.toggle_dev_tools();
    assert_eq!(tools, DevToolsState { ui_debug: false, gizmos: false });
}

#[test]
fn fog_toggle_flips() {
    assert!(!toggle_fow(true));
    assert!(toggle_fow(false));
    assert!(toggle_fow(toggle_fow(true)));
}

#[test]
fn many_presses_alternate() {
    let mut tools = init_dev_tools();
    for presses in 1..=7u32 {
        tools.toggle_dev_tools();
        assert_eq!(tools.ui_debug, presses % 2 == 1);
        assert_eq!(tools.gizmos, tools.ui_debug);
    }
}
