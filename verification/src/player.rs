//! The player's field of view: how far its vision cone reaches and how wide
//! it opens, scaled by what the player is doing.
use crate::controller::PlayerState;
use vstd::prelude::*;

verus! {

/// The reach of the vision cone at walking pace, in world units.
pub const FOW_CONE_BASE_RANGE: u32 = 400;

/// The reach of the vision circle around the player, in world units.
pub const FOW_CIRCLE_BASE_RANGE: u32 = 120;

/// The cone's scale while idle, in percent: standing still widens the view.
pub const FOW_IDLE_MULTIPLIER_PERCENT: u32 = 120;

/// The cone's scale while walking, in percent.
pub const FOW_WALKING_MULTIPLIER_PERCENT: u32 = 100;

/// The cone's scale while running, in percent: running narrows the view.
pub const FOW_RUNNING_MULTIPLIER_PERCENT: u32 = 90;

/// The scale of the vision cone's range and angle in each state, in percent.
pub open spec fn vision_percent_of(state: PlayerState) -> u32 {
    match state {
        PlayerState::Idle => FOW_IDLE_MULTIPLIER_PERCENT,
        PlayerState::Walking => FOW_WALKING_MULTIPLIER_PERCENT,
        PlayerState::Running => FOW_RUNNING_MULTIPLIER_PERCENT,
    }
}

/// The percentage by which both the range and the angle of the vision cone
/// are scaled in the given state.
pub fn vision_multiplier_percent(state: PlayerState) -> (percent: u32)
    ensures
        percent == vision_percent_of(state),
        state == PlayerState::Idle ==> percent == 120,
        state == PlayerState::Walking ==> percent == 100,
        state == PlayerState::Running ==> percent == 90,
{
    match state {
        PlayerState::Idle => FOW_IDLE_MULTIPLIER_PERCENT,
        PlayerState::Walking => FOW_WALKING_MULTIPLIER_PERCENT,
        PlayerState::Running => FOW_RUNNING_MULTIPLIER_PERCENT,
    }
}

/// The faster the player moves, the narrower it sees: idle vision exceeds
/// the walking base, which exceeds running vision.
pub proof fn law_vision_narrows_with_pace()
    ensures
        vision_percent_of(PlayerState::Idle) > vision_percent_of(PlayerState::Walking),
        vision_percent_of(PlayerState::Walking) > vision_percent_of(PlayerState::Running),
        vision_percent_of(PlayerState::Walking) == 100,
{
}

/// The vision cone is scaled by 1.2 while idle, kept as is while walking and
/// scaled by 0.9 while running.
pub proof fn law_vision_percentages()
    ensures
        vision_percent_of(PlayerState::Idle) == 120,
        vision_percent_of(PlayerState::Walking) == 100,
        vision_percent_of(PlayerState::Running) == 90,
{
}

} // verus!
