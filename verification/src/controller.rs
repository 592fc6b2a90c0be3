//! How one frame of device input becomes the player's movement state, the
//! source of its movement intent and the source of its facing.
use bevy::input::keyboard::KeyCode;
use bevy::input::ButtonInput;
use vstd::prelude::*;

verus! {

#[verifier::external_type_specification]
#[verifier::external_body]
#[verifier::reject_recursive_types(T)]
pub struct ExButtonInput<T: Clone + Eq + core::hash::Hash + Send + Sync + 'static>(ButtonInput<T>);

#[verifier::external_type_specification]
#[verifier::external_body]
pub struct ExKeyCode(KeyCode);

/// A key that steers the player.
#[derive(Clone, Copy, Debug, PartialEq, Eq, Structural)]
pub enum SteeringKey {
    ShiftLeft,
    ShiftRight,
    KeyW,
    ArrowUp,
    KeyS,
    ArrowDown,
    KeyA,
    ArrowLeft,
    KeyD,
    ArrowRight,
}

/// What a keyboard input resource holds, as far as steering goes: the
/// steering keys that are currently held.
pub uninterp spec fn held_steering_keys(input: ButtonInput<KeyCode>) -> Set<SteeringKey>;

/// Calls `ButtonInput::pressed` with the `KeyCode` of the same name as `key`:
/// whether that key is among those currently held.
#[verifier::external_body]
fn key_held(input: &ButtonInput<KeyCode>, key: SteeringKey) -> (held: bool)
    ensures
        held == held_steering_keys(*input).contains(key),
{
    input.pressed(match key {
        SteeringKey::ShiftLeft => KeyCode::ShiftLeft,
        SteeringKey::ShiftRight => KeyCode::ShiftRight,
        SteeringKey::KeyW => KeyCode::KeyW,
        SteeringKey::ArrowUp => KeyCode::ArrowUp,
        SteeringKey::KeyS => KeyCode::KeyS,
        SteeringKey::ArrowDown => KeyCode::ArrowDown,
        SteeringKey::KeyA => KeyCode::KeyA,
        SteeringKey::ArrowLeft => KeyCode::ArrowLeft,
        SteeringKey::KeyD => KeyCode::KeyD,
        SteeringKey::ArrowRight => KeyCode::ArrowRight,
    })
}

/// What the player is doing: standing, walking or running.
#[derive(Clone, Copy, Debug, PartialEq, Eq, Structural)]
pub enum PlayerState {
    Idle,
    Walking,
    Running,
}

impl Default for PlayerState {
    /// A state without further input is walking.
    fn default() -> (state: Self)
        ensures
            state == PlayerState::Walking,
    {
        PlayerState::Walking
    }
}

/// What one connected gamepad reports this frame: whether its run trigger is
/// held, and whether each stick is pushed past the dead zone.
#[derive(Clone, Copy, Debug, PartialEq, Eq, Structural)]
pub struct GamepadReading {
    pub run_held: bool,
    pub move_stick_active: bool,
    pub aim_stick_active: bool,
}

/// Which of the keys that steer the player are held this frame.
#[derive(Clone, Copy, Debug, PartialEq, Eq, Structural)]
pub struct KeyboardReading {
    pub shift_left: bool,
    pub shift_right: bool,
    pub key_w: bool,
    pub arrow_up: bool,
    pub key_s: bool,
    pub arrow_down: bool,
    pub key_a: bool,
    pub arrow_left: bool,
    pub key_d: bool,
    pub arrow_right: bool,
}

/// A direction on the keyboard grid: each component is -1, 0 or 1, with `y`
/// pointing up.
#[derive(Clone, Copy, Debug, PartialEq, Eq, Structural)]
pub struct KeyDirection {
    pub x: i8,
    pub y: i8,
}

/// Where this frame's movement intent comes from.
#[derive(Clone, Copy, Debug, PartialEq, Eq, Structural)]
pub enum IntentSource {
    /// No input asks for movement: the intent is the zero vector.
    Still,
    /// The move stick of the gamepad at this index.
    Gamepad(usize),
    /// The keyboard, in this (non-zero) direction, normalized by the caller.
    Keyboard(KeyDirection),
}

/// Where this frame's facing comes from.
#[derive(Clone, Copy, Debug, PartialEq, Eq, Structural)]
pub enum FacingSource {
    /// The previous facing is kept.
    Unchanged,
    /// The aim stick of the gamepad at this index.
    Gamepad(usize),
    /// The direction from the player to the cursor in the world.
    Cursor,
}

/// The outcome of one frame of input.
#[derive(Clone, Copy, Debug, PartialEq, Eq, Structural)]
pub struct InputDecision {
    pub state: PlayerState,
    pub intent: IntentSource,
    pub facing: FacingSource,
}

/// The keyboard reading for a set of held steering keys.
pub open spec fn keyboard_reading_of(held: Set<SteeringKey>) -> KeyboardReading {
    KeyboardReading {
        shift_left: held.contains(SteeringKey::ShiftLeft),
        shift_right: held.contains(SteeringKey::ShiftRight),
        key_w: held.contains(SteeringKey::KeyW),
        arrow_up: held.contains(SteeringKey::ArrowUp),
        key_s: held.contains(SteeringKey::KeyS),
        arrow_down: held.contains(SteeringKey::ArrowDown),
        key_a: held.contains(SteeringKey::KeyA),
        arrow_left: held.contains(SteeringKey::ArrowLeft),
        key_d: held.contains(SteeringKey::KeyD),
        arrow_right: held.contains(SteeringKey::ArrowRight),
    }
}

/// Reads which steering keys the keyboard input resource holds.
pub fn read_keyboard(input: &ButtonInput<KeyCode>) -> (keys: KeyboardReading)
    ensures
        keys == keyboard_reading_of(held_steering_keys(*input)),
        keys.shift_left == held_steering_keys(*input).contains(SteeringKey::ShiftLeft),
        keys.shift_right == held_steering_keys(*input).contains(SteeringKey::ShiftRight),
        keys.key_w == held_steering_keys(*input).contains(SteeringKey::KeyW),
        keys.arrow_up == held_steering_keys(*input).contains(SteeringKey::ArrowUp),
        keys.key_s == held_steering_keys(*input).contains(SteeringKey::KeyS),
        keys.arrow_down == held_steering_keys(*input).contains(SteeringKey::ArrowDown),
        keys.key_a == held_steering_keys(*input).contains(SteeringKey::KeyA),
        keys.arrow_left == held_steering_keys(*input).contains(SteeringKey::ArrowLeft),
        keys.key_d == held_steering_keys(*input).contains(SteeringKey::KeyD),
        keys.arrow_right == held_steering_keys(*input).contains(SteeringKey::ArrowRight),
{
    KeyboardReading {
        shift_left: key_held(input, SteeringKey::ShiftLeft),
        shift_right: key_held(input, SteeringKey::ShiftRight),
        key_w: key_held(input, SteeringKey::KeyW),
        arrow_up: key_held(input, SteeringKey::ArrowUp),
        key_s: key_held(input, SteeringKey::KeyS),
        arrow_down: key_held(input, SteeringKey::ArrowDown),
        key_a: key_held(input, SteeringKey::KeyA),
        arrow_left: key_held(input, SteeringKey::ArrowLeft),
        key_d: key_held(input, SteeringKey::KeyD),
        arrow_right: key_held(input, SteeringKey::ArrowRight),
    }
}

/// One keyboard axis: +1 for the positive key, -1 for the negative key, both
/// cancel out.
pub open spec fn axis_value(positive: bool, negative: bool) -> int {
    (if positive { 1int } else { 0int }) - (if negative { 1int } else { 0int })
}

/// The keyboard direction: D or Right adds 1 to `x`, A or Left subtracts 1;
/// W or Up adds 1 to `y`, S or Down subtracts 1.
pub open spec fn keyboard_axes(k: KeyboardReading) -> (int, int) {
    (
        axis_value(k.key_d || k.arrow_right, k.key_a || k.arrow_left),
        axis_value(k.key_w || k.arrow_up, k.key_s || k.arrow_down),
    )
}

/// Whether a keyboard asks for movement.
pub open spec fn keyboard_moves(k: KeyboardReading) -> bool {
    keyboard_axes(k) != (0int, 0int)
}

/// Whether either shift key is held.
pub open spec fn shift_held(k: KeyboardReading) -> bool {
    k.shift_left || k.shift_right
}

/// The last gamepad in the list whose move stick is active.
pub open spec fn last_move_stick(pads: Seq<GamepadReading>) -> Option<int>
    decreases pads.len(),
{
    if pads.len() == 0 {
        None
    } else if pads.last().move_stick_active {
        Some(pads.len() - 1)
    } else {
        last_move_stick(pads.drop_last())
    }
}

/// The last gamepad in the list whose aim stick is active.
pub open spec fn last_aim_stick(pads: Seq<GamepadReading>) -> Option<int>
    decreases pads.len(),
{
    if pads.len() == 0 {
        None
    } else if pads.last().aim_stick_active {
        Some(pads.len() - 1)
    } else {
        last_aim_stick(pads.drop_last())
    }
}

/// The last active move stick is active, and no later one is.
pub proof fn lemma_last_move_stick(pads: Seq<GamepadReading>)
    ensures
        last_move_stick(pads) matches Some(k) ==> {
            &&& 0 <= k < pads.len()
            &&& pads[k].move_stick_active
            &&& forall|j: int| k < j < pads.len() ==> !(#[trigger] pads[j]).move_stick_active
        },
        last_move_stick(pads) is None ==> forall|j: int|
            0 <= j < pads.len() ==> !(#[trigger] pads[j]).move_stick_active,
    decreases pads.len(),
{
    if pads.len() > 0 {
        let rest = pads.drop_last();
        lemma_last_move_stick(rest);
        assert forall|j: int| 0 <= j < rest.len() implies #[trigger] pads[j] == rest[j] by {}
    }
}

/// The last active aim stick is active, and no later one is.
pub proof fn lemma_last_aim_stick(pads: Seq<GamepadReading>)
    ensures
        last_aim_stick(pads) matches Some(k) ==> {
            &&& 0 <= k < pads.len()
            &&& pads[k].aim_stick_active
            &&& forall|j: int| k < j < pads.len() ==> !(#[trigger] pads[j]).aim_stick_active
        },
        last_aim_stick(pads) is None ==> forall|j: int|
            0 <= j < pads.len() ==> !(#[trigger] pads[j]).aim_stick_active,
    decreases pads.len(),
{
    if pads.len() > 0 {
        let rest = pads.drop_last();
        lemma_last_aim_stick(rest);
        assert forall|j: int| 0 <= j < rest.len() implies #[trigger] pads[j] == rest[j] by {}
    }
}

/// Whether some gamepad holds its run trigger.
pub open spec fn any_run_trigger(pads: Seq<GamepadReading>) -> bool {
    exists|i: int| 0 <= i < pads.len() && #[trigger] pads[i].run_held
}

/// The movement intent: the keyboard when it asks for movement, else the
/// last active move stick, else none.
pub open spec fn intent_of(pads: Seq<GamepadReading>, keys: KeyboardReading) -> IntentSource {
    if keyboard_moves(keys) {
        IntentSource::Keyboard(
            KeyDirection { x: keyboard_axes(keys).0 as i8, y: keyboard_axes(keys).1 as i8 },
        )
    } else {
        match last_move_stick(pads) {
            Some(i) => IntentSource::Gamepad(i as usize),
            None => IntentSource::Still,
        }
    }
}

/// The facing: the cursor when it gives a direction, else the last active aim
/// stick, else unchanged.
pub open spec fn facing_of(pads: Seq<GamepadReading>, cursor_aim: bool) -> FacingSource {
    if cursor_aim {
        FacingSource::Cursor
    } else {
        match last_aim_stick(pads) {
            Some(i) => FacingSource::Gamepad(i as usize),
            None => FacingSource::Unchanged,
        }
    }
}

/// The state: idle without intent, else running when a run trigger or shift
/// is held, else walking.
pub open spec fn state_of(pads: Seq<GamepadReading>, keys: KeyboardReading) -> PlayerState {
    if intent_of(pads, keys) is Still {
        PlayerState::Idle
    } else if any_run_trigger(pads) || shift_held(keys) {
        PlayerState::Running
    } else {
        PlayerState::Walking
    }
}

/// The whole decision for one frame.
pub open spec fn decide(pads: Seq<GamepadReading>, keys: KeyboardReading, cursor_aim: bool) -> InputDecision {
    InputDecision {
        state: state_of(pads, keys),
        intent: intent_of(pads, keys),
        facing: facing_of(pads, cursor_aim),
    }
}

/// One keyboard axis from its positive and negative keys.
fn axis(positive: bool, negative: bool) -> (v: i8)
    ensures
        v == axis_value(positive, negative),
{
    let mut v: i8 = 0;
    if positive {
        v = v + 1;
    }
    if negative {
        v = v - 1;
    }
    v
}

/// The direction that the held movement keys give, each component -1, 0 or 1.
pub fn keyboard_direction(keys: &KeyboardReading) -> (d: KeyDirection)
    ensures
        d.x == keyboard_axes(*keys).0,
        d.y == keyboard_axes(*keys).1,
        -1 <= d.x <= 1,
        -1 <= d.y <= 1,
        d.y == 1 <==> ((keys.key_w || keys.arrow_up) && !keys.key_s && !keys.arrow_down),
        d.y == -1 <==> ((keys.key_s || keys.arrow_down) && !keys.key_w && !keys.arrow_up),
        d.x == 1 <==> ((keys.key_d || keys.arrow_right) && !keys.key_a && !keys.arrow_left),
        d.x == -1 <==> ((keys.key_a || keys.arrow_left) && !keys.key_d && !keys.arrow_right),
{
    let y = axis(keys.key_w || keys.arrow_up, keys.key_s || keys.arrow_down);
    let x = axis(keys.key_d || keys.arrow_right, keys.key_a || keys.arrow_left);
    KeyDirection { x, y }
}

/// Resolves one frame of input. Gamepads are read in order: any held run
/// trigger asks for running, and the last active move stick and aim stick win.
/// The keyboard then overrides: shift asks for running, and movement keys that
/// give a non-zero direction replace the gamepad's intent. Without any intent
/// the player is idle. A cursor that gives a direction wins the facing.
pub fn resolve_input(pads: &Vec<GamepadReading>, keys: &KeyboardReading, cursor_aim: bool) -> (decision: InputDecision)
    ensures
        decision == decide(pads@, *keys, cursor_aim),
        decision.intent is Keyboard <==> keyboard_axes(*keys) != (0int, 0int),
        decision.intent matches IntentSource::Keyboard(d) ==> d.x == keyboard_axes(*keys).0
            && d.y == keyboard_axes(*keys).1,
        decision.intent matches IntentSource::Gamepad(i) ==> {
            &&& i < pads.len()
            &&& pads[i as int].move_stick_active
            &&& forall|j: int| i < j < pads.len() ==> !(#[trigger] pads[j]).move_stick_active
        },
        decision.intent is Still <==> (keyboard_axes(*keys) == (0int, 0int)
            && forall|j: int| 0 <= j < pads.len() ==> !(#[trigger] pads[j]).move_stick_active),
        decision.facing == FacingSource::Cursor <==> cursor_aim,
        decision.facing matches FacingSource::Gamepad(i) ==> {
            &&& i < pads.len()
            &&& pads[i as int].aim_stick_active
            &&& forall|j: int| i < j < pads.len() ==> !(#[trigger] pads[j]).aim_stick_active
        },
        decision.facing == FacingSource::Unchanged <==> (!cursor_aim
            && forall|j: int| 0 <= j < pads.len() ==> !(#[trigger] pads[j]).aim_stick_active),
        decision.state == PlayerState::Idle <==> decision.intent is Still,
        decision.state == PlayerState::Running <==> (!(decision.intent is Still) && (keys.shift_left
            || keys.shift_right || exists|j: int| 0 <= j < pads.len() && #[trigger] pads[j].run_held)),
{
    let mut running = false;
    let mut move_pad: Option<usize> = None;
    let mut aim_pad: Option<usize> = None;
    let mut i: usize = 0;
    while i < pads.len()
        invariant
            i <= pads.len(),
            running == any_run_trigger(pads@.take(i as int)),
            move_pad == (match last_move_stick(pads@.take(i as int)) {
                Some(j) => Some(j as usize),
                None => None::<usize>,
            }),
            aim_pad == (match last_aim_stick(pads@.take(i as int)) {
                Some(j) => Some(j as usize),
                None => None::<usize>,
            }),
        decreases pads.len() - i,
    {
        let pad = pads[i];
        assert(pads@.take(i + 1).drop_last() =~= pads@.take(i as int));
        proof {
            lemma_last_move_stick(pads@.take(i + 1));
            lemma_last_aim_stick(pads@.take(i + 1));
        }
        if pad.run_held {
            running = true;
        }
        if pad.move_stick_active {
            move_pad = Some(i);
        }
        if pad.aim_stick_active {
            aim_pad = Some(i);
        }
        i = i + 1;
    }
    assert(pads@.take(pads.len() as int) =~= pads@);
    let direction = keyboard_direction(keys);
    let intent = if direction.x != 0 || direction.y != 0 {
        IntentSource::Keyboard(direction)
    } else {
        match move_pad {
            Some(j) => IntentSource::Gamepad(j),
            None => IntentSource::Still,
        }
    };
    let facing = if cursor_aim {
        FacingSource::Cursor
    } else {
        match aim_pad {
            Some(j) => FacingSource::Gamepad(j),
            None => FacingSource::Unchanged,
        }
    };
    let state = match intent {
        IntentSource::Still => PlayerState::Idle,
        _ => if running || keys.shift_left || keys.shift_right {
            PlayerState::Running
        } else {
            PlayerState::Walking
        },
    };
    proof {
        law_keyboard_axes(*keys);
        law_keyboard_intent(pads@, *keys, cursor_aim);
        law_gamepad_intent_raw(pads@, *keys, cursor_aim);
        law_idle_iff_still(pads@, *keys, cursor_aim);
        law_facing(pads@, *keys, cursor_aim);
    }
    InputDecision { state, intent, facing }
}

/// How fast the player may move: not at all, at walking speed or at running
/// speed.
#[derive(Clone, Copy, Debug, PartialEq, Eq, Structural)]
pub enum SpeedTier {
    Stopped,
    Walk,
    Run,
}

/// The speed tier of each state: an idle player does not move, a walking one
/// moves at most at walking speed, a running one at most at running speed.
pub open spec fn speed_tier_of(state: PlayerState) -> SpeedTier {
    match state {
        PlayerState::Idle => SpeedTier::Stopped,
        PlayerState::Walking => SpeedTier::Walk,
        PlayerState::Running => SpeedTier::Run,
    }
}

/// The speed tier that scales this frame's movement intent.
pub fn speed_tier(state: PlayerState) -> (tier: SpeedTier)
    ensures
        tier == speed_tier_of(state),
{
    match state {
        PlayerState::Idle => SpeedTier::Stopped,
        PlayerState::Walking => SpeedTier::Walk,
        PlayerState::Running => SpeedTier::Run,
    }
}

/// Keyboard movement, when the keys give a direction, overrides every gamepad:
/// the intent is that direction whatever the gamepads report.
pub proof fn law_keyboard_overrides_gamepads(
    pads: Seq<GamepadReading>,
    other_pads: Seq<GamepadReading>,
    keys: KeyboardReading,
    cursor_aim: bool,
)
    requires
        keyboard_moves(keys),
    ensures
        decide(pads, keys, cursor_aim).intent is Keyboard,
        decide(pads, keys, cursor_aim).intent == decide(other_pads, keys, cursor_aim).intent,
{
}

/// The player is idle exactly when no input asks for movement.
pub proof fn law_idle_iff_still(pads: Seq<GamepadReading>, keys: KeyboardReading, cursor_aim: bool)
    ensures
        decide(pads, keys, cursor_aim).state == PlayerState::Idle
            <==> decide(pads, keys, cursor_aim).intent is Still,
        decide(pads, keys, cursor_aim).intent is Still
            <==> (keyboard_axes(keys) == (0int, 0int) && forall|i: int| 0 <= i < pads.len() ==> !(#[trigger] pads[i]).move_stick_active),
{
    lemma_last_move_stick(pads);
    if !keyboard_moves(keys) && last_move_stick(pads) is Some {
        let k = last_move_stick(pads)->0;
        assert(pads[k].move_stick_active);
    }
}

/// The player runs exactly when it moves and a run trigger or shift is held.
pub proof fn law_running(pads: Seq<GamepadReading>, keys: KeyboardReading, cursor_aim: bool)
    ensures
        decide(pads, keys, cursor_aim).state == PlayerState::Running <==> (
            !(decide(pads, keys, cursor_aim).intent is Still) && (keys.shift_left || keys.shift_right
                || exists|j: int| 0 <= j < pads.len() && #[trigger] pads[j].run_held)),
{
}

/// A gamepad intent comes from an active move stick with no active one after
/// it, and only when the keyboard gives no direction.
pub proof fn law_gamepad_intent(pads: Seq<GamepadReading>, keys: KeyboardReading, cursor_aim: bool, i: usize)
    requires
        pads.len() <= usize::MAX,
        decide(pads, keys, cursor_aim).intent == IntentSource::Gamepad(i),
    ensures
        !keyboard_moves(keys),
        i < pads.len(),
        pads[i as int].move_stick_active,
        forall|j: int| i < j < pads.len() ==> !(#[trigger] pads[j]).move_stick_active,
{
    lemma_last_move_stick(pads);
}

/// A cursor that gives a direction decides the facing, whatever the aim
/// sticks report; without it the last active aim stick does; without either
/// the facing is kept.
pub proof fn law_facing(pads: Seq<GamepadReading>, keys: KeyboardReading, cursor_aim: bool)
    requires
        pads.len() <= usize::MAX,
    ensures
        decide(pads, keys, cursor_aim).facing == FacingSource::Cursor <==> cursor_aim,
        decide(pads, keys, cursor_aim).facing matches FacingSource::Gamepad(i) ==> {
            &&& !cursor_aim
            &&& i < pads.len()
            &&& pads[i as int].aim_stick_active
            &&& forall|j: int| i < j < pads.len() ==> !(#[trigger] pads[j]).aim_stick_active
        },
        decide(pads, keys, cursor_aim).facing == FacingSource::Unchanged <==> (!cursor_aim
            && forall|j: int| 0 <= j < pads.len() ==> !(#[trigger] pads[j]).aim_stick_active),
{
    lemma_last_aim_stick(pads);
    if !cursor_aim && last_aim_stick(pads) is Some {
        let k = last_aim_stick(pads)->0;
        assert(pads[k].aim_stick_active);
    }
}

/// Each keyboard axis is +1 exactly when some key of its positive pair is held
/// and neither key of its negative pair, -1 in the mirror case, and 0
/// otherwise: W or Up move up, S or Down down, D or Right right, A or Left
/// left, and each key of a pair acts alone.
pub proof fn law_keyboard_axes(keys: KeyboardReading)
    ensures
        -1 <= keyboard_axes(keys).0 <= 1,
        -1 <= keyboard_axes(keys).1 <= 1,
        keyboard_axes(keys).1 == 1 <==> ((keys.key_w || keys.arrow_up) && !keys.key_s && !keys.arrow_down),
        keyboard_axes(keys).1 == -1 <==> ((keys.key_s || keys.arrow_down) && !keys.key_w && !keys.arrow_up),
        keyboard_axes(keys).0 == 1 <==> ((keys.key_d || keys.arrow_right) && !keys.key_a && !keys.arrow_left),
        keyboard_axes(keys).0 == -1 <==> ((keys.key_a || keys.arrow_left) && !keys.key_d && !keys.arrow_right),
{
}

/// The keyboard decides the intent exactly when its direction is not zero,
/// and then the intent is that very direction.
pub proof fn law_keyboard_intent(pads: Seq<GamepadReading>, keys: KeyboardReading, cursor_aim: bool)
    ensures
        decide(pads, keys, cursor_aim).intent is Keyboard <==> keyboard_axes(keys) != (0int, 0int),
        decide(pads, keys, cursor_aim).intent matches IntentSource::Keyboard(d) ==> d.x == keyboard_axes(keys).0
            && d.y == keyboard_axes(keys).1,
{
    law_keyboard_axes(keys);
}

/// A gamepad intent names an active move stick with no active one after it.
proof fn law_gamepad_intent_raw(pads: Seq<GamepadReading>, keys: KeyboardReading, cursor_aim: bool)
    requires
        pads.len() <= usize::MAX,
    ensures
        decide(pads, keys, cursor_aim).intent matches IntentSource::Gamepad(i) ==> {
            &&& i < pads.len()
            &&& pads[i as int].move_stick_active
            &&& forall|j: int| i < j < pads.len() ==> !(#[trigger] pads[j]).move_stick_active
        },
{
    lemma_last_move_stick(pads);
}

/// Each field of a keyboard reading is exactly whether its own key is held.
pub proof fn law_keyboard_reading(held: Set<SteeringKey>)
    ensures
        keyboard_reading_of(held).shift_left == held.contains(SteeringKey::ShiftLeft),
        keyboard_reading_of(held).shift_right == held.contains(SteeringKey::ShiftRight),
        keyboard_reading_of(held).key_w == held.contains(SteeringKey::KeyW),
        keyboard_reading_of(held).arrow_up == held.contains(SteeringKey::ArrowUp),
        keyboard_reading_of(held).key_s == held.contains(SteeringKey::KeyS),
        keyboard_reading_of(held).arrow_down == held.contains(SteeringKey::ArrowDown),
        keyboard_reading_of(held).key_a == held.contains(SteeringKey::KeyA),
        keyboard_reading_of(held).arrow_left == held.contains(SteeringKey::ArrowLeft),
        keyboard_reading_of(held).key_d == held.contains(SteeringKey::KeyD),
        keyboard_reading_of(held).arrow_right == held.contains(SteeringKey::ArrowRight),
{
}

/// Opposite keys cancel: holding both a key for one way and a key for the
/// other way of an axis leaves that axis at zero.
pub proof fn law_opposite_keys_cancel(keys: KeyboardReading)
    ensures
        ((keys.key_w || keys.arrow_up) && (keys.key_s || keys.arrow_down)) ==> keyboard_axes(keys).1 == 0,
        ((keys.key_d || keys.arrow_right) && (keys.key_a || keys.arrow_left)) ==> keyboard_axes(keys).0 == 0,
{
}

/// An idle player does not move, and only a running player moves at running
/// speed.
pub proof fn law_speed_follows_state(state: PlayerState)
    ensures
        speed_tier_of(state) == SpeedTier::Stopped <==> state == PlayerState::Idle,
        speed_tier_of(state) == SpeedTier::Run <==> state == PlayerState::Running,
{
}

} // verus!
