//! Decisions about the player character: which of its parts are drawn, how it holds its
//! weapons, and what it is doing.

use vstd::prelude::*;

verus! {

/// The special effect that a sprinting character carries.
pub const SPRINT_EFFECT: i32 = 100002;

/// The time for which the roll input must have been held to ask for a sprint, in
/// microseconds.
pub const SPRINT_REQUEST_TIME: i64 = 300_000;

/// The flag of a model part that makes it visible.
pub const PART_VISIBLE: u32 = 1;

/// The bit of the model mask that hides the ears and the back of the head.
pub const EARS_MASK_BIT: u8 = 3;

/// The bit of the model mask that hides the hood.
pub const HOOD_MASK_BIT: u8 = 5;

/// The parts of the character's model that make up its head.
pub const FACE_PARTS: [usize; 8] = [0, 2, 6, 21, 22, 23, 24, 25];

/// The model part of the weapon in the left hand.
pub const LEFT_WEAPON_PART: usize = 7;

/// The model part of the sheath of the left weapon.
pub const LEFT_SHEATH_PART: usize = 8;

/// The model part of the weapon in the right hand.
pub const RIGHT_WEAPON_PART: usize = 11;

/// The model part of the sheath of the right weapon.
pub const RIGHT_SHEATH_PART: usize = 12;

/// How the character holds its weapons.
#[derive(Clone, Copy, Debug, PartialEq, Eq, Structural)]
pub enum ArmStyle {
    EmptyHanded,
    OneHanded,
    LeftBothHands,
    RightBothHands,
}

/// Where the character is in a throw.
#[derive(Clone, Copy, Debug, PartialEq, Eq, Structural)]
pub enum ThrowState {
    Unknown,
    InThrowAttacker,
    InThrowTarget,
    Death,
}

/// How solid the character is drawn.
#[derive(Clone, Copy, Debug, PartialEq, Eq, Structural)]
pub enum Transparency {
    /// Fully solid.
    Opaque,
    /// See-through, as set by this library.
    Overridden,
    /// Any value that the host has set for its own ends.
    Host,
}

/// Which of the weapon parts are drawn.
#[derive(Clone, Copy, Debug, PartialEq, Eq, Structural)]
pub struct WeaponVisibility {
    pub left_weapon: bool,
    pub left_sheath: bool,
    pub right_weapon: bool,
    pub right_sheath: bool,
}

/// The display flags of a model part, visible or not.
pub open spec fn spec_parts_visibility(flags: u32, state: bool) -> u32 {
    flags & !PART_VISIBLE | (if state {
        1u32
    } else {
        0u32
    })
}

/// Sets the display flags of a model part to visible or invisible. All other flags, such
/// as the one that lets the part cast a shadow, stay as they are.
pub fn enable_parts_visibilty(flags: u32, state: bool) -> (shown: u32)
    ensures
        shown == spec_parts_visibility(flags, state),
        shown & PART_VISIBLE == (if state {
            1u32
        } else {
            0u32
        }),
        shown & !PART_VISIBLE == flags & !PART_VISIBLE,
{
    let bit: u32 = if state {
        1
    } else {
        0
    };
    let shown = flags & !PART_VISIBLE | bit;
    assert((flags & !1u32 | bit) & 1u32 == bit && (flags & !1u32 | bit) & !1u32 == flags & !1u32)
        by (bit_vector)
        requires
            bit == 0 || bit == 1,
    ;
    shown
}

/// A model mask with the bit at `bit` set where the part is hidden.
pub open spec fn spec_model_mask(mask: u8, bit: u8, state: bool) -> u8 {
    mask & !(1u8 << bit) | (if state {
        0u8
    } else {
        1u8
    }) << bit
}

/// Sets the bit at `bit` of a model mask so that the part it stands for is drawn if
/// `state` holds and hidden otherwise. All other bits stay as they are.
pub fn enable_model_mask(mask: u8, bit: u8, state: bool) -> (masked: u8)
    requires
        bit < 8,
    ensures
        masked == spec_model_mask(mask, bit, state),
        (masked >> bit) & 1 == (if state {
            0u8
        } else {
            1u8
        }),
        masked & !(1u8 << bit) == mask & !(1u8 << bit),
{
    let hidden: u8 = if state {
        0
    } else {
        1
    };
    let masked = mask & !(1u8 << bit) | hidden << bit;
    assert(((mask & !(1u8 << bit) | hidden << bit) >> bit) & 1 == hidden && (mask & !(1u8 << bit)
        | hidden << bit) & !(1u8 << bit) == mask & !(1u8 << bit)) by (bit_vector)
        requires
            bit < 8,
            hidden == 0 || hidden == 1,
    ;
    masked
}

/// How solid the character is drawn after a request: a solid character becomes
/// see-through on demand, and only a character that this library made see-through
/// becomes solid again.
pub open spec fn spec_make_transparent(current: Transparency, state: bool) -> Transparency {
    if state && current == Transparency::Opaque {
        Transparency::Overridden
    } else if !state && current == Transparency::Overridden {
        Transparency::Opaque
    } else {
        current
    }
}

/// Makes the character see-through or solid again without touching a transparency that
/// the host has set for its own ends.
pub fn make_transparent(current: Transparency, state: bool) -> (next: Transparency)
    ensures
        next == spec_make_transparent(current, state),
{
    match (state, current) {
        (true, Transparency::Opaque) => Transparency::Overridden,
        (false, Transparency::Overridden) => Transparency::Opaque,
        (_, other) => other,
    }
}

/// Which weapon parts are drawn. In third person all are. In first person the sheaths of
/// paired weapons stay, and a weapon is hidden while the other hand's weapon is held in
/// both hands, or, for the left one, while riding one-handed.
pub open spec fn spec_sheathed_weapons(
    state: bool,
    arm_style: ArmStyle,
    is_riding: bool,
    left_paired: bool,
    right_paired: bool,
) -> WeaponVisibility {
    if state {
        WeaponVisibility {
            left_weapon: true,
            left_sheath: true,
            right_weapon: true,
            right_sheath: true,
        }
    } else {
        WeaponVisibility {
            left_weapon: !(arm_style == ArmStyle::OneHanded && is_riding) && arm_style
                != ArmStyle::RightBothHands,
            left_sheath: left_paired,
            right_weapon: arm_style != ArmStyle::LeftBothHands,
            right_sheath: right_paired,
        }
    }
}

/// Decides which weapon parts are drawn.
pub fn enable_sheathed_weapons(
    state: bool,
    arm_style: ArmStyle,
    is_riding: bool,
    left_paired: bool,
    right_paired: bool,
) -> (visibility: WeaponVisibility)
    ensures
        visibility == spec_sheathed_weapons(state, arm_style, is_riding, left_paired, right_paired),
{
    if state {
        return WeaponVisibility {
            left_weapon: true,
            left_sheath: true,
            right_weapon: true,
            right_sheath: true,
        };
    }
    let (left_weapon, right_weapon) = match arm_style {
        ArmStyle::OneHanded => if is_riding {
            (false, true)
        } else {
            (true, true)
        },
        ArmStyle::LeftBothHands => (true, false),
        ArmStyle::RightBothHands => (false, true),
        _ => (true, true),
    };
    WeaponVisibility {
        left_weapon,
        left_sheath: left_paired,
        right_weapon,
        right_sheath: right_paired,
    }
}

/// Whether the character holds one weapon in both hands. Paired weapons do not count:
/// they are held one in each hand.
pub open spec fn spec_is_2h(arm_style: ArmStyle, left_paired: bool, right_paired: bool) -> bool {
    (arm_style == ArmStyle::RightBothHands && !right_paired) || (arm_style
        == ArmStyle::LeftBothHands && !left_paired)
}

/// Decides whether the character holds one weapon in both hands.
pub fn is_2h(arm_style: ArmStyle, left_paired: bool, right_paired: bool) -> (two_handed: bool)
    ensures
        two_handed == spec_is_2h(arm_style, left_paired, right_paired),
{
    match arm_style {
        ArmStyle::RightBothHands => !right_paired,
        ArmStyle::LeftBothHands => !left_paired,
        _ => false,
    }
}

/// Whether the character throws or is thrown.
pub fn is_in_throw(throw_state: ThrowState) -> (in_throw: bool)
    ensures
        in_throw == (throw_state == ThrowState::InThrowTarget || throw_state
            == ThrowState::InThrowAttacker),
{
    match throw_state {
        ThrowState::InThrowTarget => true,
        ThrowState::InThrowAttacker => true,
        _ => false,
    }
}

/// Whether the character walks up to a ladder or is about to step onto it.
pub fn is_approaching_ladder(ladder_state: i32) -> (approaching: bool)
    ensures
        approaching == (ladder_state == 0 || ladder_state == 1),
{
    ladder_state == 0 || ladder_state == 1
}

/// Whether the roll input has been held for long enough to ask for a sprint.
pub fn is_sprint_requested(roll_timer: i64) -> (requested: bool)
    ensures
        requested == (roll_timer > SPRINT_REQUEST_TIME),
{
    roll_timer > SPRINT_REQUEST_TIME
}

/// Whether the character sprints: it carries the special effect of a sprint.
pub fn is_sprinting(effects: &[i32]) -> (sprinting: bool)
    ensures
        sprinting == effects@.contains(SPRINT_EFFECT),
{
    let mut i: usize = 0;
    while i < effects.len()
        invariant
            i <= effects@.len(),
            forall|j: int| 0 <= j < i ==> effects@[j] != SPRINT_EFFECT,
        decreases effects@.len() - i,
    {
        if effects[i] == SPRINT_EFFECT {
            return true;
        }
        i += 1;
    }
    false
}

/// Whether an action of the character is pending: one of its request slots is taken.
pub fn has_action_request(requests: &[i32]) -> (pending: bool)
    ensures
        pending == exists|i: int| 0 <= i < requests@.len() && requests@[i] >= 0,
{
    let mut i: usize = 0;
    while i < requests.len()
        invariant
            i <= requests@.len(),
            forall|j: int| 0 <= j < i ==> requests@[j] < 0,
        decreases requests@.len() - i,
    {
        if requests[i] >= 0 {
            return true;
        }
        i += 1;
    }
    false
}

/// The parameter row of the weapon kind that the weapon `param_id` belongs to: the
/// identifier without its two lowest digits, which count upgrades.
pub open spec fn spec_weapon_param_row(param_id: i32) -> int {
    if param_id >= 0 {
        param_id / 100 * 100
    } else {
        -((-param_id) / 100 * 100)
    }
}

/// Finds the parameter row of the weapon kind that the weapon `param_id` belongs to.
pub fn weapon_param_row(param_id: i32) -> (row: i32)
    ensures
        row == spec_weapon_param_row(param_id),
{
    if param_id >= 0 {
        param_id / 100 * 100
    } else {
        let magnitude: i64 = -(param_id as i64);
        (-(magnitude / 100 * 100)) as i32
    }
}

} // verus!
