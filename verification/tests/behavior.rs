use erfps2::behavior::{BehaviorState, BehaviorStateSet, BehaviorStates, BEHAVIOR_STATE_COUNT};
use erfps2::text;

#[test]
fn state_names_map_to_states() {
    assert_eq!(BehaviorState::try_from_state_name("Attack_SM"), Some(BehaviorState::Attack));
    assert_eq!(BehaviorState::try_from_state_name("JumpAttack_Land"), Some(BehaviorState::Attack));
    assert_eq!(BehaviorState::try_from_state_name("JumpAttack_"), Some(BehaviorState::Attack));
    assert_eq!(BehaviorState::try_from_state_name("Death_SM"), Some(BehaviorState::DeathAnim));
    assert_eq!(
        BehaviorState::try_from_state_name("DeathIdle_Selector"),
        Some(BehaviorState::DeathIdle)
    );
    assert_eq!(BehaviorState::try_from_state_name("Damage_SM"), Some(BehaviorState::Damage));
    assert_eq!(BehaviorState::try_from_state_name("Evasion_SM"), Some(BehaviorState::Evasion));
    assert_eq!(
        BehaviorState::try_from_state_name("Stealth_Rolling_CMSG"),
        Some(BehaviorState::Evasion)
    );
    assert_eq!(BehaviorState::try_from_state_name("Gesture_SM"), Some(BehaviorState::Gesture));
}

#[test]
fn unknown_state_names_are_ignored() {
    assert_eq!(BehaviorState::try_from_state_name(""), None);
    assert_eq!(BehaviorState::try_from_state_name("Attack_S"), None);
    assert_eq!(BehaviorState::try_from_state_name("Attack_SM2"), None);
    assert_eq!(BehaviorState::try_from_state_name("JumpAttack"), None);
    assert_eq!(BehaviorState::try_from_state_name("attack_sm"), None);
    assert_eq!(BehaviorState::try_from_state_name("Idle_SM"), None);
}

#[test]
fn state_names_round_trip() {
    let all = [
        BehaviorState::Attack,
        BehaviorState::Damage,
        BehaviorState::DeathAnim,
        BehaviorState::DeathIdle,
        BehaviorState::Evasion,
        BehaviorState::Gesture,
    ];
    for state in all {
        assert_eq!(BehaviorState::try_from_state_name(state.into_state_name()), Some(state));
    }
    assert_eq!(BehaviorState::Attack.into_state_name(), "Attack_SM");
    assert_eq!(BehaviorState::DeathAnim.into_state_name(), "Death_SM");
    assert_eq!(BehaviorState::DeathIdle.into_state_name(), "DeathIdle_Selector");
}

#[test]
fn set_holds_what_was_set() {
    let mut set = BehaviorStateSet::new();
    assert!(!set.contains(BehaviorState::Attack));
    set.set_state(BehaviorState::Attack);
    set.set_state(BehaviorState::Gesture);
    assert!(set.contains(BehaviorState::Attack));
    assert!(set.contains(BehaviorState::Gesture));
    assert!(!set.contains(BehaviorState::Damage));
    assert!(!set.contains(BehaviorState::DeathAnim));
    assert!(!set.contains(BehaviorState::DeathIdle));
    assert!(!set.contains(BehaviorState::Evasion));
    let copy = set.clone();
    assert!(copy.contains(BehaviorState::Attack));
    assert!(copy.contains(BehaviorState::Gesture));
    assert!(!copy.contains(BehaviorState::Evasion));
}

#[test]
fn union_holds_states_of_both_sets() {
    let mut left = BehaviorStateSet::new();
    left.set_state(BehaviorState::Damage);
    let mut right = BehaviorStateSet::new();
    right.set_state(BehaviorState::Evasion);
    let both = left.union(&right);
    assert!(both.contains(BehaviorState::Damage));
    assert!(both.contains(BehaviorState::Evasion));
    assert!(!both.contains(BehaviorState::Attack));
    assert!(!left.contains(BehaviorState::Evasion));
}

#[test]
fn state_stays_active_for_one_more_frame() {
    let mut states = BehaviorStates::new();
    assert!(!states.has_state(BehaviorState::Evasion));

    let mut seen = BehaviorStateSet::new();
    seen.set_state(BehaviorState::Evasion);
    states.push_state_set(seen);
    assert!(states.has_state(BehaviorState::Evasion));

    states.push_state_set(BehaviorStateSet::new());
    assert!(states.has_state(BehaviorState::Evasion));

    states.push_state_set(BehaviorStateSet::new());
    assert!(!states.has_state(BehaviorState::Evasion));
}

#[test]
fn pushed_state_lasts_through_the_next_frame() {
    let mut states = BehaviorStates::default();
    states.next_frame();
    states.push_state(BehaviorState::Attack);
    assert!(states.has_state(BehaviorState::Attack));
    states.next_frame();
    assert!(states.has_state(BehaviorState::Attack));
    assert!(!states.has_state(BehaviorState::Gesture));
    states.next_frame();
    assert!(!states.has_state(BehaviorState::Attack));
}

#[test]
fn states_are_numbered_in_order() {
    assert_eq!(BehaviorState::Attack.index(), 0);
    assert_eq!(BehaviorState::Damage.index(), 1);
    assert_eq!(BehaviorState::DeathAnim.index(), 2);
    assert_eq!(BehaviorState::DeathIdle.index(), 3);
    assert_eq!(BehaviorState::Evasion.index(), 4);
    assert_eq!(BehaviorState::Gesture.index(), 5);
    assert_eq!(BEHAVIOR_STATE_COUNT, 6);
}

#[test]
fn default_sets_are_empty() {
    let set = BehaviorStateSet::default();
    for state in [
        BehaviorState::Attack,
        BehaviorState::Damage,
        BehaviorState::DeathAnim,
        BehaviorState::DeathIdle,
        BehaviorState::Evasion,
        BehaviorState::Gesture,
    ] {
        assert!(!set.contains(state));
        assert!(!BehaviorStates::default().has_state(state));
    }
}

#[test]
fn text_is_compared_by_characters() {
    assert!(text::equals("", ""));
    assert!(text::equals("Attack_SM", "Attack_SM"));
    assert!(!text::equals("Attack_SM", "Attack_SN"));
    assert!(!text::equals("Attack_SM", "Attack_S"));
    assert!(!text::equals("Attack_S", "Attack_SM"));
    assert!(text::equals("h\u{e9}llo", "h\u{e9}llo"));
    assert!(!text::equals("h\u{e9}llo", "hello"));
}

#[test]
fn prefixes_are_found_at_the_start_only() {
    assert!(text::starts_with("JumpAttack_Start", "JumpAttack_"));
    assert!(text::starts_with("JumpAttack_", "JumpAttack_"));
    assert!(text::starts_with("anything", ""));
    assert!(text::starts_with("", ""));
    assert!(!text::starts_with("JumpAttack", "JumpAttack_"));
    assert!(!text::starts_with("xJumpAttack_", "JumpAttack_"));
    assert!(!text::starts_with("", "J"));
    assert!(text::starts_with("\u{e9}t\u{e9}", "\u{e9}t"));
    assert!(!text::starts_with("\u{e9}t\u{e9}", "et"));
}

#[test]
fn states_convert_to_and_from_names() {
    let name: &'static str = BehaviorState::Evasion.into();
    assert_eq!(name, "Evasion_SM");
    let name: &'static str = BehaviorState::Damage.into();
    assert_eq!(name, "Damage_SM");
    assert_eq!(BehaviorState::try_from("Gesture_SM"), Ok(BehaviorState::Gesture));
    assert_eq!(BehaviorState::try_from("JumpAttack_Fall"), Ok(BehaviorState::Attack));
    assert_eq!(BehaviorState::try_from("Gesture"), Err(()));
}
