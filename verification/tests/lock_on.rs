use erfps2::lock_on::{
    begin_soft_lock_on, finish_soft_lock_on, lock_on_to, sweep_accepts, FieldInsKind, HitOwner,
    LockOn, LockOnCandidate, SweepHit, SweepOwner, SweepRequest,
};

fn unlocked() -> LockOn {
    LockOn { is_locked_on: false, is_lock_on_requested: false, lock_camera: true }
}

fn candidates() -> Vec<LockOnCandidate> {
    vec![
        LockOnCandidate { handle: 10, flags: 0x21 },
        LockOnCandidate { handle: 20, flags: 0x02 },
        LockOnCandidate { handle: 30, flags: 0xffff_ffff },
        LockOnCandidate { handle: 20, flags: 0x40 },
    ]
}

#[test]
fn target_is_marked_and_locked() {
    let mut lock = unlocked();
    let mut list = candidates();
    assert_eq!(lock_on_to(&mut lock, &mut list, 30), Some(2));
    assert_eq!(
        list,
        vec![
            LockOnCandidate { handle: 10, flags: 0x01 },
            LockOnCandidate { handle: 20, flags: 0x02 },
            LockOnCandidate { handle: 30, flags: 0xffff_ffff },
            LockOnCandidate { handle: 20, flags: 0x40 },
        ]
    );
    assert_eq!(lock, LockOn { is_locked_on: true, is_lock_on_requested: true, lock_camera: true });
}

#[test]
fn last_of_several_entries_is_marked() {
    let mut lock = unlocked();
    let mut list = candidates();
    assert_eq!(lock_on_to(&mut lock, &mut list, 20), Some(3));
    assert_eq!(
        list,
        vec![
            LockOnCandidate { handle: 10, flags: 0x01 },
            LockOnCandidate { handle: 20, flags: 0x02 },
            LockOnCandidate { handle: 30, flags: 0xffff_ffdf },
            LockOnCandidate { handle: 20, flags: 0x60 },
        ]
    );
    assert!(lock.is_locked_on);
    assert!(lock.is_lock_on_requested);
}

#[test]
fn unknown_target_clears_the_marks_only() {
    let mut lock = unlocked();
    let mut list = candidates();
    assert_eq!(lock_on_to(&mut lock, &mut list, 99), None);
    assert_eq!(
        list,
        vec![
            LockOnCandidate { handle: 10, flags: 0x01 },
            LockOnCandidate { handle: 20, flags: 0x02 },
            LockOnCandidate { handle: 30, flags: 0xffff_ffdf },
            LockOnCandidate { handle: 20, flags: 0x40 },
        ]
    );
    assert_eq!(lock, unlocked());
}

#[test]
fn empty_list_has_no_target() {
    let mut lock = unlocked();
    let mut list: Vec<LockOnCandidate> = Vec::new();
    assert_eq!(lock_on_to(&mut lock, &mut list, 1), None);
    assert!(list.is_empty());
    assert_eq!(lock, unlocked());
}

#[test]
fn sweep_passes_through_characters_that_cannot_be_targeted() {
    assert!(sweep_accepts(SweepOwner::Nothing));
    assert!(sweep_accepts(SweepOwner::Other));
    assert!(sweep_accepts(SweepOwner::Character { can_target: true }));
    assert!(!sweep_accepts(SweepOwner::Character { can_target: false }));
}

#[test]
fn soft_lock_on_sweeps_only_on_request() {
    let mut lock = unlocked();
    assert_eq!(begin_soft_lock_on(&mut lock), None);
    assert_eq!(lock, LockOn { is_locked_on: false, is_lock_on_requested: false, lock_camera: false });
    let mut requested = LockOn { is_locked_on: true, is_lock_on_requested: true, lock_camera: true };
    assert_eq!(
        begin_soft_lock_on(&mut requested),
        Some(SweepRequest { length: 20_000_000, radius: 200_000, filter: 0x2000058 })
    );
    assert_eq!(
        requested,
        LockOn { is_locked_on: true, is_lock_on_requested: true, lock_camera: false }
    );
}

#[test]
fn sweep_that_ends_on_a_character_locks_on() {
    let mut lock = unlocked();
    let mut list = candidates();
    let hit = SweepHit { owner: Some(HitOwner { kind: FieldInsKind::Character, handle: 10 }) };
    assert_eq!(finish_soft_lock_on(&mut lock, &mut list, Some(hit)), Some(0));
    assert_eq!(list[0], LockOnCandidate { handle: 10, flags: 0x21 });
    assert_eq!(list[2], LockOnCandidate { handle: 30, flags: 0xffff_ffdf });
    assert!(lock.is_locked_on);
}

#[test]
fn sweep_that_ends_elsewhere_changes_nothing() {
    let misses = [
        None,
        Some(SweepHit { owner: None }),
        Some(SweepHit { owner: Some(HitOwner { kind: FieldInsKind::Other, handle: 10 }) }),
    ];
    for hit in misses {
        let mut lock = unlocked();
        let mut list = candidates();
        assert_eq!(finish_soft_lock_on(&mut lock, &mut list, hit), None);
        assert_eq!(list, candidates());
        assert_eq!(lock, unlocked());
    }
}
