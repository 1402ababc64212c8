//! Lock-on state and the selection of a lock-on target by a sweep along the view.

use vstd::prelude::*;

verus! {

/// The flag of a lock-on candidate that marks it as the one considered for lock-on.
pub const CONSIDERED: u32 = 32;

/// Length of the sweep along the view, in millionths of the host's length unit.
pub const SWEEP_LENGTH: i64 = 20_000_000;

/// Radius of the swept sphere, in millionths of the host's length unit.
pub const SWEEP_RADIUS: i64 = 200_000;

/// The collision filter of the sweep.
pub const SWEEP_FILTER: u32 = 0x2000058;

/// How far ahead of the camera the aim point lies while no target is locked, in
/// millionths of the host's length unit.
pub const AIM_DISTANCE: i64 = 10_000_000;

/// The lock-on flags of the host.
#[derive(Clone, Copy, Debug, PartialEq, Eq, Structural)]
pub struct LockOn {
    /// Whether a target is locked.
    pub is_locked_on: bool,
    /// Whether the player asked for a lock-on.
    pub is_lock_on_requested: bool,
    /// Whether the host's own lock-on camera is in charge.
    pub lock_camera: bool,
}

/// One entry of the host's list of lock-on candidates.
#[derive(Clone, Copy, Debug, PartialEq, Eq, Structural)]
pub struct LockOnCandidate {
    /// The handle of the character that the entry stands for.
    pub handle: u64,
    /// The flags of the entry.
    pub flags: u32,
}

/// What kind of object owns a collision hit.
#[derive(Clone, Copy, Debug, PartialEq, Eq, Structural)]
pub enum FieldInsKind {
    Character,
    Other,
}

/// The owner of a shape that the sweep touches, as far as the filter looks at it.
#[derive(Clone, Copy, Debug, PartialEq, Eq, Structural)]
pub enum SweepOwner {
    /// The shape belongs to nothing.
    Nothing,
    /// The shape belongs to a character that the player can or cannot target.
    Character { can_target: bool },
    /// The shape belongs to something else.
    Other,
}

/// The object that owns a shape.
#[derive(Clone, Copy, Debug, PartialEq, Eq, Structural)]
pub struct HitOwner {
    pub kind: FieldInsKind,
    pub handle: u64,
}

/// The shape that the sweep ended on.
#[derive(Clone, Copy, Debug, PartialEq, Eq, Structural)]
pub struct SweepHit {
    /// The owner of the shape, if it has one.
    pub owner: Option<HitOwner>,
}

/// The sweep that the host is asked to perform from the camera along its view.
#[derive(Clone, Copy, Debug, PartialEq, Eq, Structural)]
pub struct SweepRequest {
    pub length: i64,
    pub radius: i64,
    pub filter: u32,
}

/// `flags` without the mark of the considered candidate.
pub open spec fn spec_unmarked(flags: u32) -> u32 {
    flags & !CONSIDERED
}

/// `flags` with the mark of the considered candidate.
pub open spec fn spec_marked(flags: u32) -> u32 {
    flags & !CONSIDERED | CONSIDERED
}

/// Whether `flags` carry the mark of the considered candidate.
pub open spec fn spec_is_considered(flags: u32) -> bool {
    flags & CONSIDERED != 0
}

/// The position of the last candidate that stands for `handle`, if there is one.
pub open spec fn spec_last_match(candidates: Seq<LockOnCandidate>, handle: u64) -> Option<int>
    decreases candidates.len(),
{
    if candidates.len() == 0 {
        None
    } else if candidates.last().handle == handle {
        Some(candidates.len() - 1)
    } else {
        spec_last_match(candidates.drop_last(), handle)
    }
}

/// The candidates after `handle` was selected: the one entry that stands for it, the
/// last if there are several, is marked as considered and no other is.
pub open spec fn spec_selected(
    candidates: Seq<LockOnCandidate>,
    handle: u64,
) -> Seq<LockOnCandidate> {
    Seq::new(
        candidates.len(),
        |i: int|
            LockOnCandidate {
                handle: candidates[i].handle,
                flags: if spec_last_match(candidates, handle) == Some(i) {
                    spec_marked(candidates[i].flags)
                } else {
                    spec_unmarked(candidates[i].flags)
                },
            },
    )
}

/// The lock-on flags after a candidate list was searched: a target that was found is
/// locked and requested.
pub open spec fn spec_locked(lock: LockOn, found: bool) -> LockOn {
    if found {
        LockOn { is_locked_on: true, is_lock_on_requested: true, ..lock }
    } else {
        lock
    }
}

/// The last match lies inside the list, stands for the handle, and no later entry does.
pub proof fn lemma_last_match(candidates: Seq<LockOnCandidate>, handle: u64)
    ensures
        match spec_last_match(candidates, handle) {
            Some(at) => 0 <= at < candidates.len() && candidates[at].handle == handle
                && forall|i: int| at < i < candidates.len() ==> candidates[i].handle != handle,
            None => forall|i: int| 0 <= i < candidates.len() ==> candidates[i].handle != handle,
        },
    decreases candidates.len(),
{
    if candidates.len() > 0 && candidates.last().handle != handle {
        let rest = candidates.drop_last();
        lemma_last_match(rest, handle);
        assert forall|i: int| 0 <= i < rest.len() implies rest[i] == candidates[i] by {}
        match spec_last_match(rest, handle) {
            Some(at) => {
                assert forall|i: int| at < i < candidates.len() implies candidates[i].handle
                    != handle by {
                    if i < rest.len() {
                        assert(rest[i].handle != handle);
                    }
                }
            },
            None => {
                assert forall|i: int| 0 <= i < candidates.len() implies candidates[i].handle
                    != handle by {
                    if i < rest.len() {
                        assert(rest[i].handle != handle);
                    }
                }
            },
        }
    }
}

/// The marks that selecting a handle leaves: an entry is considered exactly if it is the
/// last one that stands for the handle. No other bit of any entry changes.
pub proof fn lemma_selected_marks(candidates: Seq<LockOnCandidate>, handle: u64, i: int)
    requires
        0 <= i < candidates.len(),
    ensures
        spec_is_considered(spec_selected(candidates, handle)[i].flags) == (spec_last_match(
            candidates,
            handle,
        ) == Some(i)),
        spec_unmarked(spec_selected(candidates, handle)[i].flags) == spec_unmarked(
            candidates[i].flags,
        ),
{
    let flags = candidates[i].flags;
    assert((flags & !32u32) & 32u32 == 0 && (flags & !32u32 | 32u32) & 32u32 != 0 && (flags
        & !32u32) & !32u32 == flags & !32u32 && (flags & !32u32 | 32u32) & !32u32 == flags
        & !32u32) by (bit_vector);
}

/// Selects the character `chr_handle` among the lock-on candidates: the mark of the
/// considered candidate is taken from every entry and put on the last entry that stands
/// for the character. If there is one, the target counts as locked and requested, and its
/// position in the list is returned.
pub fn lock_on_to(
    lock: &mut LockOn,
    candidates: &mut Vec<LockOnCandidate>,
    chr_handle: u64,
) -> (target: Option<usize>)
    ensures
        final(candidates)@ == spec_selected(old(candidates)@, chr_handle),
        *final(lock) == spec_locked(*old(lock), target is Some),
        match target {
            Some(at) => spec_last_match(old(candidates)@, chr_handle) == Some(at as int),
            None => spec_last_match(old(candidates)@, chr_handle) is None,
        },
{
    let len = candidates.len();
    let mut target: Option<usize> = None;
    let mut i: usize = 0;
    while i < len
        invariant
            i <= len,
            len == candidates@.len(),
            len == old(candidates)@.len(),
            forall|j: int|
                0 <= j < i ==> candidates@[j] == (LockOnCandidate {
                    handle: old(candidates)@[j].handle,
                    flags: spec_unmarked(old(candidates)@[j].flags),
                }),
            forall|j: int| i <= j < len ==> candidates@[j] == old(candidates)@[j],
            match target {
                Some(at) => spec_last_match(old(candidates)@.take(i as int), chr_handle) == Some(
                    at as int,
                ),
                None => spec_last_match(old(candidates)@.take(i as int), chr_handle) is None,
            },
        decreases len - i,
    {
        let node = candidates[i];
        candidates.set(i, LockOnCandidate { handle: node.handle, flags: node.flags & !CONSIDERED });
        proof {
            let before = old(candidates)@.take(i as int);
            let after = old(candidates)@.take(i + 1);
            assert(after.drop_last() =~= before);
            assert(after.last() == old(candidates)@[i as int]);
        }
        if node.handle == chr_handle {
            target = Some(i);
        }
        i += 1;
    }
    proof {
        assert(old(candidates)@.take(len as int) =~= old(candidates)@);
        lemma_last_match(old(candidates)@, chr_handle);
    }
    match target {
        Some(at) => {
            let node = candidates[at];
            candidates.set(
                at,
                LockOnCandidate { handle: node.handle, flags: node.flags | CONSIDERED },
            );
            lock.is_locked_on = true;
            lock.is_lock_on_requested = true;
        },
        None => {},
    }
    assert(candidates@ =~= spec_selected(old(candidates)@, chr_handle));
    target
}

/// Whether the sweep stops at a shape with the given owner: it passes through characters
/// that the player cannot target and stops at everything else.
pub open spec fn spec_sweep_accepts(owner: SweepOwner) -> bool {
    match owner {
        SweepOwner::Character { can_target } => can_target,
        _ => true,
    }
}

/// Decides whether the sweep stops at a shape with the given owner.
pub fn sweep_accepts(owner: SweepOwner) -> (accepted: bool)
    ensures
        accepted == spec_sweep_accepts(owner),
{
    match owner {
        SweepOwner::Character { can_target } => can_target,
        _ => true,
    }
}

/// The character that a sweep found, if it ended on one.
pub open spec fn spec_hit_character(hit: Option<SweepHit>) -> Option<u64> {
    match hit {
        Some(SweepHit { owner: Some(HitOwner { kind: FieldInsKind::Character, handle }) }) => Some(
            handle,
        ),
        _ => None,
    }
}

/// Begins a soft lock-on: the host's lock-on camera is switched off, and a sweep along
/// the view is asked for if the player requested a lock-on.
pub fn begin_soft_lock_on(lock: &mut LockOn) -> (request: Option<SweepRequest>)
    ensures
        *final(lock) == (LockOn { lock_camera: false, ..*old(lock) }),
        request == (if old(lock).is_lock_on_requested {
            Some(SweepRequest { length: SWEEP_LENGTH, radius: SWEEP_RADIUS, filter: SWEEP_FILTER })
        } else {
            None
        }),
{
    lock.lock_camera = false;
    if !lock.is_lock_on_requested {
        return None;
    }
    Some(SweepRequest { length: SWEEP_LENGTH, radius: SWEEP_RADIUS, filter: SWEEP_FILTER })
}

/// Ends a soft lock-on with what the sweep found. A sweep that ended on a character
/// selects that character among the candidates; any other outcome changes nothing.
pub fn finish_soft_lock_on(
    lock: &mut LockOn,
    candidates: &mut Vec<LockOnCandidate>,
    hit: Option<SweepHit>,
) -> (target: Option<usize>)
    ensures
        match spec_hit_character(hit) {
            Some(handle) => {
                &&& final(candidates)@ == spec_selected(old(candidates)@, handle)
                &&& *final(lock) == spec_locked(*old(lock), target is Some)
                &&& match target {
                    Some(at) => spec_last_match(old(candidates)@, handle) == Some(at as int),
                    None => spec_last_match(old(candidates)@, handle) is None,
                }
            },
            None => {
                &&& final(candidates)@ == old(candidates)@
                &&& *final(lock) == *old(lock)
                &&& target is None
            },
        },
{
    match hit {
        Some(SweepHit { owner: Some(HitOwner { kind: FieldInsKind::Character, handle }) }) => {
            lock_on_to(lock, candidates, handle)
        },
        _ => None,
    }
}

} // verus!
