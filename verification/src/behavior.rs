//! Behavior states of the tracked character and their two-frame history.

use crate::bits::{
    bit_array_get, bit_array_ones, bit_array_or, bit_array_set, bit_array_zero, BitByte,
};
use crate::text;
use vstd::prelude::*;
use vstd::std_specs::convert::{FromSpecImpl, TryFromSpecImpl};

verus! {

/// A condition of the character that the camera reacts to, derived from the active nodes of
/// its behavior graph.
#[derive(Clone, Copy, Debug, PartialEq, Eq, Structural)]
pub enum BehaviorState {
    Attack,
    Damage,
    DeathAnim,
    DeathIdle,
    Evasion,
    Gesture,
}

/// How many behavior states there are.
pub const BEHAVIOR_STATE_COUNT: usize = 6;

impl BehaviorState {
    /// The position of the state in a behavior-state set.
    pub open spec fn spec_index(self) -> int {
        match self {
            BehaviorState::Attack => 0,
            BehaviorState::Damage => 1,
            BehaviorState::DeathAnim => 2,
            BehaviorState::DeathIdle => 3,
            BehaviorState::Evasion => 4,
            BehaviorState::Gesture => 5,
        }
    }

    /// The name of the behavior-graph node that stands for the state.
    pub open spec fn spec_state_str(self) -> &'static str {
        match self {
            BehaviorState::Attack => "Attack_SM",
            BehaviorState::Damage => "Damage_SM",
            BehaviorState::DeathAnim => "Death_SM",
            BehaviorState::DeathIdle => "DeathIdle_Selector",
            BehaviorState::Evasion => "Evasion_SM",
            BehaviorState::Gesture => "Gesture_SM",
        }
    }

    /// The characters of the name of the behavior-graph node that stands for the state.
    pub open spec fn spec_state_name(self) -> Seq<char> {
        self.spec_state_str()@
    }

    /// The state that a behavior-graph node name stands for, if any.
    pub open spec fn spec_from_state_name(name: Seq<char>) -> Option<BehaviorState> {
        if name == "Attack_SM"@ || "JumpAttack_"@.is_prefix_of(name) {
            Some(BehaviorState::Attack)
        } else if name == "Death_SM"@ {
            Some(BehaviorState::DeathAnim)
        } else if name == "DeathIdle_Selector"@ {
            Some(BehaviorState::DeathIdle)
        } else if name == "Damage_SM"@ {
            Some(BehaviorState::Damage)
        } else if name == "Evasion_SM"@ || name == "Stealth_Rolling_CMSG"@ {
            Some(BehaviorState::Evasion)
        } else if name == "Gesture_SM"@ {
            Some(BehaviorState::Gesture)
        } else {
            None
        }
    }

    /// The position of the state in a behavior-state set.
    pub fn index(self) -> (index: usize)
        ensures
            index == self.spec_index(),
            index < BEHAVIOR_STATE_COUNT,
    {
        match self {
            BehaviorState::Attack => 0,
            BehaviorState::Damage => 1,
            BehaviorState::DeathAnim => 2,
            BehaviorState::DeathIdle => 3,
            BehaviorState::Evasion => 4,
            BehaviorState::Gesture => 5,
        }
    }

    /// The name of the behavior-graph node that stands for the state.
    pub fn into_state_name(self) -> (name: &'static str)
        ensures
            name == self.spec_state_str(),
            name@ == self.spec_state_name(),
    {
        match self {
            BehaviorState::Attack => "Attack_SM",
            BehaviorState::Damage => "Damage_SM",
            BehaviorState::DeathAnim => "Death_SM",
            BehaviorState::DeathIdle => "DeathIdle_Selector",
            BehaviorState::Evasion => "Evasion_SM",
            BehaviorState::Gesture => "Gesture_SM",
        }
    }

    /// Maps the name of an active behavior-graph node to the state it stands for. Jump attacks
    /// count as attacks and a stealth roll as an evasion; any other name gives `None`.
    pub fn try_from_state_name(name: &str) -> (state: Option<BehaviorState>)
        ensures
            state == Self::spec_from_state_name(name@),
    {
        if text::equals(name, "Attack_SM") || text::starts_with(name, "JumpAttack_") {
            Some(BehaviorState::Attack)
        } else if text::equals(name, "Death_SM") {
            Some(BehaviorState::DeathAnim)
        } else if text::equals(name, "DeathIdle_Selector") {
            Some(BehaviorState::DeathIdle)
        } else if text::equals(name, "Damage_SM") {
            Some(BehaviorState::Damage)
        } else if text::equals(name, "Evasion_SM") || text::equals(name, "Stealth_Rolling_CMSG") {
            Some(BehaviorState::Evasion)
        } else if text::equals(name, "Gesture_SM") {
            Some(BehaviorState::Gesture)
        } else {
            None
        }
    }
}

impl From<BehaviorState> for &'static str {
    fn from(state: BehaviorState) -> (name: &'static str) {
        state.into_state_name()
    }
}

impl FromSpecImpl<BehaviorState> for &'static str {
    open spec fn obeys_from_spec() -> bool {
        true
    }

    open spec fn from_spec(state: BehaviorState) -> &'static str {
        state.spec_state_str()
    }
}

impl<'a> TryFrom<&'a str> for BehaviorState {
    type Error = ();

    fn try_from(name: &'a str) -> (state: Result<BehaviorState, ()>) {
        match BehaviorState::try_from_state_name(name) {
            Some(state) => Ok(state),
            None => Err(()),
        }
    }
}

impl<'a> TryFromSpecImpl<&'a str> for BehaviorState {
    open spec fn obeys_try_from_spec() -> bool {
        true
    }

    open spec fn try_from_spec(name: &'a str) -> Result<BehaviorState, ()> {
        match BehaviorState::spec_from_state_name(name@) {
            Some(state) => Ok(state),
            None => Err(()),
        }
    }
}

/// Every state is found again from its own node name.
pub proof fn lemma_state_name_round_trip(state: BehaviorState)
    ensures
        BehaviorState::spec_from_state_name(state.spec_state_name()) == Some(state),
{
    reveal_strlit("Attack_SM");
    reveal_strlit("JumpAttack_");
    reveal_strlit("Death_SM");
    reveal_strlit("DeathIdle_Selector");
    reveal_strlit("Damage_SM");
    reveal_strlit("Evasion_SM");
    reveal_strlit("Stealth_Rolling_CMSG");
    reveal_strlit("Gesture_SM");
    let name = state.spec_state_name();
    assert(!"JumpAttack_"@.is_prefix_of(name)) by {
        if "JumpAttack_"@.is_prefix_of(name) {
            assert(name.subrange(0, 11)[0] == 'J');
        }
    }
    match state {
        BehaviorState::Attack => {},
        BehaviorState::Damage => {
            assert(name[1] != "Attack_SM"@[1]);
            assert(name[1] != "Death_SM"@[1]);
            assert(name.len() != "DeathIdle_Selector"@.len());
        },
        BehaviorState::DeathAnim => {
            assert(name.len() != "Attack_SM"@.len());
        },
        BehaviorState::DeathIdle => {
            assert(name.len() != "Attack_SM"@.len());
            assert(name.len() != "Death_SM"@.len());
        },
        BehaviorState::Evasion => {
            assert(name.len() != "Attack_SM"@.len());
            assert(name.len() != "Death_SM"@.len());
            assert(name.len() != "DeathIdle_Selector"@.len());
            assert(name.len() != "Damage_SM"@.len());
        },
        BehaviorState::Gesture => {
            assert(name.len() != "Attack_SM"@.len());
            assert(name.len() != "Death_SM"@.len());
            assert(name.len() != "DeathIdle_Selector"@.len());
            assert(name.len() != "Damage_SM"@.len());
            assert(name[0] != "Evasion_SM"@[0]);
            assert(name.len() != "Stealth_Rolling_CMSG"@.len());
        },
    }
}

/// The behavior states seen in one frame.
pub struct BehaviorStateSet {
    bits: BitByte,
}

impl View for BehaviorStateSet {
    type V = Set<BehaviorState>;

    closed spec fn view(&self) -> Set<BehaviorState> {
        Set::new(|state: BehaviorState| bit_array_ones(self.bits).contains(state.spec_index()))
    }
}

impl BehaviorStateSet {
    /// A set that holds no state.
    pub fn new() -> (set: BehaviorStateSet)
        ensures
            set@ == Set::<BehaviorState>::empty(),
    {
        let set = BehaviorStateSet { bits: bit_array_zero() };
        assert(set@ =~= Set::<BehaviorState>::empty());
        set
    }

    /// Adds `state` to the set.
    pub fn set_state(&mut self, state: BehaviorState)
        ensures
            final(self)@ == old(self)@.insert(state),
    {
        bit_array_set(&mut self.bits, state.index());
        assert(self@ =~= old(self)@.insert(state)) by {
            assert forall|other: BehaviorState|
                self@.contains(other) == old(self)@.insert(state).contains(other) by {
                assert(other.spec_index() == state.spec_index() <==> other == state);
            }
        }
    }

    /// Whether `state` is in the set.
    pub fn contains(&self, state: BehaviorState) -> (found: bool)
        ensures
            found == self@.contains(state),
    {
        bit_array_get(&self.bits, state.index())
    }

    /// The states that are in either set.
    pub fn union(&self, other: &BehaviorStateSet) -> (both: BehaviorStateSet)
        ensures
            both@ == self@.union(other@),
    {
        let both = BehaviorStateSet { bits: bit_array_or(&self.bits, &other.bits) };
        assert(both@ =~= self@.union(other@));
        both
    }
}

impl Default for BehaviorStateSet {
    fn default() -> (set: BehaviorStateSet)
        ensures
            set@ == Set::<BehaviorState>::empty(),
    {
        BehaviorStateSet::new()
    }
}

impl Clone for BehaviorStateSet {
    fn clone(&self) -> (copy: BehaviorStateSet)
        ensures
            copy@ == self@,
    {
        let empty = BehaviorStateSet::new();
        let copy = self.union(&empty);
        assert(copy@ =~= self@);
        copy
    }
}

/// What a behavior history knows: the states of the latest frame and of the one before.
pub struct BehaviorHistory {
    pub current: Set<BehaviorState>,
    pub previous: Set<BehaviorState>,
}

impl BehaviorHistory {
    /// The history in which no state was ever seen.
    pub open spec fn empty() -> BehaviorHistory {
        BehaviorHistory { current: Set::empty(), previous: Set::empty() }
    }

    /// The history after a frame in which `set` was seen.
    pub open spec fn push(self, set: Set<BehaviorState>) -> BehaviorHistory {
        BehaviorHistory { current: set, previous: self.current }
    }

    /// The history after `state` was seen in the latest frame.
    pub open spec fn mark(self, state: BehaviorState) -> BehaviorHistory {
        BehaviorHistory { current: self.current.insert(state), previous: self.previous }
    }

    /// Whether `state` counts as active: it was seen in the latest frame or the one before.
    pub open spec fn is_active(self, state: BehaviorState) -> bool {
        self.current.contains(state) || self.previous.contains(state)
    }
}

/// The behavior states of the latest two frames. A state stays active for one frame after
/// it was last seen, which hides one-frame gaps in the behavior graph's evaluation.
pub struct BehaviorStates {
    current: BehaviorStateSet,
    previous: BehaviorStateSet,
}

impl View for BehaviorStates {
    type V = BehaviorHistory;

    closed spec fn view(&self) -> BehaviorHistory {
        BehaviorHistory { current: self.current@, previous: self.previous@ }
    }
}

impl BehaviorStates {
    /// A history in which no state is active.
    pub fn new() -> (states: BehaviorStates)
        ensures
            states@ == BehaviorHistory::empty(),
    {
        BehaviorStates { current: BehaviorStateSet::new(), previous: BehaviorStateSet::new() }
    }

    /// Whether `state` was seen in the latest frame or in the one before.
    pub fn has_state(&self, state: BehaviorState) -> (active: bool)
        ensures
            active == self@.is_active(state),
    {
        self.current.union(&self.previous).contains(state)
    }

    /// Starts a new frame in which the states of `set` were seen: the latest frame becomes
    /// the previous one.
    pub fn push_state_set(&mut self, set: BehaviorStateSet)
        ensures
            final(self)@ == old(self)@.push(set@),
    {
        let mut set = set;
        std::mem::swap(&mut self.current, &mut set);
        self.previous = set;
    }

    /// Records that `state` was seen in the latest frame.
    pub fn push_state(&mut self, state: BehaviorState)
        ensures
            final(self)@ == old(self)@.mark(state),
    {
        self.current.set_state(state);
    }

    /// Starts a new frame in which no state was seen yet.
    pub fn next_frame(&mut self)
        ensures
            final(self)@ == old(self)@.push(Set::empty()),
    {
        self.push_state_set(BehaviorStateSet::new());
    }
}

impl Default for BehaviorStates {
    fn default() -> (states: BehaviorStates)
        ensures
            states@ == BehaviorHistory::empty(),
    {
        BehaviorStates::new()
    }
}

/// A state seen in one frame is active in that frame and in the next one, and no longer in
/// the frame after that unless it was seen again.
pub proof fn lemma_one_frame_grace(
    history: BehaviorHistory,
    seen: Set<BehaviorState>,
    next: Set<BehaviorState>,
    after: Set<BehaviorState>,
    state: BehaviorState,
)
    requires
        seen.contains(state),
        !next.contains(state),
        !after.contains(state),
    ensures
        history.push(seen).is_active(state),
        history.push(seen).push(next).is_active(state),
        !history.push(seen).push(next).push(after).is_active(state),
{
}

} // verus!
