//! The two lighting states and the controller profiles bound to them.

use vstd::prelude::*;

verus! {

/// Name of the controller profile that lights the device.
pub const PROFILE_ENABLE_NAME: &'static str = "On";

/// Name of the controller profile that turns the lights off.
pub const PROFILE_DISABLE_NAME: &'static str = "Off";

/// The lighting state that the desktop's situation calls for.
#[derive(Clone, Copy, Debug, PartialEq, Eq, Structural)]
pub enum DesiredState {
    /// The desktop is attended: the active profile is wanted.
    Active,
    /// The desktop is locked or about to sleep: the quiescent profile is wanted.
    Quiescent,
}

impl DesiredState {
    /// The state that a flag on the command channel stands for:
    /// `true` is `Active`, `false` is `Quiescent`.
    pub open spec fn of_flag(lit: bool) -> DesiredState {
        if lit {
            DesiredState::Active
        } else {
            DesiredState::Quiescent
        }
    }

    /// The characters of the profile name bound to this state.
    pub open spec fn name(self) -> Seq<char> {
        match self {
            DesiredState::Active => PROFILE_ENABLE_NAME@,
            DesiredState::Quiescent => PROFILE_DISABLE_NAME@,
        }
    }

    /// Reads a flag taken from the command channel.
    pub fn from_flag(lit: bool) -> (state: DesiredState)
        ensures
            state == DesiredState::of_flag(lit),
    {
        if lit {
            DesiredState::Active
        } else {
            DesiredState::Quiescent
        }
    }

    /// The flag that carries this state over the command channel.
    pub fn flag(self) -> (lit: bool)
        ensures
            lit == (self == DesiredState::Active),
            DesiredState::of_flag(lit) == self,
    {
        match self {
            DesiredState::Active => true,
            DesiredState::Quiescent => false,
        }
    }

    /// The profile name sent to the controller for this state.
    pub fn profile_name(self) -> (name: &'static str)
        ensures
            name@ == self.name(),
    {
        match self {
            DesiredState::Active => PROFILE_ENABLE_NAME,
            DesiredState::Quiescent => PROFILE_DISABLE_NAME,
        }
    }
}

/// The two bound names are exactly `On` and `Off`, and they differ.
pub proof fn lemma_profile_names()
    ensures
        DesiredState::Active.name() == seq!['O', 'n'],
        DesiredState::Quiescent.name() == seq!['O', 'f', 'f'],
        DesiredState::Active.name() != DesiredState::Quiescent.name(),
{
    reveal_strlit("On");
    reveal_strlit("Off");
    assert(DesiredState::Active.name() =~= seq!['O', 'n']);
    assert(DesiredState::Quiescent.name() =~= seq!['O', 'f', 'f']);
    assert(DesiredState::Active.name().len() != DesiredState::Quiescent.name().len());
}

/// The names that a controller's answer to a profile listing holds, in
/// the order of the answer.
pub open spec fn listing(profiles: Seq<String>) -> Seq<Seq<char>> {
    Seq::new(profiles.len(), |i: int| profiles[i]@)
}

/// Whether a listing knows a profile of the given name.
pub open spec fn is_listed(names: Seq<Seq<char>>, wanted: Seq<char>) -> bool {
    exists|i: int| 0 <= i < names.len() && names[i] == wanted
}

/// What follows a profile listing.
#[derive(Clone, Copy, Debug, PartialEq, Eq, Structural)]
pub enum LoadDecision {
    /// The controller knows the profile: ask it to load the profile.
    Load,
    /// The controller lacks the profile: nothing is sent, and the
    /// request counts as served.
    Skip,
}

/// The decision that a listing and a wanted name lead to.
pub open spec fn load_decision(names: Seq<Seq<char>>, wanted: Seq<char>) -> LoadDecision {
    if is_listed(names, wanted) {
        LoadDecision::Load
    } else {
        LoadDecision::Skip
    }
}

/// Decides, from the profiles that the controller has listed, whether
/// the profile `profile_name` is to be loaded. A profile that the
/// controller lacks is skipped, which is no failure.
pub fn try_load_profile(profiles: &Vec<String>, profile_name: &str) -> (decision: LoadDecision)
    ensures
        decision == load_decision(listing(profiles@), profile_name@),
{
    let wanted: String = profile_name.to_owned();
    let mut i: usize = 0;
    while i < profiles.len()
        invariant
            i <= profiles.len(),
            wanted@ == profile_name@,
            forall|j: int| 0 <= j < i ==> listing(profiles@)[j] != profile_name@,
        decreases profiles.len() - i,
    {
        if profiles[i] == wanted {
            assert(listing(profiles@)[i as int] == profile_name@);
            return LoadDecision::Load;
        }
        i += 1;
    }
    LoadDecision::Skip
}

} // verus!
