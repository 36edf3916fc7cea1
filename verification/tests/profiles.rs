use rgbxevion::profile::{
    try_load_profile, DesiredState, LoadDecision, PROFILE_DISABLE_NAME, PROFILE_ENABLE_NAME,
};

fn names(list: &[&str]) -> Vec<String> {
    list.iter().map(|name| name.to_string()).collect()
}

#[test]
fn profile_names_are_on_and_off() {
    assert_eq!(PROFILE_ENABLE_NAME, "On");
    assert_eq!(PROFILE_DISABLE_NAME, "Off");
    assert_eq!(DesiredState::Active.profile_name(), "On");
    assert_eq!(DesiredState::Quiescent.profile_name(), "Off");
}

#[test]
fn flags_and_states_correspond() {
    assert_eq!(DesiredState::from_flag(true), DesiredState::Active);
    assert_eq!(DesiredState::from_flag(false), DesiredState::Quiescent);
    assert!(DesiredState::Active.flag());
    assert!(!DesiredState::Quiescent.flag());
    assert_eq!(DesiredState::from_flag(DesiredState::Active.flag()), DesiredState::Active);
    assert_eq!(DesiredState::from_flag(DesiredState::Quiescent.flag()), DesiredState::Quiescent);
}

#[test]
fn listed_profile_is_loaded() {
    assert_eq!(try_load_profile(&names(&["On", "Off"]), "Off"), LoadDecision::Load);
    assert_eq!(try_load_profile(&names(&["On", "Off"]), "On"), LoadDecision::Load);
    assert_eq!(try_load_profile(&names(&["Rainbow", "Off", "On"]), "On"), LoadDecision::Load);
}

#[test]
fn missing_profile_is_skipped() {
    assert_eq!(try_load_profile(&names(&["On"]), "Off"), LoadDecision::Skip);
    assert_eq!(try_load_profile(&names(&["Off"]), "On"), LoadDecision::Skip);
    assert_eq!(try_load_profile(&names(&[]), "On"), LoadDecision::Skip);
}

#[test]
fn names_are_compared_exactly() {
    assert_eq!(try_load_profile(&names(&["on", "ON", "On "]), "On"), LoadDecision::Skip);
    assert_eq!(try_load_profile(&names(&["Of", "Offf", "Off\n"]), "Off"), LoadDecision::Skip);
    assert_eq!(try_load_profile(&names(&["", "O"]), "On"), LoadDecision::Skip);
    assert_eq!(try_load_profile(&names(&[""]), ""), LoadDecision::Load);
}

#[test]
fn position_and_repetition_in_the_listing_do_not_matter() {
    assert_eq!(try_load_profile(&names(&["Off", "a", "b"]), "Off"), LoadDecision::Load);
    assert_eq!(try_load_profile(&names(&["a", "b", "Off"]), "Off"), LoadDecision::Load);
    assert_eq!(try_load_profile(&names(&["Off", "Off"]), "Off"), LoadDecision::Load);
}
