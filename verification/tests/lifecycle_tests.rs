use claphost::state::{ActivationState, HostError, PluginActivationStateMachine};
use claphost::startup::select_plugin_index;

#[test]
fn start_processing_from_loaded_fails_with_invalid_state() {
    let mut m = PluginActivationStateMachine::new();
    assert_eq!(m.state, ActivationState::Loaded);
    let r = m.start_processing();
    assert_eq!(r, Err(HostError::InvalidState));
    assert_eq!(m.state, ActivationState::Loaded);
}

#[test]
fn full_lifecycle_succeeds_and_returns_to_loaded() {
    let mut m = PluginActivationStateMachine::new();
    assert_eq!(m.activate(48000, 128, 512, true), Ok(()));
    assert_eq!(m.state, ActivationState::Activated);
    assert_eq!(m.sample_rate, 48000);
    assert_eq!((m.min_block, m.max_block), (128, 512));
    assert_eq!(m.start_processing(), Ok(()));
    assert_eq!(m.state, ActivationState::Processing);
    assert_eq!(m.stop_processing(), Ok(()));
    assert_eq!(m.state, ActivationState::Activated);
    assert_eq!(m.deactivate(), Ok(()));
    assert_eq!(m.state, ActivationState::Loaded);
}

#[test]
fn activate_rejects_an_empty_block_range() {
    let mut m = PluginActivationStateMachine::new();
    assert_eq!(m.activate(48000, 512, 128, true), Err(HostError::InvalidBlockRange));
    assert_eq!(m.activate(48000, 0, 0, true), Err(HostError::InvalidBlockRange));
    assert_eq!(m.state, ActivationState::Loaded);
}

#[test]
fn activate_reports_a_plugin_that_rejects_the_configuration() {
    let mut m = PluginActivationStateMachine::new();
    assert_eq!(m.activate(44100, 64, 64, false), Err(HostError::PluginRejected));
    assert_eq!(m.state, ActivationState::Loaded);
}

#[test]
fn double_activate_is_a_protocol_violation() {
    let mut m = PluginActivationStateMachine::new();
    assert_eq!(m.activate(48000, 128, 128, true), Ok(()));
    assert_eq!(m.activate(48000, 128, 128, true), Err(HostError::InvalidState));
}

#[test]
fn stop_and_deactivate_guard_their_states() {
    let mut m = PluginActivationStateMachine::new();
    assert_eq!(m.stop_processing(), Err(HostError::InvalidState));
    assert_eq!(m.deactivate(), Err(HostError::InvalidState));
    assert_eq!(m.activate(48000, 128, 128, true), Ok(()));
    assert_eq!(m.start_processing(), Ok(()));
    // deactivating a processing session must stop first
    assert_eq!(m.deactivate(), Err(HostError::InvalidState));
    assert_eq!(m.state, ActivationState::Processing);
}

#[test]
fn explicit_plugin_index_is_bounds_checked() {
    assert_eq!(select_plugin_index(3, Some(2)), Ok(2));
    assert_eq!(select_plugin_index(3, Some(3)), Err(HostError::PluginIndexOutOfBounds));
    assert_eq!(select_plugin_index(0, Some(0)), Err(HostError::PluginIndexOutOfBounds));
}

#[test]
fn omitted_plugin_index_selects_the_first_descriptor() {
    assert_eq!(select_plugin_index(5, None), Ok(0));
    assert_eq!(select_plugin_index(0, None), Err(HostError::PluginIndexOutOfBounds));
}
